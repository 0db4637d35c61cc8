use vstd::prelude::*;
use crate::addr::AccountAddress;
use crate::errors::IssueError;

verus! {

/// Maximum byte length of a single derivation seed the host accepts.
pub const MAX_SEED_LEN: usize = 32;

/// Maximum number of seeds in one derivation the host accepts, the
/// appended disambiguation byte included.
pub const MAX_SEEDS: usize = 16;

/// The seed tuple is within the host's limits, with room left for the
/// disambiguation byte the search appends.
pub open spec fn spec_seeds_wf(seeds: Seq<Seq<u8>>) -> bool {
    seeds.len() < MAX_SEEDS && forall|i: int|
        0 <= i < seeds.len() ==> (#[trigger] seeds[i]).len() <= MAX_SEED_LEN
}

/// What the host's derivation routine returns for a seed tuple and owning
/// program: the derived address and its disambiguation byte, or `None`
/// when every disambiguation byte yields an address on the valid-keypair
/// curve (practically never). As a spec function this is a pure function
/// of its arguments: identical inputs always yield identical output.
pub uninterp spec fn pda_of(seeds: Seq<Seq<u8>>, program: Seq<u8>) -> Option<(Seq<u8>, u8)>;

/// Relies on `solana_program::pubkey::Pubkey::try_find_program_address`:
/// starting from 255, it searches disambiguation bytes downward for the
/// first candidate hash not on the ed25519 curve; the search reads nothing
/// but its arguments, and returns `None` only when it is exhausted.
#[verifier::external_body]
fn try_find_pda(seeds: &Vec<Vec<u8>>, program: &AccountAddress) -> (r: Option<
    (AccountAddress, u8),
>)
    requires
        spec_seeds_wf(seeds.deep_view()),
        program.wf(),
    ensures
        r matches Some((a, b)) ==> pda_of(seeds.deep_view(), program@) == Some((a@, b)) && a.wf(),
        r is None ==> pda_of(seeds.deep_view(), program@) is None,
{
    let seed_slices: Vec<&[u8]> = seeds.iter().map(|s| s.as_slice()).collect();
    let program_key = solana_program::pubkey::Pubkey::try_from(program.bytes().as_slice())
        .unwrap();
    solana_program::pubkey::Pubkey::try_find_program_address(&seed_slices, &program_key)
        .map(|(key, bump)| (AccountAddress::from_bytes(key.to_bytes().to_vec()).unwrap(), bump))
}

/// Computes the deterministic, program-owned address for a seed tuple.
/// No signing key exists for the returned address. Identical inputs always
/// yield an identical address and disambiguation byte.
pub fn derive(seeds: &Vec<Vec<u8>>, owning_program: &AccountAddress) -> (r: Result<
    (AccountAddress, u8),
    IssueError,
>)
    requires
        spec_seeds_wf(seeds.deep_view()),
        owning_program.wf(),
    ensures
        r matches Ok((a, b)) ==> pda_of(seeds.deep_view(), owning_program@) == Some((a@, b))
            && a.wf(),
        r matches Err(e) ==> e == IssueError::DerivationExhausted && pda_of(
            seeds.deep_view(),
            owning_program@,
        ) is None,
{
    match try_find_pda(seeds, owning_program) {
        Some(ab) => Ok(ab),
        None => Err(IssueError::DerivationExhausted),
    }
}

/// Determinism of derivation: any two derivation results for an identical
/// seed tuple and owning program are identical, since each equals the one
/// value of `pda_of` for those inputs.
pub proof fn lemma_derive_deterministic(
    seeds: Seq<Seq<u8>>,
    program: Seq<u8>,
    r1: Option<(Seq<u8>, u8)>,
    r2: Option<(Seq<u8>, u8)>,
)
    requires
        r1 == pda_of(seeds, program),
        r2 == pda_of(seeds, program),
    ensures
        r1 == r2,
{
}

/// The ASCII bytes of the namespace tag `"metadata"`.
pub open spec fn spec_metadata_tag() -> Seq<u8> {
    seq![109u8, 101u8, 116u8, 97u8, 100u8, 97u8, 116u8, 97u8]
}

/// The exact seed tuple for metadata derivation: the `"metadata"`
/// namespace tag, the registry program's address, and the mint's address.
pub open spec fn spec_metadata_seeds(registry: Seq<u8>, mint: Seq<u8>) -> Seq<Seq<u8>> {
    seq![spec_metadata_tag(), registry, mint]
}

/// The `"metadata"` namespace tag as a seed.
pub fn metadata_tag() -> (r: Vec<u8>)
    ensures
        r@ == spec_metadata_tag(),
{
    let mut v: Vec<u8> = Vec::new();
    v.push(109);
    v.push(101);
    v.push(116);
    v.push(97);
    v.push(100);
    v.push(97);
    v.push(116);
    v.push(97);
    proof {
        assert(v@ =~= spec_metadata_tag());
    }
    v
}

/// Derives the one metadata address for `mint` under the registry: the
/// address determined by the seed tuple `["metadata", registry, mint]`.
pub fn derive_metadata_address(registry: &AccountAddress, mint: &AccountAddress) -> (r: Result<
    (AccountAddress, u8),
    IssueError,
>)
    requires
        registry.wf(),
        mint.wf(),
    ensures
        r matches Ok((a, b)) ==> pda_of(spec_metadata_seeds(registry@, mint@), registry@) == Some(
            (a@, b),
        ) && a.wf(),
        r matches Err(e) ==> e == IssueError::DerivationExhausted && pda_of(
            spec_metadata_seeds(registry@, mint@),
            registry@,
        ) is None,
{
    let mut seeds: Vec<Vec<u8>> = Vec::new();
    seeds.push(metadata_tag());
    seeds.push(registry.to_vec());
    seeds.push(mint.to_vec());
    proof {
        assert(seeds.deep_view() =~~= spec_metadata_seeds(registry@, mint@));
    }
    derive(&seeds, registry)
}

} // verus!
