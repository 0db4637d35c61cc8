use vstd::prelude::*;
use crate::addr::AccountAddress;
use crate::binder::bind_metadata;
use crate::binder::spec_bind_args;
use crate::derive::pda_of;
use crate::derive::spec_metadata_seeds;
use crate::errors::IssueError;
use crate::errors::RegistryRejection;
use crate::issuer::create_mint;
use crate::issuer::spec_create_mint_err;
use crate::issuer::spec_mint_cost;
use crate::issuer::spec_mint_entry;
use crate::ledger::Ledger;
use crate::ledger::LedgerV;
use crate::ledger::spec_lookup;
use crate::ledger::spec_wallet_balance;
use crate::records::METADATA_ACCOUNT_SPACE;
use crate::records::spec_byte_len;
use crate::records::spec_fields_within_bounds;
use crate::records::spec_metadata_payload_size;
use crate::registry::spec_md_cost;
use crate::registry::spec_metadata_entry;

verus! {

/// Total storage cost of one issuance: the mint record plus the
/// pre-funded metadata budget.
pub open spec fn spec_issue_cost(rent_per_byte: u64) -> int {
    spec_mint_cost(rent_per_byte) + spec_md_cost(rent_per_byte, METADATA_ACCOUNT_SPACE)
}

/// The single error `issue` surfaces for the given arguments and starting
/// ledger, if any: the first precondition that the mint step, the binder,
/// or the registry call violates, in the order the flow runs them.
pub open spec fn spec_issue_err(
    l: LedgerV,
    payer: Seq<u8>,
    authority: Seq<u8>,
    mint: Seq<u8>,
    name: Seq<char>,
    symbol: Seq<char>,
    uri: Seq<char>,
    payer_signed: bool,
    authority_signed: bool,
) -> Option<IssueError> {
    match spec_create_mint_err(l, payer, mint, 0, payer_signed, authority_signed) {
        Some(e) => Some(e),
        None => if !spec_fields_within_bounds(name, symbol, uri) {
            Some(IssueError::FieldTooLong)
        } else if spec_metadata_payload_size(name, symbol, uri) > METADATA_ACCOUNT_SPACE {
            Some(IssueError::InsufficientSpace)
        } else {
            match pda_of(spec_metadata_seeds(l.registry_program, mint), l.registry_program) {
                None => Some(IssueError::DerivationExhausted),
                Some(p) => if p.0 == mint || spec_lookup(l.accounts, p.0) is Some {
                    Some(IssueError::MetadataBindingFailed(RegistryRejection::DuplicateMetadata))
                } else {
                    match spec_wallet_balance(l, payer) {
                        None => Some(IssueError::AccountMismatch),
                        Some(b) => if (b as int) < spec_issue_cost(l.rent_per_byte) {
                            Some(
                                IssueError::MetadataBindingFailed(
                                    RegistryRejection::InsufficientFunds,
                                ),
                            )
                        } else {
                            None
                        },
                    }
                },
            }
        },
    }
}

/// A successful issuance took `pre` to `post`: the two new entries are the
/// mint record and the immutable metadata record at the derived address,
/// the payer paid both storage costs, and nothing else changed.
pub open spec fn spec_issue_applied(
    pre: LedgerV,
    post: LedgerV,
    payer: Seq<u8>,
    authority: Seq<u8>,
    mint: Seq<u8>,
    name: Seq<char>,
    symbol: Seq<char>,
    uri: Seq<char>,
) -> bool {
    &&& post == (LedgerV { accounts: post.accounts, ..pre })
    &&& post.accounts.len() == pre.accounts.len() + 2
    &&& spec_lookup(post.accounts, mint) == Some(spec_mint_entry(pre, mint, authority))
    &&& pda_of(spec_metadata_seeds(pre.registry_program, mint), pre.registry_program) matches Some(
        p,
    ) && spec_lookup(post.accounts, p.0) == Some(
        spec_metadata_entry(
            pre,
            spec_bind_args(p.0, mint, authority, payer, name, symbol, uri, true, true),
        ),
    ) && (forall|x: Seq<u8>|
        x != mint && x != payer && x != p.0 ==> #[trigger] spec_lookup(post.accounts, x)
            == spec_lookup(pre.accounts, x))
    &&& spec_wallet_balance(post, payer) matches Some(b) && b == spec_wallet_balance(
        pre,
        payer,
    ).unwrap() - spec_issue_cost(pre.rent_per_byte)
}

/// The public entry point of the issuance flow: creates a unit-supply mint
/// record under `mint_address`, then binds an immutable metadata record at
/// the derived address, as one atomic unit of work. On success the new
/// mint's address is returned; any failure in either step discards all
/// effects of both, so no mint without metadata (or metadata without mint)
/// is ever observable through this entry point.
pub fn issue(
    ledger: &mut Ledger,
    payer: &AccountAddress,
    authority: &AccountAddress,
    mint_address: &AccountAddress,
    name: &String,
    symbol: &String,
    uri: &String,
    payer_signed: bool,
    authority_signed: bool,
) -> (r: Result<AccountAddress, IssueError>)
    requires
        old(ledger)@.wf(),
        payer.wf(),
        authority.wf(),
        mint_address.wf(),
    ensures
        (r is Ok) == (spec_issue_err(
            old(ledger)@,
            payer@,
            authority@,
            mint_address@,
            name@,
            symbol@,
            uri@,
            payer_signed,
            authority_signed,
        ) is None),
        r matches Err(e) ==> Some(e) == spec_issue_err(
            old(ledger)@,
            payer@,
            authority@,
            mint_address@,
            name@,
            symbol@,
            uri@,
            payer_signed,
            authority_signed,
        ),
        r is Err ==> final(ledger)@ == old(ledger)@,
        r matches Ok(a) ==> a@ == mint_address@,
        r is Ok ==> spec_issue_applied(
            old(ledger)@,
            final(ledger)@,
            payer@,
            authority@,
            mint_address@,
            name@,
            symbol@,
            uri@,
        ),
        final(ledger)@.wf(),
{
    let snapshot = ledger.snapshot();
    match create_mint(ledger, payer, mint_address, authority, 0, payer_signed, authority_signed) {
        Err(e) => {
            return Err(e);
        },
        Ok(()) => {},
    }
    match bind_metadata(
        ledger,
        mint_address,
        authority,
        payer,
        name,
        symbol,
        uri,
        authority_signed,
        payer_signed,
    ) {
        Err(e) => {
            *ledger = snapshot;
            Err(e)
        },
        Ok(()) => Ok(mint_address.dup()),
    }
}

/// Derivation yields an address for `mint` under the registry, and the
/// derived address is fresh: unoccupied and distinct from the mint's own
/// address. Derivation fails only in the practically unreachable
/// exhausted-search case, and a fresh result is what the collision-free
/// construction of derived addresses provides.
pub open spec fn spec_derived_address_fresh(l: LedgerV, mint: Seq<u8>) -> bool {
    pda_of(spec_metadata_seeds(l.registry_program, mint), l.registry_program) matches Some(p)
        && p.0 != mint && spec_lookup(l.accounts, p.0) is None
}

/// Success is owed: with both signatures given, a fresh mint address, a
/// payer wallet funded for the whole issuance, descriptor fields within
/// the registry's length bounds and the fixed byte budget, and a fresh
/// derived address, `issue` violates no precondition and so succeeds,
/// yielding a mint record with zero decimals and exactly one metadata
/// record at the derived address (the post-state of `spec_issue_applied`).
pub proof fn lemma_issue_succeeds(
    l: LedgerV,
    payer: Seq<u8>,
    authority: Seq<u8>,
    mint: Seq<u8>,
    name: Seq<char>,
    symbol: Seq<char>,
    uri: Seq<char>,
)
    requires
        spec_lookup(l.accounts, mint) is None,
        spec_wallet_balance(l, payer) matches Some(b) && (b as int) >= spec_issue_cost(
            l.rent_per_byte,
        ),
        spec_fields_within_bounds(name, symbol, uri),
        spec_metadata_payload_size(name, symbol, uri) <= METADATA_ACCOUNT_SPACE,
        spec_derived_address_fresh(l, mint),
    ensures
        spec_issue_err(l, payer, authority, mint, name, symbol, uri, true, true) is None,
{
}

/// An over-long `uri` is reported as `FieldTooLong`: whenever the mint
/// step violates no precondition of its own (the flow reports the first
/// violated precondition), a `uri` beyond the registry's maximum byte
/// length makes `issue` fail with exactly `FieldTooLong` — and, by the
/// contract of `issue`, leave the ledger unchanged.
pub proof fn lemma_overlong_uri_reports_field_too_long(
    l: LedgerV,
    payer: Seq<u8>,
    authority: Seq<u8>,
    mint: Seq<u8>,
    name: Seq<char>,
    symbol: Seq<char>,
    uri: Seq<char>,
    payer_signed: bool,
    authority_signed: bool,
)
    requires
        spec_create_mint_err(l, payer, mint, 0, payer_signed, authority_signed) is None,
        spec_byte_len(uri) > crate::records::URI_MAX_LEN,
    ensures
        spec_issue_err(l, payer, authority, mint, name, symbol, uri, payer_signed, authority_signed)
            == Some(IssueError::FieldTooLong),
{
}

/// First-writer-wins for one mint address: after an issuance of `mint`
/// succeeded, a second signed `issue` of the same `mint` reports
/// `AccountAlreadyInitialized`, whatever its payer, authority, or
/// descriptor fields — so of two concurrent issuances the host serializes,
/// exactly the first succeeds.
pub proof fn lemma_second_issue_of_same_mint_fails(
    pre: LedgerV,
    mid: LedgerV,
    payer1: Seq<u8>,
    authority1: Seq<u8>,
    mint: Seq<u8>,
    name1: Seq<char>,
    symbol1: Seq<char>,
    uri1: Seq<char>,
    payer2: Seq<u8>,
    authority2: Seq<u8>,
    name2: Seq<char>,
    symbol2: Seq<char>,
    uri2: Seq<char>,
)
    requires
        spec_issue_applied(pre, mid, payer1, authority1, mint, name1, symbol1, uri1),
    ensures
        spec_issue_err(mid, payer2, authority2, mint, name2, symbol2, uri2, true, true) == Some(
            IssueError::AccountAlreadyInitialized,
        ),
{
}

/// The account bundle the ledger entry point takes: the funding payer, the
/// mint account to be created, the authority, and which of them signed the
/// submitted transaction. The metadata account is not named here: its
/// address is derived.
pub struct Initialize {
    pub payer: AccountAddress,
    pub mint: AccountAddress,
    pub authority: AccountAddress,
    pub payer_signed: bool,
    pub authority_signed: bool,
}

/// The ledger program entry point: issues one non-fungible unit with the
/// given descriptor fields, as `issue` does, yielding the new mint's
/// address on success or the first violated precondition.
pub fn initialize(
    ledger: &mut Ledger,
    accounts: &Initialize,
    name: &String,
    symbol: &String,
    uri: &String,
) -> (r: Result<AccountAddress, IssueError>)
    requires
        old(ledger)@.wf(),
        accounts.payer.wf(),
        accounts.authority.wf(),
        accounts.mint.wf(),
    ensures
        (r is Ok) == (spec_issue_err(
            old(ledger)@,
            accounts.payer@,
            accounts.authority@,
            accounts.mint@,
            name@,
            symbol@,
            uri@,
            accounts.payer_signed,
            accounts.authority_signed,
        ) is None),
        r matches Err(e) ==> Some(e) == spec_issue_err(
            old(ledger)@,
            accounts.payer@,
            accounts.authority@,
            accounts.mint@,
            name@,
            symbol@,
            uri@,
            accounts.payer_signed,
            accounts.authority_signed,
        ),
        r is Err ==> final(ledger)@ == old(ledger)@,
        r matches Ok(a) ==> a@ == accounts.mint@,
        r is Ok ==> spec_issue_applied(
            old(ledger)@,
            final(ledger)@,
            accounts.payer@,
            accounts.authority@,
            accounts.mint@,
            name@,
            symbol@,
            uri@,
        ),
        final(ledger)@.wf(),
{
    issue(
        ledger,
        &accounts.payer,
        &accounts.authority,
        &accounts.mint,
        name,
        symbol,
        uri,
        accounts.payer_signed,
        accounts.authority_signed,
    )
}

} // verus!
