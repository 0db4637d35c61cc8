use vstd::prelude::*;
use mpl_token_metadata::instructions::CreateMetadataAccountV3;
use mpl_token_metadata::instructions::CreateMetadataAccountV3InstructionArgs;
use mpl_token_metadata::types::DataV2;
use solana_program::pubkey::Pubkey;
use crate::addr::AccountAddress;
use crate::derive::derive_metadata_address;
use crate::derive::pda_of;
use crate::derive::spec_metadata_seeds;
use crate::errors::IssueError;
use crate::ledger::AccountData;
use crate::ledger::DataV;
use crate::ledger::Ledger;
use crate::ledger::LedgerV;
use crate::ledger::spec_lookup;
use crate::records::METADATA_ACCOUNT_SPACE;
use crate::records::NAME_MAX_LEN;
use crate::records::SYMBOL_MAX_LEN;
use crate::records::URI_MAX_LEN;
use crate::records::byte_len;
use crate::records::metadata_payload_size;
use crate::records::spec_byte_len;
use crate::records::spec_fields_within_bounds;
use crate::records::spec_metadata_payload_size;
use crate::registry::CreateArgsV;
use crate::registry::CreateMetadataArgs;
use crate::registry::MetadataInstruction;
use crate::registry::MintArgs;
use crate::registry::process_instruction;
use crate::registry::spec_create_metadata_err;

verus! {

/// The little-endian bytes of a 32-bit length.
pub open spec fn spec_le32(n: nat) -> Seq<u8> {
    seq![
        (n % 256) as u8,
        ((n / 256) % 256) as u8,
        ((n / 65536) % 256) as u8,
        ((n / 16777216) % 256) as u8,
    ]
}

/// The little-endian bytes of a 16-bit value.
pub open spec fn spec_le16(n: nat) -> Seq<u8> {
    seq![(n % 256) as u8, ((n / 256) % 256) as u8]
}

/// A string as the registry's wire format lays it out: a 32-bit
/// little-endian byte length, then the UTF-8 bytes.
pub open spec fn spec_wire_str(s: Seq<char>) -> Seq<u8> {
    spec_le32(spec_byte_len(s)) + vstd::utf8::encode_utf8(s)
}

/// The byte image of a create-metadata call in the registry's wire format:
/// the one-byte instruction discriminator (33), the three string fields,
/// the fee as 16 little-endian bits, one zero byte for each absent
/// optional field (creators, collection, uses), the mutability flag, and
/// one zero byte for the absent collection details.
pub open spec fn spec_create_metadata_ix_data(
    name: Seq<char>,
    symbol: Seq<char>,
    uri: Seq<char>,
    seller_fee_basis_points: u16,
    is_mutable: bool,
) -> Seq<u8> {
    seq![33u8] + spec_wire_str(name) + spec_wire_str(symbol) + spec_wire_str(uri) + spec_le16(
        seller_fee_basis_points as nat,
    ) + seq![0u8, 0u8, 0u8] + seq![
        if is_mutable {
            1u8
        } else {
            0u8
        },
    ] + seq![0u8]
}

/// Relies on mpl_token_metadata's `CreateMetadataAccountV3::instruction`
/// builder: the data bytes of the built instruction are the one-byte
/// discriminator 33 followed by the serialized arguments — each string as
/// a 32-bit little-endian byte length and its UTF-8 bytes, the fee as
/// 16-bit little-endian, a zero byte for each absent optional field, and
/// one byte for the mutability flag — a pure function of the fields below.
/// The field-length bound keeps every string's byte length within the
/// 32-bit length prefix, whose overflow would abort the serialization.
#[verifier::external_body]
fn create_metadata_ix_data(
    args: &CreateMetadataArgs,
    seller_fee_basis_points: u16,
    system_program: &AccountAddress,
    rent: &AccountAddress,
) -> (r: Vec<u8>)
    requires
        args.wf(),
        spec_fields_within_bounds(args.name@, args.symbol@, args.uri@),
        system_program.wf(),
        rent.wf(),
    ensures
        r@ == spec_create_metadata_ix_data(
            args.name@,
            args.symbol@,
            args.uri@,
            seller_fee_basis_points,
            args.is_mutable,
        ),
{
    let pk = |a: &AccountAddress| Pubkey::try_from(a.bytes().as_slice()).unwrap();
    CreateMetadataAccountV3 {
        metadata: pk(&args.metadata_address), mint: pk(&args.mint_address),
        mint_authority: pk(&args.mint_authority), payer: pk(&args.payer),
        update_authority: (pk(&args.update_authority), args.update_authority_is_signer),
        system_program: pk(system_program), rent: Some(pk(rent)),
    }.instruction(CreateMetadataAccountV3InstructionArgs {
        data: DataV2 {
            name: args.name.clone(), symbol: args.symbol.clone(), uri: args.uri.clone(),
            seller_fee_basis_points, creators: None, collection: None, uses: None,
        },
        is_mutable: args.is_mutable, collection_details: None,
    }).data
}

/// Ghost image of one account handle of a cross-program call.
pub ghost struct HandleV {
    pub address: Seq<u8>,
    pub is_signer: bool,
    pub is_writable: bool,
}

/// One account handle of a cross-program call: an address plus whether it
/// co-signs and whether it may be written.
pub struct AccountHandle {
    pub address: AccountAddress,
    pub is_signer: bool,
    pub is_writable: bool,
}

impl View for AccountHandle {
    type V = HandleV;

    open spec fn view(&self) -> HandleV {
        HandleV { address: self.address@, is_signer: self.is_signer, is_writable: self.is_writable }
    }
}

/// The exact handle list a create-metadata call hands the registry, in the
/// order the registry declares: the metadata account (writable), the mint,
/// the mint-authority signer, the payer (writable signer), the update
/// authority, the system program, and the rent record.
pub open spec fn spec_registry_call_handles(
    a: CreateArgsV,
    system_program: Seq<u8>,
    rent: Seq<u8>,
) -> Seq<HandleV> {
    seq![
        HandleV { address: a.metadata_address, is_signer: false, is_writable: true },
        HandleV { address: a.mint_address, is_signer: false, is_writable: false },
        HandleV { address: a.mint_authority, is_signer: true, is_writable: false },
        HandleV { address: a.payer, is_signer: true, is_writable: true },
        HandleV {
            address: a.update_authority,
            is_signer: a.update_authority_is_signer,
            is_writable: false,
        },
        HandleV { address: system_program, is_signer: false, is_writable: false },
        HandleV { address: rent, is_signer: false, is_writable: false },
    ]
}

/// Constructs the cross-program call a create-metadata request is
/// dispatched as: the exact account handles the registry declares it
/// needs, and the call's bytes in the registry's wire format.
pub fn build_registry_call(
    args: &CreateMetadataArgs,
    seller_fee_basis_points: u16,
    system_program: &AccountAddress,
    rent: &AccountAddress,
) -> (r: (Vec<AccountHandle>, Vec<u8>))
    requires
        args.wf(),
        spec_fields_within_bounds(args.name@, args.symbol@, args.uri@),
        system_program.wf(),
        rent.wf(),
    ensures
        r.0@.map_values(|h: AccountHandle| h@) == spec_registry_call_handles(
            args@,
            system_program@,
            rent@,
        ),
        r.1@ == spec_create_metadata_ix_data(
            args.name@,
            args.symbol@,
            args.uri@,
            seller_fee_basis_points,
            args.is_mutable,
        ),
{
    let mut handles: Vec<AccountHandle> = Vec::new();
    handles.push(
        AccountHandle { address: args.metadata_address.dup(), is_signer: false, is_writable: true },
    );
    handles.push(
        AccountHandle { address: args.mint_address.dup(), is_signer: false, is_writable: false },
    );
    handles.push(
        AccountHandle { address: args.mint_authority.dup(), is_signer: true, is_writable: false },
    );
    handles.push(AccountHandle { address: args.payer.dup(), is_signer: true, is_writable: true });
    handles.push(
        AccountHandle {
            address: args.update_authority.dup(),
            is_signer: args.update_authority_is_signer,
            is_writable: false,
        },
    );
    handles.push(
        AccountHandle { address: system_program.dup(), is_signer: false, is_writable: false },
    );
    handles.push(AccountHandle { address: rent.dup(), is_signer: false, is_writable: false });
    let data = create_metadata_ix_data(args, seller_fee_basis_points, system_program, rent);
    proof {
        assert(handles@.map_values(|h: AccountHandle| h@) =~= spec_registry_call_handles(
            args@,
            system_program@,
            rent@,
        ));
    }
    (handles, data)
}

/// The create-metadata request the binder dispatches for a mint: the
/// derived metadata address, the mint's authority as both mint and update
/// authority (which co-signs), an immutable record, and the fixed
/// pre-funded byte budget.
pub open spec fn spec_bind_args(
    derived: Seq<u8>,
    mint: Seq<u8>,
    authority: Seq<u8>,
    payer: Seq<u8>,
    name: Seq<char>,
    symbol: Seq<char>,
    uri: Seq<char>,
    authority_signed: bool,
    payer_signed: bool,
) -> CreateArgsV {
    CreateArgsV {
        metadata_address: derived,
        mint_address: mint,
        mint_authority: authority,
        payer,
        update_authority: authority,
        name,
        symbol,
        uri,
        update_authority_is_signer: true,
        is_mutable: false,
        space: METADATA_ACCOUNT_SPACE,
        mint_authority_signed: authority_signed,
        payer_signed,
        update_authority_signed: authority_signed,
    }
}

/// The first precondition `bind_metadata` or the registry call it
/// dispatches violates, if any, in the order they are checked.
pub open spec fn spec_bind_err(
    l: LedgerV,
    mint: Seq<u8>,
    authority: Seq<u8>,
    payer: Seq<u8>,
    name: Seq<char>,
    symbol: Seq<char>,
    uri: Seq<char>,
    authority_signed: bool,
    payer_signed: bool,
) -> Option<IssueError> {
    if !spec_fields_within_bounds(name, symbol, uri) {
        Some(IssueError::FieldTooLong)
    } else if spec_metadata_payload_size(name, symbol, uri) > METADATA_ACCOUNT_SPACE {
        Some(IssueError::InsufficientSpace)
    } else {
        match spec_lookup(l.accounts, mint) {
            None => Some(IssueError::AccountMismatch),
            Some(e) => match e.data {
                DataV::Mint(m) => if m.mint_authority != authority || !authority_signed {
                    Some(IssueError::Unauthorized)
                } else {
                    match pda_of(spec_metadata_seeds(l.registry_program, mint), l.registry_program) {
                        None => Some(IssueError::DerivationExhausted),
                        Some(p) => match spec_create_metadata_err(
                            l,
                            spec_bind_args(
                                p.0,
                                mint,
                                authority,
                                payer,
                                name,
                                symbol,
                                uri,
                                authority_signed,
                                payer_signed,
                            ),
                        ) {
                            Some(rr) => Some(IssueError::MetadataBindingFailed(rr)),
                            None => None,
                        },
                    }
                },
                _ => Some(IssueError::AccountMismatch),
            },
        }
    }
}

/// Binds an immutable metadata record to an existing mint: checks the
/// field lengths and the byte budget, that `authority` is the mint's
/// authority and co-signs, derives the metadata address, and dispatches
/// the cross-program call into the registry. Any registry rejection
/// surfaces as `MetadataBindingFailed`; on any failure the ledger is
/// unchanged (see `spec_bind_err` for the exact outcome).
pub fn bind_metadata(
    ledger: &mut Ledger,
    mint: &AccountAddress,
    authority: &AccountAddress,
    payer: &AccountAddress,
    name: &String,
    symbol: &String,
    uri: &String,
    authority_signed: bool,
    payer_signed: bool,
) -> (r: Result<(), IssueError>)
    requires
        old(ledger)@.wf(),
        mint.wf(),
        authority.wf(),
        payer.wf(),
    ensures
        r == (match spec_bind_err(
            old(ledger)@,
            mint@,
            authority@,
            payer@,
            name@,
            symbol@,
            uri@,
            authority_signed,
            payer_signed,
        ) {
            Some(e) => Err::<(), IssueError>(e),
            None => Ok::<(), IssueError>(()),
        }),
        r is Err ==> final(ledger)@ == old(ledger)@,
        r is Ok ==> (pda_of(
            spec_metadata_seeds(old(ledger)@.registry_program, mint@),
            old(ledger)@.registry_program,
        ) matches Some(p) && crate::registry::spec_create_applied(
            old(ledger)@,
            final(ledger)@,
            spec_bind_args(
                p.0,
                mint@,
                authority@,
                payer@,
                name@,
                symbol@,
                uri@,
                authority_signed,
                payer_signed,
            ),
        )),
        final(ledger)@.wf(),
{
    if byte_len(name) > NAME_MAX_LEN || byte_len(symbol) > SYMBOL_MAX_LEN || byte_len(uri)
        > URI_MAX_LEN {
        return Err(IssueError::FieldTooLong);
    }
    if metadata_payload_size(name, symbol, uri) > METADATA_ACCOUNT_SPACE {
        return Err(IssueError::InsufficientSpace);
    }
    match ledger.lookup_entry(mint) {
        None => {
            return Err(IssueError::AccountMismatch);
        },
        Some(e) => match &e.data {
            AccountData::Mint(m) => {
                if !(m.mint_authority == *authority) || !authority_signed {
                    return Err(IssueError::Unauthorized);
                }
            },
            _ => {
                return Err(IssueError::AccountMismatch);
            },
        },
    }
    let metadata_address = match derive_metadata_address(&ledger.config.registry_program, mint) {
        Err(e) => {
            return Err(e);
        },
        Ok((a, _bump)) => a,
    };
    let args = CreateMetadataArgs {
        metadata_address,
        mint_address: mint.dup(),
        mint_authority: authority.dup(),
        payer: payer.dup(),
        update_authority: authority.dup(),
        name: name.clone(),
        symbol: symbol.clone(),
        uri: uri.clone(),
        update_authority_is_signer: true,
        is_mutable: false,
        space: METADATA_ACCOUNT_SPACE,
        mint_authority_signed: authority_signed,
        payer_signed,
        update_authority_signed: authority_signed,
    };
    let instruction = MetadataInstruction::Mint(MintArgs::V1(args));
    match process_instruction(ledger, &instruction) {
        Ok(()) => Ok(()),
        Err(rr) => Err(IssueError::MetadataBindingFailed(rr)),
    }
}

} // verus!
