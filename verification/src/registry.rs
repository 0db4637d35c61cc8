use vstd::prelude::*;
use crate::addr::AccountAddress;
use crate::derive::derive_metadata_address;
use crate::derive::pda_of;
use crate::derive::spec_metadata_seeds;
use crate::errors::RegistryRejection;
use crate::ledger::AccountData;
use crate::ledger::AccountEntry;
use crate::ledger::DataV;
use crate::ledger::EntryV;
use crate::ledger::Ledger;
use crate::ledger::LedgerV;
use crate::ledger::lemma_lookup_at_index;
use crate::ledger::lemma_lookup_push;
use crate::ledger::lemma_lookup_update;
use crate::ledger::lemma_wf_after_debit;
use crate::ledger::lemma_wf_after_metadata_replace;
use crate::ledger::lemma_wf_after_push;
use crate::ledger::spec_lookup;
use crate::ledger::spec_wallet_balance;
use crate::records::MetadataRecord;
use crate::records::MetadataV;
use crate::records::URI_MAX_LEN;
use crate::records::byte_len;
use crate::records::metadata_payload_size;
use crate::records::spec_byte_len;
use crate::records::spec_fields_within_bounds;
use crate::records::spec_metadata_payload_size;

verus! {

/// Ghost image of a create-metadata request.
pub ghost struct CreateArgsV {
    pub metadata_address: Seq<u8>,
    pub mint_address: Seq<u8>,
    pub mint_authority: Seq<u8>,
    pub payer: Seq<u8>,
    pub update_authority: Seq<u8>,
    pub name: Seq<char>,
    pub symbol: Seq<char>,
    pub uri: Seq<char>,
    pub update_authority_is_signer: bool,
    pub is_mutable: bool,
    pub space: u64,
    pub mint_authority_signed: bool,
    pub payer_signed: bool,
    pub update_authority_signed: bool,
}

/// The typed request a create-metadata cross-program call carries over the
/// message-passing boundary into the registry: the account handles, the
/// descriptor fields, and which handles co-signed the execution.
pub struct CreateMetadataArgs {
    /// Where the record is to be created: must be the derived address.
    pub metadata_address: AccountAddress,
    /// The mint the record describes.
    pub mint_address: AccountAddress,
    pub mint_authority: AccountAddress,
    /// The wallet funding the new record's storage.
    pub payer: AccountAddress,
    pub update_authority: AccountAddress,
    pub name: String,
    pub symbol: String,
    pub uri: String,
    pub update_authority_is_signer: bool,
    pub is_mutable: bool,
    /// The pre-funded byte budget for the new record.
    pub space: u64,
    pub mint_authority_signed: bool,
    pub payer_signed: bool,
    pub update_authority_signed: bool,
}

impl View for CreateMetadataArgs {
    type V = CreateArgsV;

    open spec fn view(&self) -> CreateArgsV {
        CreateArgsV {
            metadata_address: self.metadata_address@,
            mint_address: self.mint_address@,
            mint_authority: self.mint_authority@,
            payer: self.payer@,
            update_authority: self.update_authority@,
            name: self.name@,
            symbol: self.symbol@,
            uri: self.uri@,
            update_authority_is_signer: self.update_authority_is_signer,
            is_mutable: self.is_mutable,
            space: self.space,
            mint_authority_signed: self.mint_authority_signed,
            payer_signed: self.payer_signed,
            update_authority_signed: self.update_authority_signed,
        }
    }
}

impl CreateMetadataArgs {
    pub open spec fn wf(&self) -> bool {
        self.metadata_address.wf() && self.mint_address.wf() && self.mint_authority.wf()
            && self.payer.wf() && self.update_authority.wf()
    }
}

/// Ghost image of an update-metadata request.
pub ghost struct UpdateArgsV2 {
    pub metadata_address: Seq<u8>,
    pub update_authority: Seq<u8>,
    pub update_authority_signed: bool,
    pub new_uri: Seq<char>,
}

/// The typed request to rewrite the `uri` of an existing metadata record.
pub struct UpdateMetadataArgs {
    pub metadata_address: AccountAddress,
    pub update_authority: AccountAddress,
    pub update_authority_signed: bool,
    pub new_uri: String,
}

impl View for UpdateMetadataArgs {
    type V = UpdateArgsV2;

    open spec fn view(&self) -> UpdateArgsV2 {
        UpdateArgsV2 {
            metadata_address: self.metadata_address@,
            update_authority: self.update_authority@,
            update_authority_signed: self.update_authority_signed,
            new_uri: self.new_uri@,
        }
    }
}

impl UpdateMetadataArgs {
    pub open spec fn wf(&self) -> bool {
        self.metadata_address.wf() && self.update_authority.wf()
    }
}

/// Ghost image of a transfer-update-authority request.
pub ghost struct TransferArgsV2 {
    pub metadata_address: Seq<u8>,
    pub update_authority: Seq<u8>,
    pub update_authority_signed: bool,
    pub new_update_authority: Seq<u8>,
}

/// The typed request to hand the update authority of an existing metadata
/// record to another party.
pub struct TransferUpdateAuthorityArgs {
    pub metadata_address: AccountAddress,
    pub update_authority: AccountAddress,
    pub update_authority_signed: bool,
    pub new_update_authority: AccountAddress,
}

impl View for TransferUpdateAuthorityArgs {
    type V = TransferArgsV2;

    open spec fn view(&self) -> TransferArgsV2 {
        TransferArgsV2 {
            metadata_address: self.metadata_address@,
            update_authority: self.update_authority@,
            update_authority_signed: self.update_authority_signed,
            new_update_authority: self.new_update_authority@,
        }
    }
}

impl TransferUpdateAuthorityArgs {
    pub open spec fn wf(&self) -> bool {
        self.metadata_address.wf() && self.update_authority.wf()
            && self.new_update_authority.wf()
    }
}

/// Storage cost a funding party pre-pays for `space` bytes of capacity.
pub open spec fn spec_md_cost(rent_per_byte: u64, space: u64) -> int {
    rent_per_byte * space
}

/// The first check a create-metadata call fails inside the registry, if
/// any, in the order the registry makes them.
pub open spec fn spec_create_metadata_err(l: LedgerV, a: CreateArgsV) -> Option<
    RegistryRejection,
> {
    if !spec_fields_within_bounds(a.name, a.symbol, a.uri) {
        Some(RegistryRejection::FieldTooLong)
    } else if spec_metadata_payload_size(a.name, a.symbol, a.uri) > a.space {
        Some(RegistryRejection::InsufficientSpace)
    } else if !(pda_of(spec_metadata_seeds(l.registry_program, a.mint_address), l.registry_program)
        matches Some(p) && p.0 == a.metadata_address) {
        Some(RegistryRejection::BadSeeds)
    } else if !(a.mint_authority_signed && a.payer_signed && (a.update_authority_is_signer
        ==> a.update_authority_signed)) {
        Some(RegistryRejection::MissingSigner)
    } else {
        match spec_lookup(l.accounts, a.mint_address) {
            None => Some(RegistryRejection::AccountMismatch),
            Some(e) => match e.data {
                DataV::Mint(m) => if m.mint_authority != a.mint_authority {
                    Some(RegistryRejection::MissingSigner)
                } else if spec_lookup(l.accounts, a.metadata_address) is Some {
                    Some(RegistryRejection::DuplicateMetadata)
                } else {
                    match spec_wallet_balance(l, a.payer) {
                        None => Some(RegistryRejection::AccountMismatch),
                        Some(b) => if (b as int) < spec_md_cost(l.rent_per_byte, a.space) {
                            Some(RegistryRejection::InsufficientFunds)
                        } else {
                            None
                        },
                    }
                },
                _ => Some(RegistryRejection::AccountMismatch),
            },
        }
    }
}

/// The metadata account entry a successful create-metadata call stores: a
/// fresh record at the derived address, owned by the registry program, its
/// balance funding the pre-funded byte budget.
pub open spec fn spec_metadata_entry(l: LedgerV, a: CreateArgsV) -> EntryV {
    EntryV {
        address: a.metadata_address,
        owner: l.registry_program,
        balance: spec_md_cost(l.rent_per_byte, a.space) as u64,
        capacity: a.space,
        data: DataV::Metadata(
            MetadataV {
                mint: a.mint_address,
                name: a.name,
                symbol: a.symbol,
                uri: a.uri,
                update_authority: a.update_authority,
                is_mutable: a.is_mutable,
            },
        ),
    }
}

/// A successful create-metadata call took `pre` to `post`: the one new
/// entry is the metadata record, the payer paid its storage, and nothing
/// else changed.
pub open spec fn spec_create_applied(pre: LedgerV, post: LedgerV, a: CreateArgsV) -> bool {
    &&& post == (LedgerV { accounts: post.accounts, ..pre })
    &&& post.accounts.len() == pre.accounts.len() + 1
    &&& spec_lookup(post.accounts, a.metadata_address) == Some(spec_metadata_entry(pre, a))
    &&& spec_wallet_balance(post, a.payer) matches Some(b) && b == spec_wallet_balance(
        pre,
        a.payer,
    ).unwrap() - spec_md_cost(pre.rent_per_byte, a.space)
    &&& forall|x: Seq<u8>|
        x != a.metadata_address && x != a.payer ==> #[trigger] spec_lookup(post.accounts, x)
            == spec_lookup(pre.accounts, x)
}

/// Creates the metadata record a cross-program call asks for, after the
/// registry's own checks: field lengths, the derived address, the required
/// signers, the mint's existence and authority, no duplicate record, and
/// the payer's funds. Exactly when every check passes (see
/// `spec_create_metadata_err`), the record is stored; on any rejection the
/// ledger is unchanged.
pub fn process_create_metadata(ledger: &mut Ledger, args: &CreateMetadataArgs) -> (r: Result<
    (),
    RegistryRejection,
>)
    requires
        old(ledger)@.wf(),
        args.wf(),
    ensures
        r == (match spec_create_metadata_err(old(ledger)@, args@) {
            Some(e) => Err::<(), RegistryRejection>(e),
            None => Ok::<(), RegistryRejection>(()),
        }),
        r is Err ==> final(ledger)@ == old(ledger)@,
        r is Ok ==> spec_create_applied(old(ledger)@, final(ledger)@, args@),
        final(ledger)@.wf(),
{
    if byte_len(&args.name) > crate::records::NAME_MAX_LEN || byte_len(&args.symbol)
        > crate::records::SYMBOL_MAX_LEN || byte_len(&args.uri) > URI_MAX_LEN {
        return Err(RegistryRejection::FieldTooLong);
    }
    let payload = metadata_payload_size(&args.name, &args.symbol, &args.uri);
    if payload > args.space {
        return Err(RegistryRejection::InsufficientSpace);
    }
    match derive_metadata_address(&ledger.config.registry_program, &args.mint_address) {
        Err(_) => {
            return Err(RegistryRejection::BadSeeds);
        },
        Ok((derived, _bump)) => {
            if !(derived == args.metadata_address) {
                return Err(RegistryRejection::BadSeeds);
            }
        },
    }
    if !(args.mint_authority_signed && args.payer_signed && (!args.update_authority_is_signer
        || args.update_authority_signed)) {
        return Err(RegistryRejection::MissingSigner);
    }
    let mint_ok: bool = match ledger.lookup_entry(&args.mint_address) {
        None => false,
        Some(e) => match &e.data {
            AccountData::Mint(m) => {
                if !(m.mint_authority == args.mint_authority) {
                    return Err(RegistryRejection::MissingSigner);
                }
                true
            },
            _ => false,
        },
    };
    if !mint_ok {
        return Err(RegistryRejection::AccountMismatch);
    }
    if ledger.has_account(&args.metadata_address) {
        return Err(RegistryRejection::DuplicateMetadata);
    }
    let payer_idx = match ledger.find_index(&args.payer) {
        None => {
            return Err(RegistryRejection::AccountMismatch);
        },
        Some(i) => i,
    };
    let payer_is_wallet = match &ledger.accounts[payer_idx].data {
        AccountData::Wallet => true,
        _ => false,
    };
    if !payer_is_wallet {
        return Err(RegistryRejection::AccountMismatch);
    }
    let cost = match ledger.config.rent_per_byte.checked_mul(args.space) {
        None => {
            return Err(RegistryRejection::InsufficientFunds);
        },
        Some(c) => c,
    };
    if ledger.accounts[payer_idx].balance < cost {
        return Err(RegistryRejection::InsufficientFunds);
    }
    let ghost l0 = ledger@;
    let ghost payer_entry = ledger@.accounts[payer_idx as int];
    let ghost debited = EntryV { balance: (payer_entry.balance - cost) as u64, ..payer_entry };
    ledger.debit(payer_idx, cost);
    let ghost l1 = ledger@;
    let entry = AccountEntry {
        address: args.metadata_address.dup(),
        owner: ledger.config.registry_program.dup(),
        balance: cost,
        capacity: args.space,
        data: AccountData::Metadata(
            MetadataRecord {
                mint: args.mint_address.dup(),
                name: args.name.clone(),
                symbol: args.symbol.clone(),
                uri: args.uri.clone(),
                update_authority: args.update_authority.dup(),
                is_mutable: args.is_mutable,
            },
        ),
    };
    proof {
        lemma_wf_after_debit(l0, payer_idx as int, debited.balance);
    }
    ledger.push_entry(entry);
    proof {
        let me = spec_metadata_entry(l0, args@);
        assert(entry@ == me);
        lemma_lookup_update(l0.accounts, payer_idx as int, debited, args.metadata_address@);
        lemma_lookup_update(l0.accounts, payer_idx as int, debited, args.payer@);
        lemma_lookup_update(l0.accounts, payer_idx as int, debited, args.mint_address@);
        lemma_lookup_push(l1.accounts, me, args.metadata_address@);
        lemma_lookup_push(l1.accounts, me, args.payer@);
        lemma_lookup_push(l1.accounts, me, args.mint_address@);
        lemma_wf_after_push(l1, me);
        assert(final(ledger)@ == (LedgerV { accounts: l1.accounts.push(me), ..l1 }));
        assert forall|x: Seq<u8>| x != args.metadata_address@ && x != args.payer@
            implies #[trigger] spec_lookup(final(ledger)@.accounts, x) == spec_lookup(
            l0.accounts,
            x,
        ) by {
            lemma_lookup_update(l0.accounts, payer_idx as int, debited, x);
            lemma_lookup_push(l1.accounts, me, x);
        }
    }
    Ok(())
}

/// The first check an update call fails inside the registry, if any. An
/// existing record with `is_mutable = false` rejects every update: the
/// immutability is final.
pub open spec fn spec_update_metadata_err(l: LedgerV, u: UpdateArgsV2) -> Option<
    RegistryRejection,
> {
    match spec_lookup(l.accounts, u.metadata_address) {
        None => Some(RegistryRejection::AccountMismatch),
        Some(e) => match e.data {
            DataV::Metadata(m) => if !m.is_mutable {
                Some(RegistryRejection::ImmutableRecord)
            } else if m.update_authority != u.update_authority || !u.update_authority_signed {
                Some(RegistryRejection::MissingSigner)
            } else if spec_byte_len(u.new_uri) > URI_MAX_LEN {
                Some(RegistryRejection::FieldTooLong)
            } else if spec_metadata_payload_size(m.name, m.symbol, u.new_uri) > e.capacity {
                Some(RegistryRejection::InsufficientSpace)
            } else {
                None
            },
            _ => Some(RegistryRejection::AccountMismatch),
        },
    }
}

/// A successful update took `pre` to `post`: the one record's `uri` was
/// rewritten and nothing else changed.
pub open spec fn spec_update_applied(pre: LedgerV, post: LedgerV, u: UpdateArgsV2) -> bool {
    &&& post == (LedgerV { accounts: post.accounts, ..pre })
    &&& post.accounts.len() == pre.accounts.len()
    &&& spec_lookup(pre.accounts, u.metadata_address) matches Some(e) && e.data matches
        DataV::Metadata(m) && spec_lookup(post.accounts, u.metadata_address) == Some(
        EntryV { data: DataV::Metadata(MetadataV { uri: u.new_uri, ..m }), ..e },
    )
    &&& forall|x: Seq<u8>|
        x != u.metadata_address ==> #[trigger] spec_lookup(post.accounts, x) == spec_lookup(
            pre.accounts,
            x,
        )
}

/// Rewrites the `uri` of an existing metadata record, provided the record
/// was created mutable and its update authority co-signs. A record with
/// `is_mutable = false` rejects every update (`ImmutableRecord`): there is
/// no path that ever rewrites it. On any rejection the ledger is
/// unchanged.
pub fn process_update_metadata(ledger: &mut Ledger, args: &UpdateMetadataArgs) -> (r: Result<
    (),
    RegistryRejection,
>)
    requires
        old(ledger)@.wf(),
        args.wf(),
    ensures
        r == (match spec_update_metadata_err(old(ledger)@, args@) {
            Some(e) => Err::<(), RegistryRejection>(e),
            None => Ok::<(), RegistryRejection>(()),
        }),
        r is Err ==> final(ledger)@ == old(ledger)@,
        r is Ok ==> spec_update_applied(old(ledger)@, final(ledger)@, args@),
        final(ledger)@.wf(),
{
    let idx = match ledger.find_index(&args.metadata_address) {
        None => {
            return Err(RegistryRejection::AccountMismatch);
        },
        Some(i) => i,
    };
    let entry = &ledger.accounts[idx];
    let new_entry = match &entry.data {
        AccountData::Metadata(m) => {
            if !m.is_mutable {
                return Err(RegistryRejection::ImmutableRecord);
            }
            if !(m.update_authority == args.update_authority) || !args.update_authority_signed {
                return Err(RegistryRejection::MissingSigner);
            }
            if byte_len(&args.new_uri) > URI_MAX_LEN {
                return Err(RegistryRejection::FieldTooLong);
            }
            if metadata_payload_size(&m.name, &m.symbol, &args.new_uri) > entry.capacity {
                return Err(RegistryRejection::InsufficientSpace);
            }
            AccountEntry {
                address: entry.address.dup(),
                owner: entry.owner.dup(),
                balance: entry.balance,
                capacity: entry.capacity,
                data: AccountData::Metadata(
                    MetadataRecord {
                        mint: m.mint.dup(),
                        name: m.name.clone(),
                        symbol: m.symbol.clone(),
                        uri: args.new_uri.clone(),
                        update_authority: m.update_authority.dup(),
                        is_mutable: m.is_mutable,
                    },
                ),
            }
        },
        _ => {
            return Err(RegistryRejection::AccountMismatch);
        },
    };
    let ghost l0 = ledger@;
    let ghost e2 = new_entry@;
    ledger.replace_at(idx, new_entry);
    proof {
        lemma_lookup_at_index(l0.accounts, idx as int);
        lemma_wf_after_metadata_replace(l0, idx as int, e2);
        assert forall|x: Seq<u8>| x != args.metadata_address@ implies #[trigger] spec_lookup(
            final(ledger)@.accounts,
            x,
        ) == spec_lookup(l0.accounts, x) by {
            lemma_lookup_update(l0.accounts, idx as int, e2, x);
        }
        lemma_lookup_update(l0.accounts, idx as int, e2, args.metadata_address@);
    }
    Ok(())
}

/// The first check a transfer call fails inside the registry, if any. As
/// with updates, an immutable record rejects the transfer.
pub open spec fn spec_transfer_metadata_err(l: LedgerV, t: TransferArgsV2) -> Option<
    RegistryRejection,
> {
    match spec_lookup(l.accounts, t.metadata_address) {
        None => Some(RegistryRejection::AccountMismatch),
        Some(e) => match e.data {
            DataV::Metadata(m) => if !m.is_mutable {
                Some(RegistryRejection::ImmutableRecord)
            } else if m.update_authority != t.update_authority || !t.update_authority_signed {
                Some(RegistryRejection::MissingSigner)
            } else {
                None
            },
            _ => Some(RegistryRejection::AccountMismatch),
        },
    }
}

/// A successful transfer took `pre` to `post`: the one record's update
/// authority was handed over and nothing else changed.
pub open spec fn spec_transfer_applied(pre: LedgerV, post: LedgerV, t: TransferArgsV2) -> bool {
    &&& post == (LedgerV { accounts: post.accounts, ..pre })
    &&& post.accounts.len() == pre.accounts.len()
    &&& spec_lookup(pre.accounts, t.metadata_address) matches Some(e) && e.data matches
        DataV::Metadata(m) && spec_lookup(post.accounts, t.metadata_address) == Some(
        EntryV {
            data: DataV::Metadata(MetadataV { update_authority: t.new_update_authority, ..m }),
            ..e
        },
    )
    &&& forall|x: Seq<u8>|
        x != t.metadata_address ==> #[trigger] spec_lookup(post.accounts, x) == spec_lookup(
            pre.accounts,
            x,
        )
}

/// Hands the update authority of an existing mutable metadata record to
/// another party, with the current authority co-signing. An immutable
/// record rejects the transfer. On any rejection the ledger is unchanged.
pub fn process_transfer_update_authority(
    ledger: &mut Ledger,
    args: &TransferUpdateAuthorityArgs,
) -> (r: Result<(), RegistryRejection>)
    requires
        old(ledger)@.wf(),
        args.wf(),
    ensures
        r == (match spec_transfer_metadata_err(old(ledger)@, args@) {
            Some(e) => Err::<(), RegistryRejection>(e),
            None => Ok::<(), RegistryRejection>(()),
        }),
        r is Err ==> final(ledger)@ == old(ledger)@,
        r is Ok ==> spec_transfer_applied(old(ledger)@, final(ledger)@, args@),
        final(ledger)@.wf(),
{
    let idx = match ledger.find_index(&args.metadata_address) {
        None => {
            return Err(RegistryRejection::AccountMismatch);
        },
        Some(i) => i,
    };
    let entry = &ledger.accounts[idx];
    let new_entry = match &entry.data {
        AccountData::Metadata(m) => {
            if !m.is_mutable {
                return Err(RegistryRejection::ImmutableRecord);
            }
            if !(m.update_authority == args.update_authority) || !args.update_authority_signed {
                return Err(RegistryRejection::MissingSigner);
            }
            AccountEntry {
                address: entry.address.dup(),
                owner: entry.owner.dup(),
                balance: entry.balance,
                capacity: entry.capacity,
                data: AccountData::Metadata(
                    MetadataRecord {
                        mint: m.mint.dup(),
                        name: m.name.clone(),
                        symbol: m.symbol.clone(),
                        uri: m.uri.clone(),
                        update_authority: args.new_update_authority.dup(),
                        is_mutable: m.is_mutable,
                    },
                ),
            }
        },
        _ => {
            return Err(RegistryRejection::AccountMismatch);
        },
    };
    let ghost l0 = ledger@;
    let ghost e2 = new_entry@;
    ledger.replace_at(idx, new_entry);
    proof {
        lemma_lookup_at_index(l0.accounts, idx as int);
        lemma_wf_after_metadata_replace(l0, idx as int, e2);
        assert forall|x: Seq<u8>| x != args.metadata_address@ implies #[trigger] spec_lookup(
            final(ledger)@.accounts,
            x,
        ) == spec_lookup(l0.accounts, x) by {
            lemma_lookup_update(l0.accounts, idx as int, e2, x);
        }
        lemma_lookup_update(l0.accounts, idx as int, e2, args.metadata_address@);
    }
    Ok(())
}

/// Ghost image of a registry instruction.
pub ghost enum MetadataInstructionV {
    Mint(CreateArgsV),
    Transfer(TransferArgsV2),
    Update(UpdateArgsV2),
}

/// Versioned argument payload of a create-metadata (mint) instruction.
pub enum MintArgs {
    V1(CreateMetadataArgs),
}

/// Versioned argument payload of a transfer-update-authority instruction.
pub enum TransferArgs {
    V1(TransferUpdateAuthorityArgs),
}

/// Versioned argument payload of an update-metadata instruction.
pub enum UpdateArgs {
    V1(UpdateMetadataArgs),
}

/// The registry's instruction set: the typed requests a cross-program call
/// can carry over the message-passing boundary.
pub enum MetadataInstruction {
    Mint(MintArgs),
    Transfer(TransferArgs),
    Update(UpdateArgs),
}

impl View for MetadataInstruction {
    type V = MetadataInstructionV;

    open spec fn view(&self) -> MetadataInstructionV {
        match self {
            MetadataInstruction::Mint(MintArgs::V1(a)) => MetadataInstructionV::Mint(a@),
            MetadataInstruction::Transfer(TransferArgs::V1(t)) => MetadataInstructionV::Transfer(
                t@,
            ),
            MetadataInstruction::Update(UpdateArgs::V1(u)) => MetadataInstructionV::Update(u@),
        }
    }
}

impl MetadataInstruction {
    pub open spec fn wf(&self) -> bool {
        match self {
            MetadataInstruction::Mint(MintArgs::V1(a)) => a.wf(),
            MetadataInstruction::Transfer(TransferArgs::V1(t)) => t.wf(),
            MetadataInstruction::Update(UpdateArgs::V1(u)) => u.wf(),
        }
    }
}

/// The first check the instruction fails inside the registry, if any.
pub open spec fn spec_instruction_err(l: LedgerV, i: MetadataInstructionV) -> Option<
    RegistryRejection,
> {
    match i {
        MetadataInstructionV::Mint(a) => spec_create_metadata_err(l, a),
        MetadataInstructionV::Transfer(t) => spec_transfer_metadata_err(l, t),
        MetadataInstructionV::Update(u) => spec_update_metadata_err(l, u),
    }
}

/// The registry's single entry point: dispatches a typed instruction to
/// the matching processor. Exactly when the registry's checks pass (see
/// `spec_instruction_err`), the instruction's effect is applied; on any
/// rejection the ledger is unchanged.
pub fn process_instruction(ledger: &mut Ledger, instruction: &MetadataInstruction) -> (r: Result<
    (),
    RegistryRejection,
>)
    requires
        old(ledger)@.wf(),
        instruction.wf(),
    ensures
        r == (match spec_instruction_err(old(ledger)@, instruction@) {
            Some(e) => Err::<(), RegistryRejection>(e),
            None => Ok::<(), RegistryRejection>(()),
        }),
        r is Err ==> final(ledger)@ == old(ledger)@,
        instruction@ matches MetadataInstructionV::Mint(a) ==> (r is Ok ==> spec_create_applied(
            old(ledger)@,
            final(ledger)@,
            a,
        )),
        instruction@ matches MetadataInstructionV::Update(u) ==> (r is Ok ==> spec_update_applied(
            old(ledger)@,
            final(ledger)@,
            u,
        )),
        instruction@ matches MetadataInstructionV::Transfer(t) ==> (r is Ok
            ==> spec_transfer_applied(old(ledger)@, final(ledger)@, t)),
        final(ledger)@.wf(),
{
    match instruction {
        MetadataInstruction::Mint(MintArgs::V1(a)) => process_create_metadata(ledger, a),
        MetadataInstruction::Transfer(TransferArgs::V1(t)) => process_transfer_update_authority(
            ledger,
            t,
        ),
        MetadataInstruction::Update(UpdateArgs::V1(u)) => process_update_metadata(ledger, u),
    }
}

} // verus!
