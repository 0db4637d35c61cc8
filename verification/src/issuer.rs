use vstd::prelude::*;
use crate::addr::AccountAddress;
use crate::errors::IssueError;
use crate::ledger::AccountData;
use crate::ledger::AccountEntry;
use crate::ledger::DataV;
use crate::ledger::EntryV;
use crate::ledger::Ledger;
use crate::ledger::LedgerV;
use crate::ledger::lemma_lookup_push;
use crate::ledger::lemma_lookup_update;
use crate::ledger::lemma_wf_after_debit;
use crate::ledger::lemma_wf_after_push;
use crate::ledger::spec_lookup;
use crate::ledger::spec_wallet_balance;
use crate::records::MINT_RECORD_CAPACITY;
use crate::records::MintRecord;
use crate::records::MintV;

verus! {

/// Storage cost a funding party pre-pays for a mint record.
pub open spec fn spec_mint_cost(rent_per_byte: u64) -> int {
    rent_per_byte * MINT_RECORD_CAPACITY
}

/// The first precondition of `create_mint` that the given arguments and
/// ledger state violate, if any, in the order the issuer checks them.
pub open spec fn spec_create_mint_err(
    l: LedgerV,
    payer: Seq<u8>,
    mint: Seq<u8>,
    decimals: u8,
    payer_signed: bool,
    authority_signed: bool,
) -> Option<IssueError> {
    if decimals != 0 {
        Some(IssueError::InvalidDecimals)
    } else if !payer_signed || !authority_signed {
        Some(IssueError::Unauthorized)
    } else if spec_lookup(l.accounts, mint) is Some {
        Some(IssueError::AccountAlreadyInitialized)
    } else {
        match spec_wallet_balance(l, payer) {
            None => Some(IssueError::AccountMismatch),
            Some(b) => if (b as int) < spec_mint_cost(l.rent_per_byte) {
                Some(IssueError::InsufficientFunds)
            } else {
                None
            },
        }
    }
}

/// The mint account entry `create_mint` allocates: a fresh record owned by
/// the token program, holding zero decimals and the given authority, its
/// balance funding its own capacity.
pub open spec fn spec_mint_entry(l: LedgerV, mint: Seq<u8>, authority: Seq<u8>) -> EntryV {
    EntryV {
        address: mint,
        owner: l.token_program,
        balance: spec_mint_cost(l.rent_per_byte) as u64,
        capacity: MINT_RECORD_CAPACITY,
        data: DataV::Mint(MintV { decimals: 0, mint_authority: authority }),
    }
}

/// Allocates and initializes a mint record for a single non-fungible unit
/// (`decimals` must be zero) with `authority` as its mint authority, funded
/// by `payer`.
///
/// Exactly when no precondition is violated (see `spec_create_mint_err`),
/// the call succeeds; it then stores the new record under `mint_address`,
/// debits the payer by the storage cost, and touches nothing else. On any
/// failure the ledger is unchanged.
pub fn create_mint(
    ledger: &mut Ledger,
    payer: &AccountAddress,
    mint_address: &AccountAddress,
    authority: &AccountAddress,
    decimals: u8,
    payer_signed: bool,
    authority_signed: bool,
) -> (r: Result<(), IssueError>)
    requires
        old(ledger)@.wf(),
        payer.wf(),
        mint_address.wf(),
        authority.wf(),
    ensures
        r == (match spec_create_mint_err(
            old(ledger)@,
            payer@,
            mint_address@,
            decimals,
            payer_signed,
            authority_signed,
        ) {
            Some(e) => Err::<(), IssueError>(e),
            None => Ok::<(), IssueError>(()),
        }),
        r is Err ==> final(ledger)@ == old(ledger)@,
        r is Ok ==> {
            &&& final(ledger)@.wf()
            &&& final(ledger)@ == (LedgerV { accounts: final(ledger)@.accounts, ..old(ledger)@ })
            &&& final(ledger)@.accounts.len() == old(ledger)@.accounts.len() + 1
            &&& spec_lookup(final(ledger)@.accounts, mint_address@) == Some(
                spec_mint_entry(old(ledger)@, mint_address@, authority@),
            )
            &&& spec_wallet_balance(final(ledger)@, payer@) matches Some(b) && b
                == spec_wallet_balance(old(ledger)@, payer@).unwrap() - spec_mint_cost(
                old(ledger)@.rent_per_byte,
            )
            &&& forall|a: Seq<u8>|
                a != mint_address@ && a != payer@ ==> #[trigger] spec_lookup(
                    final(ledger)@.accounts,
                    a,
                ) == spec_lookup(old(ledger)@.accounts, a)
        },
        final(ledger)@.wf(),
{
    if decimals != 0 {
        return Err(IssueError::InvalidDecimals);
    }
    if !payer_signed || !authority_signed {
        return Err(IssueError::Unauthorized);
    }
    if ledger.has_account(mint_address) {
        return Err(IssueError::AccountAlreadyInitialized);
    }
    let payer_idx = match ledger.find_index(payer) {
        None => {
            return Err(IssueError::AccountMismatch);
        },
        Some(i) => i,
    };
    let payer_is_wallet = match &ledger.accounts[payer_idx].data {
        AccountData::Wallet => true,
        _ => false,
    };
    if !payer_is_wallet {
        return Err(IssueError::AccountMismatch);
    }
    let cost = match ledger.config.rent_per_byte.checked_mul(MINT_RECORD_CAPACITY) {
        None => {
            return Err(IssueError::InsufficientFunds);
        },
        Some(c) => c,
    };
    if ledger.accounts[payer_idx].balance < cost {
        return Err(IssueError::InsufficientFunds);
    }
    let ghost l0 = ledger@;
    let ghost payer_entry = ledger@.accounts[payer_idx as int];
    let ghost debited = EntryV {
        balance: (payer_entry.balance - cost) as u64,
        ..payer_entry
    };
    ledger.debit(payer_idx, cost);
    let ghost l1 = ledger@;
    let entry = AccountEntry {
        address: mint_address.dup(),
        owner: ledger.config.token_program.dup(),
        balance: cost,
        capacity: MINT_RECORD_CAPACITY,
        data: AccountData::Mint(MintRecord { decimals: 0, mint_authority: authority.dup() }),
    };
    proof {
        lemma_wf_after_debit(l0, payer_idx as int, debited.balance);
        assert(l1.wf());
    }
    ledger.push_entry(entry);
    proof {
        let me = spec_mint_entry(l0, mint_address@, authority@);
        assert(entry@ == me);
        lemma_lookup_update(l0.accounts, payer_idx as int, debited, mint_address@);
        lemma_lookup_update(l0.accounts, payer_idx as int, debited, payer@);
        lemma_lookup_push(l1.accounts, me, mint_address@);
        lemma_lookup_push(l1.accounts, me, payer@);
        lemma_wf_after_push(l1, me);
        assert(final(ledger)@ == (LedgerV { accounts: l1.accounts.push(me), ..l1 }));
        assert forall|a: Seq<u8>| a != mint_address@ && a != payer@ implies #[trigger] spec_lookup(
            final(ledger)@.accounts,
            a,
        ) == spec_lookup(l0.accounts, a) by {
            lemma_lookup_update(l0.accounts, payer_idx as int, debited, a);
            lemma_lookup_push(l1.accounts, me, a);
        }
    }
    Ok(())
}

} // verus!
