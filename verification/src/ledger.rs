use vstd::prelude::*;
use crate::addr::AccountAddress;
use crate::addr::ADDRESS_LEN;
use crate::errors::IssueError;
use crate::records::MintRecord;
use crate::records::MetadataRecord;
use crate::records::MintV;
use crate::records::MetadataV;
use crate::records::spec_fields_within_bounds;

verus! {

/// Ghost image of the content of one persisted account.
pub ghost enum DataV {
    Wallet,
    Mint(MintV),
    Metadata(MetadataV),
}

/// Ghost image of one persisted account.
pub ghost struct EntryV {
    pub address: Seq<u8>,
    pub owner: Seq<u8>,
    pub balance: u64,
    pub capacity: u64,
    pub data: DataV,
}

/// Ghost image of the whole ledger.
pub ghost struct LedgerV {
    pub registry_program: Seq<u8>,
    pub token_program: Seq<u8>,
    pub system_program: Seq<u8>,
    pub rent_sysvar: Seq<u8>,
    pub rent_per_byte: u64,
    pub accounts: Seq<EntryV>,
}

/// The content of one persisted account: a plain balance-holding wallet, a
/// mint record, or a metadata record.
pub enum AccountData {
    Wallet,
    Mint(MintRecord),
    Metadata(MetadataRecord),
}

impl View for AccountData {
    type V = DataV;

    open spec fn view(&self) -> DataV {
        match self {
            AccountData::Wallet => DataV::Wallet,
            AccountData::Mint(m) => DataV::Mint(m@),
            AccountData::Metadata(m) => DataV::Metadata(m@),
        }
    }
}

impl AccountData {
    /// An independent copy of the content.
    pub fn dup(&self) -> (r: AccountData)
        ensures
            r@ == self@,
    {
        match self {
            AccountData::Wallet => AccountData::Wallet,
            AccountData::Mint(m) => AccountData::Mint(m.dup()),
            AccountData::Metadata(m) => AccountData::Metadata(m.dup()),
        }
    }
}

/// One persisted account: a typed, fixed-capacity record tagged with its
/// owning program and the balance that funds its storage.
pub struct AccountEntry {
    pub address: AccountAddress,
    pub owner: AccountAddress,
    pub balance: u64,
    pub capacity: u64,
    pub data: AccountData,
}

impl View for AccountEntry {
    type V = EntryV;

    open spec fn view(&self) -> EntryV {
        EntryV {
            address: self.address@,
            owner: self.owner@,
            balance: self.balance,
            capacity: self.capacity,
            data: self.data@,
        }
    }
}

impl AccountEntry {
    /// An independent copy of the entry.
    pub fn dup(&self) -> (r: AccountEntry)
        ensures
            r@ == self@,
    {
        AccountEntry {
            address: self.address.dup(),
            owner: self.owner.dup(),
            balance: self.balance,
            capacity: self.capacity,
            data: self.data.dup(),
        }
    }
}

/// Process-wide immutable configuration: the well-known program addresses
/// and the storage price, injected at startup.
pub struct LedgerConfig {
    pub registry_program: AccountAddress,
    pub token_program: AccountAddress,
    pub system_program: AccountAddress,
    pub rent_sysvar: AccountAddress,
    /// Storage cost per byte of reserved capacity a funding party pre-pays.
    pub rent_per_byte: u64,
}

impl LedgerConfig {
    pub open spec fn wf(&self) -> bool {
        self.registry_program.wf() && self.token_program.wf() && self.system_program.wf()
            && self.rent_sysvar.wf()
    }

    /// An independent copy of the configuration.
    pub fn dup(&self) -> (r: LedgerConfig)
        ensures
            r.registry_program@ == self.registry_program@,
            r.token_program@ == self.token_program@,
            r.system_program@ == self.system_program@,
            r.rent_sysvar@ == self.rent_sysvar@,
            r.rent_per_byte == self.rent_per_byte,
    {
        LedgerConfig {
            registry_program: self.registry_program.dup(),
            token_program: self.token_program.dup(),
            system_program: self.system_program.dup(),
            rent_sysvar: self.rent_sysvar.dup(),
            rent_per_byte: self.rent_per_byte,
        }
    }
}

/// The first account stored under `addr`, if any. Under `LedgerV::wf`
/// addresses are unique, so this is the only one.
pub open spec fn spec_lookup(entries: Seq<EntryV>, addr: Seq<u8>) -> Option<EntryV>
    decreases entries.len(),
{
    if entries.len() == 0 {
        None
    } else if entries[0].address == addr {
        Some(entries[0])
    } else {
        spec_lookup(entries.drop_first(), addr)
    }
}

/// What `spec_lookup` returns: a found entry carries the address it was
/// looked up under and occurs in the sequence; `None` means no entry
/// carries the address.
pub proof fn lemma_lookup_props(entries: Seq<EntryV>, addr: Seq<u8>)
    ensures
        spec_lookup(entries, addr) matches Some(e) ==> e.address == addr && entries.contains(e),
        spec_lookup(entries, addr) is None <==> (forall|i: int|
            0 <= i < entries.len() ==> entries[i].address != addr),
    decreases entries.len(),
{
    if entries.len() > 0 {
        lemma_lookup_props(entries.drop_first(), addr);
        if entries[0].address != addr {
            assert forall|i: int| 0 <= i < entries.len() && spec_lookup(entries, addr) is None
                implies entries[i].address != addr by {
                if i > 0 {
                    assert(entries.drop_first()[i - 1] == entries[i]);
                }
            }
            match spec_lookup(entries, addr) {
                Some(e) => {
                    assert(entries.drop_first().contains(e));
                    let j = choose|j: int|
                        0 <= j < entries.drop_first().len() && entries.drop_first()[j] == e;
                    assert(entries[j + 1] == e);
                },
                None => {},
            }
        }
    }
}

/// Looking up in a prefix-skipped sequence agrees with the whole sequence
/// when no skipped entry carries the address.
pub proof fn lemma_lookup_skip(entries: Seq<EntryV>, addr: Seq<u8>, i: int)
    requires
        0 <= i <= entries.len(),
        forall|j: int| 0 <= j < i ==> entries[j].address != addr,
    ensures
        spec_lookup(entries, addr) == spec_lookup(entries.skip(i), addr),
    decreases i,
{
    if i > 0 {
        lemma_lookup_skip(entries.drop_first(), addr, i - 1);
        assert(entries.drop_first().skip(i - 1) =~= entries.skip(i));
    } else {
        assert(entries.skip(0) =~= entries);
    }
}

/// Appending an entry leaves every present address bound as before and
/// binds the new entry's address if it was absent.
pub proof fn lemma_lookup_push(entries: Seq<EntryV>, e: EntryV, addr: Seq<u8>)
    ensures
        spec_lookup(entries.push(e), addr) == (if spec_lookup(entries, addr) is Some {
            spec_lookup(entries, addr)
        } else if e.address == addr {
            Some(e)
        } else {
            None
        }),
    decreases entries.len(),
{
    if entries.len() == 0 {
        assert(entries.push(e)[0] == e);
        assert(entries.push(e).drop_first() =~= Seq::<EntryV>::empty());
        assert(spec_lookup(entries, addr) is None);
        assert(spec_lookup(Seq::<EntryV>::empty(), addr) is None);
        assert(spec_lookup(entries.push(e), addr) == (if e.address == addr {
            Some(e)
        } else {
            spec_lookup(entries.push(e).drop_first(), addr)
        }));
    } else {
        lemma_lookup_push(entries.drop_first(), e, addr);
        assert(entries.push(e)[0] == entries[0]);
        assert(entries.push(e).drop_first() =~= entries.drop_first().push(e));
        assert(spec_lookup(entries.push(e), addr) == (if entries[0].address == addr {
            Some(entries[0])
        } else {
            spec_lookup(entries.drop_first().push(e), addr)
        }));
    }
}

/// Replacing the first entry that carries an address rebinds that address
/// and no other.
pub proof fn lemma_lookup_update(entries: Seq<EntryV>, i: int, e: EntryV, addr: Seq<u8>)
    requires
        0 <= i < entries.len(),
        entries[i].address == e.address,
        forall|j: int| 0 <= j < i ==> entries[j].address != e.address,
    ensures
        spec_lookup(entries.update(i, e), addr) == (if e.address == addr {
            Some(e)
        } else {
            spec_lookup(entries, addr)
        }),
    decreases i,
{
    if i == 0 {
        if e.address != addr {
            assert(entries.update(0, e).drop_first() =~= entries.drop_first());
        }
    } else {
        lemma_lookup_update(entries.drop_first(), i - 1, e, addr);
        assert(entries.update(i, e).drop_first() =~= entries.drop_first().update(i - 1, e));
        assert(entries.update(i, e)[0] == entries[0]);
    }
}

impl LedgerV {
    /// One entry is well formed against this ledger's configuration: its
    /// addresses have the right length and its content matches its owning
    /// program.
    pub open spec fn entry_wf(self, e: EntryV) -> bool {
        &&& e.address.len() == ADDRESS_LEN
        &&& e.owner.len() == ADDRESS_LEN
        &&& match e.data {
            DataV::Wallet => e.owner == self.system_program,
            DataV::Mint(m) => e.owner == self.token_program && m.decimals == 0
                && m.mint_authority.len() == ADDRESS_LEN,
            DataV::Metadata(m) => e.owner == self.registry_program && m.mint.len() == ADDRESS_LEN
                && m.update_authority.len() == ADDRESS_LEN && spec_fields_within_bounds(
                m.name,
                m.symbol,
                m.uri,
            ),
        }
    }

    /// The ledger invariant: well-formed configuration and entries, at most
    /// one entry per address, and no metadata record without the mint
    /// record it describes (no orphaned metadata).
    pub open spec fn wf(self) -> bool {
        &&& self.registry_program.len() == ADDRESS_LEN
        &&& self.token_program.len() == ADDRESS_LEN
        &&& self.system_program.len() == ADDRESS_LEN
        &&& self.rent_sysvar.len() == ADDRESS_LEN
        &&& forall|i: int|
            0 <= i < self.accounts.len() ==> self.entry_wf(#[trigger] self.accounts[i])
        &&& forall|i: int, j: int|
            0 <= i < j < self.accounts.len() ==> self.accounts[i].address
                != self.accounts[j].address
        &&& forall|i: int|
            0 <= i < self.accounts.len() ==> ((#[trigger] self.accounts[i].data) matches
                DataV::Metadata(m) ==> (spec_lookup(self.accounts, m.mint) matches Some(me)
                && me.data is Mint))
    }
}

/// The host ledger: typed, ownership-tagged accounts plus the injected
/// configuration. All state the issuance flow reads or writes lives here.
pub struct Ledger {
    pub config: LedgerConfig,
    pub accounts: Vec<AccountEntry>,
}

impl View for Ledger {
    type V = LedgerV;

    open spec fn view(&self) -> LedgerV {
        LedgerV {
            registry_program: self.config.registry_program@,
            token_program: self.config.token_program@,
            system_program: self.config.system_program@,
            rent_sysvar: self.config.rent_sysvar@,
            rent_per_byte: self.config.rent_per_byte,
            accounts: self.accounts@.map_values(|e: AccountEntry| e@),
        }
    }
}

impl Ledger {
    /// An empty ledger under the given configuration.
    pub fn new(config: LedgerConfig) -> (r: Ledger)
        requires
            config.wf(),
        ensures
            r@.registry_program == config.registry_program@,
            r@.token_program == config.token_program@,
            r@.system_program == config.system_program@,
            r@.rent_sysvar == config.rent_sysvar@,
            r@.rent_per_byte == config.rent_per_byte,
            r@.accounts == Seq::<EntryV>::empty(),
            r@.wf(),
    {
        let r = Ledger { config, accounts: Vec::new() };
        proof {
            assert(r@.accounts =~= Seq::<EntryV>::empty());
        }
        r
    }

    /// An independent deep copy of the ledger (the pre-state a failed
    /// execution rolls back to).
    pub fn snapshot(&self) -> (r: Ledger)
        ensures
            r@ == self@,
    {
        let mut accounts: Vec<AccountEntry> = Vec::new();
        let mut i: usize = 0;
        while i < self.accounts.len()
            invariant
                i <= self.accounts@.len(),
                accounts@.len() == i,
                forall|j: int| 0 <= j < i ==> accounts@[j]@ == #[trigger] self.accounts@[j]@,
            decreases self.accounts@.len() - i,
        {
            accounts.push(self.accounts[i].dup());
            i += 1;
        }
        let r = Ledger { config: self.config.dup(), accounts };
        proof {
            assert(r@.accounts =~= self@.accounts);
        }
        r
    }

    /// The index of the entry stored under `addr`, if any; the entry is the
    /// first and (under `wf`) only one.
    pub(crate) fn find_index(&self, addr: &AccountAddress) -> (r: Option<usize>)
        ensures
            r matches Some(i) ==> i < self@.accounts.len() && self@.accounts[i as int].address
                == addr@ && spec_lookup(self@.accounts, addr@) == Some(self@.accounts[i as int])
                && (forall|j: int| 0 <= j < i ==> self@.accounts[j].address != addr@),
            r is None ==> spec_lookup(self@.accounts, addr@) is None,
    {
        let ghost entries = self@.accounts;
        let mut i: usize = 0;
        while i < self.accounts.len()
            invariant
                i <= entries.len(),
                entries == self@.accounts,
                entries.len() == self.accounts@.len(),
                forall|j: int| 0 <= j < i ==> (#[trigger] entries[j].address) != addr@,
            decreases entries.len() - i,
        {
            let e = &self.accounts[i];
            if e.address == *addr {
                proof {
                    lemma_lookup_skip(entries, addr@, i as int);
                    assert(entries.skip(i as int)[0] == entries[i as int]);
                }
                return Some(i);
            }
            i += 1;
        }
        proof {
            lemma_lookup_props(entries, addr@);
        }
        None
    }

    /// The entry stored under `addr`, if any.
    pub fn lookup_entry(&self, addr: &AccountAddress) -> (r: Option<&AccountEntry>)
        ensures
            r matches Some(e) ==> spec_lookup(self@.accounts, addr@) == Some(e@),
            r is None ==> spec_lookup(self@.accounts, addr@) is None,
    {
        match self.find_index(addr) {
            Some(i) => Some(&self.accounts[i]),
            None => None,
        }
    }

    /// Whether any account is stored under `addr`.
    pub fn has_account(&self, addr: &AccountAddress) -> (r: bool)
        ensures
            r == (spec_lookup(self@.accounts, addr@) is Some),
    {
        match self.find_index(addr) {
            Some(_) => true,
            None => false,
        }
    }

    /// The balance of the account stored under `addr`, if any.
    pub fn balance_of(&self, addr: &AccountAddress) -> (r: Option<u64>)
        ensures
            r matches Some(b) ==> (spec_lookup(self@.accounts, addr@) matches Some(e) && e.balance
                == b),
            r is None ==> spec_lookup(self@.accounts, addr@) is None,
    {
        match self.lookup_entry(addr) {
            Some(e) => Some(e.balance),
            None => None,
        }
    }

    /// Appends a fresh entry; the caller has checked that the address is
    /// unoccupied.
    pub(crate) fn push_entry(&mut self, entry: AccountEntry)
        ensures
            final(self)@ == (LedgerV { accounts: old(self)@.accounts.push(entry@), ..old(self)@ }),
    {
        self.accounts.push(entry);
        proof {
            assert(final(self)@.accounts =~= old(self)@.accounts.push(entry@));
        }
    }

    /// Lowers the balance of the entry at `i` by `amount` (the storage cost
    /// a funding party pre-pays).
    pub(crate) fn debit(&mut self, i: usize, amount: u64)
        requires
            i < old(self)@.accounts.len(),
            amount <= old(self)@.accounts[i as int].balance,
        ensures
            final(self)@ == (LedgerV {
                accounts: old(self)@.accounts.update(
                    i as int,
                    EntryV {
                        balance: (old(self)@.accounts[i as int].balance - amount) as u64,
                        ..old(self)@.accounts[i as int]
                    },
                ),
                ..old(self)@
            }),
    {
        let e = &self.accounts[i];
        let updated = AccountEntry {
            address: e.address.dup(),
            owner: e.owner.dup(),
            balance: e.balance - amount,
            capacity: e.capacity,
            data: e.data.dup(),
        };
        self.accounts[i] = updated;
        proof {
            assert(final(self)@.accounts =~= old(self)@.accounts.update(
                i as int,
                EntryV {
                    balance: (old(self)@.accounts[i as int].balance - amount) as u64,
                    ..old(self)@.accounts[i as int]
                },
            ));
        }
    }

    /// Replaces the entry at `i` with another entry stored under the same
    /// address (the registry rewriting a mutable record in place).
    pub(crate) fn replace_at(&mut self, i: usize, entry: AccountEntry)
        requires
            i < old(self)@.accounts.len(),
            entry@.address == old(self)@.accounts[i as int].address,
        ensures
            final(self)@ == (LedgerV {
                accounts: old(self)@.accounts.update(i as int, entry@),
                ..old(self)@
            }),
    {
        self.accounts[i] = entry;
        proof {
            assert(final(self)@.accounts =~= old(self)@.accounts.update(i as int, entry@));
        }
    }

    /// Creates a plain wallet account holding `balance`, owned by the
    /// system program. Fails if the address is occupied.
    pub fn open_wallet(&mut self, addr: &AccountAddress, balance: u64) -> (r: Result<
        (),
        IssueError,
    >)
        requires
            addr.wf(),
            old(self)@.wf(),
        ensures
            final(self)@.wf(),
            spec_lookup(old(self)@.accounts, addr@) is Some ==> r == Err::<(), IssueError>(
                IssueError::AccountAlreadyInitialized,
            ) && final(self)@ == old(self)@,
            spec_lookup(old(self)@.accounts, addr@) is None ==> r == Ok::<(), IssueError>(())
                && final(self)@ == (LedgerV {
                accounts: old(self)@.accounts.push(
                    EntryV {
                        address: addr@,
                        owner: old(self)@.system_program,
                        balance,
                        capacity: 0,
                        data: DataV::Wallet,
                    },
                ),
                ..old(self)@
            }),
    {
        if self.has_account(addr) {
            return Err(IssueError::AccountAlreadyInitialized);
        }
        let entry = AccountEntry {
            address: addr.dup(),
            owner: self.config.system_program.dup(),
            balance,
            capacity: 0,
            data: AccountData::Wallet,
        };
        self.push_entry(entry);
        proof {
            lemma_wf_after_push(
                old(self)@,
                EntryV {
                    address: addr@,
                    owner: old(self)@.system_program,
                    balance,
                    capacity: 0,
                    data: DataV::Wallet,
                },
            );
        }
        Ok(())
    }
}

/// No orphaned metadata: in a well-formed ledger, any metadata record
/// found under any address describes a mint record that exists. In
/// particular, no execution that keeps the ledger well formed can leave a
/// metadata record behind without its mint.
pub proof fn lemma_no_orphaned_metadata(l: LedgerV, a: Seq<u8>)
    requires
        l.wf(),
    ensures
        spec_lookup(l.accounts, a) matches Some(e) ==> (e.data matches DataV::Metadata(m) ==> (
        spec_lookup(l.accounts, m.mint) matches Some(me) && me.data is Mint)),
{
    lemma_lookup_props(l.accounts, a);
    match spec_lookup(l.accounts, a) {
        Some(e) => {
            let k = choose|k: int| 0 <= k < l.accounts.len() && l.accounts[k] == e;
            assert(l.accounts.contains(e));
            assert(l.accounts[k] == e);
        },
        None => {},
    }
}

/// The balance of the wallet account stored under `addr`: `None` if no
/// account is stored there or the account is not a plain wallet.
pub open spec fn spec_wallet_balance(l: LedgerV, addr: Seq<u8>) -> Option<u64> {
    match spec_lookup(l.accounts, addr) {
        Some(e) => if e.data is Wallet {
            Some(e.balance)
        } else {
            None
        },
        None => None,
    }
}

/// Under the uniqueness part of `wf`, the entry at any index is what its
/// address looks up to.
pub proof fn lemma_lookup_at_index(entries: Seq<EntryV>, i: int)
    requires
        0 <= i < entries.len(),
        forall|j: int| 0 <= j < i ==> entries[j].address != entries[i].address,
    ensures
        spec_lookup(entries, entries[i].address) == Some(entries[i]),
{
    lemma_lookup_skip(entries, entries[i].address, i);
    assert(entries.skip(i)[0] == entries[i]);
}

/// Changing only the balance of one entry preserves the ledger invariant.
pub proof fn lemma_wf_after_debit(l: LedgerV, i: int, balance: u64)
    requires
        l.wf(),
        0 <= i < l.accounts.len(),
    ensures
        (LedgerV {
            accounts: l.accounts.update(i, EntryV { balance, ..l.accounts[i] }),
            ..l
        }).wf(),
{
    let e2 = EntryV { balance, ..l.accounts[i] };
    let acc2 = l.accounts.update(i, e2);
    let l2 = LedgerV { accounts: acc2, ..l };
    assert forall|k: int| 0 <= k < acc2.len() implies l2.entry_wf(#[trigger] acc2[k]) by {
        assert(l.entry_wf(l.accounts[k]));
    }
    assert forall|k: int| 0 <= k < acc2.len() implies ((#[trigger] acc2[k].data) matches
        DataV::Metadata(m) ==> (spec_lookup(acc2, m.mint) matches Some(me)
        && me.data is Mint)) by {
        match acc2[k].data {
            DataV::Metadata(m) => {
                assert(l.accounts[k].data == acc2[k].data);
                lemma_lookup_update(l.accounts, i, e2, m.mint);
                lemma_lookup_props(l.accounts, m.mint);
                if e2.address == m.mint {
                    lemma_lookup_at_index(l.accounts, i);
                    match spec_lookup(l.accounts, m.mint) {
                        Some(oe) => {
                            assert(oe == l.accounts[i]);
                        },
                        None => {},
                    }
                }
            },
            _ => {},
        }
    }
}

/// Replacing a metadata entry with another well-formed metadata entry for
/// the same mint, at the same address, preserves the ledger invariant.
pub proof fn lemma_wf_after_metadata_replace(l: LedgerV, i: int, e2: EntryV)
    requires
        l.wf(),
        0 <= i < l.accounts.len(),
        e2.address == l.accounts[i].address,
        l.entry_wf(e2),
        l.accounts[i].data is Metadata,
        e2.data matches DataV::Metadata(m2) && l.accounts[i].data matches DataV::Metadata(m1)
            && m1.mint == m2.mint,
    ensures
        (LedgerV { accounts: l.accounts.update(i, e2), ..l }).wf(),
{
    let acc2 = l.accounts.update(i, e2);
    let l2 = LedgerV { accounts: acc2, ..l };
    assert forall|k: int| 0 <= k < acc2.len() implies l2.entry_wf(#[trigger] acc2[k]) by {
        assert(l.entry_wf(l.accounts[k]));
    }
    assert forall|k: int| 0 <= k < acc2.len() implies ((#[trigger] acc2[k].data) matches
        DataV::Metadata(m) ==> (spec_lookup(acc2, m.mint) matches Some(me)
        && me.data is Mint)) by {
        match acc2[k].data {
            DataV::Metadata(m) => {
                let kk: int = if k == i {
                    i
                } else {
                    k
                };
                assert(l.accounts[kk].data matches DataV::Metadata(mk) && mk.mint == m.mint);
                lemma_lookup_update(l.accounts, i, e2, m.mint);
                if e2.address == m.mint {
                    lemma_lookup_at_index(l.accounts, i);
                }
            },
            _ => {},
        }
    }
}

/// Pushing a well-formed entry at an unoccupied address preserves the
/// ledger invariant, provided a pushed metadata entry describes an
/// existing mint.
pub proof fn lemma_wf_after_push(l: LedgerV, e: EntryV)
    requires
        l.wf(),
        l.entry_wf(e),
        spec_lookup(l.accounts, e.address) is None,
        e.data matches DataV::Metadata(m) ==> (spec_lookup(l.accounts, m.mint) matches Some(me)
            && me.data is Mint),
    ensures
        (LedgerV { accounts: l.accounts.push(e), ..l }).wf(),
{
    let l2 = LedgerV { accounts: l.accounts.push(e), ..l };
    lemma_lookup_props(l.accounts, e.address);
    assert forall|i: int, j: int| 0 <= i < j < l2.accounts.len() implies l2.accounts[i].address
        != l2.accounts[j].address by {
        if j == l.accounts.len() as int {
            assert(l2.accounts[i] == l.accounts[i]);
        }
    }
    assert forall|i: int| 0 <= i < l2.accounts.len() implies ((#[trigger] l2.accounts[i].data)
        matches DataV::Metadata(m) ==> (spec_lookup(l2.accounts, m.mint) matches Some(me)
        && me.data is Mint)) by {
        match l2.accounts[i].data {
            DataV::Metadata(m) => {
                lemma_lookup_push(l.accounts, e, m.mint);
                if i < l.accounts.len() {
                    assert(l.accounts[i] == l2.accounts[i]);
                }
            },
            _ => {},
        }
    }
    assert forall|i: int| 0 <= i < l2.accounts.len() implies l2.entry_wf(
        #[trigger] l2.accounts[i],
    ) by {
        if i < l.accounts.len() {
            assert(l.entry_wf(l.accounts[i]));
        }
    }
}

} // verus!
