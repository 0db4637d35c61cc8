use vstd::prelude::*;

verus! {

/// Number of bytes in a ledger account address.
pub const ADDRESS_LEN: usize = 32;

/// An address of an account on the host ledger: an opaque 32-byte identifier.
///
/// Addresses are only ever compared for equality; the library never reads
/// meaning into individual bytes. Derived addresses (see `derive`) are
/// produced by the host's derivation routine and have no signing key.
pub struct AccountAddress {
    bytes: Vec<u8>,
}

impl View for AccountAddress {
    type V = Seq<u8>;

    closed spec fn view(&self) -> Seq<u8> {
        self.bytes@
    }
}

impl AccountAddress {
    /// A well-formed address holds exactly `ADDRESS_LEN` bytes.
    pub open spec fn wf(&self) -> bool {
        self@.len() == ADDRESS_LEN
    }

    /// Wraps `bytes` as an address; rejects any length other than `ADDRESS_LEN`.
    pub fn from_bytes(bytes: Vec<u8>) -> (r: Option<AccountAddress>)
        ensures
            bytes@.len() == ADDRESS_LEN ==> (r matches Some(a) && a@ == bytes@ && a.wf()),
            bytes@.len() != ADDRESS_LEN ==> r is None,
    {
        if bytes.len() == ADDRESS_LEN {
            Some(AccountAddress { bytes })
        } else {
            None
        }
    }

    /// An independent copy of the address.
    pub fn dup(&self) -> (r: AccountAddress)
        ensures
            r@ == self@,
    {
        AccountAddress { bytes: self.to_vec() }
    }

    /// The raw bytes of the address.
    pub fn bytes(&self) -> (r: &Vec<u8>)
        ensures
            r@ == self@,
    {
        &self.bytes
    }

    /// The raw bytes of the address, as an owned vector (for use as a
    /// derivation seed).
    pub fn to_vec(&self) -> (r: Vec<u8>)
        ensures
            r@ == self@,
    {
        let out = self.bytes.clone();
        proof {
            assert(out@ =~= self.bytes@);
        }
        out
    }
}

impl PartialEq for AccountAddress {
    fn eq(&self, other: &AccountAddress) -> (r: bool) {
        if self.bytes.len() != other.bytes.len() {
            return false;
        }
        let mut i: usize = 0;
        while i < self.bytes.len()
            invariant
                self.bytes@.len() == other.bytes@.len(),
                i <= self.bytes@.len(),
                forall|j: int| 0 <= j < i ==> self.bytes@[j] == other.bytes@[j],
            decreases self.bytes@.len() - i,
        {
            if self.bytes[i] != other.bytes[i] {
                return false;
            }
            i += 1;
        }
        proof {
            assert(self.bytes@ =~= other.bytes@);
        }
        true
    }
}

impl vstd::std_specs::cmp::PartialEqSpecImpl for AccountAddress {
    open spec fn obeys_eq_spec() -> bool {
        true
    }

    open spec fn eq_spec(&self, other: &AccountAddress) -> bool {
        self@ == other@
    }
}

} // verus!
