use vstd::prelude::*;
use crate::addr::AccountAddress;
use crate::addr::ADDRESS_LEN;

verus! {

/// Maximum byte length the registry accepts for a metadata name.
pub const NAME_MAX_LEN: usize = 32;

/// Maximum byte length the registry accepts for a metadata symbol.
pub const SYMBOL_MAX_LEN: usize = 10;

/// Maximum byte length the registry accepts for a metadata uri.
pub const URI_MAX_LEN: usize = 200;

/// Bytes of the record-kind discriminator that precedes every persisted
/// record.
pub const DISCRIMINATOR_LEN: usize = 8;

/// Serialized capacity of a mint record: one byte of `decimals` plus the
/// mint authority's address.
pub const MINT_RECORD_CAPACITY: u64 = 33;

/// Fixed byte budget pre-funded for a metadata account: the
/// `DISCRIMINATOR_LEN`-byte discriminator plus a 200-byte payload budget,
/// regardless of actual field lengths.
pub const METADATA_ACCOUNT_SPACE: u64 = 208;

/// Number of bytes in the UTF-8 encoding of a string.
pub open spec fn spec_byte_len(s: Seq<char>) -> nat {
    vstd::utf8::encode_utf8(s).len()
}

/// Byte length of `s` (the length of its UTF-8 encoding).
pub fn byte_len(s: &String) -> (r: usize)
    ensures
        r == spec_byte_len(s@),
{
    s.as_str().as_bytes().len()
}

/// The three descriptor fields are within the registry's maximum byte
/// lengths.
pub open spec fn spec_fields_within_bounds(name: Seq<char>, symbol: Seq<char>, uri: Seq<char>) -> bool {
    spec_byte_len(name) <= NAME_MAX_LEN && spec_byte_len(symbol) <= SYMBOL_MAX_LEN
        && spec_byte_len(uri) <= URI_MAX_LEN
}

/// Serialized size of a metadata record with the given field contents: the
/// discriminator, three length-prefixed strings (4 bytes of length each),
/// the bound mint's address, the update authority's address, and one byte
/// for the mutability flag.
pub open spec fn spec_metadata_payload_size(name: Seq<char>, symbol: Seq<char>, uri: Seq<char>) -> int {
    DISCRIMINATOR_LEN + 2 * ADDRESS_LEN + 1 + (4 + spec_byte_len(name)) + (4 + spec_byte_len(
        symbol,
    )) + (4 + spec_byte_len(uri))
}

/// Serialized size of a metadata record with the given fields.
pub fn metadata_payload_size(name: &String, symbol: &String, uri: &String) -> (r: u64)
    requires
        spec_fields_within_bounds(name@, symbol@, uri@),
    ensures
        r == spec_metadata_payload_size(name@, symbol@, uri@),
{
    let base: u64 = (DISCRIMINATOR_LEN as u64) + 2 * (ADDRESS_LEN as u64) + 1 + 12;
    base + (byte_len(name) as u64) + (byte_len(symbol) as u64) + (byte_len(uri) as u64)
}

/// Ghost image of a mint record.
pub ghost struct MintV {
    pub decimals: u8,
    pub mint_authority: Seq<u8>,
}

/// A token-class record with a fixed single non-fungible unit.
pub struct MintRecord {
    /// Always zero in this flow: the token is a single indivisible unit.
    pub decimals: u8,
    /// The owner permitted to mint or modify.
    pub mint_authority: AccountAddress,
}

impl View for MintRecord {
    type V = MintV;

    open spec fn view(&self) -> MintV {
        MintV { decimals: self.decimals, mint_authority: self.mint_authority@ }
    }
}

impl MintRecord {
    pub open spec fn wf(&self) -> bool {
        self.decimals == 0 && self.mint_authority.wf()
    }

    /// An independent copy of the record.
    pub fn dup(&self) -> (r: MintRecord)
        ensures
            r@ == self@,
    {
        MintRecord { decimals: self.decimals, mint_authority: self.mint_authority.dup() }
    }
}

/// Ghost image of a metadata record.
pub ghost struct MetadataV {
    pub mint: Seq<u8>,
    pub name: Seq<char>,
    pub symbol: Seq<char>,
    pub uri: Seq<char>,
    pub update_authority: Seq<u8>,
    pub is_mutable: bool,
}

/// The immutable descriptor record the registry binds to a mint.
pub struct MetadataRecord {
    /// The mint this record describes.
    pub mint: AccountAddress,
    pub name: String,
    pub symbol: String,
    /// Points at the off-ledger descriptor blob.
    pub uri: String,
    pub update_authority: AccountAddress,
    /// When false, the record is read-only forever.
    pub is_mutable: bool,
}

impl View for MetadataRecord {
    type V = MetadataV;

    open spec fn view(&self) -> MetadataV {
        MetadataV {
            mint: self.mint@,
            name: self.name@,
            symbol: self.symbol@,
            uri: self.uri@,
            update_authority: self.update_authority@,
            is_mutable: self.is_mutable,
        }
    }
}

impl MetadataRecord {
    pub open spec fn wf(&self) -> bool {
        self.mint.wf() && self.update_authority.wf() && spec_fields_within_bounds(
            self.name@,
            self.symbol@,
            self.uri@,
        )
    }

    /// An independent copy of the record.
    pub fn dup(&self) -> (r: MetadataRecord)
        ensures
            r@ == self@,
    {
        MetadataRecord {
            mint: self.mint.dup(),
            name: self.name.clone(),
            symbol: self.symbol.clone(),
            uri: self.uri.clone(),
            update_authority: self.update_authority.dup(),
            is_mutable: self.is_mutable,
        }
    }
}

} // verus!
