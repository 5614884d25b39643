//! Ledger addresses and the deterministic derivation of record addresses.

use anchor_lang::prelude::Pubkey;
use vstd::prelude::*;
use vstd::bytes::{spec_u32_to_le_bytes, u32_to_le_bytes};
use vstd::slice::slice_to_vec;
use vstd::std_specs::cmp::PartialEqSpecImpl;
use vstd::string::StrSliceExecFns;
use vstd::utf8::encode_utf8;

verus! {

/// A 32-byte ledger address. Wallets, mints and records are all named by one.
#[derive(Clone, Copy, Debug)]
pub struct Address {
    pub bytes: [u8; 32],
}

impl PartialEq for Address {
    fn eq(&self, other: &Address) -> (r: bool) {
        let mut i: usize = 0;
        while i < 32
            invariant
                i <= 32,
                forall|j: int| 0 <= j < i ==> self.bytes[j] == other.bytes[j],
            decreases 32 - i,
        {
            if self.bytes[i] != other.bytes[i] {
                return false;
            }
            i = i + 1;
        }
        assert(self.bytes =~= other.bytes);
        true
    }
}

impl Eq for Address {

}

impl PartialEqSpecImpl for Address {
    open spec fn obeys_eq_spec() -> bool {
        true
    }

    open spec fn eq_spec(&self, other: &Address) -> bool {
        *self == *other
    }
}

impl Address {
    /// The address with the given bytes.
    pub fn new(bytes: [u8; 32]) -> (r: Address)
        ensures
            r.bytes == bytes,
    {
        Address { bytes }
    }

    /// The address written in base58, as wallets show it.
    pub fn to_base58(&self) -> (r: String)
        ensures
            r@ == base58(self.bytes@),
    {
        base58_text(self)
    }
}

/// The base58 text of a 32-byte address.
pub uninterp spec fn base58(bytes: Seq<u8>) -> Seq<char>;

/// Calls `Pubkey`'s `to_string`, which writes the key's 32 bytes in base58
/// with the Bitcoin alphabet. The text depends on the bytes alone.
#[verifier::external_body]
fn base58_text(address: &Address) -> (r: String)
    ensures
        r@ == base58(address.bytes@),
{
    Pubkey::new_from_array(address.bytes).to_string()
}

/// The address that a program owns for a list of seeds, where there is one.
pub uninterp spec fn program_address(seeds: Seq<Seq<u8>>, program: Address) -> Option<Address>;

/// The byte strings that a list of seeds holds.
pub open spec fn seed_views(seeds: Seq<Vec<u8>>) -> Seq<Seq<u8>> {
    seeds.map_values(|s: Vec<u8>| s@)
}

/// Calls `Pubkey::try_find_program_address`, which hashes the seeds, a bump
/// byte and the program's key, and tries the bump bytes from 255 down until
/// the hash is no point of the curve. It returns the address that it found,
/// or nothing where it found none or takes no such seeds. What it returns
/// depends on the seeds and the program alone.
#[verifier::external_body]
fn find_program_address(seeds: &Vec<Vec<u8>>, program: &Address) -> (r: Option<Address>)
    ensures
        r == program_address(seed_views(seeds@), *program),
{
    let parts: Vec<&[u8]> = seeds.iter().map(|s| s.as_slice()).collect();
    let program_key = Pubkey::new_from_array(program.bytes);
    Pubkey::try_find_program_address(&parts, &program_key).map(
        |found| Address { bytes: found.0.to_bytes() },
    )
}

/// The program that owns the ledger's records: every record address is
/// derived under it.
pub open spec fn ledger_program_id() -> Address {
    Address {
        bytes: [
            151, 9, 47, 239, 185, 195, 213, 78, 215, 158, 134, 185, 150, 114, 201, 39,
            233, 214, 212, 144, 17, 222, 166, 247, 142, 58, 137, 48, 121, 56, 61, 184,
        ],
    }
}

/// The program that owns the ledger's records.
pub fn ledger_program() -> (r: Address)
    ensures
        r == ledger_program_id(),
{
    Address {
        bytes: [
            151, 9, 47, 239, 185, 195, 213, 78, 215, 158, 134, 185, 150, 114, 201, 39,
            233, 214, 212, 144, 17, 222, 166, 247, 142, 58, 137, 48, 121, 56, 61, 184,
        ],
    }
}

/// The address of the record that a namespace and the parts of a key name.
pub open spec fn derived_address(namespace: Seq<u8>, key: Seq<Seq<u8>>) -> Option<Address> {
    program_address(seq![namespace] + key, ledger_program_id())
}

/// Derives the address of the record that a namespace and the parts of a
/// key name. The same namespace and key give the same address, whoever
/// asks; there is none where the derivation takes no such seeds.
pub fn derive_address(namespace: &[u8], key: Vec<Vec<u8>>) -> (r: Option<Address>)
    ensures
        r == derived_address(namespace@, seed_views(key@)),
{
    let mut seeds = key;
    seeds.insert(0, slice_to_vec(namespace));
    assert(seed_views(seeds@) =~= seq![namespace@] + seed_views(key@));
    find_program_address(&seeds, &ledger_program())
}

/// The address of the issuance record.
pub open spec fn issuance_address_of() -> Option<Address> {
    derived_address(encode_utf8("usv_state"@), Seq::empty())
}

/// The address of the issuance record: the one place where the ledger can
/// be set up.
pub fn issuance_address() -> (r: Option<Address>)
    ensures
        r == issuance_address_of(),
{
    let key: Vec<Vec<u8>> = Vec::new();
    assert(seed_views(key@) =~= Seq::<Seq<u8>>::empty());
    derive_address("usv_state".as_bytes(), key)
}

/// The address of the trading record. It is derived under the ledger's
/// program, as every record of this ledger is: a trading desk that runs as
/// a program of its own, under its own id, keeps its record elsewhere.
pub open spec fn trading_address_of() -> Option<Address> {
    derived_address(encode_utf8("trading_state"@), Seq::empty())
}

/// The address of the trading record: the one place where trading can be
/// opened on this ledger. It is derived under the ledger's program, not
/// under the id of a trading program of its own.
pub fn trading_address() -> (r: Option<Address>)
    ensures
        r == trading_address_of(),
{
    let key: Vec<Vec<u8>> = Vec::new();
    assert(seed_views(key@) =~= Seq::<Seq<u8>>::empty());
    derive_address("trading_state".as_bytes(), key)
}

/// The address of the claim record of a redemption code.
pub open spec fn claim_address_of(code: Seq<char>) -> Option<Address> {
    derived_address(encode_utf8("qr_claim"@), seq![encode_utf8(code)])
}

/// The address of the claim record of a redemption code: the one place
/// where the code's claim can ever be recorded.
pub fn claim_address(code: &str) -> (r: Option<Address>)
    ensures
        r == claim_address_of(code@),
{
    let mut key: Vec<Vec<u8>> = Vec::new();
    key.push(code.as_bytes_vec());
    assert(seed_views(key@) =~= seq![encode_utf8(code@)]);
    derive_address("qr_claim".as_bytes(), key)
}

/// The address of the batch that an authority makes when `issued` codes
/// have been issued before it.
pub open spec fn batch_address_of(authority: Address, issued: u32) -> Option<Address> {
    derived_address(
        encode_utf8("qr_batch"@),
        seq![authority.bytes@, spec_u32_to_le_bytes(issued)],
    )
}

/// The address of the batch that an authority makes when `issued` codes
/// have been issued before it.
pub fn batch_address(authority: &Address, issued: u32) -> (r: Option<Address>)
    ensures
        r == batch_address_of(*authority, issued),
{
    let mut key: Vec<Vec<u8>> = Vec::new();
    key.push(slice_to_vec(authority.bytes.as_slice()));
    key.push(u32_to_le_bytes(issued));
    assert(seed_views(key@) =~= seq![authority.bytes@, spec_u32_to_le_bytes(issued)]);
    derive_address("qr_batch".as_bytes(), key)
}

} // verus!
