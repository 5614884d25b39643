//! Redemption codes: what is hashed for each code of a batch, and how the
//! digest is spelled.

use crate::address::{base58, Address};
use crate::text::{
    ascii_string, ascii_text, decimal, is_digit, is_lower_hex, lemma_decimal_digits,
    lemma_decimal_injective, lower_hex, lower_hex_prefix, push_decimal, push_signed_decimal,
    signed_decimal,
};
use sha2::{Digest, Sha256};
use vstd::prelude::*;
use vstd::utf8::encode_utf8;

verus! {

/// Number of characters of a redemption code.
pub const CODE_LEN: usize = 16;

/// The SHA-256 digest of a byte string.
pub uninterp spec fn sha256(data: Seq<u8>) -> Seq<u8>;

/// Calls sha2's `Sha256::digest`, which hashes the whole input in one go
/// and returns the 32 bytes of its SHA-256 digest.
#[verifier::external_body]
fn sha256_digest(data: &[u8]) -> (r: [u8; 32])
    ensures
        r@ == sha256(data@),
{
    Sha256::digest(data).into()
}

/// The code for hashed data: the first sixteen hexadecimal digits of its
/// digest.
pub open spec fn code_text(data: Seq<u8>) -> Seq<char> {
    lower_hex(sha256(data)).take(CODE_LEN as int)
}

/// Whether a text has the shape of a redemption code: sixteen lower-case
/// hexadecimal digits.
pub open spec fn is_code(text: Seq<char>) -> bool {
    &&& text.len() == CODE_LEN
    &&& forall|k: int| 0 <= k < text.len() ==> is_lower_hex(#[trigger] text[k])
}

/// The byte that parts the fields of what is hashed: an underscore.
pub open spec fn separator() -> Seq<u8> {
    seq![95u8]
}

/// The bytes of `USV_`, which open what is hashed for a code.
pub open spec fn code_prefix() -> Seq<u8> {
    seq![85u8, 83u8, 86u8, 95u8]
}

/// The bytes of `BATCH_`, which open a batch's name.
pub open spec fn batch_prefix() -> Seq<u8> {
    seq![66u8, 65u8, 84u8, 67u8, 72u8, 95u8]
}

/// What is hashed for one code: `USV_`, the code's serial number, the time,
/// the authority in base58 and the code's index in its batch, parted by
/// underscores.
pub open spec fn code_preimage(serial: nat, now: int, authority: Address, index: nat) -> Seq<u8> {
    code_prefix() + decimal(serial) + separator() + signed_decimal(now) + separator()
        + encode_utf8(base58(authority.bytes@)) + separator() + decimal(index)
}

/// The name of a batch made at time `now`: `BATCH_` and the time.
pub open spec fn batch_name_text(now: int) -> Seq<char> {
    ascii_text(batch_prefix() + signed_decimal(now))
}

/// The code for hashed data.
pub fn code_hash(data: &[u8]) -> (r: String)
    ensures
        r@ == code_text(data@),
        is_code(r@),
{
    let digest = sha256_digest(data);
    lower_hex_prefix(digest.as_slice(), CODE_LEN)
}

fn push_bytes(out: &mut Vec<u8>, bytes: &[u8])
    ensures
        final(out)@ == old(out)@ + bytes@,
{
    let mut i: usize = 0;
    while i < bytes.len()
        invariant
            i <= bytes@.len(),
            out@ == old(out)@ + bytes@.take(i as int),
        decreases bytes.len() - i,
    {
        out.push(bytes[i]);
        i = i + 1;
        assert(out@ =~= old(out)@ + bytes@.take(i as int));
    }
    assert(bytes@.take(i as int) =~= bytes@);
}

/// What is hashed for the code with the given serial number and index.
pub fn code_data(serial: u32, now: i64, authority: &Address, index: u32) -> (r: Vec<u8>)
    ensures
        r@ == code_preimage(serial as nat, now as int, *authority, index as nat),
{
    let mut out: Vec<u8> = Vec::new();
    out.push(85);
    out.push(83);
    out.push(86);
    out.push(95);
    assert(out@ =~= code_prefix());
    push_decimal(&mut out, serial as u64);
    out.push(95);
    push_signed_decimal(&mut out, now);
    out.push(95);
    let name = authority.to_base58();
    push_bytes(&mut out, name.as_str().as_bytes());
    out.push(95);
    push_decimal(&mut out, index as u64);
    assert(out@ =~= code_preimage(serial as nat, now as int, *authority, index as nat));
    out
}

/// The redemption code with the given serial number and index.
pub fn redemption_code(serial: u32, now: i64, authority: &Address, index: u32) -> (r: String)
    ensures
        r@ == code_text(code_preimage(serial as nat, now as int, *authority, index as nat)),
        is_code(r@),
{
    let data = code_data(serial, now, authority, index);
    code_hash(data.as_slice())
}

/// The name of a batch made at time `now`.
pub fn batch_name(now: i64) -> (r: String)
    ensures
        r@ == batch_name_text(now as int),
{
    let mut out: Vec<u8> = Vec::new();
    out.push(66);
    out.push(65);
    out.push(84);
    out.push(67);
    out.push(72);
    out.push(95);
    assert(out@ =~= batch_prefix());
    push_signed_decimal(&mut out, now);
    ascii_string(&out)
}

/// A byte string that ends in an underscore and a decimal ends in one
/// decimal only.
pub proof fn lemma_decimal_suffix(head_a: Seq<u8>, a: nat, head_b: Seq<u8>, b: nat)
    requires
        head_a + separator() + decimal(a) == head_b + separator() + decimal(b),
    ensures
        a == b,
{
    let da = decimal(a);
    let db = decimal(b);
    let text_a = head_a + separator() + da;
    let text_b = head_b + separator() + db;
    lemma_decimal_digits(a);
    lemma_decimal_digits(b);
    assert(text_a.len() == head_a.len() + 1 + da.len());
    assert(text_b.len() == head_b.len() + 1 + db.len());
    if da.len() < db.len() {
        let k = head_a.len() as int;
        assert(text_a[k] == 95u8);
        assert(text_b[k] == db[k - head_b.len() - 1]);
        assert(is_digit(db[k - head_b.len() - 1]));
    } else if db.len() < da.len() {
        let k = head_b.len() as int;
        assert(text_b[k] == 95u8);
        assert(text_a[k] == da[k - head_a.len() - 1]);
        assert(is_digit(da[k - head_a.len() - 1]));
    } else {
        assert(da =~= db) by {
            assert forall|i: int| 0 <= i < da.len() implies da[i] == db[i] by {
                assert(text_a[head_a.len() + 1 + i] == da[i]);
                assert(text_b[head_b.len() + 1 + i] == db[i]);
            }
        }
        lemma_decimal_injective(a, b);
    }
}

/// Within one batch, codes with different indices are hashed from different
/// data.
pub proof fn lemma_code_preimages_differ(
    serial_a: nat,
    serial_b: nat,
    now: int,
    authority: Address,
    a: nat,
    b: nat,
)
    requires
        a != b,
    ensures
        code_preimage(serial_a, now, authority, a) != code_preimage(serial_b, now, authority, b),
{
    let head_a = code_prefix() + decimal(serial_a) + separator() + signed_decimal(now)
        + separator() + encode_utf8(base58(authority.bytes@));
    let head_b = code_prefix() + decimal(serial_b) + separator() + signed_decimal(now)
        + separator() + encode_utf8(base58(authority.bytes@));
    if code_preimage(serial_a, now, authority, a) == code_preimage(serial_b, now, authority, b) {
        lemma_decimal_suffix(head_a, a, head_b, b);
    }
}

} // verus!
