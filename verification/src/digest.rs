//! SHA-256 digests, lowercase hex encoding and little-endian integer bytes.

use sha2::Digest;
use vstd::prelude::*;

verus! {

/// The SHA-256 digest of `data`.
pub uninterp spec fn sha256(data: Seq<u8>) -> Seq<u8>;

/// The SHA-256 digest of `data`.
///
/// Trusted: calls `sha2::Sha256::digest`. The contract claims that the digest
/// depends on the bytes alone and that it is 32 bytes long, as the `sha2`
/// crate's output size for SHA-256 fixes.
#[verifier::external_body]
pub(crate) fn sha256_digest(data: &[u8]) -> (d: Vec<u8>)
    ensures
        d@ == sha256(data@),
        d@.len() == 32,
{
    sha2::Sha256::digest(data).to_vec()
}

/// The lowercase hex digit for `n` (`0 <= n < 16`).
pub open spec fn hex_digit(n: int) -> char {
    if n < 10 {
        (48 + n) as char
    } else {
        (87 + n) as char
    }
}

/// Two lowercase hex digits per byte, high nibble first.
pub open spec fn hex_lower(bytes: Seq<u8>) -> Seq<char>
    decreases bytes.len(),
{
    if bytes.len() == 0 {
        seq![]
    } else {
        seq![hex_digit((bytes[0] / 16) as int), hex_digit((bytes[0] % 16) as int)] + hex_lower(bytes.drop_first())
    }
}

/// `bytes` as a lowercase hex string.
///
/// Trusted: calls `hex::encode`, which writes each byte as two lowercase hex
/// digits, high nibble first (`hex` crate, `encode_to_iter` with
/// `HEX_CHARS_LOWER`).
#[verifier::external_body]
pub(crate) fn hex_encode(bytes: &[u8]) -> (s: String)
    ensures
        s@ == hex_lower(bytes@),
{
    hex::encode(bytes)
}

/// The `count` low base-256 digits of `n`, least significant first.
pub open spec fn le_digits(n: nat, count: nat) -> Seq<u8>
    decreases count,
{
    if count == 0 {
        seq![]
    } else {
        seq![(n % 256) as u8] + le_digits(n / 256, (count - 1) as nat)
    }
}

/// The eight bytes of `v` in two's complement, little endian
/// (`v.to_le_bytes()`).
pub open spec fn i64_le_bytes(v: i64) -> Seq<u8> {
    let unsigned: nat = if v < 0 {
        (v + 0x1_0000_0000_0000_0000) as nat
    } else {
        v as nat
    };
    le_digits(unsigned, 8)
}

/// The little-endian bytes of `v`.
pub fn le_bytes(v: i64) -> (b: Vec<u8>)
    ensures
        b@ == i64_le_bytes(v),
{
    let unsigned: u64 = if v >= 0 {
        v as u64
    } else {
        ((v + i64::MAX) + 1) as u64 + (i64::MAX as u64) + 1
    };
    let ghost whole = unsigned as nat;
    let mut rest: u64 = unsigned;
    let mut out: Vec<u8> = Vec::new();
    for k in 0..8usize
        invariant
            le_digits(whole, 8) == out@ + le_digits(rest as nat, (8 - k) as nat),
    {
        let ghost before = out@;
        proof {
            assert(le_digits(rest as nat, (8 - k) as nat) == seq![(rest as nat % 256) as u8]
                + le_digits(rest as nat / 256, (8 - k - 1) as nat));
        }
        out.push((rest % 256) as u8);
        rest = rest / 256;
        assert(before + (seq![(out@.last())] + le_digits(rest as nat, (8 - (k + 1)) as nat))
            =~= out@ + le_digits(rest as nat, (8 - (k + 1)) as nat));
    }
    assert(le_digits(rest as nat, 0) =~= Seq::<u8>::empty());
    assert(out@ =~= le_digits(whole, 8));
    out
}

/// The UTF-8 encoding of `s`.
pub fn utf8_bytes(s: &str) -> (b: Vec<u8>)
    ensures
        b@ == vstd::utf8::encode_utf8(s@),
{
    vstd::slice::slice_to_vec(s.as_bytes())
}

/// `a` followed by `b`.
pub fn join_bytes(a: Vec<u8>, b: Vec<u8>) -> (r: Vec<u8>)
    ensures
        r@ == a@ + b@,
{
    let mut a = a;
    let mut b = b;
    a.append(&mut b);
    a
}

} // verus!
