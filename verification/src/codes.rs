//! Referral-code derivation.
//!
//! Every account owns a short public code that other players can quote when
//! they register, crediting the owner with a referral.  The code is derived
//! deterministically from the numeric account id: hash the decimal digits of
//! the id, hex-encode the digest, hash that hex string again, hex-encode the
//! second digest, and keep the last six characters.

use vstd::prelude::*;

verus! {

/// ASCII code of the lowercase hex digit for a value below sixteen.
pub open spec fn spec_hex_digit(v: u8) -> u8
    recommends
        v < 16,
{
    if v < 10 {
        (48 + v) as u8
    } else {
        (87 + v) as u8
    }
}

/// Lowercase hex encoding of a byte string: two digits per byte, in order,
/// high nibble first.
pub open spec fn spec_hex(bytes: Seq<u8>) -> Seq<u8> {
    Seq::new(
        bytes.len() * 2,
        |i: int|
            if i % 2 == 0 {
                spec_hex_digit(bytes[i / 2] / 16)
            } else {
                spec_hex_digit(bytes[i / 2] % 16)
            },
    )
}

/// The decimal digits of `n` as ASCII bytes, most significant first,
/// without a sign and without leading zeros (a lone zero for `n == 0`).
pub open spec fn spec_decimal(n: nat) -> Seq<u8>
    decreases n,
{
    if n < 10 {
        seq![(48 + n) as u8]
    } else {
        spec_decimal(n / 10).push((48 + n % 10) as u8)
    }
}

/// The SHA-256 digest of a byte string.  The algorithm itself is not modelled:
/// the name only records that the digest is a function of the input bytes.
pub uninterp spec fn sha256_of(bytes: Seq<u8>) -> Seq<u8>;

/// Relies on sha2::Sha256 through the Digest trait: the digest is 32 bytes
/// long and depends on the input bytes alone.
#[verifier::external_body]
fn sha256_digest(data: &[u8]) -> (r: Vec<u8>)
    ensures
        r@ == sha256_of(data@),
        r@.len() == 32,
{
    <sha2::Sha256 as sha2::Digest>::digest(data).to_vec()
}

/// Relies on hex::encode: each input byte becomes two lowercase hex digits,
/// high nibble first, in input order.
#[verifier::external_body]
fn hex_encode_bytes(data: &[u8]) -> (r: Vec<u8>)
    ensures
        r@ == spec_hex(data@),
{
    hex::encode(data).into_bytes()
}

/// The decimal digits of `n`, most significant first, as ASCII bytes.
pub fn decimal_digits(n: u64) -> (r: Vec<u8>)
    ensures
        r@ == spec_decimal(n as nat),
    decreases n,
{
    if n < 10 {
        let mut v: Vec<u8> = Vec::new();
        v.push(48 + n as u8);
        proof {
            assert(v@ =~= spec_decimal(n as nat));
        }
        v
    } else {
        let mut v = decimal_digits(n / 10);
        v.push(48 + (n % 10) as u8);
        proof {
            assert(v@ =~= spec_decimal(n as nat));
        }
        v
    }
}

/// The referral code that belongs to account id `id`: the last six characters
/// of the hex digest of the double SHA-256 hash described in the module
/// comment.
pub open spec fn spec_referral_code(id: u64) -> Seq<u8> {
    let outer = spec_hex(sha256_of(spec_hex(sha256_of(spec_decimal(id as nat)))));
    outer.subrange(outer.len() - 6, outer.len() as int)
}

/// Derives the referral code of account id `id`: six lowercase hex characters,
/// the same on every call and on every machine.
pub fn referral_code_for(id: u64) -> (code: Vec<u8>)
    ensures
        code@ == spec_referral_code(id),
        code@.len() == 6,
{
    let digits = decimal_digits(id);
    let inner = sha256_digest(digits.as_slice());
    let inner_hex = hex_encode_bytes(inner.as_slice());
    let outer = sha256_digest(inner_hex.as_slice());
    let outer_hex = hex_encode_bytes(outer.as_slice());
    assert(outer_hex@.len() == 64);
    let mut code: Vec<u8> = Vec::new();
    let mut i: usize = 58;
    while i < 64
        invariant
            58 <= i <= 64,
            outer_hex@.len() == 64,
            outer_hex@ == spec_hex(sha256_of(spec_hex(sha256_of(spec_decimal(id as nat))))),
            code@ =~= outer_hex@.subrange(58, i as int),
        decreases 64 - i,
    {
        let b = outer_hex[i];
        code.push(b);
        i = i + 1;
    }
    proof {
        assert(code@ =~= spec_referral_code(id));
    }
    code
}

} // verus!
