//! Trusted bindings for the cryptographic and encoding primitives the
//! registry leans on: hex decoding, the keccak-256 hash, and secp256k1
//! public-key recovery.

use vstd::prelude::*;

verus! {

/// True of the characters the hex alphabet accepts.
pub open spec fn is_hex_char(c: char) -> bool {
    ('0' <= c && c <= '9') || ('a' <= c && c <= 'f') || ('A' <= c && c <= 'F')
}

/// The numeric value of one hex digit.
pub open spec fn hex_char_val(c: char) -> int {
    if '0' <= c && c <= '9' {
        c as int - '0' as int
    } else if 'a' <= c && c <= 'f' {
        c as int - 'a' as int + 10
    } else {
        c as int - 'A' as int + 10
    }
}

/// A sequence of characters that decodes as hex: even length, hex digits
/// throughout.
pub open spec fn is_hex_seq(s: Seq<char>) -> bool {
    s.len() % 2 == 0 && forall|i: int| 0 <= i < s.len() ==> is_hex_char(#[trigger] s[i])
}

/// The bytes a hex string decodes to, two digits to a byte, high nibble
/// first.
pub open spec fn hex_bytes(s: Seq<char>) -> Seq<u8> {
    Seq::new((s.len() / 2) as nat, |i: int| (16 * hex_char_val(s[2 * i]) + hex_char_val(s[2 * i + 1])) as u8)
}

/// Relies on hex::decode: it succeeds exactly on an even-length string of hex
/// digits (either case) and returns the decoded bytes.
#[verifier::external_body]
pub(crate) fn hex_decode(s: &str) -> (r: Option<Vec<u8>>)
    ensures
        match r {
            Some(b) => is_hex_seq(s@) && b@ == hex_bytes(s@),
            None => !is_hex_seq(s@),
        },
{
    match hex::decode(s) {
        Ok(b) => Some(b),
        Err(_) => None,
    }
}

/// The keccak-256 digest of a byte sequence. A function of the input bytes
/// alone; what the digest's bits are is left to the hash primitive.
pub uninterp spec fn keccak256_of(data: Seq<u8>) -> Seq<u8>;

/// Relies on near_sdk::env::keccak256: the 32-byte keccak-256 digest of the
/// input, a deterministic function of the input bytes alone.
#[verifier::external_body]
pub(crate) fn keccak256(data: &Vec<u8>) -> (r: Vec<u8>)
    ensures
        r@ == keccak256_of(data@),
        r@.len() == 32,
{
    near_sdk::env::keccak256(data.as_slice())
}

/// The outcome of secp256k1 public-key recovery from a 32-byte digest and a
/// 65-byte recoverable signature (64 signature bytes, then one recovery-id
/// byte): the recovered 64-byte public key, or nothing when the signature is
/// rejected. A deterministic function of the digest and signature bytes
/// alone.
pub uninterp spec fn ecrecover_of(hash: Seq<u8>, sig: Seq<u8>) -> Option<Seq<u8>>;

/// Relies on near_sdk::env::ecrecover, called with the strict malleability
/// policy (signatures whose `s` value lies in the upper half of the curve
/// order are rejected). The recovery-id byte must be below 4; the host
/// refuses larger values outright.
#[verifier::external_body]
pub(crate) fn ecrecover(hash: &Vec<u8>, sig: &Vec<u8>) -> (r: Option<Vec<u8>>)
    requires
        hash@.len() == 32,
        sig@.len() == 65,
        sig@[64] < 4,
    ensures
        match r {
            Some(pk) => ecrecover_of(hash@, sig@) == Some(pk@) && pk@.len() == 64,
            None => ecrecover_of(hash@, sig@) is None,
        },
{
    match near_sdk::env::ecrecover(hash.as_slice(), &sig[0..64], sig[64], true) {
        Some(pk) => Some(pk.to_vec()),
        None => None,
    }
}

} // verus!
