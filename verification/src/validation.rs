//! The signature verifier for foreign identities: checks that a recoverable
//! secp256k1 signature over the written content was made by the holder of the
//! claimed address.

use vstd::prelude::*;

use crate::AuthError;
use crate::primitives::{
    ecrecover, ecrecover_of, hex_bytes, hex_decode, is_hex_seq, keccak256, keccak256_of,
};

verus! {

/// The address text with an optional leading `0x` removed.
pub open spec fn strip_hex_prefix(s: Seq<char>) -> Seq<char> {
    if s.len() >= 2 && s[0] == '0' && s[1] == 'x' {
        s.subrange(2, s.len() as int)
    } else {
        s
    }
}

/// The exact bytes a foreign write signs: the content when present, the empty
/// byte sequence for a deletion.
pub open spec fn payload_bytes(content: Option<String>) -> Seq<u8> {
    match content {
        Some(c) => vstd::utf8::encode_utf8(c@),
        None => Seq::empty(),
    }
}

/// The verifier's verdict on a claimed address, a payload and a hex-encoded
/// signature: the address must be hex of exactly 20 bytes, the signature hex
/// of exactly 65 bytes with a recovery id below 4, recovery over the
/// keccak-256 digest of the payload must succeed, and the address derived
/// from the recovered key (the last 20 bytes of its keccak-256 digest) must
/// equal the claimed address byte for byte.
pub open spec fn evm_verify_spec(
    address: Seq<char>,
    payload: Seq<u8>,
    signature: Seq<char>,
) -> Result<(), AuthError> {
    let addr_hex = strip_hex_prefix(address);
    if !(is_hex_seq(addr_hex) && hex_bytes(addr_hex).len() == 20) {
        Err(AuthError::MalformedAddress)
    } else if !(is_hex_seq(signature) && hex_bytes(signature).len() == 65) {
        Err(AuthError::MalformedSignature)
    } else if hex_bytes(signature)[64] >= 4 {
        Err(AuthError::RecoveryFailed)
    } else {
        match ecrecover_of(keccak256_of(payload), hex_bytes(signature)) {
            Some(pk) => if keccak256_of(pk).subrange(12, 32) == hex_bytes(addr_hex) {
                Ok(())
            } else {
                Err(AuthError::SignatureMismatch)
            },
            None => Err(AuthError::RecoveryFailed),
        }
    }
}

/// Checks that `signature` proves control of `address` over the written
/// `content`. Pure: same inputs, same verdict.
#[verifier::loop_isolation(false)]
pub fn validate_evm_address(address: &str, content: &Option<String>, signature: &str) -> (r:
    Result<(), AuthError>)
    ensures
        r == evm_verify_spec(address@, payload_bytes(*content), signature@),
{
    let n = address.unicode_len();
    let stripped: &str = if n >= 2 && address.get_char(0) == '0' && address.get_char(1) == 'x' {
        address.substring_char(2, n)
    } else {
        address
    };
    proof {
        assert(stripped@ == strip_hex_prefix(address@));
    }
    let addr_bytes = match hex_decode(stripped) {
        Some(b) => b,
        None => {
            return Err(AuthError::MalformedAddress);
        },
    };
    if addr_bytes.len() != 20 {
        return Err(AuthError::MalformedAddress);
    }
    let sig_bytes = match hex_decode(signature) {
        Some(b) => b,
        None => {
            return Err(AuthError::MalformedSignature);
        },
    };
    if sig_bytes.len() != 65 {
        return Err(AuthError::MalformedSignature);
    }
    if sig_bytes[64] >= 4 {
        return Err(AuthError::RecoveryFailed);
    }
    let payload: Vec<u8> = match content {
        Some(c) => c.as_str().as_bytes_vec(),
        None => Vec::new(),
    };
    proof {
        assert(payload@ == payload_bytes(*content));
    }
    let digest = keccak256(&payload);
    match ecrecover(&digest, &sig_bytes) {
        None => Err(AuthError::RecoveryFailed),
        Some(pk) => {
            let derived = keccak256(&pk);
            let mut i: usize = 0;
            while i < 20
                invariant
                    0 <= i <= 20,
                    forall|j: int| 0 <= j < i ==> derived@[12 + j] == addr_bytes@[j],
                decreases 20 - i,
            {
                if derived[12 + i] != addr_bytes[i] {
                    proof {
                        assert(keccak256_of(pk@).subrange(12, 32)[i as int] == derived@[12 + i]);
                        assert(keccak256_of(pk@).subrange(12, 32) != hex_bytes(
                            strip_hex_prefix(address@),
                        ));
                    }
                    return Err(AuthError::SignatureMismatch);
                }
                i += 1;
            }
            proof {
                assert(keccak256_of(pk@).subrange(12, 32) =~= addr_bytes@);
            }
            Ok(())
        },
    }
}

} // verus!
