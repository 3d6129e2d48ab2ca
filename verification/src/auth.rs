//! The key check before the operations that change or report: a shared secret,
//! held as the lower-case hexadecimal SHA3-256 digest of the key.

use crate::error::{ApiError, ErrorKind};
use sha3::Digest;
use vstd::prelude::*;
use vstd::string::{StrSliceExecFns, StringExecFns, StringSliceAdditionalSpecFns};

verus! {

/// The SHA3-256 digest of `message`, as `sha3::Sha3_256` computes it.
pub uninterp spec fn sha3_256(message: Seq<u8>) -> Seq<u8>;

/// Calls `sha3::Sha3_256::digest`. Trusted: the result is the digest of the
/// message alone, and it is 32 bytes long, the output size that the crate
/// declares for SHA3-256.
#[verifier::external_body]
fn sha3_256_digest(message: &[u8]) -> (digest: Vec<u8>)
    ensures
        digest@ == sha3_256(message@),
        digest@.len() == 32,
{
    sha3::Sha3_256::digest(message).to_vec()
}

/// The lower-case hexadecimal digit for a value below 16.
pub open spec fn hex_digit(nibble: int) -> char {
    if nibble < 10 {
        (0x30 + nibble) as u8 as char
    } else {
        (0x61 + nibble - 10) as u8 as char
    }
}

/// The lower-case hexadecimal text of `bytes`: two digits for each byte, the
/// high half first.
pub open spec fn lower_hex(bytes: Seq<u8>) -> Seq<char> {
    Seq::new(
        2 * bytes.len(),
        |i: int|
            if i % 2 == 0 {
                hex_digit(bytes[i / 2] as int / 16)
            } else {
                hex_digit(bytes[i / 2] as int % 16)
            },
    )
}

/// What the log says when a request names no key.
pub open spec fn missing_key_detail() -> Seq<char> {
    "Unauthorized call to api"@
}

/// What the log says when a request names the wrong key.
pub open spec fn invalid_key_detail() -> Seq<char> {
    "Unauthorized (invalid key)"@
}

fn hex_char(nibble: u8) -> (digit: char)
    requires
        nibble < 16,
    ensures
        digit == hex_digit(nibble as int),
{
    if nibble < 10 {
        (0x30 + nibble) as char
    } else {
        (0x61 + nibble - 10) as char
    }
}

/// Whether `expected` is the lower-case hexadecimal text of `digest`.
pub fn digest_matches(digest: &[u8], expected: &str) -> (matches: bool)
    ensures
        matches == (expected@ == lower_hex(digest@)),
{
    let length = expected.unicode_len();
    if digest.len() > usize::MAX / 2 || length != 2 * digest.len() {
        return false;
    }
    let mut i: usize = 0;
    while i < length
        invariant
            i <= length,
            length == expected@.len(),
            length == 2 * digest@.len(),
            forall|k: int| 0 <= k < i ==> expected@[k] == lower_hex(digest@)[k],
        decreases length - i,
    {
        let byte = digest[i / 2];
        let nibble = if i % 2 == 0 {
            byte / 16
        } else {
            byte % 16
        };
        if expected.get_char(i) != hex_char(nibble) {
            return false;
        }
        i += 1;
    }
    assert(expected@ =~= lower_hex(digest@));
    true
}

/// Decides whether a request may pass. `api_key` is what the request's key
/// header holds, if it has one; `encrypted_api_key` is the digest that the
/// service was configured with. The request passes exactly when the header is
/// there and the SHA3-256 digest of its bytes, in lower-case hexadecimal, is
/// the configured text.
pub fn auth(api_key: Option<&str>, encrypted_api_key: &str) -> (result: Result<(), ApiError>)
    ensures
        match api_key {
            None => result matches Err(error) && error.kind == ErrorKind::Unauthorized
                && error.detail@ == missing_key_detail(),
            Some(key) => if lower_hex(sha3_256(key.spec_bytes())) == encrypted_api_key@ {
                result is Ok
            } else {
                result matches Err(error) && error.kind == ErrorKind::Unauthorized && error.detail@
                    == invalid_key_detail()
            },
        },
{
    match api_key {
        None => Err(
            ApiError {
                kind: ErrorKind::Unauthorized,
                detail: String::from_str("Unauthorized call to api"),
            },
        ),
        Some(key) => {
            let digest = sha3_256_digest(key.as_bytes());
            if digest_matches(digest.as_slice(), encrypted_api_key) {
                Ok(())
            } else {
                Err(
                    ApiError {
                        kind: ErrorKind::Unauthorized,
                        detail: String::from_str("Unauthorized (invalid key)"),
                    },
                )
            }
        },
    }
}

} // verus!
