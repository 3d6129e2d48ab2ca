//! Target validation, identifier generation and the mapping of store failures.

use crate::error::{ApiError, ErrorKind};
use crate::model::text_of;
use vstd::prelude::*;

verus! {

/// Number of random characters that an identifier is derived from.
pub const ID_TOKEN_LENGTH: usize = 6;

/// The serialization that `url::Url::parse` gives an absolute URL written as
/// `text`, or `None` where it rejects `text`.
pub uninterp spec fn url_normal_form(text: Seq<char>) -> Option<Seq<char>>;

/// What `base64::Engine::encode` returns for `bytes` under the engine
/// `BASE64_URL_SAFE_NO_PAD`.
pub uninterp spec fn base64_url(bytes: Seq<u8>) -> Seq<char>;

/// Whether a byte is an ASCII letter or digit.
pub open spec fn is_alphanumeric(byte: u8) -> bool {
    ||| 0x30 <= byte <= 0x39
    ||| 0x41 <= byte <= 0x5a
    ||| 0x61 <= byte <= 0x7a
}

/// Whether a character can stand in a URL path segment as it is: an ASCII
/// letter or digit, `-` or `_`.
pub open spec fn is_url_safe(c: char) -> bool {
    let code = c as u32;
    ||| 0x30 <= code <= 0x39
    ||| 0x41 <= code <= 0x5a
    ||| 0x61 <= code <= 0x7a
    ||| code == 0x2d
    ||| code == 0x5f
}

/// Length of the unpadded base64 text for `count` bytes.
pub open spec fn base64_len(count: nat) -> nat {
    if count % 3 == 0 {
        count / 3 * 4
    } else {
        count / 3 * 4 + count % 3 + 1
    }
}

/// Whether `id` is the base64 text of some token of [`ID_TOKEN_LENGTH`] ASCII
/// letters and digits.
pub open spec fn is_generated_id(id: Seq<char>) -> bool {
    exists|token: Seq<u8>|
        {
            &&& #[trigger] base64_url(token) == id
            &&& token.len() == ID_TOKEN_LENGTH
            &&& forall|i: int| 0 <= i < token.len() ==> is_alphanumeric(#[trigger] token[i])
        }
}

/// Calls `url::Url::parse` and returns the serialization of the parsed URL.
/// Trusted: the result is the one that the crate computes from the text
/// alone; nothing is claimed of which texts it accepts.
#[verifier::external_body]
fn normalize_url(text: &str) -> (normal: Option<String>)
    ensures
        text_of(normal) == url_normal_form(text@),
{
    match url::Url::parse(text) {
        Ok(url) => Some(String::from(url)),
        Err(_) => None,
    }
}

/// Calls `rand::Rng::sample` on the thread's generator with the distribution
/// `Alphanumeric`. Trusted: whatever byte comes back is an ASCII letter or
/// digit, as the distribution's character set shows.
#[verifier::external_body]
fn random_alphanumeric() -> (byte: u8)
    ensures
        is_alphanumeric(byte),
{
    rand::Rng::sample(&mut rand::thread_rng(), rand::distributions::Alphanumeric)
}

/// Calls `base64::Engine::encode` on `BASE64_URL_SAFE_NO_PAD`. Trusted: the
/// text has the length that the crate's `encoded_len` computes without
/// padding, and each of its characters is of the URL-safe alphabet. The call
/// panics where that length overflows `usize`, which `requires` rules out.
#[verifier::external_body]
fn encode_base64_url(bytes: &[u8]) -> (text: String)
    requires
        bytes@.len() / 3 * 4 + 3 <= usize::MAX,
    ensures
        text@ == base64_url(bytes@),
        text@.len() == base64_len(bytes@.len()),
        forall|i: int| 0 <= i < text@.len() ==> is_url_safe(#[trigger] text@[i]),
{
    base64::Engine::encode(&base64::prelude::BASE64_URL_SAFE_NO_PAD, bytes)
}

/// A failure of the store, as the caller of the service is to see it: an
/// internal error whose cause goes to the log.
pub fn internal_error(cause: String) -> (error: ApiError)
    ensures
        error.kind == ErrorKind::InternalError,
        error.detail == cause,
{
    ApiError { kind: ErrorKind::InternalError, detail: cause }
}

/// Turns the outcome of URL parsing into the outcome of validation: the
/// normal form where there is one, `InvalidInput` where there is none.
pub fn validated_url(parsed: Option<String>) -> (result: Result<String, ApiError>)
    ensures
        match parsed {
            Some(normal) => result == Ok::<String, ApiError>(normal),
            None => result matches Err(error) && error.kind == ErrorKind::InvalidInput
                && error.detail@ == Seq::<char>::empty(),
        },
{
    match parsed {
        Some(normal) => Ok(normal),
        None => Err(ApiError::new(ErrorKind::InvalidInput)),
    }
}

/// Validates a target: a well-formed absolute URL comes back in its normal
/// form, anything else is `InvalidInput`.
pub fn parse_url(text: &str) -> (result: Result<String, ApiError>)
    ensures
        match url_normal_form(text@) {
            Some(normal) => result matches Ok(url) && url@ == normal,
            None => result matches Err(error) && error.kind == ErrorKind::InvalidInput
                && error.detail@ == Seq::<char>::empty(),
        },
{
    validated_url(normalize_url(text))
}

/// The identifier that a token stands for: its bytes in unpadded URL-safe
/// base64, which can stand in a path as it is. The token must be short enough
/// for the length of its text to fit `usize`.
pub fn identifier_of(token: &[u8]) -> (id: String)
    requires
        token@.len() / 3 * 4 + 3 <= usize::MAX,
    ensures
        id@ == base64_url(token@),
        id@.len() == base64_len(token@.len()),
        forall|i: int| 0 <= i < id@.len() ==> is_url_safe(#[trigger] id@[i]),
{
    encode_base64_url(token)
}

/// Produces a candidate identifier: the identifier of a token of six random
/// ASCII letters and digits, eight URL-safe characters. Nothing makes two
/// candidates differ: the store decides whether one is free.
pub fn generate_id() -> (id: String)
    ensures
        is_generated_id(id@),
        id@.len() == 8,
        forall|i: int| 0 <= i < id@.len() ==> is_url_safe(#[trigger] id@[i]),
{
    let mut token: Vec<u8> = Vec::new();
    while token.len() < ID_TOKEN_LENGTH
        invariant
            token.len() <= ID_TOKEN_LENGTH,
            forall|i: int| 0 <= i < token.len() ==> is_alphanumeric(#[trigger] token[i]),
        decreases ID_TOKEN_LENGTH - token.len(),
    {
        let byte = random_alphanumeric();
        token.push(byte);
    }
    identifier_of(token.as_slice())
}

} // verus!
