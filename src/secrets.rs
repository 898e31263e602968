//! The text forms of a repository's public key and of an encrypted secret.

use vstd::prelude::*;

verus! {

/// The length in bytes of a public key for sealed boxes.
pub const PUBLIC_KEY_BYTES: usize = 32;

#[verifier::external_type_specification]
#[verifier::external_body]
pub struct ExDecodeError(base64::DecodeError);

/// Why a fetched public key cannot be used.
#[derive(Clone, Copy, Debug, PartialEq, Eq, Structural)]
pub enum KeyError {
    /// The key is not valid standard base64.
    NotBase64,
    /// The key decodes to the wrong number of bytes.
    WrongLength,
}

/// The bytes that a text decodes to in standard base64, or `None`.
pub uninterp spec fn base64_decoded_of(s: Seq<char>) -> Option<Seq<u8>>;

/// The standard base64 text of some bytes.
pub uninterp spec fn base64_encoded_of(b: Seq<u8>) -> Seq<char>;

/// Relies on base64's `decode` (standard alphabet, with padding).
#[verifier::external_body]
fn base64_decode(s: &str) -> (r: Result<Vec<u8>, base64::DecodeError>)
    ensures
        match r {
            Ok(v) => base64_decoded_of(s@) == Some(v@),
            Err(_) => base64_decoded_of(s@) is None,
        },
{
    base64::decode(s)
}

/// Relies on base64's `encode` (standard alphabet, with padding).
#[verifier::external_body]
fn base64_encode(b: &Vec<u8>) -> (r: String)
    ensures
        r@ == base64_encoded_of(b@),
{
    base64::encode(b)
}

/// Checks the length of already decoded key bytes.
pub fn check_key_bytes(decoded: Option<Vec<u8>>) -> (r: Result<Vec<u8>, KeyError>)
    ensures
        match decoded {
            None => r == Err::<Vec<u8>, KeyError>(KeyError::NotBase64),
            Some(b) => if b@.len() == PUBLIC_KEY_BYTES {
                r matches Ok(k) && k@ == b@
            } else {
                r == Err::<Vec<u8>, KeyError>(KeyError::WrongLength)
            },
        },
{
    match decoded {
        None => Err(KeyError::NotBase64),
        Some(b) => if b.len() == PUBLIC_KEY_BYTES {
            Ok(b)
        } else {
            Err(KeyError::WrongLength)
        },
    }
}

/// The raw bytes of a repository's base64 public key, which must be exactly
/// one key long.
pub fn decode_public_key(key: &str) -> (r: Result<Vec<u8>, KeyError>)
    ensures
        match base64_decoded_of(key@) {
            None => r == Err::<Vec<u8>, KeyError>(KeyError::NotBase64),
            Some(b) => if b.len() == PUBLIC_KEY_BYTES {
                r matches Ok(k) && k@ == b
            } else {
                r == Err::<Vec<u8>, KeyError>(KeyError::WrongLength)
            },
        },
{
    let decoded = match base64_decode(key) {
        Ok(v) => Some(v),
        Err(_) => None,
    };
    check_key_bytes(decoded)
}

/// The base64 text under which an encrypted secret value is uploaded.
pub fn encode_secret(sealed: &Vec<u8>) -> (r: String)
    ensures
        r@ == base64_encoded_of(sealed@),
{
    base64_encode(sealed)
}

} // verus!
