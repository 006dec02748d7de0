//! From a password to a key.
use crate::error::{HashingError, PasswordError};
use sha2::{Digest, Sha256, Sha512};
use vstd::prelude::*;
use vstd::utf8::encode_utf8;

verus! {

/// The SHA-256 digest of `data`.
pub uninterp spec fn sha256(data: Seq<u8>) -> Seq<u8>;

/// The SHA-512 digest of `data`.
pub uninterp spec fn sha512(data: Seq<u8>) -> Seq<u8>;

/// Calls `Sha256::digest`. The digest is 32 bytes long.
#[verifier::external_body]
pub(crate) fn sha256_digest(data: &[u8]) -> (res: Vec<u8>)
    ensures
        res@ == sha256(data@),
        res@.len() == 32,
{
    Sha256::digest(data).to_vec()
}

/// Calls `Sha512::digest`. The digest is 64 bytes long.
#[verifier::external_body]
pub(crate) fn sha512_digest(data: &[u8]) -> (res: Vec<u8>)
    ensures
        res@ == sha512(data@),
        res@.len() == 64,
{
    Sha512::digest(data).to_vec()
}

/// The key of `len` bits that stands for the password whose bytes, in
/// UTF-8, are `pw`, where there is one.
pub open spec fn key_of_password(pw: Seq<u8>, len: usize) -> Option<Seq<u8>> {
    if len == 256 {
        Some(sha256(pw))
    } else if len == 512 {
        Some(sha512(pw))
    } else {
        None
    }
}

/// Turns a password into a key of `len` bits: its SHA-256 digest for 256,
/// its SHA-512 digest for 512. Any other length is refused with
/// `HashingError::UnrecognisedAlgorithmLength`.
pub fn convert_pw_to_key(pw: String, len: usize) -> (res: Result<Vec<u8>, HashingError>)
    ensures
        match res {
            Ok(key) => key_of_password(encode_utf8(pw@), len) == Some(key@) && key@.len() * 8 == len,
            Err(e) => key_of_password(encode_utf8(pw@), len) is None
                && e == HashingError::UnrecognisedAlgorithmLength(len),
        },
{
    if len == 256 {
        Ok(sha256_digest(pw.as_str().as_bytes()))
    } else if len == 512 {
        Ok(sha512_digest(pw.as_str().as_bytes()))
    } else {
        Err(HashingError::UnrecognisedAlgorithmLength(len))
    }
}

/// The key for a password that was typed twice. An empty password is
/// refused, then one that was not repeated as it was typed.
pub fn key_from_confirmed_password(pass: String, confirm: String, key_len: usize) -> (res: Result<
    Vec<u8>,
    PasswordError,
>)
    ensures
        match res {
            Ok(key) => {
                &&& pass@.len() > 0
                &&& pass@ == confirm@
                &&& key_of_password(encode_utf8(pass@), key_len) == Some(key@)
            },
            Err(PasswordError::PasswordEmpty) => pass@.len() == 0,
            Err(PasswordError::PasswordsDoNotMatch) => pass@.len() > 0 && pass@ != confirm@,
            Err(PasswordError::HashingError(e)) => {
                &&& pass@.len() > 0
                &&& pass@ == confirm@
                &&& key_of_password(encode_utf8(pass@), key_len) is None
                &&& e == HashingError::UnrecognisedAlgorithmLength(key_len)
            },
            Err(_) => false,
        },
{
    if pass.as_str().is_empty() {
        return Err(PasswordError::PasswordEmpty);
    }
    if pass != confirm {
        return Err(PasswordError::PasswordsDoNotMatch);
    }
    match convert_pw_to_key(pass, key_len) {
        Ok(key) => Ok(key),
        Err(e) => Err(PasswordError::HashingError(e)),
    }
}

/// The key for a password that was typed once.
pub fn key_from_password(pass: String, key_len: usize) -> (res: Result<Vec<u8>, PasswordError>)
    ensures
        match res {
            Ok(key) => key_of_password(encode_utf8(pass@), key_len) == Some(key@),
            Err(PasswordError::HashingError(e)) => key_of_password(encode_utf8(pass@), key_len) is None
                && e == HashingError::UnrecognisedAlgorithmLength(key_len),
            Err(_) => false,
        },
{
    match convert_pw_to_key(pass, key_len) {
        Ok(key) => Ok(key),
        Err(e) => Err(PasswordError::HashingError(e)),
    }
}

} // verus!
