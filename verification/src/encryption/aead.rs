//! The three authenticated ciphers: sealing one message under a key and a
//! nonce, and opening it again.
//!
//! A sealed message is the ciphertext, as long as the plaintext, followed by
//! a tag of 16 bytes. No associated data is used.
use aes_gcm::aead::rand_core::RngCore;
use aes_gcm::aead::{Aead, KeyInit, OsRng};
use aes_gcm::Aes256Gcm;
use chacha20poly1305::{ChaCha20Poly1305, XChaCha20Poly1305};
use crate::util::concat_text;
use vstd::prelude::*;

verus! {

/// Plaintext bytes per chunk.
pub const CHUNK_SIZE: usize = 8192;

/// Bytes of the authentication tag that ends every sealed chunk.
pub const TAG_SIZE: usize = 16;

/// Bytes of key that each of the three ciphers takes.
pub const KEY_SIZE: usize = 32;

/// One of the authenticated ciphers.
#[derive(Clone, Copy, Debug, PartialEq, Eq, Structural)]
pub enum Cipher {
    XChaCha20Poly1305,
    ChaCha20Poly1305,
    Aes256Gcm,
}

impl Cipher {
    pub open spec fn spec_nonce_size(self) -> usize {
        match self {
            Cipher::XChaCha20Poly1305 => 24,
            Cipher::ChaCha20Poly1305 => 12,
            Cipher::Aes256Gcm => 12,
        }
    }

    /// Bytes of nonce written in front of every chunk.
    #[verifier::when_used_as_spec(spec_nonce_size)]
    pub fn nonce_size(self) -> (res: usize)
        ensures
            res == self.spec_nonce_size(),
    {
        match self {
            Cipher::XChaCha20Poly1305 => 24,
            Cipher::ChaCha20Poly1305 => 12,
            Cipher::Aes256Gcm => 12,
        }
    }

    pub open spec fn spec_wire_chunk_size(self) -> usize {
        (self.spec_nonce_size() + CHUNK_SIZE + TAG_SIZE) as usize
    }

    /// Bytes that a full chunk takes on the wire.
    #[verifier::when_used_as_spec(spec_wire_chunk_size)]
    pub fn wire_chunk_size(self) -> (res: usize)
        ensures
            res == self.spec_wire_chunk_size(),
    {
        self.nonce_size() + CHUNK_SIZE + TAG_SIZE
    }
}

/// What XChaCha20-Poly1305 returns for a plaintext under a key and a nonce,
/// with no associated data: ciphertext followed by tag, or `None` where it
/// reports an error.
pub uninterp spec fn xchacha20poly1305_sealed(key: Seq<u8>, nonce: Seq<u8>, plaintext: Seq<u8>) -> Option<Seq<u8>>;

/// What XChaCha20-Poly1305 recovers from a sealed message under a key and a
/// nonce, or `None` where it rejects the message.
pub uninterp spec fn xchacha20poly1305_opened(key: Seq<u8>, nonce: Seq<u8>, sealed: Seq<u8>) -> Option<Seq<u8>>;

/// What ChaCha20-Poly1305 returns for a plaintext under a key and a nonce,
/// with no associated data: ciphertext followed by tag, or `None` where it
/// reports an error.
pub uninterp spec fn chacha20poly1305_sealed(key: Seq<u8>, nonce: Seq<u8>, plaintext: Seq<u8>) -> Option<Seq<u8>>;

/// What ChaCha20-Poly1305 recovers from a sealed message under a key and a
/// nonce, or `None` where it rejects the message.
pub uninterp spec fn chacha20poly1305_opened(key: Seq<u8>, nonce: Seq<u8>, sealed: Seq<u8>) -> Option<Seq<u8>>;

/// What AES-256-GCM returns for a plaintext under a key and a nonce, with no
/// associated data: ciphertext followed by tag, or `None` where it reports an
/// error.
pub uninterp spec fn aes256gcm_sealed(key: Seq<u8>, nonce: Seq<u8>, plaintext: Seq<u8>) -> Option<Seq<u8>>;

/// What AES-256-GCM recovers from a sealed message under a key and a nonce,
/// or `None` where it rejects the message.
pub uninterp spec fn aes256gcm_opened(key: Seq<u8>, nonce: Seq<u8>, sealed: Seq<u8>) -> Option<Seq<u8>>;

/// Asks `XChaCha20Poly1305::new_from_slice` whether it takes `key`. It takes
/// keys of 32 bytes and no others; its refusal reads "Invalid Length".
#[verifier::external_body]
pub(crate) fn xchacha20poly1305_check_key(key: &[u8]) -> (res: Result<(), String>)
    ensures
        res is Ok <==> key@.len() == KEY_SIZE,
        res matches Err(text) ==> text@ == "Invalid Length"@,
{
    match XChaCha20Poly1305::new_from_slice(key) {
        Ok(_) => Ok(()),
        Err(e) => Err(e.to_string()),
    }
}

/// Builds the cipher with `XChaCha20Poly1305::new_from_slice` and seals with
/// `Aead::encrypt`. The result is the ciphertext, as long as the plaintext,
/// followed by the tag; the cipher fails only on plaintexts far longer than a
/// chunk; and what it sealed it opens again under the same key and nonce.
#[verifier::external_body]
pub(crate) fn xchacha20poly1305_seal(key: &[u8], nonce: &[u8], plaintext: &[u8]) -> (res: Option<Vec<u8>>)
    requires
        key@.len() == KEY_SIZE,
        nonce@.len() == 24,
    ensures
        plaintext@.len() <= CHUNK_SIZE ==> res is Some,
        match res {
            Some(sealed) => {
                &&& xchacha20poly1305_sealed(key@, nonce@, plaintext@) == Some(sealed@)
                &&& sealed@.len() == plaintext@.len() + TAG_SIZE
                &&& xchacha20poly1305_opened(key@, nonce@, sealed@) == Some(plaintext@)
            },
            None => xchacha20poly1305_sealed(key@, nonce@, plaintext@) is None,
        },
{
    let cipher = XChaCha20Poly1305::new_from_slice(key).ok()?;
    cipher.encrypt(chacha20poly1305::XNonce::from_slice(nonce), plaintext).ok()
}

/// Builds the cipher with `XChaCha20Poly1305::new_from_slice` and opens with
/// `Aead::decrypt`. A message that is accepted is 16 bytes, the tag, longer
/// than its plaintext.
#[verifier::external_body]
pub(crate) fn xchacha20poly1305_open(key: &[u8], nonce: &[u8], sealed: &[u8]) -> (res: Option<Vec<u8>>)
    requires
        key@.len() == KEY_SIZE,
        nonce@.len() == 24,
    ensures
        match res {
            Some(plaintext) => xchacha20poly1305_opened(key@, nonce@, sealed@) == Some(plaintext@)
                && plaintext@.len() + TAG_SIZE == sealed@.len(),
            None => xchacha20poly1305_opened(key@, nonce@, sealed@) is None,
        },
{
    let cipher = XChaCha20Poly1305::new_from_slice(key).ok()?;
    cipher.decrypt(chacha20poly1305::XNonce::from_slice(nonce), sealed).ok()
}

/// Asks `ChaCha20Poly1305::new_from_slice` whether it takes `key`. It takes
/// keys of 32 bytes and no others; its refusal reads "Invalid Length".
#[verifier::external_body]
pub(crate) fn chacha20poly1305_check_key(key: &[u8]) -> (res: Result<(), String>)
    ensures
        res is Ok <==> key@.len() == KEY_SIZE,
        res matches Err(text) ==> text@ == "Invalid Length"@,
{
    match ChaCha20Poly1305::new_from_slice(key) {
        Ok(_) => Ok(()),
        Err(e) => Err(e.to_string()),
    }
}

/// Builds the cipher with `ChaCha20Poly1305::new_from_slice` and seals with
/// `Aead::encrypt`. The result is the ciphertext, as long as the plaintext,
/// followed by the tag; the cipher fails only on plaintexts far longer than a
/// chunk; and what it sealed it opens again under the same key and nonce.
#[verifier::external_body]
pub(crate) fn chacha20poly1305_seal(key: &[u8], nonce: &[u8], plaintext: &[u8]) -> (res: Option<Vec<u8>>)
    requires
        key@.len() == KEY_SIZE,
        nonce@.len() == 12,
    ensures
        plaintext@.len() <= CHUNK_SIZE ==> res is Some,
        match res {
            Some(sealed) => {
                &&& chacha20poly1305_sealed(key@, nonce@, plaintext@) == Some(sealed@)
                &&& sealed@.len() == plaintext@.len() + TAG_SIZE
                &&& chacha20poly1305_opened(key@, nonce@, sealed@) == Some(plaintext@)
            },
            None => chacha20poly1305_sealed(key@, nonce@, plaintext@) is None,
        },
{
    let cipher = ChaCha20Poly1305::new_from_slice(key).ok()?;
    cipher.encrypt(chacha20poly1305::Nonce::from_slice(nonce), plaintext).ok()
}

/// Builds the cipher with `ChaCha20Poly1305::new_from_slice` and opens with
/// `Aead::decrypt`. A message that is accepted is 16 bytes, the tag, longer
/// than its plaintext.
#[verifier::external_body]
pub(crate) fn chacha20poly1305_open(key: &[u8], nonce: &[u8], sealed: &[u8]) -> (res: Option<Vec<u8>>)
    requires
        key@.len() == KEY_SIZE,
        nonce@.len() == 12,
    ensures
        match res {
            Some(plaintext) => chacha20poly1305_opened(key@, nonce@, sealed@) == Some(plaintext@)
                && plaintext@.len() + TAG_SIZE == sealed@.len(),
            None => chacha20poly1305_opened(key@, nonce@, sealed@) is None,
        },
{
    let cipher = ChaCha20Poly1305::new_from_slice(key).ok()?;
    cipher.decrypt(chacha20poly1305::Nonce::from_slice(nonce), sealed).ok()
}

/// Asks `Aes256Gcm::new_from_slice` whether it takes `key`. It takes
/// keys of 32 bytes and no others; its refusal reads "Invalid Length".
#[verifier::external_body]
pub(crate) fn aes256gcm_check_key(key: &[u8]) -> (res: Result<(), String>)
    ensures
        res is Ok <==> key@.len() == KEY_SIZE,
        res matches Err(text) ==> text@ == "Invalid Length"@,
{
    match Aes256Gcm::new_from_slice(key) {
        Ok(_) => Ok(()),
        Err(e) => Err(e.to_string()),
    }
}

/// Builds the cipher with `Aes256Gcm::new_from_slice` and seals with
/// `Aead::encrypt`. The result is the ciphertext, as long as the plaintext,
/// followed by the tag; the cipher fails only on plaintexts far longer than a
/// chunk; and what it sealed it opens again under the same key and nonce.
#[verifier::external_body]
pub(crate) fn aes256gcm_seal(key: &[u8], nonce: &[u8], plaintext: &[u8]) -> (res: Option<Vec<u8>>)
    requires
        key@.len() == KEY_SIZE,
        nonce@.len() == 12,
    ensures
        plaintext@.len() <= CHUNK_SIZE ==> res is Some,
        match res {
            Some(sealed) => {
                &&& aes256gcm_sealed(key@, nonce@, plaintext@) == Some(sealed@)
                &&& sealed@.len() == plaintext@.len() + TAG_SIZE
                &&& aes256gcm_opened(key@, nonce@, sealed@) == Some(plaintext@)
            },
            None => aes256gcm_sealed(key@, nonce@, plaintext@) is None,
        },
{
    let cipher = Aes256Gcm::new_from_slice(key).ok()?;
    cipher.encrypt(aes_gcm::Nonce::<aes_gcm::aead::consts::U12>::from_slice(nonce), plaintext).ok()
}

/// Builds the cipher with `Aes256Gcm::new_from_slice` and opens with
/// `Aead::decrypt`. A message that is accepted is 16 bytes, the tag, longer
/// than its plaintext.
#[verifier::external_body]
pub(crate) fn aes256gcm_open(key: &[u8], nonce: &[u8], sealed: &[u8]) -> (res: Option<Vec<u8>>)
    requires
        key@.len() == KEY_SIZE,
        nonce@.len() == 12,
    ensures
        match res {
            Some(plaintext) => aes256gcm_opened(key@, nonce@, sealed@) == Some(plaintext@)
                && plaintext@.len() + TAG_SIZE == sealed@.len(),
            None => aes256gcm_opened(key@, nonce@, sealed@) is None,
        },
{
    let cipher = Aes256Gcm::new_from_slice(key).ok()?;
    cipher.decrypt(aes_gcm::Nonce::<aes_gcm::aead::consts::U12>::from_slice(nonce), sealed).ok()
}

/// What `cipher` returns for `plaintext` under `key` and `nonce`, if it
/// seals it.
pub open spec fn sealed(cipher: Cipher, key: Seq<u8>, nonce: Seq<u8>, plaintext: Seq<u8>) -> Option<Seq<u8>> {
    match cipher {
        Cipher::XChaCha20Poly1305 => xchacha20poly1305_sealed(key, nonce, plaintext),
        Cipher::ChaCha20Poly1305 => chacha20poly1305_sealed(key, nonce, plaintext),
        Cipher::Aes256Gcm => aes256gcm_sealed(key, nonce, plaintext),
    }
}

/// What `cipher` recovers from `body` under `key` and `nonce`, if it accepts it.
pub open spec fn opened(cipher: Cipher, key: Seq<u8>, nonce: Seq<u8>, body: Seq<u8>) -> Option<Seq<u8>> {
    match cipher {
        Cipher::XChaCha20Poly1305 => xchacha20poly1305_opened(key, nonce, body),
        Cipher::ChaCha20Poly1305 => chacha20poly1305_opened(key, nonce, body),
        Cipher::Aes256Gcm => aes256gcm_opened(key, nonce, body),
    }
}

/// The name under which a cipher reports.
pub open spec fn label(cipher: Cipher) -> Seq<char> {
    match cipher {
        Cipher::XChaCha20Poly1305 => "XChaChaPoly: "@,
        Cipher::ChaCha20Poly1305 => "ChaChaPoly: "@,
        Cipher::Aes256Gcm => "AesGcm: "@,
    }
}

/// The words in which `cipher` refuses a key.
pub open spec fn refusal(cipher: Cipher) -> Seq<char> {
    label(cipher) + "Invalid Length"@
}

/// Whether `cipher` takes `key`: it takes keys of `KEY_SIZE` bytes and no
/// others, and refuses the others in the words of `refusal`.
pub fn check_key(cipher: Cipher, key: &[u8]) -> (res: Result<(), String>)
    ensures
        res is Ok <==> key@.len() == KEY_SIZE,
        res matches Err(text) ==> text@ == refusal(cipher),
{
    let checked = match cipher {
        Cipher::XChaCha20Poly1305 => xchacha20poly1305_check_key(key),
        Cipher::ChaCha20Poly1305 => chacha20poly1305_check_key(key),
        Cipher::Aes256Gcm => aes256gcm_check_key(key),
    };
    match checked {
        Ok(()) => Ok(()),
        Err(text) => {
            let name = match cipher {
                Cipher::XChaCha20Poly1305 => "XChaChaPoly: ",
                Cipher::ChaCha20Poly1305 => "ChaChaPoly: ",
                Cipher::Aes256Gcm => "AesGcm: ",
            };
            Err(concat_text(name, text.as_str()))
        },
    }
}

/// Fills a buffer of `len` bytes from the operating system's generator with
/// `OsRng::try_fill_bytes`. `None` where the system has no randomness to
/// give; of the bytes only their number is known.
#[verifier::external_body]
pub(crate) fn os_random_bytes(len: usize) -> (res: Option<Vec<u8>>)
    ensures
        res matches Some(bytes) ==> bytes@.len() == len,
{
    let mut bytes = vec![0u8; len];
    OsRng.try_fill_bytes(&mut bytes).ok()?;
    Some(bytes)
}

/// A nonce for `cipher` that was never used before, as far as chance
/// allows. `None` where the system has no randomness to give.
pub fn fresh_nonce(cipher: Cipher) -> (res: Option<Vec<u8>>)
    ensures
        res matches Some(nonce) ==> nonce@.len() == cipher.nonce_size(),
{
    os_random_bytes(cipher.nonce_size())
}

/// Seals one message. Succeeds on every plaintext that fits a chunk; what
/// is sealed is longer by the tag, and opens again.
pub fn seal(cipher: Cipher, key: &[u8], nonce: &[u8], plaintext: &[u8]) -> (res: Option<Vec<u8>>)
    requires
        key@.len() == KEY_SIZE,
        nonce@.len() == cipher.nonce_size(),
    ensures
        plaintext@.len() <= CHUNK_SIZE ==> res is Some,
        match res {
            Some(body) => {
                &&& sealed(cipher, key@, nonce@, plaintext@) == Some(body@)
                &&& body@.len() == plaintext@.len() + TAG_SIZE
                &&& opened(cipher, key@, nonce@, body@) == Some(plaintext@)
            },
            None => sealed(cipher, key@, nonce@, plaintext@) is None,
        },
{
    match cipher {
        Cipher::XChaCha20Poly1305 => xchacha20poly1305_seal(key, nonce, plaintext),
        Cipher::ChaCha20Poly1305 => chacha20poly1305_seal(key, nonce, plaintext),
        Cipher::Aes256Gcm => aes256gcm_seal(key, nonce, plaintext),
    }
}

/// Opens one message; `None` where the cipher rejects it.
pub fn open(cipher: Cipher, key: &[u8], nonce: &[u8], body: &[u8]) -> (res: Option<Vec<u8>>)
    requires
        key@.len() == KEY_SIZE,
        nonce@.len() == cipher.nonce_size(),
    ensures
        match res {
            Some(plaintext) => opened(cipher, key@, nonce@, body@) == Some(plaintext@)
                && plaintext@.len() + TAG_SIZE == body@.len(),
            None => opened(cipher, key@, nonce@, body@) is None,
        },
{
    match cipher {
        Cipher::XChaCha20Poly1305 => xchacha20poly1305_open(key, nonce, body),
        Cipher::ChaCha20Poly1305 => chacha20poly1305_open(key, nonce, body),
        Cipher::Aes256Gcm => aes256gcm_open(key, nonce, body),
    }
}

} // verus!
