//! The encryption layer: the innermost of the three, next to the medium.
pub mod aead;
pub mod aes_gcm_256;
pub mod algorithm;
pub mod chachapoly;
pub mod chunked;
pub mod nonce;
pub mod passthrough;
pub mod xchachapoly;

use crate::encryption::aead::{open, opened, seal, sealed, Cipher, TAG_SIZE};
use crate::error::{EncryptorInitError, StreamError};
use crate::stream::{always, read_to_end, write_all, Sink, Source};
use vstd::prelude::*;

verus! {

/// Marks an adapter that seals what is written to it.
pub struct EncryptorMode;

/// Marks an adapter that opens what is read through it.
pub struct DecryptorMode;

/// A sink that encrypts what it accepts on its way to the medium.
pub trait EncryptionModule: Sink + Sized {
    /// The medium beneath.
    type Io: Sink;

    /// Seals what is still held back, flushes the medium and hands it back.
    /// To be called once, after the last write.
    fn finalise(self) -> (res: Result<Self::Io, StreamError>)
        requires
            self.wf(),
        ensures
            (self.finishes())(self.accepted()) ==> res is Ok,
            res matches Ok(io) ==> {
                &&& io.wf()
                &&& io.flushed()
                &&& (self.encoding())(self.accepted(), io.accepted())
            },
    ;
}

/// A source that decrypts what it takes from the medium.
pub trait DecryptionModule: Source + Sized {
    /// Releases the medium. Nothing is held back on the reading side.
    fn finalise(self) -> (res: Result<(), StreamError>)
        requires
            self.wf(),
        ensures
            res is Ok,
    ;
}

/// An encryption algorithm with its key material: makes encryptors.
pub trait EncryptionAlgorithm<T: Sink> {
    type Encryptor: EncryptionModule;

    /// Whether the key material lets an encryptor be made.
    spec fn can_encrypt(&self) -> bool;

    /// Whether an encryptor over a medium that never fails never fails. One
    /// that draws nonces can fail for want of randomness.
    spec fn dependable(&self) -> bool;

    /// The relation between the data an encryptor accepts and what its
    /// medium holds in the end, where the medium held `before` to begin with.
    spec fn sealing(&self, before: Seq<u8>) -> spec_fn(Seq<u8>, Seq<u8>) -> bool;

    /// Wraps `writer`. Fails where the key material does not fit.
    fn encryptor(&self, writer: T) -> (res: Result<Self::Encryptor, EncryptorInitError>)
        requires
            writer.wf(),
        ensures
            res is Ok <==> self.can_encrypt(),
            res matches Ok(enc) ==> {
                &&& enc.wf()
                &&& enc.accepted() == Seq::<u8>::empty()
                &&& enc.reliable() == (self.dependable() && writer.reliable())
                &&& enc.finishes() == always(self.dependable() && writer.reliable())
                &&& enc.encoding() == self.sealing(writer.accepted())
            },
    ;
}

/// An encryption algorithm with its key material: makes decryptors.
pub trait DecryptionAlgorithm<T: Source> {
    type Decryptor: DecryptionModule;

    /// Whether the key material lets a decryptor be made.
    spec fn can_decrypt(&self) -> bool;

    /// What a decryptor delivers from `wire`, and whether it then fails.
    /// `cut` says that the wire ends in an error of its source.
    spec fn opening(&self, wire: Seq<u8>, cut: bool) -> (Seq<u8>, bool);

    /// Wraps `reader`. Fails where the key material does not fit.
    fn decryptor(&self, reader: T) -> (res: Result<Self::Decryptor, EncryptorInitError>)
        requires
            reader.wf(),
        ensures
            res is Ok <==> self.can_decrypt(),
            res matches Ok(dec) ==> {
                &&& dec.wf()
                &&& dec.remaining() == self.opening(reader.remaining(), reader.fails()).0
                &&& dec.fails() == self.opening(reader.remaining(), reader.fails()).1
            },
    ;
}

/// A key of XChaCha20-Poly1305 and the nonce of one message under it.
#[derive(Clone)]
pub struct Keys {
    pub key: [u8; 32],
    pub nonce: [u8; 24],
}

/// Which way a stream is taken through the cipher.
#[derive(Clone, Copy, Debug, PartialEq, Eq, Structural)]
pub enum CryptMode {
    Encrypt,
    Decrypt,
}

/// What `data` becomes on its way through the cipher, as one message under
/// `keys`; none where the cipher refuses it.
pub open spec fn crypted(keys: Keys, mode: CryptMode, data: Seq<u8>) -> Option<Seq<u8>> {
    match mode {
        CryptMode::Encrypt => sealed(Cipher::XChaCha20Poly1305, keys.key@, keys.nonce@, data),
        CryptMode::Decrypt => opened(Cipher::XChaCha20Poly1305, keys.key@, keys.nonce@, data),
    }
}

/// Copies `reader`, to its end, into `writer`, sealed or opened on the way.
/// Returns how many bytes were read.
///
/// The whole stream is one message, so the nonce is used once: whoever
/// seals another stream under the same key gives it another nonce. No
/// length is left out and nothing is cut into pieces under the one nonce.
/// What was sealed so opens again under the same keys.
///
/// A reader that fails, or a message that the cipher refuses, leaves the
/// writer as it was; the cipher's refusal is `StreamError::Encryption` when
/// sealing and `StreamError::Decryption` when opening.
pub fn copy_crypt<R: Source, W: Sink>(reader: &mut R, writer: &mut W, keys: Keys, mode: CryptMode) -> (res: Result<
    usize,
    StreamError,
>)
    requires
        old(reader).wf(),
        old(writer).wf(),
    ensures
        old(reader).fails() ==> res is Err,
        !old(reader).fails() && crypted(keys, mode, old(reader).remaining()) is None ==> match mode {
            CryptMode::Encrypt => res matches Err(StreamError::Encryption),
            CryptMode::Decrypt => res matches Err(StreamError::Decryption),
        },
        !old(reader).fails() && crypted(keys, mode, old(reader).remaining()) is Some && old(writer).reliable()
            ==> res is Ok,
        old(reader).fails() || crypted(keys, mode, old(reader).remaining()) is None ==> final(writer).accepted()
            == old(writer).accepted(),
        res matches Ok(n) ==> {
            &&& n == old(reader).remaining().len()
            &&& crypted(keys, mode, old(reader).remaining()) matches Some(out) && {
                &&& final(writer).accepted() == old(writer).accepted() + out
                &&& mode is Encrypt ==> out.len() == n + TAG_SIZE && crypted(keys, CryptMode::Decrypt, out) == Some(
                    old(reader).remaining(),
                )
                &&& mode is Decrypt ==> out.len() + TAG_SIZE == n
            }
            &&& final(reader).wf()
            &&& final(reader).remaining() == Seq::<u8>::empty()
            &&& final(writer).wf()
            &&& final(writer).reliable() == old(writer).reliable()
        },
{
    let data = match read_to_end(reader) {
        Ok(data) => data,
        Err(e) => {
            return Err(e);
        },
    };
    let out = match mode {
        CryptMode::Encrypt => match seal(
            Cipher::XChaCha20Poly1305,
            keys.key.as_slice(),
            keys.nonce.as_slice(),
            data.as_slice(),
        ) {
            Some(body) => body,
            None => {
                return Err(StreamError::Encryption);
            },
        },
        CryptMode::Decrypt => match open(
            Cipher::XChaCha20Poly1305,
            keys.key.as_slice(),
            keys.nonce.as_slice(),
            data.as_slice(),
        ) {
            Some(plain) => plain,
            None => {
                return Err(StreamError::Decryption);
            },
        },
    };
    match write_all(writer, out.as_slice()) {
        Ok(()) => Ok(data.len()),
        Err(e) => Err(e),
    }
}

/// Where the key of a run comes from.
#[derive(Clone, Debug)]
pub enum EncryptionSecret {
    /// No secret: nothing is encrypted.
    NoSecret,
    /// The key's bytes, derived from a password.
    Password(Vec<u8>),
    /// The path of a key file.
    Key(String),
}

impl Default for EncryptionSecret {
    fn default() -> (res: Self)
        ensures
            res is NoSecret,
    {
        EncryptionSecret::NoSecret
    }
}

/// The encryption algorithm of a run.
#[derive(Clone, Copy, Debug, PartialEq, Eq, Structural)]
pub enum EncryptionType {
    Passthrough,
    XChaCha,
    AesGcm,
    ChaCha,
}

impl Default for EncryptionType {
    fn default() -> (res: Self)
        ensures
            res is Passthrough,
    {
        EncryptionType::Passthrough
    }
}

} // verus!
