//! The encryption layers as constructors that can be bound to those of the
//! other layers: each takes the medium, or the failure to open it, and
//! gives the layer, or the failure to make it.
use crate::encryption::aead::{check_key, refusal, Cipher, KEY_SIZE};
use crate::encryption::aes_gcm_256::{AesGcmAlgorithm, AesGcmEncryptor};
use crate::encryption::chachapoly::{ChaChaPoly, ChaChaPolyAlgorithm};
use crate::encryption::chunked::{open_stream, sealing_onto};
use crate::encryption::passthrough::{DecryptorPassthrough, EncryptorPassthrough};
use crate::encryption::{DecryptionAlgorithm, DecryptorMode, EncryptionAlgorithm, EncryptorMode};
use crate::error::{EncryptorInitError, StreamError};
use crate::stream::{always, appended_onto, Sink, Source};
use vstd::prelude::*;

verus! {

/// What a constructor of encryptors over `cipher` keyed with `psk` owes for
/// the input `input`. The key is looked at first: one that does not fit is
/// refused in the cipher's own words whatever the input is, a failed input
/// included. With a key that fits, a failure is passed on and a medium is
/// wrapped.
pub open spec fn makes_encryptor<T: Sink, E: Sink>(
    cipher: Cipher,
    psk: Seq<u8>,
    input: Result<T, StreamError>,
    output: Result<E, StreamError>,
) -> bool {
    if psk.len() != KEY_SIZE {
        output matches Err(StreamError::Init(EncryptorInitError::AlgorithmError(text))) && text@ == refusal(cipher)
    } else {
        match input {
            Err(e) => output == Err::<E, StreamError>(e),
            Ok(writer) => output matches Ok(enc) && {
                &&& enc.wf()
                &&& enc.accepted() == Seq::<u8>::empty()
                &&& !enc.reliable()
                &&& enc.finishes() == always(false)
                &&& enc.encoding() == sealing_onto(cipher, psk, writer.accepted())
            },
        }
    }
}

/// What a constructor of decryptors over `cipher` keyed with `psk` owes for
/// the input `input`. The key is looked at first, as for encryptors.
pub open spec fn makes_decryptor<T: Source, D: Source>(
    cipher: Cipher,
    psk: Seq<u8>,
    input: Result<T, StreamError>,
    output: Result<D, StreamError>,
) -> bool {
    if psk.len() != KEY_SIZE {
        output matches Err(StreamError::Init(EncryptorInitError::AlgorithmError(text))) && text@ == refusal(cipher)
    } else {
        match input {
            Err(e) => output == Err::<D, StreamError>(e),
            Ok(reader) => output matches Ok(dec) && {
                &&& dec.wf()
                &&& (dec.remaining(), dec.fails()) == open_stream(cipher, psk, reader.remaining(), reader.fails())
            },
        }
    }
}

/// The constructor of ChaCha20-Poly1305 encryptors keyed with `psk`.
///
/// It takes no nonce: an encryptor draws a nonce for every chunk it seals,
/// so that none is used twice under one key.
pub fn chacha20poly1305<T: Sink>(psk: Vec<u8>) -> (make: impl Fn(Result<T, StreamError>) -> Result<
    ChaChaPoly<T, EncryptorMode>,
    StreamError,
>)
    ensures
        forall|input: Result<T, StreamError>| (input matches Ok(writer) ==> writer.wf()) ==> #[trigger] call_requires(make, (input,)),
        forall|input: Result<T, StreamError>, output: Result<ChaChaPoly<T, EncryptorMode>, StreamError>|
            #[trigger] call_ensures(make, (input,), output) ==> makes_encryptor(Cipher::ChaCha20Poly1305, psk@, input, output),
{
    let key = psk.clone();
    let algorithm = ChaChaPolyAlgorithm::new().with_key(psk);
    move |x: Result<T, StreamError>| -> (res: Result<ChaChaPoly<T, EncryptorMode>, StreamError>)
        requires
            x matches Ok(writer) ==> writer.wf(),
        ensures
            makes_encryptor(Cipher::ChaCha20Poly1305, key@, x, res),
        {
            match check_key(Cipher::ChaCha20Poly1305, key.as_slice()) {
                Err(text) => Err(StreamError::Init(EncryptorInitError::AlgorithmError(text))),
                Ok(()) => match x {
                    Err(e) => Err(e),
                    Ok(writer) => match algorithm.encryptor(writer) {
                        Ok(enc) => Ok(enc),
                        Err(e) => Err(StreamError::Init(e)),
                    },
                },
            }
        }
}

/// The constructor of AES-256-GCM encryptors keyed with `psk`.
///
/// It takes no nonce: an encryptor draws a nonce for every chunk it seals,
/// so that none is used twice under one key.
pub fn aes256<T: Sink>(psk: Vec<u8>) -> (make: impl Fn(Result<T, StreamError>) -> Result<
    AesGcmEncryptor<T, EncryptorMode>,
    StreamError,
>)
    ensures
        forall|input: Result<T, StreamError>| (input matches Ok(writer) ==> writer.wf()) ==> #[trigger] call_requires(make, (input,)),
        forall|input: Result<T, StreamError>, output: Result<AesGcmEncryptor<T, EncryptorMode>, StreamError>|
            #[trigger] call_ensures(make, (input,), output) ==> makes_encryptor(Cipher::Aes256Gcm, psk@, input, output),
{
    let key = psk.clone();
    let algorithm = AesGcmAlgorithm::new().with_key(psk);
    move |x: Result<T, StreamError>| -> (res: Result<AesGcmEncryptor<T, EncryptorMode>, StreamError>)
        requires
            x matches Ok(writer) ==> writer.wf(),
        ensures
            makes_encryptor(Cipher::Aes256Gcm, key@, x, res),
        {
            match check_key(Cipher::Aes256Gcm, key.as_slice()) {
                Err(text) => Err(StreamError::Init(EncryptorInitError::AlgorithmError(text))),
                Ok(()) => match x {
                    Err(e) => Err(e),
                    Ok(writer) => match algorithm.encryptor(writer) {
                        Ok(enc) => Ok(enc),
                        Err(e) => Err(StreamError::Init(e)),
                    },
                },
            }
        }
}

/// The constructor of encryptors that encrypt nothing.
pub fn encryption_passthrough<T: Sink>() -> (make: impl Fn(Result<T, StreamError>) -> Result<
    EncryptorPassthrough<T>,
    StreamError,
>)
    ensures
        forall|input: Result<T, StreamError>| (input matches Ok(writer) ==> writer.wf()) ==> #[trigger] call_requires(make, (input,)),
        forall|input: Result<T, StreamError>, output: Result<EncryptorPassthrough<T>, StreamError>|
            #[trigger] call_ensures(make, (input,), output) ==> match input {
                Err(e) => output == Err::<EncryptorPassthrough<T>, StreamError>(e),
                Ok(writer) => output matches Ok(enc) && enc.wf() && enc.accepted() == Seq::<u8>::empty()
                    && enc.reliable() == writer.reliable() && enc.finishes() == always(writer.reliable())
                    && enc.encoding() == appended_onto(writer.accepted()),
            },
{
    move |x: Result<T, StreamError>| -> (res: Result<EncryptorPassthrough<T>, StreamError>)
        requires
            x matches Ok(writer) ==> writer.wf(),
        ensures
            match x {
                Err(e) => res == Err::<EncryptorPassthrough<T>, StreamError>(e),
                Ok(writer) => res matches Ok(enc) && enc.wf() && enc.accepted() == Seq::<u8>::empty()
                    && enc.reliable() == writer.reliable() && enc.finishes() == always(writer.reliable())
                    && enc.encoding() == appended_onto(writer.accepted()),
            },
        {
            match x {
                Err(e) => Err(e),
                Ok(writer) => Ok(EncryptorPassthrough::new(writer)),
            }
        }
}

/// The constructor of AES-256-GCM decryptors keyed with `psk`.
///
/// It takes no nonce: a decryptor finds the nonce of every chunk in front of
/// it on the wire.
pub fn aes256_r<T: Source>(psk: Vec<u8>) -> (make: impl Fn(Result<T, StreamError>) -> Result<
    AesGcmEncryptor<T, DecryptorMode>,
    StreamError,
>)
    ensures
        forall|input: Result<T, StreamError>| (input matches Ok(reader) ==> reader.wf()) ==> #[trigger] call_requires(make, (input,)),
        forall|input: Result<T, StreamError>, output: Result<AesGcmEncryptor<T, DecryptorMode>, StreamError>|
            #[trigger] call_ensures(make, (input,), output) ==> makes_decryptor(Cipher::Aes256Gcm, psk@, input, output),
{
    let key = psk.clone();
    let algorithm = AesGcmAlgorithm::new().with_key(psk);
    move |x: Result<T, StreamError>| -> (res: Result<AesGcmEncryptor<T, DecryptorMode>, StreamError>)
        requires
            x matches Ok(reader) ==> reader.wf(),
        ensures
            makes_decryptor(Cipher::Aes256Gcm, key@, x, res),
        {
            match check_key(Cipher::Aes256Gcm, key.as_slice()) {
                Err(text) => Err(StreamError::Init(EncryptorInitError::AlgorithmError(text))),
                Ok(()) => match x {
                    Err(e) => Err(e),
                    Ok(reader) => match algorithm.decryptor(reader) {
                        Ok(dec) => Ok(dec),
                        Err(e) => Err(StreamError::Init(e)),
                    },
                },
            }
        }
}

/// The constructor of decryptors that decrypt nothing.
pub fn decryption_passthrough<T: Source>() -> (make: impl Fn(Result<T, StreamError>) -> Result<
    DecryptorPassthrough<T>,
    StreamError,
>)
    ensures
        forall|input: Result<T, StreamError>| (input matches Ok(reader) ==> reader.wf()) ==> #[trigger] call_requires(make, (input,)),
        forall|input: Result<T, StreamError>, output: Result<DecryptorPassthrough<T>, StreamError>|
            #[trigger] call_ensures(make, (input,), output) ==> match input {
                Err(e) => output == Err::<DecryptorPassthrough<T>, StreamError>(e),
                Ok(reader) => output matches Ok(dec) && dec.wf() && dec.remaining() == reader.remaining()
                    && dec.fails() == reader.fails(),
            },
{
    move |x: Result<T, StreamError>| -> (res: Result<DecryptorPassthrough<T>, StreamError>)
        requires
            x matches Ok(reader) ==> reader.wf(),
        ensures
            match x {
                Err(e) => res == Err::<DecryptorPassthrough<T>, StreamError>(e),
                Ok(reader) => res matches Ok(dec) && dec.wf() && dec.remaining() == reader.remaining()
                    && dec.fails() == reader.fails(),
            },
        {
            match x {
                Err(e) => Err(e),
                Ok(reader) => Ok(DecryptorPassthrough::new(reader)),
            }
        }
}

} // verus!
