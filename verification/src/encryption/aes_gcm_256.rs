//! AES-256-GCM over a stream: chunks of 8192 bytes, each under a fresh nonce
//! of 12 bytes.
//!
//! The nonce of a chunk is drawn at random, not counted up from the one
//! before: a counter would have to be shared by every file that is worked on
//! at the same time. With 96 bits of nonce this asks that no key seals more
//! than about 2^32 chunks. XChaCha20-Poly1305, with 192 bits, is the better
//! choice where that may happen.
//!
//! On the wire a chunk is `[ nonce: 12 ][ ciphertext: up to 8192 ][ tag: 16 ]`.
use crate::encryption::aead::{check_key, refusal, Cipher, CHUNK_SIZE, KEY_SIZE};
use crate::encryption::chunked::{
    after_next, holds_back, next_plain, open_stream, pending_plain, refill, seal_full_chunks, seal_rest, sealing_onto, take_front,
};
use crate::encryption::{
    DecryptionAlgorithm, DecryptionModule, DecryptorMode, EncryptionAlgorithm, EncryptionModule, EncryptorMode,
};
use crate::error::{EncryptorInitError, StreamError};
use crate::stream::{always, Sink, Source};
use std::marker::PhantomData;
use vstd::prelude::*;

verus! {

/// AES-256-GCM, with its key once `with_key` has been called.
pub struct AesGcmAlgorithm<T, V> {
    key: T,
    /// Kept for a tag that is stored apart from the stream; unused so far.
    tag: V,
}

impl AesGcmAlgorithm<(), ()> {
    /// The algorithm, still without a key.
    pub fn new() -> AesGcmAlgorithm<(), ()> {
        AesGcmAlgorithm { key: (), tag: () }
    }
}

impl Default for AesGcmAlgorithm<(), ()> {
    fn default() -> Self {
        Self::new()
    }
}

impl<T, V> AesGcmAlgorithm<T, V> {
    /// The algorithm with `key`, its tag as it was. Whether the key fits
    /// shows when an encryptor or a decryptor is asked for.
    pub fn with_key(self, key: Vec<u8>) -> (res: AesGcmAlgorithm<Vec<u8>, V>)
        ensures
            res.key_value() == key,
            res.tag_value() == self.tag_value(),
    {
        AesGcmAlgorithm { key, tag: self.tag }
    }

    /// The algorithm with `tag`, its key as it was.
    pub fn with_tag(self, tag: Vec<u8>) -> (res: AesGcmAlgorithm<T, Vec<u8>>)
        ensures
            res.key_value() == self.key_value(),
            res.tag_value() == tag,
    {
        AesGcmAlgorithm { key: self.key, tag }
    }

    /// What stands in the key's place.
    pub closed spec fn key_value(&self) -> T {
        self.key
    }

    /// What stands in the tag's place.
    pub closed spec fn tag_value(&self) -> V {
        self.tag
    }
}

impl<V> AesGcmAlgorithm<Vec<u8>, V> {
    /// The key's bytes: those of `key_value`.
    pub open spec fn key_bytes(&self) -> Seq<u8> {
        self.key_value()@
    }
}

impl<T> AesGcmAlgorithm<T, Vec<u8>> {
    /// The tag's bytes: those of `tag_value`.
    pub open spec fn tag_bytes(&self) -> Seq<u8> {
        self.tag_value()@
    }
}

impl<T: Sink> EncryptionAlgorithm<T> for AesGcmAlgorithm<Vec<u8>, ()> {
    type Encryptor = AesGcmEncryptor<T, EncryptorMode>;

    open spec fn dependable(&self) -> bool {
        false
    }

    open spec fn can_encrypt(&self) -> bool {
        self.key_bytes().len() == KEY_SIZE
    }

    open spec fn sealing(&self, before: Seq<u8>) -> spec_fn(Seq<u8>, Seq<u8>) -> bool {
        sealing_onto(Cipher::Aes256Gcm, self.key_bytes(), before)
    }

    /// Fails with `EncryptorInitError::AlgorithmError`, in the cipher's own
    /// words, where the key is not 32 bytes long.
    fn encryptor(&self, writer: T) -> (res: Result<AesGcmEncryptor<T, EncryptorMode>, EncryptorInitError>)
        ensures
            res matches Err(e) ==> e matches EncryptorInitError::AlgorithmError(text) && text@ == refusal(
                Cipher::Aes256Gcm,
            ),
            res matches Ok(enc) ==> {
                &&& enc.held() == Seq::<u8>::empty()
                &&& enc.medium() == writer.accepted()
                &&& enc.medium_reliable() == writer.reliable()
            },
    {
        match check_key(Cipher::Aes256Gcm, self.key.as_slice()) {
            Ok(()) => {},
            Err(refusal) => {
                return Err(EncryptorInitError::AlgorithmError(refusal));
            },
        }
        let ghost before = writer.accepted();
        proof {
            assert(before.take(before.len() as int) =~= before);
            assert(before.skip(before.len() as int) =~= Seq::<u8>::empty());
        }
        let enc = AesGcmEncryptor {
            key: self.key.clone(),
            internal_buffer: Vec::new(),
            io: writer,
            before: Ghost(before),
            done: Ghost(Seq::empty()),
            mode: PhantomData,
        };
        assert(enc.accepted() =~= Seq::<u8>::empty());
        Ok(enc)
    }
}

impl<T: Source> DecryptionAlgorithm<T> for AesGcmAlgorithm<Vec<u8>, ()> {
    type Decryptor = AesGcmEncryptor<T, DecryptorMode>;

    open spec fn can_decrypt(&self) -> bool {
        self.key_bytes().len() == KEY_SIZE
    }

    open spec fn opening(&self, wire: Seq<u8>, cut: bool) -> (Seq<u8>, bool) {
        open_stream(Cipher::Aes256Gcm, self.key_bytes(), wire, cut)
    }

    /// Fails with `EncryptorInitError::AlgorithmError`, in the cipher's own
    /// words, where the key is not 32 bytes long.
    fn decryptor(&self, reader: T) -> (res: Result<AesGcmEncryptor<T, DecryptorMode>, EncryptorInitError>)
        ensures
            res matches Err(e) ==> e matches EncryptorInitError::AlgorithmError(text) && text@ == refusal(
                Cipher::Aes256Gcm,
            ),
            res matches Ok(dec) ==> {
                &&& dec.key() == self.key_bytes()
                &&& dec.on_hand() == Seq::<u8>::empty()
                &&& dec.wire() == reader.remaining()
                &&& dec.medium_fails() == reader.fails()
            },
    {
        match check_key(Cipher::Aes256Gcm, self.key.as_slice()) {
            Ok(()) => {},
            Err(refusal) => {
                return Err(EncryptorInitError::AlgorithmError(refusal));
            },
        }
        let dec = AesGcmEncryptor {
            key: self.key.clone(),
            internal_buffer: Vec::new(),
            io: reader,
            before: Ghost(Seq::empty()),
            done: Ghost(Seq::empty()),
            mode: PhantomData,
        };
        assert(dec.remaining() =~= pending_plain(Cipher::Aes256Gcm, self.key_bytes(), &reader).0);
        assert(dec.on_hand() =~= Seq::<u8>::empty());
        Ok(dec)
    }
}

/// The adapter: an encryptor over a sink, or a decryptor over a source.
pub struct AesGcmEncryptor<T, M> {
    key: Vec<u8>,
    /// Plaintext not yet sealed, or plaintext opened and not yet delivered.
    internal_buffer: Vec<u8>,
    io: T,
    /// What the medium held when the encryptor was made.
    before: Ghost<Seq<u8>>,
    /// The plaintext sealed so far.
    done: Ghost<Seq<u8>>,
    mode: PhantomData<M>,
}

impl<T: Sink> Sink for AesGcmEncryptor<T, EncryptorMode> {
    closed spec fn wf(&self) -> bool {
        &&& self.key@.len() == KEY_SIZE
        &&& self.io.wf()
        &&& self.done@.len() % (CHUNK_SIZE as nat) == 0
        &&& self.internal_buffer@.len() <= CHUNK_SIZE
        &&& self.done@.len() > 0 ==> self.internal_buffer@.len() > 0
        &&& sealing_onto(Cipher::Aes256Gcm, self.key@, self.before@)(self.done@, self.io.accepted())
    }

    closed spec fn accepted(&self) -> Seq<u8> {
        self.done@ + self.internal_buffer@
    }

    closed spec fn reliable(&self) -> bool {
        false
    }

    closed spec fn flushed(&self) -> bool {
        self.io.flushed()
    }

    closed spec fn finishes(&self) -> spec_fn(Seq<u8>) -> bool {
        always(false)
    }

    closed spec fn encoding(&self) -> spec_fn(Seq<u8>, Seq<u8>) -> bool {
        sealing_onto(Cipher::Aes256Gcm, self.key@, self.before@)
    }

    /// Takes all of `buf`. As long as more than one chunk is held, a chunk
    /// is sealed under a fresh nonce and written on; what is left, one chunk
    /// at most, waits for more or for `finalise`. Nothing can fail while no
    /// chunk is sealed.
    fn write(&mut self, buf: &[u8]) -> (res: Result<usize, StreamError>)
        ensures
            old(self).held().len() + buf@.len() <= CHUNK_SIZE ==> res is Ok,
            res matches Err(e) ==> e is Encryption || !old(self).medium_reliable(),
            res is Ok ==> final(self).medium_reliable() == old(self).medium_reliable(),
            res matches Ok(n) ==> n == buf@.len() && holds_back(
                final(self).accepted(),
                final(self).held(),
                final(self).medium(),
                final(self).encoding(),
            ),
    {
        self.internal_buffer.extend_from_slice(buf);
        let sealed = seal_full_chunks(
            Cipher::Aes256Gcm,
            self.key.as_slice(),
            &mut self.internal_buffer,
            &mut self.io,
            Ghost(self.before@),
            Ghost(self.done@),
        );
        match sealed {
            Ok(now) => {
                self.done = now;
                proof {
                    assert(buf@.take(buf@.len() as int) =~= buf@);
                    assert(self.accepted() =~= old(self).accepted() + buf@);
                    self.lemma_holds_back();
                }
                Ok(buf.len())
            },
            Err(e) => Err(e),
        }
    }

    /// Flushes the medium. Seals nothing.
    fn flush(&mut self) -> (res: Result<(), StreamError>)
        ensures
            old(self).medium_reliable() ==> res is Ok,
            res is Ok ==> {
                &&& final(self).held() == old(self).held()
                &&& final(self).medium() == old(self).medium()
                &&& final(self).medium_reliable() == old(self).medium_reliable()
            },
    {
        self.io.flush()
    }
}

impl<T: Sink> AesGcmEncryptor<T, EncryptorMode> {
    /// The plaintext accepted and not yet sealed.
    pub closed spec fn held(&self) -> Seq<u8> {
        self.internal_buffer@
    }

    /// What the medium has accepted so far.
    pub closed spec fn medium(&self) -> Seq<u8> {
        self.io.accepted()
    }

    /// Whether no write to the medium and no flush of it fails.
    pub closed spec fn medium_reliable(&self) -> bool {
        self.io.reliable()
    }

    /// An encryptor that is usable holds back as `holds_back` has it.
    pub proof fn lemma_holds_back(&self)
        requires
            self.wf(),
        ensures
            holds_back(self.accepted(), self.held(), self.medium(), self.encoding()),
    {
        let total = self.done@ + self.internal_buffer@;
        assert(total.skip(total.len() - self.internal_buffer@.len()) =~= self.internal_buffer@);
        assert(total.take(total.len() - self.internal_buffer@.len()) =~= self.done@);
    }
}

impl<T: Sink> EncryptionModule for AesGcmEncryptor<T, EncryptorMode> {
    type Io = T;

    /// Seals what is left, be it less than a chunk, and flushes the medium.
    /// Where no nonce can be had for it, `StreamError::Encryption` comes
    /// back; with nothing left to seal, only the medium can fail.
    fn finalise(self) -> (res: Result<T, StreamError>)
        ensures
            self.held().len() == 0 && self.medium_reliable() ==> res is Ok,
            res matches Err(e) ==> e is Encryption || !self.medium_reliable(),
    {
        let mut io = self.io;
        match seal_rest(
            Cipher::Aes256Gcm,
            self.key.as_slice(),
            self.internal_buffer,
            &mut io,
            Ghost(self.before@),
            Ghost(self.done@),
        ) {
            Ok(()) => Ok(io),
            Err(e) => Err(e),
        }
    }
}

impl<T: Source> Source for AesGcmEncryptor<T, DecryptorMode> {
    closed spec fn wf(&self) -> bool {
        self.key@.len() == KEY_SIZE && self.io.wf()
    }

    open spec fn remaining(&self) -> Seq<u8> {
        self.on_hand() + open_stream(Cipher::Aes256Gcm, self.key(), self.wire(), self.medium_fails()).0
    }

    open spec fn fails(&self) -> bool {
        open_stream(Cipher::Aes256Gcm, self.key(), self.wire(), self.medium_fails()).1
    }

    /// Delivers opened plaintext: as much as is asked for, or all that is on
    /// hand if that is less. Where none is on hand, the next chunk that
    /// holds any is taken from the medium first and opened. A chunk that
    /// fails authentication gives `StreamError::Decryption`, and no byte of
    /// it is delivered; the decryptor then stands at the chunk behind it, so
    /// that the chunks that follow are judged each on its own.
    fn read(&mut self, max: usize) -> (res: Result<Vec<u8>, StreamError>)
        ensures
            res is Err <==> old(self).remaining().len() == 0 && old(self).fails(),
            res matches Err(e) ==> e is Decryption || old(self).medium_fails(),
            res is Err && !old(self).medium_fails() ==> {
                &&& final(self).wf()
                &&& final(self).on_hand() == Seq::<u8>::empty()
                &&& final(self).wire() == after_next(Cipher::Aes256Gcm, old(self).key(), old(self).wire(), false)
                &&& final(self).key() == old(self).key()
                &&& !final(self).medium_fails()
            },
            res matches Ok(data) ==> {
                let at_hand = if old(self).on_hand().len() > 0 {
                    old(self).on_hand()
                } else {
                    old(self).next_chunk()
                };
                &&& data@.len() == if max <= at_hand.len() {
                    max as int
                } else {
                    at_hand.len() as int
                }
                &&& data@ == at_hand.take(data@.len() as int)
                &&& final(self).on_hand() == at_hand.skip(data@.len() as int)
                &&& final(self).wire() == if old(self).on_hand().len() > 0 {
                    old(self).wire()
                } else {
                    after_next(Cipher::Aes256Gcm, old(self).key(), old(self).wire(), old(self).medium_fails())
                }
                &&& final(self).key() == old(self).key()
                &&& final(self).medium_fails() == old(self).medium_fails()
            },
    {
        if self.internal_buffer.len() == 0 {
            match refill(Cipher::Aes256Gcm, self.key.as_slice(), &mut self.internal_buffer, &mut self.io) {
                Ok(()) => {},
                Err(e) => {
                    assert(old(self).remaining() =~= Seq::<u8>::empty());
                    return Err(e);
                },
            }
        }
        assert(self.remaining() =~= old(self).remaining());
        let ghost plain = pending_plain(Cipher::Aes256Gcm, self.key@, &self.io).0;
        let ghost held = self.internal_buffer@;
        let out = take_front(&mut self.internal_buffer, max);
        assert(out@ =~= (held + plain).take(out@.len() as int));
        assert(self.remaining() =~= (held + plain).skip(out@.len() as int));
        Ok(out)
    }
}

impl<T: Source> AesGcmEncryptor<T, DecryptorMode> {
    /// The key's bytes.
    pub closed spec fn key(&self) -> Seq<u8> {
        self.key@
    }

    /// The plaintext that was opened and is not yet delivered.
    pub closed spec fn on_hand(&self) -> Seq<u8> {
        self.internal_buffer@
    }

    /// What the medium will still deliver.
    pub closed spec fn wire(&self) -> Seq<u8> {
        self.io.remaining()
    }

    /// Whether the medium ends in an error of its own.
    pub closed spec fn medium_fails(&self) -> bool {
        self.io.fails()
    }

    /// The plaintext that comes on hand next, once there is none: that of
    /// the next chunk of the wire that holds any.
    pub open spec fn next_chunk(&self) -> Seq<u8> {
        next_plain(Cipher::Aes256Gcm, self.key(), self.wire(), self.medium_fails())
    }
}

impl<T: Source> DecryptionModule for AesGcmEncryptor<T, DecryptorMode> {
    fn finalise(self) -> (res: Result<(), StreamError>) {
        Ok(())
    }
}

} // verus!
