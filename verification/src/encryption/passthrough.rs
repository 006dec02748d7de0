//! The encryption layer that encrypts nothing.
use crate::encryption::{DecryptionAlgorithm, DecryptionModule, EncryptionAlgorithm, EncryptionModule};
use crate::error::{EncryptorInitError, StreamError};
use crate::stream::{always, appended_onto, grown_from, Sink, Source};
use vstd::prelude::*;
use vstd::std_specs::convert::FromSpecImpl;

verus! {

/// The algorithm that leaves every byte as it is.
pub struct EncryptionPassthrough {}

impl EncryptionPassthrough {
    pub fn new() -> Self {
        EncryptionPassthrough {  }
    }
}

impl Default for EncryptionPassthrough {
    fn default() -> Self {
        EncryptionPassthrough::new()
    }
}

/// A sink that hands on what it accepts, unchanged.
pub struct EncryptorPassthrough<T> {
    inner: T,
    /// What `inner` had accepted when it was wrapped.
    before: Ghost<Seq<u8>>,
}

impl<T: Sink> EncryptorPassthrough<T> {
    /// The wrapper around `writer` that has accepted nothing yet.
    pub closed spec fn wrapping(writer: T) -> Self {
        EncryptorPassthrough { inner: writer, before: Ghost(writer.accepted()) }
    }

    pub fn new(writer: T) -> (res: Self)
        ensures
            res == Self::wrapping(writer),
            writer.wf() ==> res.wf(),
            res.accepted() == Seq::<u8>::empty(),
            res.reliable() == writer.reliable(),
            res.finishes() == always(writer.reliable()),
            res.encoding() == appended_onto(writer.accepted()),
    {
        let ghost before = writer.accepted();
        let res = EncryptorPassthrough { inner: writer, before: Ghost(before) };
        proof {
            assert(before.take(before.len() as int) =~= before);
            assert(res.accepted() =~= Seq::<u8>::empty());
        }
        res
    }
}

impl<T: Sink> From<T> for EncryptorPassthrough<T> {
    fn from(writer: T) -> (res: Self) {
        EncryptorPassthrough::new(writer)
    }
}

impl<T: Sink> FromSpecImpl<T> for EncryptorPassthrough<T> {
    open spec fn obeys_from_spec() -> bool {
        true
    }

    open spec fn from_spec(writer: T) -> Self {
        Self::wrapping(writer)
    }
}

impl<T: Sink> Sink for EncryptorPassthrough<T> {
    closed spec fn wf(&self) -> bool {
        self.inner.wf() && grown_from(&self.inner, self.before@)
    }

    closed spec fn accepted(&self) -> Seq<u8> {
        self.inner.accepted().skip(self.before@.len() as int)
    }

    closed spec fn reliable(&self) -> bool {
        self.inner.reliable()
    }

    closed spec fn flushed(&self) -> bool {
        self.inner.flushed()
    }

    closed spec fn finishes(&self) -> spec_fn(Seq<u8>) -> bool {
        always(self.inner.reliable())
    }

    closed spec fn encoding(&self) -> spec_fn(Seq<u8>, Seq<u8>) -> bool {
        appended_onto(self.before@)
    }

    fn write(&mut self, buf: &[u8]) -> (res: Result<usize, StreamError>) {
        let res = self.inner.write(buf);
        proof {
            if let Ok(n) = res {
                assert(self.inner.accepted().take(self.before@.len() as int) =~= self.before@);
                assert(self.accepted() =~= old(self).accepted() + buf@.take(n as int));
            }
        }
        res
    }

    /// Flushes the layer beneath.
    fn flush(&mut self) -> (res: Result<(), StreamError>) {
        self.inner.flush()
    }
}

impl<T: Sink> EncryptionModule for EncryptorPassthrough<T> {
    type Io = T;

    /// Flushes the medium and hands it back.
    fn finalise(self) -> (res: Result<T, StreamError>) {
        let mut io = self.inner;
        match io.flush() {
            Ok(()) => {
                assert(io.accepted() =~= self.before@ + self.accepted());
                Ok(io)
            },
            Err(e) => Err(e),
        }
    }
}

/// A source that hands on what it reads, unchanged.
pub struct DecryptorPassthrough<T> {
    inner: T,
}

impl<T: Source> DecryptorPassthrough<T> {
    /// The wrapper around `reader`.
    pub closed spec fn wrapping(reader: T) -> Self {
        DecryptorPassthrough { inner: reader }
    }

    pub fn new(reader: T) -> (res: Self)
        ensures
            res == Self::wrapping(reader),
            reader.wf() ==> res.wf(),
            res.remaining() == reader.remaining(),
            res.fails() == reader.fails(),
    {
        DecryptorPassthrough { inner: reader }
    }
}

impl<T: Source> From<T> for DecryptorPassthrough<T> {
    fn from(reader: T) -> (res: Self) {
        DecryptorPassthrough::new(reader)
    }
}

impl<T: Source> FromSpecImpl<T> for DecryptorPassthrough<T> {
    open spec fn obeys_from_spec() -> bool {
        true
    }

    open spec fn from_spec(reader: T) -> Self {
        Self::wrapping(reader)
    }
}

impl<T: Source> Source for DecryptorPassthrough<T> {
    closed spec fn wf(&self) -> bool {
        self.inner.wf()
    }

    closed spec fn remaining(&self) -> Seq<u8> {
        self.inner.remaining()
    }

    closed spec fn fails(&self) -> bool {
        self.inner.fails()
    }

    fn read(&mut self, max: usize) -> (res: Result<Vec<u8>, StreamError>) {
        self.inner.read(max)
    }
}

impl<T: Source> DecryptionModule for DecryptorPassthrough<T> {
    fn finalise(self) -> (res: Result<(), StreamError>) {
        Ok(())
    }
}

impl<T: Sink> EncryptionAlgorithm<T> for EncryptionPassthrough {
    type Encryptor = EncryptorPassthrough<T>;

    open spec fn dependable(&self) -> bool {
        true
    }

    open spec fn can_encrypt(&self) -> bool {
        true
    }

    open spec fn sealing(&self, before: Seq<u8>) -> spec_fn(Seq<u8>, Seq<u8>) -> bool {
        appended_onto(before)
    }

    fn encryptor(&self, writer: T) -> (res: Result<EncryptorPassthrough<T>, EncryptorInitError>) {
        Ok(EncryptorPassthrough::new(writer))
    }
}

impl<T: Source> DecryptionAlgorithm<T> for EncryptionPassthrough {
    type Decryptor = DecryptorPassthrough<T>;

    open spec fn can_decrypt(&self) -> bool {
        true
    }

    open spec fn opening(&self, wire: Seq<u8>, cut: bool) -> (Seq<u8>, bool) {
        (wire, cut)
    }

    fn decryptor(&self, reader: T) -> (res: Result<DecryptorPassthrough<T>, EncryptorInitError>) {
        Ok(DecryptorPassthrough::new(reader))
    }
}

} // verus!
