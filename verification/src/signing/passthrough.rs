//! The signing layer that signs nothing.
use crate::compression::{Compress, Decompress};
use crate::error::{SignerInitError, StreamError};
use crate::signing::{Sign, SignerMethod, VerifierMethod, Verify};
use crate::stream::{grown_from, handed_on, passed_on, Sink, Source};
use vstd::prelude::*;
use vstd::std_specs::convert::FromSpecImpl;

verus! {

/// The signature of a signer that signs nothing: none, whatever the data.
pub open spec fn no_signature() -> spec_fn(Seq<u8>) -> Option<Seq<u8>> {
    |data: Seq<u8>| None
}

/// The method that makes no signature and passes no judgement.
pub struct SigningPassthrough {}

impl SigningPassthrough {
    pub fn new() -> Self {
        SigningPassthrough {  }
    }
}

impl Default for SigningPassthrough {
    fn default() -> Self {
        Self::new()
    }
}

/// A sink that hands on what it accepts, unchanged.
pub struct SignerPassthrough<T> {
    inner: T,
    /// What `inner` had accepted when it was wrapped.
    before: Ghost<Seq<u8>>,
}

impl<T: Compress> SignerPassthrough<T> {
    /// The wrapper around `writer` that has accepted nothing yet.
    pub closed spec fn wrapping(writer: T) -> Self {
        SignerPassthrough { inner: writer, before: Ghost(writer.accepted()) }
    }

    pub fn new(writer: T) -> (res: Self)
        ensures
            res == Self::wrapping(writer),
            writer.wf() ==> res.wf(),
            res.accepted() == Seq::<u8>::empty(),
            res.reliable() == writer.reliable(),
            res.finishes() == handed_on(writer.finishes(), writer.accepted()),
            res.encoding() == passed_on(writer.encoding(), writer.accepted()),
            res.signature() == no_signature(),
    {
        let ghost before = writer.accepted();
        let res = SignerPassthrough { inner: writer, before: Ghost(before) };
        proof {
            assert(before.take(before.len() as int) =~= before);
            assert(res.accepted() =~= Seq::<u8>::empty());
        }
        res
    }
}

impl<T: Compress> From<T> for SignerPassthrough<T> {
    fn from(writer: T) -> (res: Self) {
        SignerPassthrough::new(writer)
    }
}

impl<T: Compress> FromSpecImpl<T> for SignerPassthrough<T> {
    open spec fn obeys_from_spec() -> bool {
        true
    }

    open spec fn from_spec(writer: T) -> Self {
        Self::wrapping(writer)
    }
}

impl<T: Compress> Sink for SignerPassthrough<T> {
    closed spec fn wf(&self) -> bool {
        self.inner.wf() && grown_from(&self.inner, self.before@)
    }

    closed spec fn accepted(&self) -> Seq<u8> {
        self.inner.accepted().skip(self.before@.len() as int)
    }

    closed spec fn reliable(&self) -> bool {
        self.inner.reliable()
    }

    closed spec fn flushed(&self) -> bool {
        self.inner.flushed()
    }

    closed spec fn finishes(&self) -> spec_fn(Seq<u8>) -> bool {
        handed_on(self.inner.finishes(), self.before@)
    }

    closed spec fn encoding(&self) -> spec_fn(Seq<u8>, Seq<u8>) -> bool {
        passed_on(self.inner.encoding(), self.before@)
    }

    fn write(&mut self, buf: &[u8]) -> (res: Result<usize, StreamError>) {
        let res = self.inner.write(buf);
        proof {
            if let Ok(n) = res {
                assert(self.inner.accepted().take(self.before@.len() as int) =~= self.before@);
                assert(self.accepted() =~= old(self).accepted() + buf@.take(n as int));
            }
        }
        res
    }

    /// Flushes the layer beneath.
    fn flush(&mut self) -> (res: Result<(), StreamError>) {
        self.inner.flush()
    }
}

impl<T: Compress> Sign for SignerPassthrough<T> {
    type Io = T::Io;

    /// Finalises the layers beneath. There is no signature.
    fn finalise(self) -> (res: Result<(Option<Vec<u8>>, T::Io), StreamError>)
        ensures
            res matches Ok(end) ==> end.0 is None,
    {
        assert(self.inner.accepted() =~= self.before@ + self.accepted());
        match self.inner.finalise() {
            Ok(io) => Ok((None, io)),
            Err(e) => Err(e),
        }
    }
}

/// A source that hands on what it reads, unchanged.
pub struct VerifierPassthrough<T> {
    inner: T,
}

impl<T: Decompress> VerifierPassthrough<T> {
    /// The wrapper around `reader`.
    pub closed spec fn wrapping(reader: T) -> Self {
        VerifierPassthrough { inner: reader }
    }

    pub fn new(reader: T) -> (res: Self)
        ensures
            res == Self::wrapping(reader),
            reader.wf() ==> res.wf(),
            res.remaining() == reader.remaining(),
            res.fails() == reader.fails(),
            res.judgement() is None,
    {
        VerifierPassthrough { inner: reader }
    }
}

impl<T: Decompress> From<T> for VerifierPassthrough<T> {
    fn from(reader: T) -> (res: Self) {
        VerifierPassthrough::new(reader)
    }
}

impl<T: Decompress> FromSpecImpl<T> for VerifierPassthrough<T> {
    open spec fn obeys_from_spec() -> bool {
        true
    }

    open spec fn from_spec(reader: T) -> Self {
        Self::wrapping(reader)
    }
}

impl<T: Decompress> Source for VerifierPassthrough<T> {
    closed spec fn wf(&self) -> bool {
        self.inner.wf()
    }

    closed spec fn remaining(&self) -> Seq<u8> {
        self.inner.remaining()
    }

    closed spec fn fails(&self) -> bool {
        self.inner.fails()
    }

    fn read(&mut self, max: usize) -> (res: Result<Vec<u8>, StreamError>) {
        self.inner.read(max)
    }
}

impl<T: Decompress> Verify for VerifierPassthrough<T> {
    /// Finalises the layers beneath. There is no judgement.
    fn finalise(self) -> (res: Result<Option<Vec<u8>>, StreamError>)
        ensures
            res matches Ok(judgement) ==> judgement is None,
    {
        match self.inner.finalise() {
            Ok(()) => Ok(None),
            Err(e) => Err(e),
        }
    }
}

impl<T: Compress> SignerMethod<T> for SigningPassthrough {
    type Signer = SignerPassthrough<T>;

    open spec fn steady(&self, beneath_reliable: bool) -> bool {
        beneath_reliable
    }

    open spec fn finishing(&self, beneath_reliable: bool, beneath: spec_fn(Seq<u8>) -> bool, before: Seq<u8>) -> spec_fn(
        Seq<u8>,
    ) -> bool {
        handed_on(beneath, before)
    }

    open spec fn signature(&self) -> spec_fn(Seq<u8>) -> Option<Seq<u8>> {
        no_signature()
    }

    open spec fn signing(&self, beneath: spec_fn(Seq<u8>, Seq<u8>) -> bool, before: Seq<u8>) -> spec_fn(
        Seq<u8>,
        Seq<u8>,
    ) -> bool {
        passed_on(beneath, before)
    }

    fn signer(&self, writer: T) -> (res: Result<SignerPassthrough<T>, SignerInitError>) {
        Ok(SignerPassthrough::new(writer))
    }
}

impl<T: Decompress> VerifierMethod<T> for SigningPassthrough {
    type Verifier = VerifierPassthrough<T>;

    open spec fn verifying(&self, wire: Seq<u8>, cut: bool) -> (Seq<u8>, bool) {
        (wire, cut)
    }

    open spec fn judging(&self, wire: Seq<u8>) -> Option<Seq<u8>> {
        None
    }

    fn verifier_over(&self, reader: T) -> (res: Result<VerifierPassthrough<T>, SignerInitError>) {
        Ok(VerifierPassthrough::new(reader))
    }
}

} // verus!
