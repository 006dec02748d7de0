//! The compression layer that compresses nothing.
use crate::compression::{Compress, CompressionAlgorithm, Decompress, DecompressionAlgorithm};
use crate::encryption::{DecryptionModule, EncryptionModule};
use crate::error::{CompressorInitError, StreamError};
use crate::stream::{grown_from, handed_on, passed_on, Sink, Source};
use vstd::prelude::*;

verus! {

/// The algorithm that leaves every byte as it is.
pub struct PassthroughAlgorithm {}

impl<T: EncryptionModule> CompressionAlgorithm<T> for PassthroughAlgorithm {
    type Compressor = PassthroughCompressor<T>;

    open spec fn steady(&self, beneath_reliable: bool) -> bool {
        beneath_reliable
    }

    open spec fn finishing(&self, beneath_reliable: bool, beneath: spec_fn(Seq<u8>) -> bool, before: Seq<u8>) -> spec_fn(
        Seq<u8>,
    ) -> bool {
        handed_on(beneath, before)
    }

    open spec fn packing(&self, beneath: spec_fn(Seq<u8>, Seq<u8>) -> bool, before: Seq<u8>) -> spec_fn(
        Seq<u8>,
        Seq<u8>,
    ) -> bool {
        passed_on(beneath, before)
    }

    fn compressor(&self, io: T) -> (res: Result<PassthroughCompressor<T>, CompressorInitError>) {
        Ok(PassthroughCompressor::new(io))
    }
}

impl<T: DecryptionModule> DecompressionAlgorithm<T> for PassthroughAlgorithm {
    type Decompressor = PassthroughDeompressor<T>;

    open spec fn unpacking(&self, wire: Seq<u8>, cut: bool) -> (Seq<u8>, bool) {
        (wire, cut)
    }

    fn decompressor(&self, io: T) -> (res: Result<PassthroughDeompressor<T>, CompressorInitError>) {
        Ok(PassthroughDeompressor::new(io))
    }
}

impl PassthroughAlgorithm {
    pub fn new() -> PassthroughAlgorithm {
        PassthroughAlgorithm {  }
    }
}

impl Default for PassthroughAlgorithm {
    fn default() -> Self {
        Self::new()
    }
}

/// A sink that hands on what it accepts, unchanged.
pub struct PassthroughCompressor<T> {
    inner: T,
    /// What `inner` had accepted when it was wrapped.
    before: Ghost<Seq<u8>>,
}

impl<T: EncryptionModule> PassthroughCompressor<T> {
    pub fn new(io: T) -> (res: Self)
        ensures
            io.wf() ==> res.wf(),
            res.accepted() == Seq::<u8>::empty(),
            res.reliable() == io.reliable(),
            res.finishes() == handed_on(io.finishes(), io.accepted()),
            res.encoding() == passed_on(io.encoding(), io.accepted()),
    {
        let ghost before = io.accepted();
        let res = PassthroughCompressor { inner: io, before: Ghost(before) };
        proof {
            assert(before.take(before.len() as int) =~= before);
            assert(res.accepted() =~= Seq::<u8>::empty());
        }
        res
    }
}

impl<T: EncryptionModule> Sink for PassthroughCompressor<T> {
    closed spec fn wf(&self) -> bool {
        self.inner.wf() && grown_from(&self.inner, self.before@)
    }

    closed spec fn accepted(&self) -> Seq<u8> {
        self.inner.accepted().skip(self.before@.len() as int)
    }

    closed spec fn reliable(&self) -> bool {
        self.inner.reliable()
    }

    closed spec fn flushed(&self) -> bool {
        self.inner.flushed()
    }

    closed spec fn finishes(&self) -> spec_fn(Seq<u8>) -> bool {
        handed_on(self.inner.finishes(), self.before@)
    }

    closed spec fn encoding(&self) -> spec_fn(Seq<u8>, Seq<u8>) -> bool {
        passed_on(self.inner.encoding(), self.before@)
    }

    fn write(&mut self, buf: &[u8]) -> (res: Result<usize, StreamError>) {
        let res = self.inner.write(buf);
        proof {
            if let Ok(n) = res {
                assert(self.inner.accepted().take(self.before@.len() as int) =~= self.before@);
                assert(self.accepted() =~= old(self).accepted() + buf@.take(n as int));
            }
        }
        res
    }

    /// Flushes the layer beneath.
    fn flush(&mut self) -> (res: Result<(), StreamError>) {
        self.inner.flush()
    }
}

impl<T: EncryptionModule> Compress for PassthroughCompressor<T> {
    type Io = T::Io;

    /// Finalises the layer beneath.
    fn finalise(self) -> (res: Result<T::Io, StreamError>) {
        assert(self.inner.accepted() =~= self.before@ + self.accepted());
        self.inner.finalise()
    }
}

/// A source that hands on what it reads, unchanged.
pub struct PassthroughDeompressor<T> {
    inner: T,
}

impl<T: DecryptionModule> PassthroughDeompressor<T> {
    pub fn new(io: T) -> (res: Self)
        ensures
            io.wf() ==> res.wf(),
            res.remaining() == io.remaining(),
            res.fails() == io.fails(),
    {
        PassthroughDeompressor { inner: io }
    }
}

impl<T: DecryptionModule> Source for PassthroughDeompressor<T> {
    closed spec fn wf(&self) -> bool {
        self.inner.wf()
    }

    closed spec fn remaining(&self) -> Seq<u8> {
        self.inner.remaining()
    }

    closed spec fn fails(&self) -> bool {
        self.inner.fails()
    }

    fn read(&mut self, max: usize) -> (res: Result<Vec<u8>, StreamError>) {
        self.inner.read(max)
    }
}

impl<T: DecryptionModule> Decompress for PassthroughDeompressor<T> {
    fn finalise(self) -> (res: Result<(), StreamError>) {
        self.inner.finalise()
    }
}

} // verus!
