//! LZ4 in its frame format.
//!
//! The compressor gathers what it accepts and turns it into one frame when
//! it is finalised; the decompressor takes the whole frame from beneath at
//! its first read.
use crate::compression::codec::{
    framed, load, pack_and_send, packed_onto, packing_finishes, serve, unpacked, Codec,
};
use crate::compression::{Compress, CompressionAlgorithm, Decompress, DecompressionAlgorithm};
use crate::encryption::{DecryptionModule, EncryptionModule};
use crate::error::{CompressorInitError, StreamError};
use crate::stream::{Sink, Source};
use vstd::prelude::*;

verus! {

/// LZ4.
pub struct Lz4Algorithm {}

impl<T: EncryptionModule> CompressionAlgorithm<T> for Lz4Algorithm {
    type Compressor = Lz4Compressor<T>;

    open spec fn steady(&self, beneath_reliable: bool) -> bool {
        true
    }

    open spec fn finishing(&self, beneath_reliable: bool, beneath: spec_fn(Seq<u8>) -> bool, before: Seq<u8>) -> spec_fn(
        Seq<u8>,
    ) -> bool {
        packing_finishes(Codec::Lz4, beneath_reliable, beneath, before)
    }

    open spec fn packing(&self, beneath: spec_fn(Seq<u8>, Seq<u8>) -> bool, before: Seq<u8>) -> spec_fn(
        Seq<u8>,
        Seq<u8>,
    ) -> bool {
        packed_onto(Codec::Lz4, beneath, before)
    }

    fn compressor(&self, io: T) -> (res: Result<Lz4Compressor<T>, CompressorInitError>)
        ensures
            res matches Ok(comp) ==> comp.codec() == Codec::Lz4,
    {
        Ok(Lz4Compressor::new(io))
    }
}

impl<T: DecryptionModule> DecompressionAlgorithm<T> for Lz4Algorithm {
    type Decompressor = Lz4Deompressor<T>;

    open spec fn unpacking(&self, wire: Seq<u8>, cut: bool) -> (Seq<u8>, bool) {
        unpacked(Codec::Lz4, wire, cut)
    }

    fn decompressor(&self, io: T) -> (res: Result<Lz4Deompressor<T>, CompressorInitError>) {
        Ok(Lz4Deompressor::new(io))
    }
}

impl Lz4Algorithm {
    pub fn new() -> Lz4Algorithm {
        Lz4Algorithm {  }
    }
}

impl Default for Lz4Algorithm {
    fn default() -> Self {
        Self::new()
    }
}

/// A sink that compresses with LZ4.
pub struct Lz4Compressor<T> {
    inner: T,
    /// What was accepted and waits to be compressed.
    pending: Vec<u8>,
}

impl<T: EncryptionModule> Lz4Compressor<T> {
    pub fn new(io: T) -> (res: Self)
        ensures
            io.wf() ==> res.wf(),
            res.accepted() == Seq::<u8>::empty(),
            res.reliable(),
            res.finishes() == packing_finishes(Codec::Lz4, io.reliable(), io.finishes(), io.accepted()),
            res.codec() == Codec::Lz4,
            res.encoding() == packed_onto(Codec::Lz4, io.encoding(), io.accepted()),
    {
        Lz4Compressor { inner: io, pending: Vec::new() }
    }

    /// The codec this compressor works with.
    pub closed spec fn codec(&self) -> Codec {
        Codec::Lz4
    }
}

impl<T: EncryptionModule> Sink for Lz4Compressor<T> {
    closed spec fn wf(&self) -> bool {
        self.inner.wf()
    }

    closed spec fn accepted(&self) -> Seq<u8> {
        self.pending@
    }

    closed spec fn reliable(&self) -> bool {
        true
    }

    closed spec fn flushed(&self) -> bool {
        true
    }

    closed spec fn finishes(&self) -> spec_fn(Seq<u8>) -> bool {
        packing_finishes(Codec::Lz4, self.inner.reliable(), self.inner.finishes(), self.inner.accepted())
    }

    closed spec fn encoding(&self) -> spec_fn(Seq<u8>, Seq<u8>) -> bool {
        packed_onto(Codec::Lz4, self.inner.encoding(), self.inner.accepted())
    }

    /// Takes all of `buf` and keeps it. Always succeeds.
    fn write(&mut self, buf: &[u8]) -> (res: Result<usize, StreamError>)
        ensures
            res == Ok::<usize, StreamError>(buf@.len() as usize),
            final(self).codec() == old(self).codec(),
    {
        self.pending.extend_from_slice(buf);
        assert(buf@.take(buf@.len() as int) =~= buf@);
        Ok(buf.len())
    }

    /// Does nothing: a frame is not written before the data is complete, so
    /// that nothing was passed on that could wait on its way.
    fn flush(&mut self) -> (res: Result<(), StreamError>)
        ensures
            res is Ok,
    {
        Ok(())
    }
}

impl<T: EncryptionModule> Compress for Lz4Compressor<T> {
    type Io = T::Io;

    /// Compresses what was accepted, writes the result to the layer beneath,
    /// then finalises that layer. Where the codec reports an error nothing
    /// is written and `StreamError::Compression` comes back.
    fn finalise(self) -> (res: Result<T::Io, StreamError>)
        ensures
            framed(self.codec(), self.accepted()) is None ==> res matches Err(StreamError::Compression),
    {
        let mut inner = self.inner;
        match pack_and_send(Codec::Lz4, &self.pending, &mut inner) {
            Ok(()) => {},
            Err(e) => {
                return Err(e);
            },
        }
        inner.finalise()
    }
}

/// A source that decompresses LZ4.
pub struct Lz4Deompressor<T> {
    inner: T,
    /// What the frame held, once it has been taken from beneath.
    plain: Vec<u8>,
    /// How much of `plain` has been delivered.
    pos: usize,
    loaded: bool,
}

impl<T: DecryptionModule> Lz4Deompressor<T> {
    pub fn new(io: T) -> (res: Self)
        ensures
            io.wf() ==> res.wf(),
            res.remaining() == unpacked(Codec::Lz4, io.remaining(), io.fails()).0,
            res.fails() == unpacked(Codec::Lz4, io.remaining(), io.fails()).1,
    {
        Lz4Deompressor { inner: io, plain: Vec::new(), pos: 0, loaded: false }
    }
}

impl<T: DecryptionModule> Source for Lz4Deompressor<T> {
    closed spec fn wf(&self) -> bool {
        self.inner.wf() && self.pos <= self.plain@.len()
    }

    closed spec fn remaining(&self) -> Seq<u8> {
        if self.loaded {
            self.plain@.skip(self.pos as int)
        } else {
            unpacked(Codec::Lz4, self.inner.remaining(), self.inner.fails()).0
        }
    }

    closed spec fn fails(&self) -> bool {
        if self.loaded {
            false
        } else {
            unpacked(Codec::Lz4, self.inner.remaining(), self.inner.fails()).1
        }
    }

    /// At the first call, reads the layer beneath to its end and restores
    /// the data; a frame that the codec rejects gives
    /// `StreamError::Decompression`. Then delivers from the restored data.
    fn read(&mut self, max: usize) -> (res: Result<Vec<u8>, StreamError>) {
        if !self.loaded {
            match load(Codec::Lz4, &mut self.inner) {
                Ok(plain) => {
                    self.plain = plain;
                    self.pos = 0;
                    self.loaded = true;
                    assert(self.plain@.skip(0) =~= self.plain@);
                },
                Err(e) => {
                    return Err(e);
                },
            }
        }
        let ghost left = self.remaining();
        let out = serve(&self.plain, &mut self.pos, max);
        assert(self.remaining() =~= left.skip(out@.len() as int));
        Ok(out)
    }
}

impl<T: DecryptionModule> Decompress for Lz4Deompressor<T> {
    fn finalise(self) -> (res: Result<(), StreamError>) {
        self.inner.finalise()
    }
}

} // verus!
