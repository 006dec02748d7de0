//! The compression layer: the middle one, between signing and encryption.
pub mod algorithms;
pub mod codec;
pub mod gzip;
pub mod lz4;
pub mod passthrough;
pub mod snappy;

use crate::encryption::{DecryptionModule, EncryptionModule};
use crate::error::{CompressorInitError, StreamError};
use crate::stream::{Sink, Source};
use vstd::prelude::*;

verus! {

/// Marks an adapter that compresses.
pub struct CompressionMode;

/// Marks an adapter that decompresses.
pub struct DecompressionMode;

/// A sink that compresses what it accepts on its way to the encryption layer.
pub trait Compress: Sink + Sized {
    /// The medium at the bottom.
    type Io: Sink;

    /// Ends the codec's own output first, then finalises the layer beneath.
    /// To be called once, after the last write.
    fn finalise(self) -> (res: Result<Self::Io, StreamError>)
        requires
            self.wf(),
        ensures
            (self.finishes())(self.accepted()) ==> res is Ok,
            res matches Ok(io) ==> {
                &&& io.wf()
                &&& io.flushed()
                &&& (self.encoding())(self.accepted(), io.accepted())
            },
    ;
}

/// A source that decompresses what it takes from the decryption layer.
pub trait Decompress: Source + Sized {
    /// Finalises the layer beneath.
    fn finalise(self) -> (res: Result<(), StreamError>)
        requires
            self.wf(),
        ensures
            res is Ok,
    ;
}

/// A compression algorithm: makes compressors.
pub trait CompressionAlgorithm<T: EncryptionModule> {
    type Compressor: Compress;

    /// Whether no write to a compressor of this algorithm and no flush of
    /// it fails, given whether that holds of the layer beneath.
    spec fn steady(&self, beneath_reliable: bool) -> bool;

    /// The condition on which a compressor of this algorithm comes to its
    /// end, given that of the layer beneath and what that layer had
    /// accepted when it was wrapped.
    spec fn finishing(&self, beneath_reliable: bool, beneath: spec_fn(Seq<u8>) -> bool, before: Seq<u8>) -> spec_fn(
        Seq<u8>,
    ) -> bool;

    /// The relation of a compressor over a layer whose own relation is
    /// `beneath` and which had accepted `before` when it was wrapped.
    spec fn packing(&self, beneath: spec_fn(Seq<u8>, Seq<u8>) -> bool, before: Seq<u8>) -> spec_fn(
        Seq<u8>,
        Seq<u8>,
    ) -> bool;

    /// Wraps `writer`. Never fails.
    fn compressor(&self, writer: T) -> (res: Result<Self::Compressor, CompressorInitError>)
        requires
            writer.wf(),
        ensures
            res is Ok,
            res matches Ok(comp) ==> {
                &&& comp.wf()
                &&& comp.accepted() == Seq::<u8>::empty()
                &&& comp.reliable() == self.steady(writer.reliable())
                &&& comp.finishes() == self.finishing(writer.reliable(), writer.finishes(), writer.accepted())
                &&& comp.encoding() == self.packing(writer.encoding(), writer.accepted())
            },
    ;
}

/// A compression algorithm: makes decompressors.
pub trait DecompressionAlgorithm<T: DecryptionModule> {
    type Decompressor: Decompress;

    /// What a decompressor delivers from `wire`, and whether it then fails.
    /// `cut` says that the wire ends in an error of its source.
    spec fn unpacking(&self, wire: Seq<u8>, cut: bool) -> (Seq<u8>, bool);

    /// Wraps `reader`. Never fails.
    fn decompressor(&self, reader: T) -> (res: Result<Self::Decompressor, CompressorInitError>)
        requires
            reader.wf(),
        ensures
            res is Ok,
            res matches Ok(dec) ==> {
                &&& dec.wf()
                &&& dec.remaining() == self.unpacking(reader.remaining(), reader.fails()).0
                &&& dec.fails() == self.unpacking(reader.remaining(), reader.fails()).1
            },
    ;
}

/// The compression algorithm of a run.
#[derive(Clone, Copy, Debug, PartialEq, Eq, Structural)]
pub enum CompressionType {
    Passthrough,
    Lz4,
    Gzip,
    Snappy,
}

impl Default for CompressionType {
    fn default() -> (res: Self)
        ensures
            res is Passthrough,
    {
        CompressionType::Passthrough
    }
}

} // verus!
