//! The signing layer: the outermost one, which the caller writes to and
//! reads from.
pub mod passthrough;
pub mod signers;

use crate::compression::{Compress, Decompress};
use crate::error::{SignerInitError, StreamError};
use crate::stream::{bytes_of, Sink, Source};
use vstd::prelude::*;

verus! {

/// Marks an adapter that signs.
pub struct SignerMode;

/// Marks an adapter that verifies.
pub struct VerifierMode;

/// A sink that signs what it accepts on its way to the compression layer.
pub trait Sign: Sink + Sized {
    /// The medium at the bottom.
    type Io: Sink;

    /// Finalises the layers beneath and hands back the signature, where the
    /// method makes one, and the medium. To be called once, after the last
    /// write.
    fn finalise(self) -> (res: Result<(Option<Vec<u8>>, Self::Io), StreamError>)
        requires
            self.wf(),
        ensures
            (self.finishes())(self.accepted()) ==> res is Ok,
            res matches Ok(end) ==> {
                &&& bytes_of(end.0) == (self.signature())(self.accepted())
                &&& end.1.wf()
                &&& end.1.flushed()
                &&& (self.encoding())(self.accepted(), end.1.accepted())
            },
    ;
}

/// A source that verifies what it takes from the decompression layer.
pub trait Verify: Source + Sized {
    /// Finalises the layers beneath and hands back the method's judgement,
    /// where it makes one.
    fn finalise(self) -> (res: Result<Option<Vec<u8>>, StreamError>)
        requires
            self.wf(),
        ensures
            res matches Ok(judgement) && bytes_of(judgement) == self.judgement(),
    ;
}

/// A signing method: makes signers.
pub trait SignerMethod<T: Compress> {
    type Signer: Sign;

    /// Whether no write to a signer of this method and no flush of it
    /// fails, given whether that holds of the layer beneath.
    spec fn steady(&self, beneath_reliable: bool) -> bool;

    /// The condition on which a signer of this method comes to its end,
    /// given that of the layer beneath and what that layer had accepted
    /// when it was wrapped.
    spec fn finishing(&self, beneath_reliable: bool, beneath: spec_fn(Seq<u8>) -> bool, before: Seq<u8>) -> spec_fn(
        Seq<u8>,
    ) -> bool;

    /// The signature that a signer of this method makes of the data it
    /// accepted; `None` where it makes none.
    spec fn signature(&self) -> spec_fn(Seq<u8>) -> Option<Seq<u8>>;

    /// The relation of a signer over a layer whose own relation is `beneath`
    /// and which had accepted `before` when it was wrapped.
    spec fn signing(&self, beneath: spec_fn(Seq<u8>, Seq<u8>) -> bool, before: Seq<u8>) -> spec_fn(
        Seq<u8>,
        Seq<u8>,
    ) -> bool;

    /// Wraps `writer`. Never fails.
    fn signer(&self, writer: T) -> (res: Result<Self::Signer, SignerInitError>)
        requires
            writer.wf(),
        ensures
            res is Ok,
            res matches Ok(signer) ==> {
                &&& signer.wf()
                &&& signer.accepted() == Seq::<u8>::empty()
                &&& signer.reliable() == self.steady(writer.reliable())
                &&& signer.finishes() == self.finishing(writer.reliable(), writer.finishes(), writer.accepted())
                &&& signer.encoding() == self.signing(writer.encoding(), writer.accepted())
                &&& signer.signature() == self.signature()
            },
    ;
}

/// A signing method: makes verifiers.
pub trait VerifierMethod<T: Decompress> {
    type Verifier: Verify;

    /// What a verifier delivers from `wire`, and whether it then fails.
    /// `cut` says that the wire ends in an error of its source.
    spec fn verifying(&self, wire: Seq<u8>, cut: bool) -> (Seq<u8>, bool);

    /// The judgement that a verifier of this method passes on `wire` once
    /// it has been read to its end; `None` where it passes none.
    spec fn judging(&self, wire: Seq<u8>) -> Option<Seq<u8>>;

    /// Wraps `reader`. Never fails.
    fn verifier_over(&self, reader: T) -> (res: Result<Self::Verifier, SignerInitError>)
        requires
            reader.wf(),
        ensures
            res is Ok,
            res matches Ok(made) ==> {
                &&& made.wf()
                &&& made.remaining() == self.verifying(reader.remaining(), reader.fails()).0
                &&& made.fails() == self.verifying(reader.remaining(), reader.fails()).1
                &&& made.judgement() == self.judging(reader.remaining())
            },
    ;
}

/// The signing method of a run.
#[derive(Clone, Copy, Debug, PartialEq, Eq, Structural)]
pub enum SigningType {
    Passthrough,
}

impl Default for SigningType {
    fn default() -> (res: Self)
        ensures
            res is Passthrough,
    {
        SigningType::Passthrough
    }
}

} // verus!
