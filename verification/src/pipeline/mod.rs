//! The pipeline: one layer of each kind around a medium, and the one
//! operation that streams a whole input through it and brings it to its end.
//!
//! For writing the layers nest as signer(compressor(encryptor(medium))), for
//! reading as verifier(decompressor(decryptor(medium))).
pub mod config;

use crate::compression::{CompressionAlgorithm, DecompressionAlgorithm};
use crate::encryption::{DecryptionAlgorithm, EncryptionAlgorithm};
use crate::error::{PipelineBuildError, PipelineCompressionError, PipelineDecompressionError};
use crate::signing::{Sign, SignerMethod, VerifierMethod, Verify};
use crate::stream::{always, bytes_of, copy, passed_on, Sink, Source};
use vstd::prelude::*;

verus! {

/// A pipeline that takes a whole input and writes it out transformed.
pub trait CompressionPipeline: Sized {
    /// The medium at the bottom.
    type Io: Sink;

    /// The pipeline can be run.
    spec fn ready(&self) -> bool;

    /// `succeeds()(data)` holds when the layers of the pipeline take `data`
    /// and come to their end on it without fail.
    spec fn succeeds(&self) -> spec_fn(Seq<u8>) -> bool;

    /// `outcome()(data, medium)` holds when `medium` may be what the medium
    /// holds after `data` has gone through the pipeline.
    spec fn outcome(&self) -> spec_fn(Seq<u8>, Seq<u8>) -> bool;

    /// `signed()(data)` is the signature that comes out after `data` has
    /// gone through the pipeline; `None` where the signer makes none.
    spec fn signed(&self) -> spec_fn(Seq<u8>) -> Option<Seq<u8>>;

    /// Moves all of `input` through the layers, finalises them from the
    /// outermost to the innermost, and hands back the signature, where one
    /// was made, and the medium. The first error ends the run.
    fn compress<F: Source>(self, input: &mut F) -> (res: Result<
        (Option<Vec<u8>>, Self::Io),
        PipelineCompressionError,
    >)
        requires
            self.ready(),
            old(input).wf(),
        ensures
            old(input).fails() ==> res is Err,
            !old(input).fails() && (self.succeeds())(old(input).remaining()) ==> res is Ok,
            res matches Ok(end) ==> {
                &&& bytes_of(end.0) == (self.signed())(old(input).remaining())
                &&& end.1.wf()
                &&& end.1.flushed()
                &&& (self.outcome())(old(input).remaining(), end.1.accepted())
                &&& final(input).wf()
                &&& final(input).remaining() == Seq::<u8>::empty()
            },
            res matches Err(e) ==> e is IOError,
    ;
}

/// A pipeline that reads a transformed input and writes out what it was made
/// from.
pub trait DecompressionPipeline: Sized {
    /// The pipeline can be run.
    spec fn ready(&self) -> bool;

    /// What the pipeline will deliver.
    spec fn content(&self) -> Seq<u8>;

    /// Whether the pipeline fails once it has delivered its content.
    spec fn fails(&self) -> bool;

    /// The verifier's judgement on the content; `None` where it passes none.
    spec fn judgement(&self) -> Option<Seq<u8>>;

    /// Moves everything the layers deliver into `output`, then finalises the
    /// layers and hands back the verifier's judgement, where it made one.
    /// The first error ends the run; an output that never fails then holds
    /// the content, which is all that the layers delivered before they
    /// failed, and nothing else.
    fn decompress<F: Sink>(self, output: &mut F) -> (res: Result<
        Option<Vec<u8>>,
        PipelineDecompressionError,
    >)
        requires
            self.ready(),
            old(output).wf(),
        ensures
            self.fails() ==> res is Err,
            !self.fails() && old(output).reliable() ==> res is Ok,
            res matches Ok(judgement) ==> bytes_of(judgement) == self.judgement(),
            res is Ok || old(output).reliable() ==> {
                &&& final(output).wf()
                &&& final(output).accepted() == old(output).accepted() + self.content()
                &&& final(output).reliable() == old(output).reliable()
                &&& final(output).finishes() == old(output).finishes()
                &&& final(output).encoding() == old(output).encoding()
                &&& final(output).signature() == old(output).signature()
            },
            res matches Err(e) ==> e is IOError,
    ;
}

/// The layers of one file, ready to run once.
pub struct TaskPipeline<T> {
    inner: T,
}

impl<T> TaskPipeline<T> {
    /// The outermost layer.
    pub closed spec fn layers(&self) -> T {
        self.inner
    }
}

impl TaskPipeline<()> {
    /// A builder with nothing chosen yet.
    pub fn builder() -> (res: TaskPipelineBuilder<(), (), (), ()>) {
        TaskPipelineBuilder::new()
    }

    /// A pipeline for writing, around layers already put together.
    pub fn from_writer<U: Sink>(io: U) -> (res: TaskPipeline<U>)
        ensures
            res.layers() == io,
    {
        TaskPipeline { inner: io }
    }

    /// A pipeline for reading, around layers already put together.
    pub fn from_reader<U: Source>(io: U) -> (res: TaskPipeline<U>)
        ensures
            res.layers() == io,
    {
        TaskPipeline { inner: io }
    }
}

impl<T: Sign> CompressionPipeline for TaskPipeline<T> {
    type Io = T::Io;

    open spec fn ready(&self) -> bool {
        self.layers().wf()
    }

    open spec fn succeeds(&self) -> spec_fn(Seq<u8>) -> bool {
        |data: Seq<u8>|
            self.layers().reliable() && (self.layers().finishes())(self.layers().accepted() + data)
    }

    open spec fn outcome(&self) -> spec_fn(Seq<u8>, Seq<u8>) -> bool {
        passed_on(self.layers().encoding(), self.layers().accepted())
    }

    open spec fn signed(&self) -> spec_fn(Seq<u8>) -> Option<Seq<u8>> {
        |data: Seq<u8>| (self.layers().signature())(self.layers().accepted() + data)
    }

    fn compress<F: Source>(self, input: &mut F) -> (res: Result<
        (Option<Vec<u8>>, T::Io),
        PipelineCompressionError,
    >) {
        let mut layers = self.inner;
        match copy(input, &mut layers) {
            Ok(()) => {},
            Err(e) => {
                return Err(PipelineCompressionError::IOError(e));
            },
        }
        match layers.finalise() {
            Ok(end) => Ok(end),
            Err(e) => Err(PipelineCompressionError::IOError(e)),
        }
    }
}

impl<T: Verify> DecompressionPipeline for TaskPipeline<T> {
    open spec fn ready(&self) -> bool {
        self.layers().wf()
    }

    open spec fn content(&self) -> Seq<u8> {
        self.layers().remaining()
    }

    open spec fn fails(&self) -> bool {
        self.layers().fails()
    }

    open spec fn judgement(&self) -> Option<Seq<u8>> {
        self.layers().judgement()
    }

    fn decompress<F: Sink>(self, output: &mut F) -> (res: Result<
        Option<Vec<u8>>,
        PipelineDecompressionError,
    >) {
        let mut layers = self.inner;
        match copy(&mut layers, output) {
            Ok(()) => {},
            Err(e) => {
                return Err(PipelineDecompressionError::IOError(e));
            },
        }
        match layers.finalise() {
            Ok(judgement) => Ok(judgement),
            Err(e) => Err(PipelineDecompressionError::IOError(e)),
        }
    }
}

/// Gathers a medium and one algorithm of each kind, in any order, and puts
/// the layers together. That each algorithm takes what the one beneath it
/// makes is settled by the types.
pub struct TaskPipelineBuilder<T, E, C, S> {
    io: T,
    encryption: E,
    compression: C,
    signing: S,
}

impl TaskPipelineBuilder<(), (), (), ()> {
    pub fn new() -> Self {
        TaskPipelineBuilder { io: (), encryption: (), compression: (), signing: () }
    }
}

impl Default for TaskPipelineBuilder<(), (), (), ()> {
    fn default() -> Self {
        Self::new()
    }
}

impl<T, E, C, S> TaskPipelineBuilder<T, E, C, S> {
    /// The medium.
    pub closed spec fn io(&self) -> T {
        self.io
    }

    /// The encryption algorithm.
    pub closed spec fn encryption(&self) -> E {
        self.encryption
    }

    /// The compression algorithm.
    pub closed spec fn compression(&self) -> C {
        self.compression
    }

    /// The signing method.
    pub closed spec fn signing(&self) -> S {
        self.signing
    }

    pub fn with_encryption<E2>(self, with: E2) -> (res: TaskPipelineBuilder<T, E2, C, S>)
        ensures
            res.io() == self.io(),
            res.encryption() == with,
            res.compression() == self.compression(),
            res.signing() == self.signing(),
    {
        TaskPipelineBuilder {
            io: self.io,
            encryption: with,
            compression: self.compression,
            signing: self.signing,
        }
    }

    pub fn with_compress_algorithm<C2>(self, with: C2) -> (res: TaskPipelineBuilder<T, E, C2, S>)
        ensures
            res.io() == self.io(),
            res.encryption() == self.encryption(),
            res.compression() == with,
            res.signing() == self.signing(),
    {
        TaskPipelineBuilder {
            io: self.io,
            encryption: self.encryption,
            compression: with,
            signing: self.signing,
        }
    }

    pub fn with_signing<S2>(self, with: S2) -> (res: TaskPipelineBuilder<T, E, C, S2>)
        ensures
            res.io() == self.io(),
            res.encryption() == self.encryption(),
            res.compression() == self.compression(),
            res.signing() == with,
    {
        TaskPipelineBuilder {
            io: self.io,
            encryption: self.encryption,
            compression: self.compression,
            signing: with,
        }
    }

    pub fn with_io<U>(self, io: U) -> (res: TaskPipelineBuilder<U, E, C, S>)
        ensures
            res.io() == io,
            res.encryption() == self.encryption(),
            res.compression() == self.compression(),
            res.signing() == self.signing(),
    {
        TaskPipelineBuilder {
            io,
            encryption: self.encryption,
            compression: self.compression,
            signing: self.signing,
        }
    }
}

impl<T, E, C, S> TaskPipelineBuilder<T, E, C, S> where
    T: Sink,
    E: EncryptionAlgorithm<T>,
    C: CompressionAlgorithm<E::Encryptor>,
    S: SignerMethod<C::Compressor>,
 {
    /// The relation of the pipeline that `compression_pipeline` makes.
    pub open spec fn writing(&self) -> spec_fn(Seq<u8>, Seq<u8>) -> bool {
        self.signing().signing(
            self.compression().packing(self.encryption().sealing(self.io().accepted()), Seq::empty()),
            Seq::empty(),
        )
    }

    /// Whether no write to the pipeline that `compression_pipeline` makes
    /// fails.
    pub open spec fn steady(&self) -> bool {
        self.signing().steady(
            self.compression().steady(self.encryption().dependable() && self.io().reliable()),
        )
    }

    /// The condition on which the pipeline that `compression_pipeline`
    /// makes comes to its end.
    pub open spec fn finishing(&self) -> spec_fn(Seq<u8>) -> bool {
        let sealed = self.encryption().dependable() && self.io().reliable();
        self.signing().finishing(
            self.compression().steady(sealed),
            self.compression().finishing(sealed, always(sealed), Seq::empty()),
            Seq::empty(),
        )
    }

    /// Puts the layers for writing together: the encryptor on the medium,
    /// the compressor on the encryptor, the signer on the compressor. Fails
    /// with `PipelineBuildError::EncryptorInit` where the encryption
    /// algorithm refuses its key, and in no other case.
    pub fn compression_pipeline(self) -> (res: Result<TaskPipeline<S::Signer>, PipelineBuildError>)
        requires
            self.io().wf(),
        ensures
            res is Ok <==> self.encryption().can_encrypt(),
            res matches Ok(pipeline) ==> {
                &&& pipeline.layers().wf()
                &&& pipeline.layers().accepted() == Seq::<u8>::empty()
                &&& pipeline.layers().encoding() == self.writing()
                &&& pipeline.layers().signature() == self.signing().signature()
                &&& pipeline.layers().reliable() == self.steady()
                &&& pipeline.layers().finishes() == self.finishing()
            },
            res matches Err(e) ==> e is EncryptorInit,
    {
        let encryptor = match self.encryption.encryptor(self.io) {
            Ok(encryptor) => encryptor,
            Err(e) => {
                return Err(PipelineBuildError::EncryptorInit(e));
            },
        };
        let compressor = match self.compression.compressor(encryptor) {
            Ok(compressor) => compressor,
            Err(e) => {
                return Err(PipelineBuildError::CompressInit(e));
            },
        };
        let signer = match self.signing.signer(compressor) {
            Ok(signer) => signer,
            Err(e) => {
                return Err(PipelineBuildError::SignerInit(e));
            },
        };
        Ok(TaskPipeline { inner: signer })
    }
}

impl<T, E, C, S> TaskPipelineBuilder<T, E, C, S> where
    T: Source,
    E: DecryptionAlgorithm<T>,
    C: DecompressionAlgorithm<E::Decryptor>,
    S: VerifierMethod<C::Decompressor>,
 {
    /// What the pipeline that `decompression_pipeline` makes delivers, and
    /// whether it then fails.
    pub open spec fn reading(&self) -> (Seq<u8>, bool) {
        let opened = self.encryption().opening(self.io().remaining(), self.io().fails());
        let unpacked = self.compression().unpacking(opened.0, opened.1);
        self.signing().verifying(unpacked.0, unpacked.1)
    }

    /// The judgement that the pipeline that `decompression_pipeline` makes
    /// passes on what it delivers.
    pub open spec fn judging(&self) -> Option<Seq<u8>> {
        let opened = self.encryption().opening(self.io().remaining(), self.io().fails());
        let unpacked = self.compression().unpacking(opened.0, opened.1);
        self.signing().judging(unpacked.0)
    }

    /// Puts the layers for reading together: the decryptor on the medium,
    /// the decompressor on the decryptor, the verifier on the decompressor.
    /// Fails with `PipelineBuildError::EncryptorInit` where the encryption
    /// algorithm refuses its key, and in no other case.
    pub fn decompression_pipeline(self) -> (res: Result<TaskPipeline<S::Verifier>, PipelineBuildError>)
        requires
            self.io().wf(),
        ensures
            res is Ok <==> self.encryption().can_decrypt(),
            res matches Ok(pipeline) ==> {
                &&& pipeline.layers().wf()
                &&& pipeline.layers().remaining() == self.reading().0
                &&& pipeline.layers().fails() == self.reading().1
                &&& pipeline.layers().judgement() == self.judging()
            },
            res matches Err(e) ==> e is EncryptorInit,
    {
        let decryptor = match self.encryption.decryptor(self.io) {
            Ok(decryptor) => decryptor,
            Err(e) => {
                return Err(PipelineBuildError::EncryptorInit(e));
            },
        };
        let decompressor = match self.compression.decompressor(decryptor) {
            Ok(decompressor) => decompressor,
            Err(e) => {
                return Err(PipelineBuildError::CompressInit(e));
            },
        };
        let made = match self.signing.verifier_over(decompressor) {
            Ok(made) => made,
            Err(e) => {
                return Err(PipelineBuildError::SignerInit(e));
            },
        };
        Ok(TaskPipeline { inner: made })
    }
}

} // verus!
