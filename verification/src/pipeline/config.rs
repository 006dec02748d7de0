//! A pipeline chosen at run time: the three selections of a run and its
//! secret, and the building of the layers they ask for.
use crate::compression::codec::{framed, packed_onto, packing_finishes, unpacked, Codec, CompressionLevel};
use crate::compression::gzip::GzipAlgorithm;
use crate::compression::lz4::Lz4Algorithm;
use crate::compression::passthrough::PassthroughAlgorithm;
use crate::compression::snappy::SnappyAlgorithm;
use crate::compression::{Compress, CompressionAlgorithm, CompressionType, Decompress, DecompressionAlgorithm};
use crate::encryption::aead::{check_key, refusal, Cipher, KEY_SIZE};
use crate::encryption::aes_gcm_256::AesGcmAlgorithm;
use crate::encryption::chachapoly::ChaChaPolyAlgorithm;
use crate::encryption::chunked::{lemma_opening_restores, open_stream, sealing_onto};
use crate::encryption::passthrough::{DecryptorPassthrough, EncryptorPassthrough};
use crate::encryption::xchachapoly::XChaChaPolyAlgorithm;
use crate::encryption::{
    DecryptionAlgorithm, DecryptionModule, EncryptionAlgorithm, EncryptionModule, EncryptionSecret, EncryptionType,
};
use crate::error::{EncryptorInitError, PipelineCompressionError, PipelineDecompressionError};
use crate::pipeline::{CompressionPipeline, DecompressionPipeline, TaskPipeline};
use crate::signing::passthrough::{SignerPassthrough, VerifierPassthrough};
use crate::signing::SigningType;
use crate::stream::{appended_onto, handed_on, passed_on, MemorySource, Sink, Source};
use vstd::prelude::*;

verus! {

/// The cipher that a selection and a secret ask for, with its key; `None`
/// where they ask for no encryption. A key file is not a key.
pub open spec fn cipher_of(encryption: EncryptionType, secret: EncryptionSecret) -> Option<(Cipher, Seq<u8>)> {
    match secret {
        EncryptionSecret::Password(key) => match encryption {
            EncryptionType::XChaCha => Some((Cipher::XChaCha20Poly1305, key@)),
            EncryptionType::ChaCha => Some((Cipher::ChaCha20Poly1305, key@)),
            EncryptionType::AesGcm => Some((Cipher::Aes256Gcm, key@)),
            EncryptionType::Passthrough => None,
        },
        _ => None,
    }
}

/// The relation of the encryption layer over a medium that held `before`.
pub open spec fn sealing_of(encryption: EncryptionType, secret: EncryptionSecret, before: Seq<u8>) -> spec_fn(
    Seq<u8>,
    Seq<u8>,
) -> bool {
    match cipher_of(encryption, secret) {
        Some((cipher, key)) => sealing_onto(cipher, key, before),
        None => appended_onto(before),
    }
}

/// The codec that a selection asks for; `None` where it asks for none.
pub open spec fn codec_of(compression: CompressionType, level: CompressionLevel) -> Option<Codec> {
    match compression {
        CompressionType::Lz4 => Some(Codec::Lz4),
        CompressionType::Gzip => Some(Codec::Gzip(level)),
        CompressionType::Snappy => Some(Codec::Snappy),
        CompressionType::Passthrough => None,
    }
}

/// The relation of the compression layer.
pub open spec fn packing_of(
    compression: CompressionType,
    level: CompressionLevel,
    beneath: spec_fn(Seq<u8>, Seq<u8>) -> bool,
    before: Seq<u8>,
) -> spec_fn(Seq<u8>, Seq<u8>) -> bool {
    match codec_of(compression, level) {
        Some(codec) => packed_onto(codec, beneath, before),
        None => passed_on(beneath, before),
    }
}

/// Whether no write to the compression layer fails, given whether that
/// holds of the layer beneath. A codec keeps what it is given until the
/// end, so that writing to it never fails.
pub open spec fn steady_of(compression: CompressionType, beneath_reliable: bool) -> bool {
    match compression {
        CompressionType::Passthrough => beneath_reliable,
        _ => true,
    }
}

/// The condition on which the compression layer comes to its end.
pub open spec fn finishing_of(
    compression: CompressionType,
    level: CompressionLevel,
    beneath_reliable: bool,
    beneath: spec_fn(Seq<u8>) -> bool,
    before: Seq<u8>,
) -> spec_fn(Seq<u8>) -> bool {
    match codec_of(compression, level) {
        Some(codec) => packing_finishes(codec, beneath_reliable, beneath, before),
        None => handed_on(beneath, before),
    }
}

/// Whether the codec selected, if any, compresses `data`.
pub open spec fn packs(compression: CompressionType, level: CompressionLevel, data: Seq<u8>) -> bool {
    match codec_of(compression, level) {
        Some(codec) => framed(codec, data) is Some,
        None => true,
    }
}

/// The relation of the signing layer.
pub open spec fn signing_of(signing: SigningType, beneath: spec_fn(Seq<u8>, Seq<u8>) -> bool, before: Seq<u8>) -> spec_fn(
    Seq<u8>,
    Seq<u8>,
) -> bool {
    match signing {
        SigningType::Passthrough => passed_on(beneath, before),
    }
}

/// What the decryption layer delivers from `wire`, and whether it then fails.
pub open spec fn opening_of(encryption: EncryptionType, secret: EncryptionSecret, wire: Seq<u8>, cut: bool) -> (
    Seq<u8>,
    bool,
) {
    match cipher_of(encryption, secret) {
        Some((cipher, key)) => open_stream(cipher, key, wire, cut),
        None => (wire, cut),
    }
}

/// What the decompression layer delivers from `wire`, and whether it then fails.
pub open spec fn unpacking_of(compression: CompressionType, wire: Seq<u8>, cut: bool) -> (Seq<u8>, bool) {
    match codec_of(compression, CompressionLevel::Default) {
        Some(codec) => unpacked(codec, wire, cut),
        None => (wire, cut),
    }
}

/// What the verifying layer delivers from `wire`, and whether it then fails.
pub open spec fn verifying_of(signing: SigningType, wire: Seq<u8>, cut: bool) -> (Seq<u8>, bool) {
    match signing {
        SigningType::Passthrough => (wire, cut),
    }
}

/// `archived(..)(data, medium)`: `medium` may be what a medium that was
/// empty holds once `data` has gone through the three layers selected.
pub open spec fn archived(
    encryption: EncryptionType,
    secret: EncryptionSecret,
    compression: CompressionType,
    level: CompressionLevel,
    signing: SigningType,
    before: Seq<u8>,
) -> spec_fn(Seq<u8>, Seq<u8>) -> bool {
    signing_of(
        signing,
        packing_of(compression, level, sealing_of(encryption, secret, before), Seq::empty()),
        Seq::empty(),
    )
}

/// What the three layers selected deliver from `medium`, and whether they
/// then fail.
pub open spec fn extracted(
    encryption: EncryptionType,
    secret: EncryptionSecret,
    compression: CompressionType,
    signing: SigningType,
    medium: Seq<u8>,
    cut: bool,
) -> (Seq<u8>, bool) {
    let opened = opening_of(encryption, secret, medium, cut);
    let unpacked = unpacking_of(compression, opened.0, opened.1);
    verifying_of(signing, unpacked.0, unpacked.1)
}

/// Extraction undoes archiving, whatever the three selections: from what
/// archiving `data` left on an empty medium, the layers of the same
/// selections and the same secret deliver `data`, and then end cleanly.
pub proof fn lemma_round_trip(
    encryption: EncryptionType,
    secret: EncryptionSecret,
    compression: CompressionType,
    level: CompressionLevel,
    signing: SigningType,
    data: Seq<u8>,
    medium: Seq<u8>,
)
    requires
        archived(encryption, secret, compression, level, signing, Seq::empty())(data, medium),
    ensures
        extracted(encryption, secret, compression, signing, medium, false) == (data, false),
{
    let sealing = sealing_of(encryption, secret, Seq::empty());
    let packing = packing_of(compression, level, sealing, Seq::empty());
    assert(Seq::<u8>::empty() + data =~= data);
    assert(packing(data, medium));
    // what the compression layer handed to the encryption layer
    let handed = match codec_of(compression, level) {
        Some(codec) => framed(codec, data).unwrap(),
        None => data,
    };
    assert(Seq::<u8>::empty() + handed =~= handed);
    assert(sealing(handed, medium));
    match cipher_of(encryption, secret) {
        Some((cipher, key)) => {
            assert(medium.skip(0) =~= medium);
            lemma_opening_restores(cipher, key, medium, handed);
        },
        None => {
            assert(Seq::<u8>::empty() + handed =~= handed);
        },
    }
    assert(opening_of(encryption, secret, medium, false) == (handed, false));
}

/// The round trip holds with no encryption, whatever the other two
/// selections.
pub proof fn lemma_round_trip_without_encryption(
    compression: CompressionType,
    level: CompressionLevel,
    signing: SigningType,
    data: Seq<u8>,
    medium: Seq<u8>,
)
    requires
        archived(
            EncryptionType::Passthrough,
            EncryptionSecret::NoSecret,
            compression,
            level,
            signing,
            Seq::empty(),
        )(data, medium),
    ensures
        extracted(EncryptionType::Passthrough, EncryptionSecret::NoSecret, compression, signing, medium, false) == (
            data,
            false,
        ),
{
    lemma_round_trip(
        EncryptionType::Passthrough,
        EncryptionSecret::NoSecret,
        compression,
        level,
        signing,
        data,
        medium,
    );
}

/// The round trip holds with no compression, whatever the other two
/// selections.
pub proof fn lemma_round_trip_without_compression(
    encryption: EncryptionType,
    secret: EncryptionSecret,
    level: CompressionLevel,
    signing: SigningType,
    data: Seq<u8>,
    medium: Seq<u8>,
)
    requires
        archived(encryption, secret, CompressionType::Passthrough, level, signing, Seq::empty())(data, medium),
    ensures
        extracted(encryption, secret, CompressionType::Passthrough, signing, medium, false) == (data, false),
{
    lemma_round_trip(encryption, secret, CompressionType::Passthrough, level, signing, data, medium);
}

/// The round trip holds with no signing, whatever the other two selections.
pub proof fn lemma_round_trip_without_signing(
    encryption: EncryptionType,
    secret: EncryptionSecret,
    compression: CompressionType,
    level: CompressionLevel,
    data: Seq<u8>,
    medium: Seq<u8>,
)
    requires
        archived(encryption, secret, compression, level, SigningType::Passthrough, Seq::empty())(data, medium),
    ensures
        extracted(encryption, secret, compression, SigningType::Passthrough, medium, false) == (data, false),
{
    lemma_round_trip(encryption, secret, compression, level, SigningType::Passthrough, data, medium);
}

/// The words in which a key file is refused.
pub const KEY_FILE_REFUSAL: &'static str = "Key encryption not yet implemented";

/// What a run is to do to each of its files.
pub struct PipeLineConfig {
    encryption: EncryptionType,
    encryption_secret: EncryptionSecret,
    compression: CompressionType,
    compression_level: CompressionLevel,
    signing: SigningType,
    source: String,
    destination: String,
}

impl PipeLineConfig {
    pub closed spec fn encryption(&self) -> EncryptionType {
        self.encryption
    }

    pub closed spec fn encryption_secret(&self) -> EncryptionSecret {
        self.encryption_secret
    }

    pub closed spec fn compression(&self) -> CompressionType {
        self.compression
    }

    pub closed spec fn compression_level(&self) -> CompressionLevel {
        self.compression_level
    }

    pub closed spec fn signing(&self) -> SigningType {
        self.signing
    }

    pub closed spec fn source(&self) -> String {
        self.source
    }

    pub closed spec fn destination(&self) -> String {
        self.destination
    }

    pub fn new(
        encryption: EncryptionType,
        encryption_secret: EncryptionSecret,
        compression: CompressionType,
        compression_level: CompressionLevel,
        signing: SigningType,
        source: String,
        destination: String,
    ) -> (res: Self)
        ensures
            res.encryption() == encryption,
            res.encryption_secret() == encryption_secret,
            res.compression() == compression,
            res.compression_level() == compression_level,
            res.signing() == signing,
            res.source() == source,
            res.destination() == destination,
    {
        PipeLineConfig {
            encryption,
            encryption_secret,
            compression,
            compression_level,
            signing,
            source,
            destination,
        }
    }

    /// The path of the file to read.
    pub fn source_path(&self) -> (res: &String)
        ensures
            *res == self.source(),
    {
        &self.source
    }

    /// The path of the file to write.
    pub fn destination_path(&self) -> (res: &String)
        ensures
            *res == self.destination(),
    {
        &self.destination
    }

    /// The secret is a key file, which no cipher can be keyed from yet.
    pub open spec fn wants_key_file(&self) -> bool {
        self.encryption_secret() is Key
    }

    /// A cipher is asked for and its key is not of the cipher's key size.
    pub open spec fn key_refused(&self) -> bool {
        match cipher_of(self.encryption(), self.encryption_secret()) {
            Some((_, key)) => key.len() != KEY_SIZE,
            None => false,
        }
    }

    /// The relation between the data written through the layers of this
    /// configuration and what a medium that held `before` holds in the end.
    pub open spec fn writing(&self, before: Seq<u8>) -> spec_fn(Seq<u8>, Seq<u8>) -> bool {
        archived(
            self.encryption(),
            self.encryption_secret(),
            self.compression(),
            self.compression_level(),
            self.signing(),
            before,
        )
    }

    /// What the layers of this configuration deliver from `medium`, and
    /// whether they then fail.
    pub open spec fn reading(&self, medium: Seq<u8>, cut: bool) -> (Seq<u8>, bool) {
        extracted(self.encryption(), self.encryption_secret(), self.compression(), self.signing(), medium, cut)
    }

    /// Whether the layers that this configuration asks for can be made at
    /// all. A key file is refused with `NotImplemented`, a key of the wrong
    /// size with `EncryptorInitError`, in the cipher's own words; nothing
    /// else is. What is refused here is refused for every file, and what is
    /// not is refused for none.
    pub fn validate(&self) -> (res: Result<(), PipelineCompressionError>)
        ensures
            res is Ok <==> !self.wants_key_file() && !self.key_refused(),
            self.wants_key_file() <==> res matches Err(PipelineCompressionError::NotImplemented(_)),
            res matches Err(PipelineCompressionError::NotImplemented(text)) ==> text@ == KEY_FILE_REFUSAL@,
            self.key_refused() <==> res matches Err(PipelineCompressionError::EncryptorInitError(_)),
            res matches Err(
                PipelineCompressionError::EncryptorInitError(EncryptorInitError::AlgorithmError(text)),
            ) ==> cipher_of(self.encryption(), self.encryption_secret()) matches Some(asked) && text@ == refusal(
                asked.0,
            ),
            res matches Err(PipelineCompressionError::EncryptorInitError(e)) ==> e is AlgorithmError,
    {
        match &self.encryption_secret {
            EncryptionSecret::Password(p) => {
                let cipher = match self.encryption {
                    EncryptionType::XChaCha => Cipher::XChaCha20Poly1305,
                    EncryptionType::ChaCha => Cipher::ChaCha20Poly1305,
                    EncryptionType::AesGcm => Cipher::Aes256Gcm,
                    EncryptionType::Passthrough => {
                        return Ok(());
                    },
                };
                match check_key(cipher, p.as_slice()) {
                    Ok(()) => Ok(()),
                    Err(text) => Err(
                        PipelineCompressionError::EncryptorInitError(EncryptorInitError::AlgorithmError(text)),
                    ),
                }
            },
            EncryptionSecret::Key(_) => Err(PipelineCompressionError::NotImplemented(KEY_FILE_REFUSAL.to_owned())),
            EncryptionSecret::NoSecret => Ok(()),
        }
    }

    /// Archives the content of one file: what comes back is what the
    /// archived file is to hold. With no cipher in play this succeeds
    /// wherever the codec does; a cipher may fail for want of randomness.
    pub fn compress_dir(self, content: Vec<u8>) -> (res: Result<Vec<u8>, PipelineCompressionError>)
        ensures
            self.wants_key_file() <==> res matches Err(PipelineCompressionError::NotImplemented(_)),
            self.key_refused() <==> res matches Err(PipelineCompressionError::EncryptorInitError(_)),
            res is Ok ==> packs(self.compression(), self.compression_level(), content@),
            cipher_of(self.encryption(), self.encryption_secret()) is None && !self.wants_key_file() && packs(
                self.compression(),
                self.compression_level(),
                content@,
            ) ==> res is Ok,
            res matches Ok(archived) ==> (self.writing(Seq::empty()))(content@, archived@),
    {
        let mut source = MemorySource::new(content);
        self.build_encryptor(Vec::new(), &mut source)
    }

    /// Extracts the content of one archived file: what comes back is what
    /// the file held before it was archived. Nothing comes back unless all
    /// of it could be restored.
    pub fn decompress_dir(self, archived: Vec<u8>) -> (res: Result<Vec<u8>, PipelineDecompressionError>)
        ensures
            self.wants_key_file() <==> res matches Err(PipelineDecompressionError::NotImplemented(_)),
            self.key_refused() <==> res matches Err(PipelineDecompressionError::DecryptorInitError(_)),
            res is Ok <==> !self.wants_key_file() && !self.key_refused() && !self.reading(archived@, false).1,
            res matches Ok(content) ==> content@ == self.reading(archived@, false).0,
    {
        let source = MemorySource::new(archived);
        let mut content: Vec<u8> = Vec::new();
        match self.build_dencryptor(source, &mut content) {
            Ok(()) => {
                assert(content@ =~= self.reading(archived@, false).0);
                Ok(content)
            },
            Err(e) => Err(e),
        }
    }

    /// Puts the encryption layer on `io`, the other two on top of it, and
    /// moves all of `input` through them.
    ///
    /// A password is the cipher's key as it stands. With no secret nothing is
    /// encrypted, whatever cipher is selected. A key file is refused with
    /// `NotImplemented`; a key of the wrong size with `EncryptorInitError`.
    pub fn build_encryptor<T: Sink, F: Source>(self, io: T, input: &mut F) -> (res: Result<
        T,
        PipelineCompressionError,
    >)
        requires
            io.wf(),
            old(input).wf(),
        ensures
            self.wants_key_file() <==> res matches Err(PipelineCompressionError::NotImplemented(_)),
            res matches Err(PipelineCompressionError::NotImplemented(text)) ==> text@ == KEY_FILE_REFUSAL@,
            self.key_refused() <==> res matches Err(PipelineCompressionError::EncryptorInitError(_)),
            old(input).fails() ==> res is Err,
            res is Ok ==> !old(input).fails() && packs(
                self.compression(),
                self.compression_level(),
                old(input).remaining(),
            ),
            io.reliable() && cipher_of(self.encryption(), self.encryption_secret()) is None && !self.wants_key_file()
                && !old(input).fails() && packs(
                self.compression(),
                self.compression_level(),
                old(input).remaining(),
            ) ==> res is Ok,
            res matches Ok(medium) ==> medium.wf() && medium.flushed() && (self.writing(io.accepted()))(
                old(input).remaining(),
                medium.accepted(),
            ),
            res is Ok ==> final(input).wf() && final(input).remaining() == Seq::<u8>::empty(),
            self.wants_key_file() || self.key_refused() ==> *final(input) == *old(input),
    {
        match &self.encryption_secret {
            EncryptionSecret::Password(p) => match self.encryption {
                EncryptionType::XChaCha => {
                    let algorithm = XChaChaPolyAlgorithm::new().with_key(p.clone());
                    match algorithm.encryptor(io) {
                        Ok(encryptor) => self.build_compressor(encryptor, input),
                        Err(e) => Err(PipelineCompressionError::EncryptorInitError(e)),
                    }
                },
                EncryptionType::ChaCha => {
                    let algorithm = ChaChaPolyAlgorithm::new().with_key(p.clone());
                    match algorithm.encryptor(io) {
                        Ok(encryptor) => self.build_compressor(encryptor, input),
                        Err(e) => Err(PipelineCompressionError::EncryptorInitError(e)),
                    }
                },
                EncryptionType::AesGcm => {
                    let algorithm = AesGcmAlgorithm::new().with_key(p.clone());
                    match algorithm.encryptor(io) {
                        Ok(encryptor) => self.build_compressor(encryptor, input),
                        Err(e) => Err(PipelineCompressionError::EncryptorInitError(e)),
                    }
                },
                EncryptionType::Passthrough => self.build_compressor(EncryptorPassthrough::new(io), input),
            },
            EncryptionSecret::Key(_) => Err(
                PipelineCompressionError::NotImplemented(KEY_FILE_REFUSAL.to_owned()),
            ),
            EncryptionSecret::NoSecret => self.build_compressor(EncryptorPassthrough::new(io), input),
        }
    }

    /// Puts the compression layer on `io`, the signing layer on top of it,
    /// and moves all of `input` through them.
    pub fn build_compressor<T: EncryptionModule, F: Source>(&self, io: T, input: &mut F) -> (res: Result<
        T::Io,
        PipelineCompressionError,
    >)
        requires
            io.wf(),
            old(input).wf(),
        ensures
            old(input).fails() ==> res is Err,
            !old(input).fails() && steady_of(self.compression(), io.reliable()) && finishing_of(
                self.compression(),
                self.compression_level(),
                io.reliable(),
                io.finishes(),
                io.accepted(),
            )(old(input).remaining()) ==> res is Ok,
            res matches Ok(medium) ==> medium.wf() && medium.flushed() && signing_of(
                self.signing(),
                packing_of(self.compression(), self.compression_level(), io.encoding(), io.accepted()),
                Seq::empty(),
            )(old(input).remaining(), medium.accepted()),
            res is Ok ==> final(input).wf() && final(input).remaining() == Seq::<u8>::empty(),
            res matches Err(e) ==> e is IOError,
    {
        match self.compression {
            CompressionType::Lz4 => match Lz4Algorithm::new().compressor(io) {
                Ok(compressor) => self.build_signer(compressor, input),
                Err(e) => Err(PipelineCompressionError::CompressorInitError(e)),
            },
            CompressionType::Gzip => match GzipAlgorithm::with_compression_level(self.compression_level).compressor(
                io,
            ) {
                Ok(compressor) => self.build_signer(compressor, input),
                Err(e) => Err(PipelineCompressionError::CompressorInitError(e)),
            },
            CompressionType::Snappy => match SnappyAlgorithm::new().compressor(io) {
                Ok(compressor) => self.build_signer(compressor, input),
                Err(e) => Err(PipelineCompressionError::CompressorInitError(e)),
            },
            CompressionType::Passthrough => match PassthroughAlgorithm::new().compressor(io) {
                Ok(compressor) => self.build_signer(compressor, input),
                Err(e) => Err(PipelineCompressionError::CompressorInitError(e)),
            },
        }
    }

    /// Puts the signing layer on `io` and moves all of `input` through it.
    pub fn build_signer<T: Compress, F: Source>(&self, io: T, input: &mut F) -> (res: Result<
        T::Io,
        PipelineCompressionError,
    >)
        requires
            io.wf(),
            old(input).wf(),
        ensures
            old(input).fails() ==> res is Err,
            !old(input).fails() && io.reliable() && (io.finishes())(io.accepted() + old(input).remaining())
                ==> res is Ok,
            res matches Ok(medium) ==> medium.wf() && medium.flushed() && signing_of(self.signing(), io.encoding(), io.accepted())(
                old(input).remaining(),
                medium.accepted(),
            ),
            res is Ok ==> final(input).wf() && final(input).remaining() == Seq::<u8>::empty(),
            res matches Err(e) ==> e is IOError,
    {
        match self.signing {
            SigningType::Passthrough => {
                let pipeline = TaskPipeline::from_writer(SignerPassthrough::new(io));
                assert(Seq::<u8>::empty() + old(input).remaining() =~= old(input).remaining());
                self.execute_compression_pipeline(pipeline, input)
            },
        }
    }

    /// Runs `pipeline` on `input` and hands back the medium.
    pub fn execute_compression_pipeline<P: CompressionPipeline, F: Source>(&self, pipeline: P, input: &mut F) -> (res:
        Result<P::Io, PipelineCompressionError>)
        requires
            pipeline.ready(),
            old(input).wf(),
        ensures
            old(input).fails() ==> res is Err,
            !old(input).fails() && (pipeline.succeeds())(old(input).remaining()) ==> res is Ok,
            res matches Ok(medium) ==> medium.wf() && medium.flushed() && (pipeline.outcome())(
                old(input).remaining(),
                medium.accepted(),
            ),
            res is Ok ==> final(input).wf() && final(input).remaining() == Seq::<u8>::empty(),
            res matches Err(e) ==> e is IOError,
    {
        match pipeline.compress(input) {
            Ok(end) => Ok(end.1),
            Err(e) => Err(e),
        }
    }

    /// Puts the decryption layer on `io`, the other two on top of it, and
    /// moves all they deliver into `output`.
    ///
    /// A key file is refused with `NotImplemented`; a key of the wrong size
    /// with `DecryptorInitError`.
    pub fn build_dencryptor<T: Source, F: Sink>(self, io: T, output: &mut F) -> (res: Result<
        (),
        PipelineDecompressionError,
    >)
        requires
            io.wf(),
            old(output).wf(),
        ensures
            self.wants_key_file() <==> res matches Err(PipelineDecompressionError::NotImplemented(_)),
            res matches Err(PipelineDecompressionError::NotImplemented(text)) ==> text@ == KEY_FILE_REFUSAL@,
            self.key_refused() <==> res matches Err(PipelineDecompressionError::DecryptorInitError(_)),
            self.wants_key_file() || self.key_refused() ==> *final(output) == *old(output),
            self.reading(io.remaining(), io.fails()).1 ==> res is Err,
            !self.wants_key_file() && !self.key_refused() && !self.reading(io.remaining(), io.fails()).1
                && old(output).reliable() ==> res is Ok,
            res is Ok || (old(output).reliable() && !self.wants_key_file() && !self.key_refused()) ==> {
                &&& final(output).wf()
                &&& final(output).accepted() == old(output).accepted() + self.reading(
                    io.remaining(),
                    io.fails(),
                ).0
                &&& final(output).reliable() == old(output).reliable()
                &&& final(output).encoding() == old(output).encoding()
                &&& final(output).signature() == old(output).signature()
            },
    {
        match &self.encryption_secret {
            EncryptionSecret::Password(p) => match self.encryption {
                EncryptionType::XChaCha => {
                    let algorithm = XChaChaPolyAlgorithm::new().with_key(p.clone());
                    match algorithm.decryptor(io) {
                        Ok(decryptor) => self.build_decompressor(decryptor, output),
                        Err(e) => Err(PipelineDecompressionError::DecryptorInitError(e)),
                    }
                },
                EncryptionType::ChaCha => {
                    let algorithm = ChaChaPolyAlgorithm::new().with_key(p.clone());
                    match algorithm.decryptor(io) {
                        Ok(decryptor) => self.build_decompressor(decryptor, output),
                        Err(e) => Err(PipelineDecompressionError::DecryptorInitError(e)),
                    }
                },
                EncryptionType::AesGcm => {
                    let algorithm = AesGcmAlgorithm::new().with_key(p.clone());
                    match algorithm.decryptor(io) {
                        Ok(decryptor) => self.build_decompressor(decryptor, output),
                        Err(e) => Err(PipelineDecompressionError::DecryptorInitError(e)),
                    }
                },
                EncryptionType::Passthrough => self.build_decompressor(DecryptorPassthrough::new(io), output),
            },
            EncryptionSecret::Key(_) => Err(
                PipelineDecompressionError::NotImplemented(KEY_FILE_REFUSAL.to_owned()),
            ),
            EncryptionSecret::NoSecret => self.build_decompressor(DecryptorPassthrough::new(io), output),
        }
    }

    /// Puts the decompression layer on `io`, the verifying layer on top of
    /// it, and moves all they deliver into `output`.
    pub fn build_decompressor<T: DecryptionModule, F: Sink>(&self, io: T, output: &mut F) -> (res: Result<
        (),
        PipelineDecompressionError,
    >)
        requires
            io.wf(),
            old(output).wf(),
        ensures
            self.delivering(io.remaining(), io.fails()).1 ==> res is Err,
            !self.delivering(io.remaining(), io.fails()).1 && old(output).reliable() ==> res is Ok,
            res is Ok || old(output).reliable() ==> {
                &&& final(output).wf()
                &&& final(output).accepted() == old(output).accepted() + self.delivering(
                    io.remaining(),
                    io.fails(),
                ).0
                &&& final(output).reliable() == old(output).reliable()
                &&& final(output).encoding() == old(output).encoding()
                &&& final(output).signature() == old(output).signature()
            },
            res matches Err(e) ==> e is IOError,
    {
        match self.compression {
            CompressionType::Lz4 => match Lz4Algorithm::new().decompressor(io) {
                Ok(decompressor) => self.build_verifier(decompressor, output),
                Err(e) => Err(PipelineDecompressionError::CompressionInitError(e)),
            },
            CompressionType::Gzip => match GzipAlgorithm::with_compression_level(
                self.compression_level,
            ).decompressor(io) {
                Ok(decompressor) => self.build_verifier(decompressor, output),
                Err(e) => Err(PipelineDecompressionError::CompressionInitError(e)),
            },
            CompressionType::Snappy => match SnappyAlgorithm::new().decompressor(io) {
                Ok(decompressor) => self.build_verifier(decompressor, output),
                Err(e) => Err(PipelineDecompressionError::CompressionInitError(e)),
            },
            CompressionType::Passthrough => match PassthroughAlgorithm::new().decompressor(io) {
                Ok(decompressor) => self.build_verifier(decompressor, output),
                Err(e) => Err(PipelineDecompressionError::CompressionInitError(e)),
            },
        }
    }

    /// What the decompression and verifying layers of this configuration
    /// deliver from what the decryption layer hands them.
    pub open spec fn delivering(&self, wire: Seq<u8>, cut: bool) -> (Seq<u8>, bool) {
        let unpacked = unpacking_of(self.compression(), wire, cut);
        verifying_of(self.signing(), unpacked.0, unpacked.1)
    }

    /// Puts the verifying layer on `io` and moves all it delivers into
    /// `output`.
    pub fn build_verifier<T: Decompress, F: Sink>(&self, io: T, output: &mut F) -> (res: Result<
        (),
        PipelineDecompressionError,
    >)
        requires
            io.wf(),
            old(output).wf(),
        ensures
            verifying_of(self.signing(), io.remaining(), io.fails()).1 ==> res is Err,
            !verifying_of(self.signing(), io.remaining(), io.fails()).1 && old(output).reliable() ==> res is Ok,
            res is Ok || old(output).reliable() ==> {
                &&& final(output).wf()
                &&& final(output).accepted() == old(output).accepted() + verifying_of(
                    self.signing(),
                    io.remaining(),
                    io.fails(),
                ).0
                &&& final(output).reliable() == old(output).reliable()
                &&& final(output).encoding() == old(output).encoding()
                &&& final(output).signature() == old(output).signature()
            },
            res matches Err(e) ==> e is IOError,
    {
        match self.signing {
            SigningType::Passthrough => {
                let pipeline = TaskPipeline::from_reader(VerifierPassthrough::new(io));
                self.execute_decompression_pipeline(pipeline, output)
            },
        }
    }

    /// Runs `pipeline` into `output`.
    pub fn execute_decompression_pipeline<P: DecompressionPipeline, F: Sink>(&self, pipeline: P, output: &mut F) -> (res:
        Result<(), PipelineDecompressionError>)
        requires
            pipeline.ready(),
            old(output).wf(),
        ensures
            pipeline.fails() ==> res is Err,
            !pipeline.fails() && old(output).reliable() ==> res is Ok,
            res is Ok || old(output).reliable() ==> {
                &&& final(output).wf()
                &&& final(output).accepted() == old(output).accepted() + pipeline.content()
                &&& final(output).reliable() == old(output).reliable()
                &&& final(output).encoding() == old(output).encoding()
                &&& final(output).signature() == old(output).signature()
            },
            res matches Err(e) ==> e is IOError,
    {
        match pipeline.decompress(output) {
            Ok(_) => Ok(()),
            Err(e) => Err(e),
        }
    }
}

impl Default for PipeLineConfig {
    /// Nothing encrypted, nothing compressed, nothing signed, no paths.
    fn default() -> (res: Self)
        ensures
            res.encryption() is Passthrough,
            res.encryption_secret() is NoSecret,
            res.compression() is Passthrough,
            res.compression_level() is Default,
            res.signing() is Passthrough,
            res.source()@ == Seq::<char>::empty(),
            res.destination()@ == Seq::<char>::empty(),
    {
        PipeLineConfig {
            encryption: EncryptionType::Passthrough,
            encryption_secret: EncryptionSecret::NoSecret,
            compression: CompressionType::Passthrough,
            compression_level: CompressionLevel::Default,
            signing: SigningType::Passthrough,
            source: String::new(),
            destination: String::new(),
        }
    }
}

/// What was archived is extracted again: a configuration that extracts
/// what a configuration of the same selections and the same secret has
/// archived comes by what was archived, and does not fail.
pub proof fn lemma_extracting_undoes_archiving(
    archiving: PipeLineConfig,
    extracting: PipeLineConfig,
    content: Seq<u8>,
    archived: Seq<u8>,
)
    requires
        extracting.encryption() == archiving.encryption(),
        extracting.encryption_secret() == archiving.encryption_secret(),
        extracting.compression() == archiving.compression(),
        extracting.signing() == archiving.signing(),
        (archiving.writing(Seq::empty()))(content, archived),
    ensures
        extracting.reading(archived, false) == (content, false),
{
    lemma_round_trip(
        archiving.encryption(),
        archiving.encryption_secret(),
        archiving.compression(),
        archiving.compression_level(),
        archiving.signing(),
        content,
        archived,
    );
}

} // verus!
