use zap::compression::codec::CompressionLevel;
use zap::compression::gzip::GzipAlgorithm;
use zap::compression::lz4::Lz4Algorithm;
use zap::compression::passthrough::PassthroughAlgorithm;
use zap::compression::snappy::SnappyAlgorithm;
use zap::compression::{CompressionAlgorithm, CompressionType};
use zap::encryption::aes_gcm_256::AesGcmAlgorithm;
use zap::encryption::chachapoly::ChaChaPolyAlgorithm;
use zap::encryption::passthrough::{EncryptionPassthrough, EncryptorPassthrough};
use zap::encryption::xchachapoly::XChaChaPolyAlgorithm;
use zap::encryption::{EncryptionAlgorithm, EncryptionSecret, EncryptionType};
use zap::error::{
    EncryptorInitError, PipelineBuildError, PipelineCompressionError, PipelineDecompressionError, StreamError,
};
use zap::pipeline::config::PipeLineConfig;
use zap::pipeline::{CompressionPipeline, DecompressionPipeline, TaskPipeline, TaskPipelineBuilder};
use zap::signing::passthrough::{SignerPassthrough, SigningPassthrough, VerifierPassthrough};
use zap::signing::{Sign, SigningType, Verify};
use zap::stream::{write_all, MemorySource, Sink, Source};

fn sample(len: usize) -> Vec<u8> {
    let words = b"archive me, then bring me back; ";
    (0..len).map(|i| words[i % words.len()] ^ ((i / 977) as u8)).collect()
}

fn inputs() -> Vec<Vec<u8>> {
    vec![Vec::new(), sample(5), sample(8192), sample(3 * 8192), sample(3 * 8192 + 77)]
}

fn password() -> Vec<u8> {
    (1u8..=32).collect()
}

fn encryptions() -> Vec<EncryptionType> {
    vec![EncryptionType::Passthrough, EncryptionType::XChaCha, EncryptionType::AesGcm, EncryptionType::ChaCha]
}

fn compressions() -> Vec<CompressionType> {
    vec![CompressionType::Passthrough, CompressionType::Lz4, CompressionType::Gzip, CompressionType::Snappy]
}

fn config(encryption: EncryptionType, secret: EncryptionSecret, compression: CompressionType) -> PipeLineConfig {
    PipeLineConfig::new(
        encryption,
        secret,
        compression,
        CompressionLevel::Default,
        SigningType::Passthrough,
        String::from("in"),
        String::from("out"),
    )
}

fn archive(encryption: EncryptionType, secret: EncryptionSecret, compression: CompressionType, data: &[u8]) -> Result<Vec<u8>, PipelineCompressionError> {
    let mut input = MemorySource::new(data.to_vec());
    config(encryption, secret, compression).build_encryptor(Vec::new(), &mut input)
}

fn extract(encryption: EncryptionType, secret: EncryptionSecret, compression: CompressionType, medium: Vec<u8>) -> (Result<(), PipelineDecompressionError>, Vec<u8>) {
    let mut output = Vec::new();
    let res = config(encryption, secret, compression).build_dencryptor(MemorySource::new(medium), &mut output);
    (res, output)
}

#[test]
fn round_trip_for_every_selection_and_every_size() {
    for encryption in encryptions() {
        for compression in compressions() {
            for data in inputs() {
                let secret = EncryptionSecret::Password(password());
                let medium = archive(encryption, secret.clone(), compression, &data).unwrap();
                let (res, output) = extract(encryption, secret, compression, medium);
                res.unwrap();
                assert_eq!(output, data);
            }
        }
    }
}

#[test]
fn round_trip_without_a_secret_encrypts_nothing() {
    for encryption in encryptions() {
        let data = sample(20000);
        let medium = archive(encryption, EncryptionSecret::NoSecret, CompressionType::Passthrough, &data).unwrap();
        assert_eq!(medium, data);
        let (res, output) = extract(encryption, EncryptionSecret::NoSecret, CompressionType::Passthrough, medium);
        res.unwrap();
        assert_eq!(output, data);
    }
}

#[test]
fn passthrough_in_one_layer_leaves_the_others_working() {
    let data = sample(30000);
    let secret = EncryptionSecret::Password(password());
    // no encryption
    for compression in compressions() {
        let medium = archive(EncryptionType::Passthrough, secret.clone(), compression, &data).unwrap();
        let (res, output) = extract(EncryptionType::Passthrough, secret.clone(), compression, medium);
        res.unwrap();
        assert_eq!(output, data);
    }
    // no compression
    for encryption in encryptions() {
        let medium = archive(encryption, secret.clone(), CompressionType::Passthrough, &data).unwrap();
        if !matches!(encryption, EncryptionType::Passthrough) {
            assert_ne!(medium, data);
            assert!(medium.len() > data.len());
        }
        let (res, output) = extract(encryption, secret.clone(), CompressionType::Passthrough, medium);
        res.unwrap();
        assert_eq!(output, data);
    }
    // nothing at all
    let medium = archive(EncryptionType::Passthrough, EncryptionSecret::NoSecret, CompressionType::Passthrough, &data).unwrap();
    assert_eq!(medium, data);
}

#[test]
fn selections_change_the_bytes_on_the_medium() {
    let data = sample(30000);
    let secret = EncryptionSecret::Password(password());
    let plain = archive(EncryptionType::Passthrough, secret.clone(), CompressionType::Passthrough, &data).unwrap();
    let lz4 = archive(EncryptionType::Passthrough, secret.clone(), CompressionType::Lz4, &data).unwrap();
    let gzip = archive(EncryptionType::Passthrough, secret.clone(), CompressionType::Gzip, &data).unwrap();
    let snappy = archive(EncryptionType::Passthrough, secret.clone(), CompressionType::Snappy, &data).unwrap();
    assert_ne!(plain, lz4);
    assert_ne!(lz4, gzip);
    assert_ne!(gzip, snappy);
    assert_ne!(lz4, snappy);
    assert!(lz4.len() < plain.len());
}

#[test]
fn sealed_output_accounts_for_every_input_byte() {
    let secret = EncryptionSecret::Password(password());
    for (encryption, nonce) in [(EncryptionType::XChaCha, 24usize), (EncryptionType::ChaCha, 12), (EncryptionType::AesGcm, 12)] {
        for len in [0usize, 1, 8191, 8192, 8193, 20000, 5 * 8192] {
            let medium = archive(encryption, secret.clone(), CompressionType::Passthrough, &sample(len)).unwrap();
            let chunks = (len + 8191) / 8192;
            assert_eq!(medium.len(), len + chunks * (nonce + 16));
        }
    }
}

#[test]
fn archive_of_two_files_is_extracted_with_the_same_password_only() {
    let directory: Vec<(&str, Vec<u8>)> = vec![("in/a.txt", b"hello".to_vec()), ("in/b.bin", vec![0u8; 20000])];
    let secret = EncryptionSecret::Password(zap::password::convert_pw_to_key(String::from("correct horse"), 256).unwrap());
    let wrong = EncryptionSecret::Password(zap::password::convert_pw_to_key(String::from("battery staple"), 256).unwrap());

    // archive
    let mut archived: Vec<(String, Vec<u8>)> = Vec::new();
    for (path, content) in &directory {
        let task = zap::directory::compression_task(path, false, "in", "mid").unwrap();
        let medium = archive(EncryptionType::XChaCha, secret.clone(), CompressionType::Lz4, content).unwrap();
        assert_ne!(&medium, content);
        archived.push((task.destination, medium));
    }
    assert_eq!(archived[0].0, "mid/a.txt.lz4");
    assert_eq!(archived[1].0, "mid/b.bin.lz4");
    // twenty thousand zero bytes compress into less than one chunk
    assert!(archived[1].1.len() < 1000);

    // extract with the password of the archive
    for ((path, content), (stored, medium)) in directory.iter().zip(&archived) {
        let task = zap::directory::decompression_task(stored, false, "mid", "in").unwrap();
        assert_eq!(&task.destination, path);
        let (res, output) = extract(EncryptionType::XChaCha, secret.clone(), CompressionType::Lz4, medium.clone());
        res.unwrap();
        assert_eq!(&output, content);
    }

    // extract with another password
    for (_, medium) in &archived {
        let (res, output) = extract(EncryptionType::XChaCha, wrong.clone(), CompressionType::Lz4, medium.clone());
        assert!(matches!(res, Err(PipelineDecompressionError::IOError(StreamError::Decryption))));
        assert!(output.is_empty());
    }
}

#[test]
fn file_that_spans_chunks_fails_as_a_whole_with_the_wrong_password() {
    let data = sample(20000);
    let secret = EncryptionSecret::Password(password());
    let wrong = EncryptionSecret::Password(vec![0u8; 32]);
    for compression in compressions() {
        let medium = archive(EncryptionType::XChaCha, secret.clone(), compression, &data).unwrap();
        let (res, output) = extract(EncryptionType::XChaCha, wrong.clone(), compression, medium);
        assert!(matches!(res, Err(PipelineDecompressionError::IOError(StreamError::Decryption))));
        assert!(output.is_empty());
    }
}

#[test]
fn key_file_is_not_implemented() {
    let secret = EncryptionSecret::Key(String::from("/path/to/key"));
    for encryption in encryptions() {
        let res = archive(encryption, secret.clone(), CompressionType::Lz4, b"data");
        assert!(matches!(res, Err(PipelineCompressionError::NotImplemented(_))));
        let (res, output) = extract(encryption, secret.clone(), CompressionType::Lz4, vec![1, 2, 3]);
        assert!(matches!(res, Err(PipelineDecompressionError::NotImplemented(_))));
        assert!(output.is_empty());
    }
}

#[test]
fn password_of_wrong_length_is_refused_before_any_byte_moves() {
    let secret = EncryptionSecret::Password(vec![1u8; 31]);
    for encryption in [EncryptionType::XChaCha, EncryptionType::ChaCha, EncryptionType::AesGcm] {
        let mut input = MemorySource::new(sample(100));
        let res = config(encryption, secret.clone(), CompressionType::Lz4).build_encryptor(Vec::new(), &mut input);
        assert!(matches!(
            res,
            Err(PipelineCompressionError::EncryptorInitError(EncryptorInitError::AlgorithmError(_)))
        ));
        assert_eq!(input.read(1000).unwrap().len(), 100);
        let (res, output) = extract(encryption, secret.clone(), CompressionType::Lz4, sample(50));
        assert!(matches!(
            res,
            Err(PipelineDecompressionError::DecryptorInitError(EncryptorInitError::AlgorithmError(_)))
        ));
        assert!(output.is_empty());
    }
    // with no encryption the password is not looked at
    let res = archive(EncryptionType::Passthrough, secret, CompressionType::Passthrough, b"abc");
    assert_eq!(res.unwrap(), b"abc".to_vec());
}

#[test]
fn damaged_archive_is_rejected() {
    let data = sample(20000);
    for compression in [CompressionType::Lz4, CompressionType::Gzip, CompressionType::Snappy] {
        let mut medium = archive(EncryptionType::Passthrough, EncryptionSecret::NoSecret, compression, &data).unwrap();
        let half = medium.len() / 2;
        medium.truncate(half);
        let (res, output) = extract(EncryptionType::Passthrough, EncryptionSecret::NoSecret, compression, medium);
        assert!(matches!(res, Err(PipelineDecompressionError::IOError(StreamError::Decompression))));
        assert!(output.is_empty());
    }
}

#[test]
fn default_configuration_changes_nothing() {
    let mut input = MemorySource::new(b"as it is".to_vec());
    let medium = PipeLineConfig::default().build_encryptor(Vec::new(), &mut input).unwrap();
    assert_eq!(medium, b"as it is".to_vec());
    let cfg = config(EncryptionType::XChaCha, EncryptionSecret::NoSecret, CompressionType::Lz4);
    assert_eq!(cfg.source_path(), "in");
    assert_eq!(cfg.destination_path(), "out");
    assert!(matches!(EncryptionSecret::default(), EncryptionSecret::NoSecret));
    assert!(matches!(EncryptionType::default(), EncryptionType::Passthrough));
    assert!(matches!(SigningType::default(), SigningType::Passthrough));
}

#[test]
fn layers_built_by_hand_run_as_a_pipeline() {
    let data = sample(50000);
    let enc = XChaChaPolyAlgorithm::new().with_key(password()).encryptor(Vec::new()).unwrap();
    let comp = Lz4Algorithm::new().compressor(enc).unwrap();
    let sign = SignerPassthrough::from(comp);
    let pipeline = TaskPipeline::from_writer(sign);
    let mut source = MemorySource::new(data.clone());
    let (signature, medium) = pipeline.compress(&mut source).unwrap();
    assert!(signature.is_none());
    assert!(source.read(10).unwrap().is_empty());

    let dec = zap::encryption::DecryptionAlgorithm::decryptor(
        &XChaChaPolyAlgorithm::new().with_key(password()),
        MemorySource::new(medium),
    )
    .unwrap();
    let decomp = zap::compression::DecompressionAlgorithm::decompressor(&Lz4Algorithm::new(), dec).unwrap();
    let verify = VerifierPassthrough::from(decomp);
    let pipeline = TaskPipeline::from_reader(verify);
    let mut sink = vec![0xAAu8];
    let judgement = pipeline.decompress(&mut sink).unwrap();
    assert!(judgement.is_none());
    assert_eq!(sink[0], 0xAA);
    assert_eq!(&sink[1..], &data[..]);
}

#[test]
fn builder_puts_any_three_algorithms_together() {
    let data = sample(40000);

    let pipeline = TaskPipeline::builder()
        .with_signing(SigningPassthrough::new())
        .with_compress_algorithm(GzipAlgorithm::with_compression_level(CompressionLevel::Best))
        .with_encryption(AesGcmAlgorithm::new().with_key(password()))
        .with_io(Vec::new())
        .compression_pipeline()
        .unwrap();
    let (signature, medium) = pipeline.compress(&mut MemorySource::new(data.clone())).unwrap();
    assert!(signature.is_none());
    let pipeline = TaskPipelineBuilder::new()
        .with_io(MemorySource::new(medium))
        .with_encryption(AesGcmAlgorithm::new().with_key(password()))
        .with_compress_algorithm(GzipAlgorithm::new())
        .with_signing(SigningPassthrough::default())
        .decompression_pipeline()
        .unwrap();
    let mut out = Vec::new();
    assert!(pipeline.decompress(&mut out).unwrap().is_none());
    assert_eq!(out, data);

    let pipeline = TaskPipelineBuilder::default()
        .with_io(Vec::new())
        .with_encryption(ChaChaPolyAlgorithm::new().with_key(password()))
        .with_compress_algorithm(SnappyAlgorithm::new())
        .with_signing(SigningPassthrough::new())
        .compression_pipeline()
        .unwrap();
    let (_, medium) = pipeline.compress(&mut MemorySource::new(data.clone())).unwrap();
    let pipeline = TaskPipeline::builder()
        .with_io(MemorySource::new(medium))
        .with_encryption(ChaChaPolyAlgorithm::new().with_key(password()))
        .with_compress_algorithm(SnappyAlgorithm::new())
        .with_signing(SigningPassthrough::new())
        .decompression_pipeline()
        .unwrap();
    let mut out = Vec::new();
    pipeline.decompress(&mut out).unwrap();
    assert_eq!(out, data);

    let pipeline = TaskPipeline::builder()
        .with_io(Vec::new())
        .with_encryption(EncryptionPassthrough::new())
        .with_compress_algorithm(PassthroughAlgorithm::new())
        .with_signing(SigningPassthrough::new())
        .compression_pipeline()
        .unwrap();
    let (_, medium) = pipeline.compress(&mut MemorySource::new(data.clone())).unwrap();
    assert_eq!(medium, data);
}

#[test]
fn builder_passes_on_the_refusal_of_a_key() {
    let res = TaskPipeline::builder()
        .with_io(Vec::new())
        .with_encryption(XChaChaPolyAlgorithm::new().with_key(vec![1u8; 5]))
        .with_compress_algorithm(Lz4Algorithm::new())
        .with_signing(SigningPassthrough::new())
        .compression_pipeline();
    assert!(matches!(res, Err(PipelineBuildError::EncryptorInit(EncryptorInitError::AlgorithmError(_)))));
    let res = TaskPipeline::builder()
        .with_io(MemorySource::new(Vec::new()))
        .with_encryption(XChaChaPolyAlgorithm::new().with_key(vec![1u8; 5]))
        .with_compress_algorithm(Lz4Algorithm::new())
        .with_signing(SigningPassthrough::new())
        .decompression_pipeline();
    assert!(matches!(res, Err(PipelineBuildError::EncryptorInit(EncryptorInitError::AlgorithmError(_)))));
}

#[test]
fn finalising_the_outermost_layer_finalises_them_all() {
    // 8192 bytes stay in the encryptor and 100 in the compressor until the
    // signer is finalised
    let enc = XChaChaPolyAlgorithm::new().with_key(password()).encryptor(Vec::new()).unwrap();
    let comp = zap::compression::passthrough::PassthroughCompressor::new(enc);
    let mut sign = SignerPassthrough::new(comp);
    write_all(&mut sign, &sample(8192 + 100)).unwrap();
    sign.flush().unwrap();
    let (signature, medium) = sign.finalise().unwrap();
    assert!(signature.is_none());
    assert_eq!(medium.len(), (24 + 8192 + 16) + (24 + 100 + 16));

    let dec = zap::encryption::DecryptionAlgorithm::decryptor(
        &XChaChaPolyAlgorithm::new().with_key(password()),
        MemorySource::new(medium),
    )
    .unwrap();
    let decomp = zap::compression::passthrough::PassthroughDeompressor::new(dec);
    let mut verify = VerifierPassthrough::new(decomp);
    let mut got = Vec::new();
    loop {
        let piece = verify.read(3000).unwrap();
        if piece.is_empty() {
            break;
        }
        got.extend_from_slice(&piece);
    }
    assert_eq!(got, sample(8192 + 100));
    assert!(verify.finalise().unwrap().is_none());
    let _ = EncryptorPassthrough::new(Vec::new());
}

#[test]
fn large_file_goes_through_in_one_piece() {
    // sixteen MiB that do not compress: about two thousand chunks
    let mut x: u64 = 88172645463325252;
    let data: Vec<u8> = (0..16 * 1024 * 1024)
        .map(|_| {
            x ^= x << 13;
            x ^= x >> 7;
            x ^= x << 17;
            (x >> 32) as u8
        })
        .collect();
    let secret = EncryptionSecret::Password(password());
    for compression in [CompressionType::Passthrough, CompressionType::Lz4] {
        let medium = archive(EncryptionType::XChaCha, secret.clone(), compression, &data).unwrap();
        assert!(medium.len() > data.len());
        let (res, output) = extract(EncryptionType::XChaCha, secret.clone(), compression, medium);
        res.unwrap();
        assert!(output == data);
    }
}

#[test]
fn one_bad_file_does_not_spoil_the_others() {
    let secret = EncryptionSecret::Password(password());
    let contents: Vec<Vec<u8>> = (0..6usize).map(|i| sample(3000 * i + 17)).collect();
    let mut archived: Vec<Vec<u8>> = Vec::new();
    for content in &contents {
        let cfg = config(EncryptionType::ChaCha, secret.clone(), CompressionType::Snappy);
        archived.push(cfg.compress_dir(content.clone()).unwrap());
    }
    // the third file is damaged on the way
    let middle = archived[2].len() / 2;
    archived[2][middle] ^= 0xFF;
    let mut restored = 0;
    let mut failed = 0;
    for (content, medium) in contents.iter().zip(archived) {
        let cfg = config(EncryptionType::ChaCha, secret.clone(), CompressionType::Snappy);
        match cfg.decompress_dir(medium) {
            Ok(out) => {
                assert_eq!(&out, content);
                restored += 1;
            },
            Err(e) => {
                assert!(matches!(e, PipelineDecompressionError::IOError(StreamError::Decryption)));
                failed += 1;
            },
        }
    }
    assert_eq!(restored, 5);
    assert_eq!(failed, 1);
}

#[test]
fn whole_files_are_archived_and_extracted() {
    for encryption in encryptions() {
        for compression in compressions() {
            let secret = EncryptionSecret::Password(password());
            let content = sample(12345);
            let archived = config(encryption, secret.clone(), compression).compress_dir(content.clone()).unwrap();
            let back = config(encryption, secret, compression).decompress_dir(archived).unwrap();
            assert_eq!(back, content);
        }
    }
    let key_file = EncryptionSecret::Key(String::from("k"));
    assert!(matches!(
        config(EncryptionType::XChaCha, key_file.clone(), CompressionType::Lz4).compress_dir(vec![1]),
        Err(PipelineCompressionError::NotImplemented(_))
    ));
    match config(EncryptionType::XChaCha, key_file, CompressionType::Lz4).decompress_dir(vec![1]) {
        Err(PipelineDecompressionError::NotImplemented(text)) => assert_eq!(text, "Key encryption not yet implemented"),
        other => panic!("{:?}", other),
    }
}

#[test]
fn output_holds_what_came_before_the_chunk_that_failed() {
    let secret = EncryptionSecret::Password(password());
    let data = sample(3 * 8192);
    let mut medium = archive(EncryptionType::XChaCha, secret.clone(), CompressionType::Passthrough, &data).unwrap();
    // damage the third chunk
    let w = 24 + 8192 + 16;
    medium[2 * w + 100] ^= 1;
    let mut output = vec![7u8];
    let res = config(EncryptionType::XChaCha, secret, CompressionType::Passthrough)
        .build_dencryptor(MemorySource::new(medium), &mut output);
    assert!(matches!(res, Err(PipelineDecompressionError::IOError(StreamError::Decryption))));
    assert_eq!(output[0], 7);
    assert_eq!(&output[1..], &data[..2 * 8192]);
}

#[test]
fn selections_are_checked_before_any_file_is_touched() {
    let good = EncryptionSecret::Password(password());
    for encryption in encryptions() {
        for compression in compressions() {
            config(encryption, good.clone(), compression).validate().unwrap();
            config(encryption, EncryptionSecret::NoSecret, compression).validate().unwrap();
            match config(encryption, EncryptionSecret::Key(String::from("k")), compression).validate() {
                Err(PipelineCompressionError::NotImplemented(text)) => {
                    assert_eq!(text, "Key encryption not yet implemented")
                },
                other => panic!("{:?}", other),
            }
        }
    }
    let short = EncryptionSecret::Password(vec![1u8; 16]);
    config(EncryptionType::Passthrough, short.clone(), CompressionType::Lz4).validate().unwrap();
    for (encryption, words) in [
        (EncryptionType::XChaCha, "XChaChaPoly: Invalid Length"),
        (EncryptionType::ChaCha, "ChaChaPoly: Invalid Length"),
        (EncryptionType::AesGcm, "AesGcm: Invalid Length"),
    ] {
        match config(encryption, short.clone(), CompressionType::Lz4).validate() {
            Err(PipelineCompressionError::EncryptorInitError(EncryptorInitError::AlgorithmError(text))) => {
                assert_eq!(text, words)
            },
            other => panic!("{:?}", other),
        }
    }
}

#[test]
fn default_configuration_names_no_paths() {
    let cfg = PipeLineConfig::default();
    assert_eq!(cfg.source_path(), "");
    assert_eq!(cfg.destination_path(), "");
    cfg.validate().unwrap();
}
