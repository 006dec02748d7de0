use zap::cli::{
    effective_compression, effective_encryption, list, secret_source, BinCompressionType, BinEncryptionType, Command,
    Job, SecretSource, Verbosity, LISTING_REFUSAL,
};
use zap::compression::codec::CompressionLevel;
use zap::compression::CompressionType;
use zap::encryption::EncryptionType;
use zap::error::ZapError;

#[test]
fn compression_level_from_its_name() {
    assert_eq!(CompressionLevel::from(String::from("fastest")), CompressionLevel::Fastest);
    assert_eq!(CompressionLevel::from(String::from("best")), CompressionLevel::Best);
    assert_eq!(CompressionLevel::from(String::from("default")), CompressionLevel::Default);
    assert_eq!(CompressionLevel::from(String::from("")), CompressionLevel::Default);
    assert_eq!(CompressionLevel::from(String::from("Fastest")), CompressionLevel::Default);
}

#[test]
fn compression_algorithm_from_its_name() {
    assert_eq!(BinCompressionType::from(String::from("passthrough")), BinCompressionType::Passthrough);
    assert_eq!(BinCompressionType::from(String::from("lz4")), BinCompressionType::Lz4);
    assert_eq!(BinCompressionType::from(String::from("gzip")), BinCompressionType::Gzip);
    assert_eq!(BinCompressionType::from(String::from("snappy")), BinCompressionType::Snappy);
    assert_eq!(BinCompressionType::from(String::from("")), BinCompressionType::Lz4);
    assert_eq!(BinCompressionType::from(String::from("zstd")), BinCompressionType::Passthrough);
    assert_eq!(BinCompressionType::default(), BinCompressionType::Lz4);
}

#[test]
fn encryption_algorithm_from_its_name() {
    assert_eq!(BinEncryptionType::from(String::from("passthrough")), BinEncryptionType::Passthrough);
    assert_eq!(BinEncryptionType::from(String::from("xchacha")), BinEncryptionType::XChaCha);
    assert_eq!(BinEncryptionType::from(String::from("aesgcm")), BinEncryptionType::AesGcm);
    assert_eq!(BinEncryptionType::from(String::from("chacha")), BinEncryptionType::ChaCha);
    assert_eq!(BinEncryptionType::from(String::from("")), BinEncryptionType::XChaCha);
    assert_eq!(BinEncryptionType::from(String::from("rot13")), BinEncryptionType::Passthrough);
    assert_eq!(BinEncryptionType::default(), BinEncryptionType::XChaCha);
}

#[test]
fn command_line_names_and_library_names_match() {
    for (bin, lib) in [
        (BinCompressionType::Passthrough, CompressionType::Passthrough),
        (BinCompressionType::Lz4, CompressionType::Lz4),
        (BinCompressionType::Gzip, CompressionType::Gzip),
        (BinCompressionType::Snappy, CompressionType::Snappy),
    ] {
        assert_eq!(CompressionType::from(bin), lib);
        assert_eq!(BinCompressionType::from(lib), bin);
        let back: CompressionType = bin.into();
        assert_eq!(back, lib);
    }
    for (bin, lib) in [
        (BinEncryptionType::Passthrough, EncryptionType::Passthrough),
        (BinEncryptionType::XChaCha, EncryptionType::XChaCha),
        (BinEncryptionType::AesGcm, EncryptionType::AesGcm),
        (BinEncryptionType::ChaCha, EncryptionType::ChaCha),
    ] {
        assert_eq!(EncryptionType::from(bin), lib);
        assert_eq!(BinEncryptionType::from(lib), bin);
        let back: EncryptionType = bin.into();
        assert_eq!(back, lib);
    }
}

#[test]
fn plain_switches_stand_for_the_default_algorithms() {
    assert_eq!(effective_encryption(true, BinEncryptionType::Passthrough), EncryptionType::XChaCha);
    assert_eq!(effective_encryption(false, BinEncryptionType::Passthrough), EncryptionType::Passthrough);
    assert_eq!(effective_encryption(true, BinEncryptionType::AesGcm), EncryptionType::AesGcm);
    assert_eq!(effective_encryption(false, BinEncryptionType::ChaCha), EncryptionType::ChaCha);
    assert_eq!(effective_compression(true, BinCompressionType::Passthrough), CompressionType::Lz4);
    assert_eq!(effective_compression(false, BinCompressionType::Passthrough), CompressionType::Passthrough);
    assert_eq!(effective_compression(true, BinCompressionType::Gzip), CompressionType::Gzip);
    assert_eq!(effective_compression(false, BinCompressionType::Snappy), CompressionType::Snappy);
}

#[test]
fn secret_comes_from_where_the_command_says() {
    assert!(matches!(secret_source(EncryptionType::Passthrough, None), SecretSource::NoSecret));
    assert!(matches!(
        secret_source(EncryptionType::Passthrough, Some(String::from("k"))),
        SecretSource::NoSecret
    ));
    assert!(matches!(secret_source(EncryptionType::XChaCha, None), SecretSource::Password));
    match secret_source(EncryptionType::AesGcm, Some(String::from("key.bin"))) {
        SecretSource::KeyFile(path) => assert_eq!(path, "key.bin"),
        other => panic!("{:?}", other),
    }
}

#[test]
fn archive_command_is_resolved() {
    let command = Command::Archive {
        input: String::from("in"),
        output: String::from("out.zap"),
        encrypt: true,
        compress: true,
        keypath: None,
        verbosity: Verbosity::Verbose,
        encryption_algorithm: BinEncryptionType::Passthrough,
        compression_algorithm: BinCompressionType::Passthrough,
        compression_level: CompressionLevel::Best,
    };
    match command.resolve() {
        Job::Archive { input, output, verbosity, encryption, secret, compression, compression_level } => {
            assert_eq!(input, "in");
            assert_eq!(output, "out.zap");
            assert_eq!(verbosity, Verbosity::Verbose);
            assert_eq!(encryption, EncryptionType::XChaCha);
            assert!(matches!(secret, SecretSource::Password));
            assert_eq!(compression, CompressionType::Lz4);
            assert_eq!(compression_level, CompressionLevel::Best);
        },
        other => panic!("{:?}", other),
    }
}

#[test]
fn extract_command_is_resolved() {
    let command = Command::Extract {
        input: String::from("in.zap"),
        output: String::from("out"),
        encrypt: false,
        compress: false,
        keypath: Some(String::from("key")),
        verbosity: Verbosity::Quiet,
        encryption_algorithm: BinEncryptionType::ChaCha,
        compression_algorithm: BinCompressionType::Snappy,
    };
    match command.resolve() {
        Job::Extract { input, output, verbosity, encryption, secret, compression } => {
            assert_eq!(input, "in.zap");
            assert_eq!(output, "out");
            assert_eq!(verbosity, Verbosity::Quiet);
            assert_eq!(encryption, EncryptionType::ChaCha);
            assert!(matches!(secret, SecretSource::KeyFile(_)));
            assert_eq!(compression, CompressionType::Snappy);
        },
        other => panic!("{:?}", other),
    }
    let command = Command::Extract {
        input: String::from("in.zap"),
        output: String::from("out"),
        encrypt: false,
        compress: true,
        keypath: Some(String::from("key")),
        verbosity: Verbosity::Normal,
        encryption_algorithm: BinEncryptionType::Passthrough,
        compression_algorithm: BinCompressionType::Passthrough,
    };
    match command.resolve() {
        Job::Extract { encryption, secret, compression, .. } => {
            assert_eq!(encryption, EncryptionType::Passthrough);
            assert!(matches!(secret, SecretSource::NoSecret));
            assert_eq!(compression, CompressionType::Lz4);
        },
        other => panic!("{:?}", other),
    }
}

#[test]
fn list_command_is_resolved() {
    let command = Command::List { archive: String::from("a.zap"), verbosity: Verbosity::Debug };
    match command.resolve() {
        Job::List { archive, verbosity } => {
            assert_eq!(archive, "a.zap");
            assert_eq!(verbosity, Verbosity::Debug);
        },
        other => panic!("{:?}", other),
    }
}

#[test]
fn listing_is_refused_for_every_archive() {
    for archive in ["a.zap", "", "no/such/file"] {
        match list(archive) {
            Err(ZapError::NotImplemented(text)) => {
                assert_eq!(text, "Archive listing not yet implemented.");
                assert_eq!(text, LISTING_REFUSAL);
            },
            other => panic!("{:?}", other.map_err(|e| e.message())),
        }
    }
}
