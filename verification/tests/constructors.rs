use zap::compression::algorithms::{lz4_decoder, lz4_encoder};
use zap::compression::{Compress, Decompress};
use zap::encryption::algorithm::{aes256, aes256_r, chacha20poly1305, decryption_passthrough, encryption_passthrough};
use zap::encryption::chachapoly::ChaChaPolyAlgorithm;
use zap::encryption::nonce::increment_nonce;
use zap::encryption::{DecryptionAlgorithm, EncryptionModule};
use zap::error::{EncryptorInitError, StreamError};
use zap::internal::{bind_io_constructors, process_bind, process_unit};
use zap::signing::signers::{signer_passthrough, verifier_passthrough};
use zap::signing::{Sign, Verify};
use zap::stream::{read_to_end, write_all, MemorySource, Sink};
use zap::util::return_if_equal;

fn key() -> Vec<u8> {
    vec![0x42u8; 32]
}

fn sample() -> Vec<u8> {
    (0..50000u32).map(|i| (i % 251) as u8).collect()
}

#[test]
fn three_constructors_bound_make_the_whole_stack() {
    let data = sample();
    let bound = bind_io_constructors(aes256(key()), lz4_encoder, signer_passthrough);
    let mut writer = bound(Ok(Vec::new())).unwrap();
    write_all(&mut writer, &data).unwrap();
    let (signature, medium) = writer.finalise().unwrap();
    assert!(signature.is_none());
    assert_ne!(medium, data);

    let bound = bind_io_constructors(aes256_r(key()), lz4_decoder, verifier_passthrough);
    let mut reader = bound(Ok(MemorySource::new(medium))).unwrap();
    assert_eq!(read_to_end(&mut reader).unwrap(), data);
    assert!(reader.finalise().unwrap().is_none());
}

#[test]
fn bound_constructors_can_be_used_again() {
    let bound = bind_io_constructors(encryption_passthrough(), lz4_encoder, signer_passthrough);
    for round in 0..3u8 {
        let mut writer = bound(Ok(Vec::new())).unwrap();
        write_all(&mut writer, &[round; 100]).unwrap();
        let (_, medium) = writer.finalise().unwrap();
        let unbound = bind_io_constructors(decryption_passthrough(), lz4_decoder, verifier_passthrough);
        let mut reader = unbound(Ok(MemorySource::new(medium))).unwrap();
        assert_eq!(read_to_end(&mut reader).unwrap(), vec![round; 100]);
    }
}

#[test]
fn failure_to_open_the_medium_is_passed_through_every_constructor() {
    let bound = bind_io_constructors(chacha20poly1305::<Vec<u8>>(key()), lz4_encoder, signer_passthrough);
    assert!(matches!(bound(Err(StreamError::WriteZero)), Err(StreamError::WriteZero)));
    let bound = bind_io_constructors(aes256_r::<MemorySource>(key()), lz4_decoder, verifier_passthrough);
    assert!(matches!(bound(Err(StreamError::Decompression)), Err(StreamError::Decompression)));
    let bound = bind_io_constructors(encryption_passthrough::<Vec<u8>>(), lz4_encoder, signer_passthrough);
    assert!(matches!(bound(Err(StreamError::Compression)), Err(StreamError::Compression)));
    let bound = bind_io_constructors(decryption_passthrough::<MemorySource>(), lz4_decoder, verifier_passthrough);
    assert!(matches!(bound(Err(StreamError::Encryption)), Err(StreamError::Encryption)));
}

#[test]
fn key_that_does_not_fit_fails_the_constructor() {
    let make = chacha20poly1305::<Vec<u8>>(vec![1u8; 7]);
    assert!(matches!(make(Ok(Vec::new())), Err(StreamError::Init(EncryptorInitError::AlgorithmError(_)))));
    let make = aes256::<Vec<u8>>(vec![1u8; 33]);
    assert!(matches!(make(Ok(Vec::new())), Err(StreamError::Init(EncryptorInitError::AlgorithmError(_)))));
    let make = aes256_r::<MemorySource>(Vec::new());
    assert!(matches!(
        make(Ok(MemorySource::new(Vec::new()))),
        Err(StreamError::Init(EncryptorInitError::AlgorithmError(_)))
    ));
    let bound = bind_io_constructors(aes256::<Vec<u8>>(vec![1u8; 33]), lz4_encoder, signer_passthrough);
    assert!(matches!(bound(Ok(Vec::new())), Err(StreamError::Init(_))));
}

#[test]
fn chacha_constructor_makes_what_the_algorithm_reads() {
    let make = chacha20poly1305(key());
    let mut enc = make(Ok(Vec::new())).unwrap();
    write_all(&mut enc, b"bound").unwrap();
    enc.flush().unwrap();
    let wire = enc.finalise().unwrap();
    assert_eq!(wire.len(), 12 + 5 + 16);
    let mut dec = ChaChaPolyAlgorithm::new().with_key(key()).decryptor(MemorySource::new(wire)).unwrap();
    assert_eq!(read_to_end(&mut dec).unwrap(), b"bound".to_vec());
}

#[test]
fn single_constructors_are_run_and_chained() {
    let enc = process_unit(Ok(Vec::new()), encryption_passthrough());
    let mut comp = process_unit(enc, lz4_encoder).unwrap();
    write_all(&mut comp, b"abc").unwrap();
    let medium: Vec<u8> = comp.finalise().unwrap();
    let mut dec = process_bind(Ok(MemorySource::new(medium)), decryption_passthrough(), lz4_decoder).unwrap();
    assert_eq!(read_to_end(&mut dec).unwrap(), b"abc".to_vec());
    dec.finalise().unwrap();
    assert!(matches!(
        process_bind(Err::<Vec<u8>, StreamError>(StreamError::WriteZero), encryption_passthrough(), lz4_encoder),
        Err(StreamError::WriteZero)
    ));
}

#[test]
fn equal_values_are_handed_back() {
    assert_eq!(return_if_equal(3, 3), Some(3));
    assert_eq!(return_if_equal(3, 4), None);
    assert_eq!(return_if_equal(String::from("pw"), String::from("pw")), Some(String::from("pw")));
    assert_eq!(return_if_equal(String::from("pw"), String::from("pW")), None);
    assert_eq!(return_if_equal(Vec::<u8>::new(), Vec::new()), Some(Vec::new()));
}

#[test]
fn nonce_counts_up_from_its_first_byte() {
    assert_eq!(increment_nonce(vec![0, 0, 0]), vec![1, 0, 0]);
    assert_eq!(increment_nonce(vec![41, 7, 9]), vec![42, 7, 9]);
    assert_eq!(increment_nonce(vec![255, 0, 0]), vec![0, 1, 0]);
    assert_eq!(increment_nonce(vec![255, 255, 3]), vec![0, 0, 4]);
    assert_eq!(increment_nonce(vec![255, 254, 3]), vec![0, 255, 3]);
    assert_eq!(increment_nonce(vec![255, 255, 255]), vec![0, 0, 0]);
    assert_eq!(increment_nonce(vec![255]), vec![0]);
    assert_eq!(increment_nonce(Vec::new()), Vec::<u8>::new());
    let mut nonce = vec![0u8; 12];
    for _ in 0..70000 {
        nonce = increment_nonce(nonce);
    }
    // 70000 = 0x011170
    assert_eq!(nonce, vec![0x70, 0x11, 0x01, 0, 0, 0, 0, 0, 0, 0, 0, 0]);
}

#[test]
fn texts_are_compared_letter_by_letter() {
    assert!(zap::util::same_text("lz4", "lz4"));
    assert!(zap::util::same_text("", ""));
    assert!(!zap::util::same_text("lz4", "LZ4"));
    assert!(!zap::util::same_text("lz4", "lz"));
}

#[test]
fn key_that_does_not_fit_is_found_before_the_medium_is_looked_at() {
    let make = chacha20poly1305::<Vec<u8>>(vec![1u8; 7]);
    assert!(matches!(
        make(Err(StreamError::WriteZero)),
        Err(StreamError::Init(EncryptorInitError::AlgorithmError(_)))
    ));
    let make = aes256::<Vec<u8>>(vec![1u8; 31]);
    assert!(matches!(
        make(Err(StreamError::Compression)),
        Err(StreamError::Init(EncryptorInitError::AlgorithmError(_)))
    ));
    let make = aes256_r::<MemorySource>(vec![1u8; 64]);
    match make(Err(StreamError::Decompression)) {
        Err(StreamError::Init(EncryptorInitError::AlgorithmError(text))) => assert_eq!(text, "AesGcm: Invalid Length"),
        _ => panic!("the key was not looked at first"),
    }
    // with a key that fits, the failure of the medium is what comes back
    let make = aes256_r::<MemorySource>(key());
    assert!(matches!(make(Err(StreamError::Decompression)), Err(StreamError::Decompression)));
}
