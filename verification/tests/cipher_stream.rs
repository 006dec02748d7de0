use zap::encryption::aead::{check_key, fresh_nonce, open, seal, Cipher, CHUNK_SIZE, KEY_SIZE, TAG_SIZE};
use zap::encryption::aes_gcm_256::AesGcmAlgorithm;
use zap::encryption::chachapoly::ChaChaPolyAlgorithm;
use zap::encryption::chunked::{open_piece, seal_under};
use zap::encryption::passthrough::{DecryptorPassthrough, EncryptionPassthrough, EncryptorPassthrough};
use zap::encryption::xchachapoly::XChaChaPolyAlgorithm;
use zap::encryption::{DecryptionAlgorithm, DecryptionModule, EncryptionAlgorithm, EncryptionModule};
use zap::error::{EncryptorInitError, StreamError};
use zap::stream::{read_to_end, write_all, MemorySource, Sink, Source};

fn sample(len: usize) -> Vec<u8> {
    let mut data = Vec::with_capacity(len);
    let mut x: u32 = 12345;
    for _ in 0..len {
        x = x.wrapping_mul(1103515245).wrapping_add(12345);
        data.push((x >> 16) as u8);
    }
    data
}

fn key() -> Vec<u8> {
    (0u8..32).collect()
}

fn other_key() -> Vec<u8> {
    (100u8..132).collect()
}

fn sizes() -> Vec<usize> {
    vec![0, 1, 5, 8191, 8192, 8193, 16384, 20000, 3 * 8192 + 100]
}

fn expected_wire_len(nonce: usize, len: usize) -> usize {
    let chunks = (len + CHUNK_SIZE - 1) / CHUNK_SIZE;
    len + chunks * (nonce + TAG_SIZE)
}

fn seal_with<A: EncryptionAlgorithm<Vec<u8>>>(alg: &A, data: &[u8], step: usize) -> Vec<u8>
where
    A::Encryptor: EncryptionModule<Io = Vec<u8>>,
{
    let mut enc = alg.encryptor(Vec::new()).unwrap();
    let mut pos = 0;
    while pos < data.len() {
        let end = std::cmp::min(pos + step, data.len());
        let n = enc.write(&data[pos..end]).unwrap();
        assert_eq!(n, end - pos);
        pos = end;
    }
    enc.finalise().unwrap()
}

fn open_with<A: DecryptionAlgorithm<MemorySource>>(alg: &A, wire: Vec<u8>) -> Result<Vec<u8>, StreamError> {
    let mut dec = alg.decryptor(MemorySource::new(wire)).unwrap();
    let plain = read_to_end(&mut dec)?;
    dec.finalise().unwrap();
    Ok(plain)
}

#[test]
fn xchacha_round_trip_small() {
    let alg = XChaChaPolyAlgorithm::new().with_key(vec![7u8; 32]);
    let mut enc = alg.encryptor(Vec::new()).unwrap();
    write_all(&mut enc, b"hello").unwrap();
    let wire: Vec<u8> = enc.finalise().unwrap();
    assert_eq!(wire.len(), 24 + 5 + 16);
    let mut dec = alg.decryptor(MemorySource::new(wire)).unwrap();
    let plain = read_to_end(&mut dec).unwrap();
    assert_eq!(plain, b"hello".to_vec());
}

#[test]
fn xchacha_round_trip_all_sizes() {
    let alg = XChaChaPolyAlgorithm::new().with_key(key());
    for len in sizes() {
        let data = sample(len);
        let wire = seal_with(&alg, &data, 4096);
        assert_eq!(wire.len(), expected_wire_len(24, len));
        assert_eq!(open_with(&alg, wire).unwrap(), data);
    }
}

#[test]
fn chacha_round_trip_all_sizes() {
    let alg = ChaChaPolyAlgorithm::new().with_key(key());
    for len in sizes() {
        let data = sample(len);
        let wire = seal_with(&alg, &data, 4096);
        assert_eq!(wire.len(), expected_wire_len(12, len));
        assert_eq!(open_with(&alg, wire).unwrap(), data);
    }
}

#[test]
fn aes_gcm_round_trip_all_sizes() {
    let alg = AesGcmAlgorithm::new().with_key(key());
    for len in sizes() {
        let data = sample(len);
        let wire = seal_with(&alg, &data, 4096);
        assert_eq!(wire.len(), expected_wire_len(12, len));
        assert_eq!(open_with(&alg, wire).unwrap(), data);
    }
}

#[test]
fn chunking_does_not_depend_on_how_the_data_is_written() {
    let alg = XChaChaPolyAlgorithm::new().with_key(key());
    let data = sample(3 * 8192 + 100);
    for step in [1usize, 7, 100, 8191, 8192, 8193, 20000, 100000] {
        if step == 1 {
            // one byte at a time over 24 KiB is slow but still exact
            let wire = seal_with(&alg, &data[..9000], step);
            assert_eq!(wire.len(), expected_wire_len(24, 9000));
            assert_eq!(open_with(&alg, wire).unwrap(), data[..9000].to_vec());
        } else {
            let wire = seal_with(&alg, &data, step);
            assert_eq!(wire.len(), expected_wire_len(24, data.len()));
            assert_eq!(open_with(&alg, wire).unwrap(), data);
        }
    }
}

#[test]
fn write_reports_the_whole_input_and_holds_back_up_to_one_chunk() {
    let alg = ChaChaPolyAlgorithm::new().with_key(key());
    let mut enc = alg.encryptor(Vec::new()).unwrap();
    // exactly one chunk: nothing is sealed yet
    assert_eq!(enc.write(&sample(8192)).unwrap(), 8192);
    // one byte more: the first chunk goes out, the byte waits
    assert_eq!(enc.write(&[1u8]).unwrap(), 1);
    let wire = enc.finalise().unwrap();
    assert_eq!(wire.len(), (12 + 8192 + 16) + (12 + 1 + 16));
}

#[test]
fn exactly_one_chunk_is_sealed_at_finalise() {
    let alg = AesGcmAlgorithm::new().with_key(key());
    let mut enc = alg.encryptor(Vec::new()).unwrap();
    assert_eq!(enc.write(&sample(8192)).unwrap(), 8192);
    enc.flush().unwrap();
    let wire = enc.finalise().unwrap();
    assert_eq!(wire.len(), 12 + 8192 + 16);
}

#[test]
fn empty_input_gives_empty_wire() {
    let alg = XChaChaPolyAlgorithm::new().with_key(key());
    let enc = alg.encryptor(Vec::new()).unwrap();
    let wire = enc.finalise().unwrap();
    assert!(wire.is_empty());
    assert_eq!(open_with(&alg, wire).unwrap(), Vec::<u8>::new());
}

#[test]
fn encryptor_appends_to_what_the_medium_held() {
    let alg = XChaChaPolyAlgorithm::new().with_key(key());
    let mut enc = alg.encryptor(vec![9u8, 9, 9]).unwrap();
    write_all(&mut enc, b"abc").unwrap();
    let medium = enc.finalise().unwrap();
    assert_eq!(&medium[..3], &[9u8, 9, 9]);
    assert_eq!(medium.len(), 3 + 24 + 3 + 16);
    assert_eq!(open_with(&alg, medium[3..].to_vec()).unwrap(), b"abc".to_vec());
}

#[test]
fn key_of_wrong_length_is_refused() {
    for len in [0usize, 16, 31, 33, 64] {
        let bad = vec![1u8; len];
        let x = XChaChaPolyAlgorithm::new().with_key(bad.clone());
        assert!(matches!(x.encryptor(Vec::new()), Err(EncryptorInitError::AlgorithmError(_))));
        assert!(matches!(x.decryptor(MemorySource::new(vec![])), Err(EncryptorInitError::AlgorithmError(_))));
        let c = ChaChaPolyAlgorithm::new().with_key(bad.clone());
        assert!(matches!(c.encryptor(Vec::new()), Err(EncryptorInitError::AlgorithmError(_))));
        assert!(matches!(c.decryptor(MemorySource::new(vec![])), Err(EncryptorInitError::AlgorithmError(_))));
        let a = AesGcmAlgorithm::new().with_key(bad);
        assert!(matches!(a.encryptor(Vec::new()), Err(EncryptorInitError::AlgorithmError(_))));
        assert!(matches!(a.decryptor(MemorySource::new(vec![])), Err(EncryptorInitError::AlgorithmError(_))));
        assert!(check_key(Cipher::Aes256Gcm, &vec![1u8; len]).is_err());
    }
    assert!(check_key(Cipher::XChaCha20Poly1305, &key()).is_ok());
    assert!(check_key(Cipher::ChaCha20Poly1305, &key()).is_ok());
    assert!(check_key(Cipher::Aes256Gcm, &key()).is_ok());
    assert_eq!(KEY_SIZE, 32);
}

#[test]
fn aes_gcm_algorithm_keeps_key_and_tag_apart() {
    // the tag has no part in the stream: with or without it the same key opens what it sealed
    let with_tag = AesGcmAlgorithm::new().with_tag(vec![1, 2, 3]).with_key(key());
    let _ = with_tag;
    let alg = AesGcmAlgorithm::default().with_key(key());
    let wire = seal_with(&alg, b"tagged", 100);
    assert_eq!(open_with(&AesGcmAlgorithm::new().with_key(key()), wire).unwrap(), b"tagged".to_vec());
    let _ = XChaChaPolyAlgorithm::default();
    let _ = ChaChaPolyAlgorithm::default();
}

#[test]
fn refusal_is_worded_by_the_cipher() {
    match check_key(Cipher::XChaCha20Poly1305, &[1u8; 3]) {
        Err(text) => assert_eq!(text, "XChaChaPoly: Invalid Length"),
        Ok(()) => panic!("a key of three bytes was taken"),
    }
    match check_key(Cipher::ChaCha20Poly1305, &[1u8; 3]) {
        Err(text) => assert_eq!(text, "ChaChaPoly: Invalid Length"),
        Ok(()) => panic!("a key of three bytes was taken"),
    }
    match check_key(Cipher::Aes256Gcm, &[1u8; 3]) {
        Err(text) => assert_eq!(text, "AesGcm: Invalid Length"),
        Ok(()) => panic!("a key of three bytes was taken"),
    }
}

#[test]
fn wrong_key_fails_authentication() {
    let data = sample(20000);
    let wire = seal_with(&XChaChaPolyAlgorithm::new().with_key(key()), &data, 4096);
    let wrong = XChaChaPolyAlgorithm::new().with_key(other_key());
    assert!(matches!(open_with(&wrong, wire), Err(StreamError::Decryption)));
    let wire = seal_with(&ChaChaPolyAlgorithm::new().with_key(key()), &data, 4096);
    let wrong = ChaChaPolyAlgorithm::new().with_key(other_key());
    assert!(matches!(open_with(&wrong, wire), Err(StreamError::Decryption)));
    let wire = seal_with(&AesGcmAlgorithm::new().with_key(key()), &data, 4096);
    let wrong = AesGcmAlgorithm::new().with_key(other_key());
    assert!(matches!(open_with(&wrong, wire), Err(StreamError::Decryption)));
}

#[test]
fn corrupting_any_byte_of_a_chunk_fails_that_chunk_only() {
    let alg = XChaChaPolyAlgorithm::new().with_key(key());
    let data = sample(3 * 8192);
    let wire = seal_with(&alg, &data, 8192);
    let w = 24 + 8192 + 16;
    assert_eq!(wire.len(), 3 * w);
    // positions in the second chunk: nonce, first and last ciphertext byte, first and last tag byte
    for offset in [0usize, 23, 24, 24 + 8191, 24 + 8192, w - 1] {
        let mut bad = wire.clone();
        bad[w + offset] ^= 0x01;
        let mut dec = alg.decryptor(MemorySource::new(bad)).unwrap();
        // the first chunk is delivered whole
        let mut got = Vec::new();
        while got.len() < 8192 {
            let piece = dec.read(8192 - got.len()).unwrap();
            assert!(!piece.is_empty());
            got.extend_from_slice(&piece);
        }
        assert_eq!(got, data[..8192].to_vec());
        // of the second chunk nothing is
        assert!(matches!(dec.read(1), Err(StreamError::Decryption)));
    }
}

#[test]
fn corruption_in_the_last_chunk_leaves_the_chunks_before_it_readable() {
    let alg = AesGcmAlgorithm::new().with_key(key());
    let data = sample(2 * 8192 + 10);
    let mut wire = seal_with(&alg, &data, 5000);
    let last = wire.len() - 1;
    wire[last] ^= 0x80;
    let mut dec = alg.decryptor(MemorySource::new(wire)).unwrap();
    let mut got = Vec::new();
    while got.len() < 2 * 8192 {
        let piece = dec.read(100000).unwrap();
        assert!(!piece.is_empty());
        got.extend_from_slice(&piece);
    }
    assert_eq!(got, data[..2 * 8192].to_vec());
    assert!(matches!(dec.read(100000), Err(StreamError::Decryption)));
}

#[test]
fn truncated_stream_fails() {
    let alg = ChaChaPolyAlgorithm::new().with_key(key());
    let data = sample(100);
    let wire = seal_with(&alg, &data, 100);
    // cut inside the tag
    assert!(matches!(open_with(&alg, wire[..wire.len() - 1].to_vec()), Err(StreamError::Decryption)));
    // cut inside the nonce
    assert!(matches!(open_with(&alg, wire[..5].to_vec()), Err(StreamError::Decryption)));
    // cut between nonce and tag
    assert!(matches!(open_with(&alg, wire[..12 + 3].to_vec()), Err(StreamError::Decryption)));
}

#[test]
fn reads_are_short_at_chunk_ends() {
    let alg = XChaChaPolyAlgorithm::new().with_key(key());
    let data = sample(8192 + 10);
    let wire = seal_with(&alg, &data, 4096);
    let mut dec = alg.decryptor(MemorySource::new(wire)).unwrap();
    let first = dec.read(10000).unwrap();
    assert_eq!(first.len(), 8192);
    let second = dec.read(10000).unwrap();
    assert_eq!(second.len(), 10);
    assert!(dec.read(10000).unwrap().is_empty());
    assert!(dec.read(10000).unwrap().is_empty());
}

#[test]
fn nonces_do_not_repeat() {
    let alg = ChaChaPolyAlgorithm::new().with_key(key());
    let data = vec![0u8; 400 * 8192];
    let wire = seal_with(&alg, &data, 65536);
    let w = 12 + 8192 + 16;
    assert_eq!(wire.len(), 400 * w);
    let mut nonces: Vec<Vec<u8>> = (0..400).map(|i| wire[i * w..i * w + 12].to_vec()).collect();
    nonces.sort();
    nonces.dedup();
    assert_eq!(nonces.len(), 400);
    let mut fresh: Vec<Vec<u8>> = (0..2000).map(|_| fresh_nonce(Cipher::XChaCha20Poly1305).unwrap()).collect();
    assert!(fresh.iter().all(|n| n.len() == 24));
    fresh.sort();
    fresh.dedup();
    assert_eq!(fresh.len(), 2000);
    assert_eq!(fresh_nonce(Cipher::Aes256Gcm).unwrap().len(), 12);
    assert_eq!(fresh_nonce(Cipher::ChaCha20Poly1305).unwrap().len(), 12);
}

#[test]
fn equal_chunks_are_sealed_differently() {
    let alg = XChaChaPolyAlgorithm::new().with_key(key());
    let data = vec![0u8; 2 * 8192];
    let wire = seal_with(&alg, &data, 8192);
    let w = 24 + 8192 + 16;
    assert_ne!(&wire[24..w], &wire[w + 24..2 * w]);
}

#[test]
fn seal_and_open_one_message() {
    for cipher in [Cipher::XChaCha20Poly1305, Cipher::ChaCha20Poly1305, Cipher::Aes256Gcm] {
        let nonce = vec![3u8; cipher.nonce_size()];
        let body = seal(cipher, &key(), &nonce, b"plain").unwrap();
        assert_eq!(body.len(), 5 + TAG_SIZE);
        assert_ne!(&body[..5], b"plain");
        assert_eq!(open(cipher, &key(), &nonce, &body).unwrap(), b"plain".to_vec());
        // sealing is a function of key, nonce and plaintext
        assert_eq!(seal(cipher, &key(), &nonce, b"plain").unwrap(), body);
        let mut other_nonce = nonce.clone();
        other_nonce[0] ^= 1;
        assert!(open(cipher, &key(), &other_nonce, &body).is_none());
        assert!(open(cipher, &other_key(), &nonce, &body).is_none());
        assert!(open(cipher, &key(), &nonce, &body[..TAG_SIZE - 1]).is_none());
        assert_eq!(cipher.wire_chunk_size(), cipher.nonce_size() + CHUNK_SIZE + TAG_SIZE);
    }
}

#[test]
fn chacha20poly1305_known_answer() {
    // RFC 8439, section 2.8.2
    let key: Vec<u8> = (0x80u8..0xa0).collect();
    let nonce = [0x07u8, 0, 0, 0, 0x40, 0x41, 0x42, 0x43, 0x44, 0x45, 0x46, 0x47];
    let plaintext = b"Ladies and Gentlemen of the class of '99: If I could offer you only one tip for the future, sunscreen would be it.";
    // the RFC's vector carries associated data, this library uses none, so
    // only the ciphertext, which does not depend on it, is compared
    let body = seal(Cipher::ChaCha20Poly1305, &key, &nonce, plaintext).unwrap();
    assert_eq!(&body[..16], &[0xd3, 0x1a, 0x8d, 0x34, 0x64, 0x8e, 0x60, 0xdb, 0x7b, 0x86, 0xaf, 0xbc, 0x53, 0xef, 0x7e, 0xc2]);
    assert_eq!(body.len(), plaintext.len() + 16);
}

#[test]
fn passthrough_encryption_is_the_identity() {
    let alg = EncryptionPassthrough::new();
    let data = sample(20000);
    let mut enc: EncryptorPassthrough<Vec<u8>> = EncryptionAlgorithm::<Vec<u8>>::encryptor(&alg, Vec::new()).unwrap();
    write_all(&mut enc, &data).unwrap();
    enc.flush().unwrap();
    let wire = enc.finalise().unwrap();
    assert_eq!(wire, data);
    let mut dec: DecryptorPassthrough<MemorySource> = alg.decryptor(MemorySource::new(wire)).unwrap();
    assert_eq!(read_to_end(&mut dec).unwrap(), data);
    dec.finalise().unwrap();
    let mut from = EncryptorPassthrough::from(vec![1u8]);
    write_all(&mut from, &[2u8]).unwrap();
    assert_eq!(from.finalise().unwrap(), vec![1u8, 2]);
    let mut from = DecryptorPassthrough::from(MemorySource::new(vec![1u8, 2, 3]));
    assert_eq!(from.read(2).unwrap(), vec![1u8, 2]);
    let _ = EncryptionPassthrough::default();
}

#[test]
fn chunk_on_the_wire_is_nonce_then_sealed_chunk() {
    for cipher in [Cipher::XChaCha20Poly1305, Cipher::ChaCha20Poly1305, Cipher::Aes256Gcm] {
        let nonce: Vec<u8> = (0..cipher.nonce_size() as u8).collect();
        let chunk = sample(300);
        let mut medium = vec![0xEEu8];
        seal_under(cipher, &key(), &nonce, &chunk, &mut medium).unwrap();
        let body = seal(cipher, &key(), &nonce, &chunk).unwrap();
        assert_eq!(medium[0], 0xEE);
        assert_eq!(&medium[1..1 + nonce.len()], &nonce[..]);
        assert_eq!(&medium[1 + nonce.len()..], &body[..]);
        assert_eq!(medium.len(), 1 + nonce.len() + 300 + TAG_SIZE);
        assert_eq!(open_piece(cipher, &key(), &medium[1..]).unwrap(), chunk);
    }
}

#[test]
fn piece_that_is_damaged_or_too_short_does_not_open() {
    for cipher in [Cipher::XChaCha20Poly1305, Cipher::ChaCha20Poly1305, Cipher::Aes256Gcm] {
        let nonce = vec![9u8; cipher.nonce_size()];
        let mut piece = Vec::new();
        seal_under(cipher, &key(), &nonce, b"abc", &mut piece).unwrap();
        assert_eq!(open_piece(cipher, &key(), &piece).unwrap(), b"abc".to_vec());
        for at in 0..piece.len() {
            let mut bad = piece.clone();
            bad[at] ^= 0x10;
            assert!(open_piece(cipher, &key(), &bad).is_none());
        }
        for len in 0..piece.len() {
            assert!(open_piece(cipher, &key(), &piece[..len]).is_none());
        }
        assert!(open_piece(cipher, &other_key(), &piece).is_none());
    }
}

#[test]
fn empty_chunk_opens_to_nothing_and_the_stream_goes_on() {
    let cipher = Cipher::ChaCha20Poly1305;
    let mut wire = Vec::new();
    // a full chunk, so that the empty one after it is a piece of its own
    seal_under(cipher, &key(), &[1u8; 12], &sample(8192), &mut wire).unwrap();
    let first = wire.len();
    seal_under(cipher, &key(), &[2u8; 12], b"", &mut wire).unwrap();
    assert_eq!(wire.len(), first + 12 + 16);
    let alg = ChaChaPolyAlgorithm::new().with_key(key());
    assert_eq!(open_with(&alg, wire).unwrap(), sample(8192));
}

fn counts_of<A: DecryptionAlgorithm<MemorySource>>(alg: &A, wire: Vec<u8>, asked: &[usize]) -> Vec<Option<Vec<u8>>> {
    let mut dec = alg.decryptor(MemorySource::new(wire)).unwrap();
    asked.iter().map(|max| dec.read(*max).ok()).collect()
}

#[test]
fn read_delivers_the_lesser_of_what_is_asked_and_what_is_at_hand() {
    let data = sample(8192 + 10);
    let asked = [0usize, 100, 10000, 0, 4, 100, 100, 0];
    let lens = [0usize, 100, 8092, 0, 4, 6, 0, 0];
    let xchacha = XChaChaPolyAlgorithm::new().with_key(key());
    let chacha = ChaChaPolyAlgorithm::new().with_key(key());
    let aes = AesGcmAlgorithm::new().with_key(key());
    let all = [
        counts_of(&xchacha, seal_with(&xchacha, &data, 1000), &asked),
        counts_of(&chacha, seal_with(&chacha, &data, 1000), &asked),
        counts_of(&aes, seal_with(&aes, &data, 1000), &asked),
    ];
    for got in all {
        let mut pos = 0;
        for (part, len) in got.iter().zip(lens) {
            let part = part.as_ref().unwrap();
            assert_eq!(part.len(), len);
            assert_eq!(part[..], data[pos..pos + len]);
            pos += len;
        }
        assert_eq!(pos, data.len());
    }
}

#[test]
fn two_decryptors_over_one_wire_agree_call_by_call() {
    let alg = ChaChaPolyAlgorithm::new().with_key(key());
    let mut wire = seal_with(&alg, &sample(3 * 8192 + 5), 8192);
    // damage in the third chunk: both deliver two chunks and fail at the same call
    let at = 2 * (12 + 8192 + 16) + 40;
    wire[at] ^= 1;
    let asked = [5000usize, 5000, 1, 9000, 8191];
    let one = counts_of(&alg, wire.clone(), &asked);
    let other = counts_of(&ChaChaPolyAlgorithm::new().with_key(key()), wire, &asked);
    assert_eq!(one, other);
    let lens: Vec<Option<usize>> = one.iter().map(|part| part.as_ref().map(|p| p.len())).collect();
    assert_eq!(lens, vec![Some(5000), Some(3192), Some(1), Some(8191), None]);
}

#[test]
fn read_of_a_damaged_stream_fails_whatever_is_asked() {
    let alg = XChaChaPolyAlgorithm::new().with_key(key());
    let mut wire = seal_with(&alg, b"short", 100);
    wire[30] ^= 0x80;
    let mut dec = alg.decryptor(MemorySource::new(wire.clone())).unwrap();
    assert!(matches!(dec.read(0), Err(StreamError::Decryption)));
    let mut dec = alg.decryptor(MemorySource::new(wire)).unwrap();
    assert!(matches!(dec.read(1), Err(StreamError::Decryption)));
    // a stream that has ended soundly is read without failure, whatever is asked
    let mut dec = alg.decryptor(MemorySource::new(Vec::new())).unwrap();
    assert!(dec.read(0).unwrap().is_empty());
    assert!(dec.read(9).unwrap().is_empty());
}

#[test]
fn opened_piece_is_shorter_by_nonce_and_tag() {
    for cipher in [Cipher::XChaCha20Poly1305, Cipher::ChaCha20Poly1305, Cipher::Aes256Gcm] {
        for len in [0usize, 1, 100, 8192] {
            let nonce = vec![7u8; cipher.nonce_size()];
            let mut piece = Vec::new();
            seal_under(cipher, &key(), &nonce, &sample(len), &mut piece).unwrap();
            let plain = open_piece(cipher, &key(), &piece).unwrap();
            assert_eq!(plain.len() + TAG_SIZE + cipher.nonce_size(), piece.len());
            assert_eq!(plain, sample(len));
        }
    }
}

#[test]
fn damage_in_one_chunk_does_not_hide_damage_in_another() {
    let data = sample(4 * 8192 + 5);
    let xchacha = XChaChaPolyAlgorithm::new().with_key(key());
    let chacha = ChaChaPolyAlgorithm::new().with_key(key());
    let aes = AesGcmAlgorithm::new().with_key(key());
    let asked = [8192usize, 8192, 8192, 8192, 8192, 8192];
    let mut wires = vec![seal_with(&xchacha, &data, 5000), seal_with(&chacha, &data, 5000), seal_with(&aes, &data, 5000)];
    for (wire, nonce) in wires.iter_mut().zip([24usize, 12, 12]) {
        let piece = nonce + 8192 + 16;
        wire[piece + nonce + 17] ^= 0x01;
        wire[3 * piece + piece - 1] ^= 0x80;
    }
    let aes_wire = wires.pop().unwrap();
    let chacha_wire = wires.pop().unwrap();
    let xchacha_wire = wires.pop().unwrap();
    let all = [
        counts_of(&xchacha, xchacha_wire.clone(), &asked),
        counts_of(&xchacha, xchacha_wire, &asked),
        counts_of(&chacha, chacha_wire, &asked),
        counts_of(&aes, aes_wire, &asked),
    ];
    assert_eq!(all[0], all[1]);
    for got in all {
        assert_eq!(got[0].as_deref(), Some(&data[..8192]));
        assert_eq!(got[1], None);
        assert_eq!(got[2].as_deref(), Some(&data[2 * 8192..3 * 8192]));
        assert_eq!(got[3], None);
        assert_eq!(got[4].as_deref(), Some(&data[4 * 8192..]));
        assert_eq!(got[5].as_deref(), Some(&data[..0]));
    }
}
