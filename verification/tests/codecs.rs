use std::io::Read;
use zap::compression::codec::{compress, decompress, Codec, CompressionLevel};
use zap::compression::gzip::{GzipAlgorithm, GzipCompressor, GzipDeompressor};
use zap::compression::lz4::{Lz4Algorithm, Lz4Compressor, Lz4Deompressor};
use zap::compression::passthrough::{PassthroughAlgorithm, PassthroughCompressor, PassthroughDeompressor};
use zap::compression::snappy::{SnappyAlgorithm, SnappyCompressor, SnappyDeompressor};
use zap::compression::{Compress, CompressionAlgorithm, CompressionType, Decompress, DecompressionAlgorithm};
use zap::encryption::passthrough::{DecryptorPassthrough, EncryptorPassthrough};
use zap::error::StreamError;
use zap::stream::{read_to_end, write_all, MemorySource, Sink, Source};

fn text(len: usize) -> Vec<u8> {
    let words = b"the quick brown fox jumps over the lazy dog ";
    (0..len).map(|i| words[i % words.len()]).collect()
}

fn noise(len: usize) -> Vec<u8> {
    let mut x: u64 = 0x9E3779B97F4A7C15;
    (0..len)
        .map(|_| {
            x ^= x << 13;
            x ^= x >> 7;
            x ^= x << 17;
            (x >> 24) as u8
        })
        .collect()
}

fn all_codecs() -> Vec<Codec> {
    vec![
        Codec::Lz4,
        Codec::Snappy,
        Codec::Gzip(CompressionLevel::Fastest),
        Codec::Gzip(CompressionLevel::Default),
        Codec::Gzip(CompressionLevel::Best),
    ]
}

#[test]
fn every_codec_restores_what_it_compressed() {
    for codec in all_codecs() {
        for data in [Vec::new(), vec![0u8], text(5), text(70000), noise(70000), vec![0u8; 200000]] {
            let frame = compress(codec, &data).unwrap();
            assert_eq!(decompress(codec, &frame).unwrap(), data);
        }
    }
}

#[test]
fn every_codec_shrinks_repetitive_data() {
    for codec in all_codecs() {
        let data = text(100000);
        let frame = compress(codec, &data).unwrap();
        assert!(frame.len() < data.len() / 4);
        assert_ne!(frame, data);
    }
}

#[test]
fn compressing_is_a_function_of_the_data() {
    for codec in all_codecs() {
        let data = text(30000);
        assert_eq!(compress(codec, &data).unwrap(), compress(codec, &data).unwrap());
    }
}

#[test]
fn lz4_frame_is_read_by_the_frame_decoder() {
    let data = text(150000);
    let frame = compress(Codec::Lz4, &data).unwrap();
    assert_eq!(&frame[..4], &[0x04, 0x22, 0x4D, 0x18]);
    let mut out = Vec::new();
    lz4_flex::frame::FrameDecoder::new(&frame[..]).read_to_end(&mut out).unwrap();
    assert_eq!(out, data);
}

#[test]
fn gzip_member_is_read_by_the_gzip_decoder() {
    let data = text(150000);
    let member = compress(Codec::Gzip(CompressionLevel::Best), &data).unwrap();
    assert_eq!(&member[..3], &[0x1f, 0x8b, 0x08]);
    let mut out = Vec::new();
    flate2::read::GzDecoder::new(&member[..]).read_to_end(&mut out).unwrap();
    assert_eq!(out, data);
}

#[test]
fn snappy_frames_are_read_by_the_frame_decoder() {
    let data = text(150000);
    let frames = compress(Codec::Snappy, &data).unwrap();
    assert_eq!(&frames[..10], &[0xff, 0x06, 0x00, 0x00, b's', b'N', b'a', b'P', b'p', b'Y']);
    let mut out = Vec::new();
    snap::read::FrameDecoder::new(&frames[..]).read_to_end(&mut out).unwrap();
    assert_eq!(out, data);
}

#[test]
fn gzip_levels_are_told_apart() {
    assert_eq!(CompressionLevel::Fastest.level(), 1);
    assert_eq!(CompressionLevel::Default.level(), 6);
    assert_eq!(CompressionLevel::Best.level(), 9);
    assert_eq!(flate2::Compression::fast().level(), CompressionLevel::Fastest.level());
    assert_eq!(flate2::Compression::default().level(), CompressionLevel::Default.level());
    assert_eq!(flate2::Compression::best().level(), CompressionLevel::Best.level());
    let data: Vec<u8> = (0..200000u32).map(|i| ((i * i) >> 7) as u8).collect();
    let fast = compress(Codec::Gzip(CompressionLevel::Fastest), &data).unwrap();
    let best = compress(Codec::Gzip(CompressionLevel::Best), &data).unwrap();
    assert!(best.len() <= fast.len());
    assert_ne!(best, fast);
}

#[test]
fn damaged_frames_are_rejected() {
    for codec in all_codecs() {
        let mut frame = compress(codec, &text(50000)).unwrap();
        let cut = frame.len() / 2;
        frame.truncate(cut);
        assert!(decompress(codec, &frame).is_none());
        assert!(decompress(codec, b"certainly not a frame of any codec").is_none());
    }
}

#[test]
fn lz4_adapters_round_trip() {
    let data = text(100000);
    let mut comp = Lz4Compressor::new(EncryptorPassthrough::new(Vec::new()));
    assert_eq!(comp.write(&data[..10]).unwrap(), 10);
    write_all(&mut comp, &data[10..]).unwrap();
    comp.flush().unwrap();
    let wire: Vec<u8> = comp.finalise().unwrap();
    assert_eq!(wire, compress(Codec::Lz4, &data).unwrap());
    let mut dec = Lz4Deompressor::new(DecryptorPassthrough::new(MemorySource::new(wire)));
    assert_eq!(dec.read(7).unwrap(), data[..7].to_vec());
    let mut rest = read_to_end(&mut dec).unwrap();
    let mut all = data[..7].to_vec();
    all.append(&mut rest);
    assert_eq!(all, data);
    assert!(dec.read(10).unwrap().is_empty());
    dec.finalise().unwrap();
}

#[test]
fn gzip_adapters_round_trip() {
    let data = text(100000);
    let mut comp = GzipCompressor::new(EncryptorPassthrough::new(Vec::new()));
    write_all(&mut comp, &data).unwrap();
    let wire: Vec<u8> = comp.finalise().unwrap();
    assert_eq!(wire, compress(Codec::Gzip(CompressionLevel::Fastest), &data).unwrap());
    let mut dec = GzipDeompressor::new(DecryptorPassthrough::new(MemorySource::new(wire)));
    assert_eq!(read_to_end(&mut dec).unwrap(), data);
    dec.finalise().unwrap();
    let best = GzipAlgorithm::with_compression_level(CompressionLevel::Best);
    let mut comp = best.compressor(EncryptorPassthrough::new(Vec::new())).unwrap();
    write_all(&mut comp, &data).unwrap();
    let wire: Vec<u8> = comp.finalise().unwrap();
    assert_eq!(wire, compress(Codec::Gzip(CompressionLevel::Best), &data).unwrap());
    let mut dec = GzipAlgorithm::new().decompressor(DecryptorPassthrough::new(MemorySource::new(wire))).unwrap();
    assert_eq!(read_to_end(&mut dec).unwrap(), data);
    let _ = GzipAlgorithm::default();
}

#[test]
fn snappy_adapters_round_trip() {
    let data = noise(100000);
    let mut comp = SnappyCompressor::new(EncryptorPassthrough::new(Vec::new()));
    write_all(&mut comp, &data).unwrap();
    let wire: Vec<u8> = comp.finalise().unwrap();
    assert_eq!(wire, compress(Codec::Snappy, &data).unwrap());
    let mut dec = SnappyDeompressor::new(DecryptorPassthrough::new(MemorySource::new(wire)));
    assert_eq!(read_to_end(&mut dec).unwrap(), data);
    dec.finalise().unwrap();
    let alg = SnappyAlgorithm::default();
    let mut comp = alg.compressor(EncryptorPassthrough::new(Vec::new())).unwrap();
    write_all(&mut comp, b"abc").unwrap();
    let wire: Vec<u8> = comp.finalise().unwrap();
    let mut dec = SnappyAlgorithm::new().decompressor(DecryptorPassthrough::new(MemorySource::new(wire))).unwrap();
    assert_eq!(read_to_end(&mut dec).unwrap(), b"abc".to_vec());
}

#[test]
fn passthrough_compression_is_the_identity() {
    let data = noise(30000);
    let mut comp = PassthroughCompressor::new(EncryptorPassthrough::new(vec![5u8]));
    write_all(&mut comp, &data).unwrap();
    comp.flush().unwrap();
    let wire: Vec<u8> = comp.finalise().unwrap();
    assert_eq!(wire[0], 5);
    assert_eq!(&wire[1..], &data[..]);
    let mut dec = PassthroughDeompressor::new(DecryptorPassthrough::new(MemorySource::new(data.clone())));
    assert_eq!(read_to_end(&mut dec).unwrap(), data);
    dec.finalise().unwrap();
    let alg = PassthroughAlgorithm::default();
    let mut comp = alg.compressor(EncryptorPassthrough::new(Vec::new())).unwrap();
    write_all(&mut comp, b"abc").unwrap();
    assert_eq!(comp.finalise().unwrap(), b"abc".to_vec());
    let mut dec = PassthroughAlgorithm::new().decompressor(DecryptorPassthrough::new(MemorySource::new(vec![1u8]))).unwrap();
    assert_eq!(read_to_end(&mut dec).unwrap(), vec![1u8]);
}

#[test]
fn decompressor_rejects_what_is_no_frame() {
    let mut dec = Lz4Deompressor::new(DecryptorPassthrough::new(MemorySource::new(b"no frame at all".to_vec())));
    assert!(matches!(dec.read(10), Err(StreamError::Decompression)));
    let mut dec = GzipDeompressor::new(DecryptorPassthrough::new(MemorySource::new(b"no member at all".to_vec())));
    assert!(matches!(dec.read(10), Err(StreamError::Decompression)));
    let mut dec = SnappyDeompressor::new(DecryptorPassthrough::new(MemorySource::new(b"no frames at all".to_vec())));
    assert!(matches!(dec.read(10), Err(StreamError::Decompression)));
}

#[test]
fn compressed_empty_input_restores_to_nothing() {
    let comp = Lz4Algorithm::new().compressor(EncryptorPassthrough::new(Vec::new())).unwrap();
    let wire: Vec<u8> = comp.finalise().unwrap();
    assert!(!wire.is_empty());
    let mut dec = Lz4Algorithm::default().decompressor(DecryptorPassthrough::new(MemorySource::new(wire))).unwrap();
    assert!(read_to_end(&mut dec).unwrap().is_empty());
    assert!(matches!(CompressionType::default(), CompressionType::Passthrough));
}
