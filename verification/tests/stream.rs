use zap::compression::lz4::Lz4Compressor;
use zap::compression::passthrough::PassthroughCompressor;
use zap::compression::Compress;
use zap::encryption::aes_gcm_256::AesGcmAlgorithm;
use zap::encryption::chachapoly::ChaChaPolyAlgorithm;
use zap::encryption::passthrough::EncryptorPassthrough;
use zap::encryption::xchachapoly::XChaChaPolyAlgorithm;
use zap::encryption::{EncryptionAlgorithm, EncryptionModule};
use zap::error::StreamError;
use zap::signing::passthrough::SignerPassthrough;
use zap::signing::Sign;
use zap::stream::{copy, read_full, read_to_end, write_all, MemorySource, Sink, Source, COPY_BUFFER_SIZE};

/// A sink that takes at most three bytes at a time and fails once it holds ten.
struct Narrow {
    held: Vec<u8>,
}

impl Sink for Narrow {
    fn write(&mut self, buf: &[u8]) -> Result<usize, StreamError> {
        if self.held.len() >= 10 {
            return Err(StreamError::Io(std::io::Error::other("full")));
        }
        let n = std::cmp::min(3, buf.len());
        self.held.extend_from_slice(&buf[..n]);
        Ok(n)
    }

    fn flush(&mut self) -> Result<(), StreamError> {
        Ok(())
    }
}

/// A sink that never takes anything.
struct Stuck;

impl Sink for Stuck {
    fn write(&mut self, _buf: &[u8]) -> Result<usize, StreamError> {
        Ok(0)
    }

    fn flush(&mut self) -> Result<(), StreamError> {
        Ok(())
    }
}

/// A source that hands out one byte at a time and then fails where told to.
struct Trickle {
    data: Vec<u8>,
    pos: usize,
    fails: bool,
}

impl Source for Trickle {
    fn read(&mut self, max: usize) -> Result<Vec<u8>, StreamError> {
        if max == 0 {
            return Ok(Vec::new());
        }
        if self.pos == self.data.len() {
            if self.fails {
                return Err(StreamError::Io(std::io::Error::other("gone")));
            }
            return Ok(Vec::new());
        }
        self.pos += 1;
        Ok(vec![self.data[self.pos - 1]])
    }
}

#[test]
fn memory_source_delivers_its_bytes_in_order() {
    let mut source = MemorySource::new(vec![1, 2, 3, 4, 5]);
    assert_eq!(source.read(0).unwrap(), Vec::<u8>::new());
    assert_eq!(source.read(2).unwrap(), vec![1, 2]);
    assert_eq!(source.read(10).unwrap(), vec![3, 4, 5]);
    assert!(source.read(10).unwrap().is_empty());
    assert!(source.read(10).unwrap().is_empty());
}

#[test]
fn vec_takes_everything_written() {
    let mut sink = vec![1u8];
    assert_eq!(sink.write(&[2, 3]).unwrap(), 2);
    assert_eq!(Sink::write(&mut sink, &[]).unwrap(), 0);
    Sink::flush(&mut sink).unwrap();
    assert_eq!(sink, vec![1, 2, 3]);
}

#[test]
fn write_all_repeats_short_writes() {
    let mut sink = Narrow { held: Vec::new() };
    write_all(&mut sink, &[1, 2, 3, 4, 5, 6, 7]).unwrap();
    assert_eq!(sink.held, vec![1, 2, 3, 4, 5, 6, 7]);
    write_all(&mut sink, &[]).unwrap();
    // three more fit, then the sink is full
    assert!(matches!(write_all(&mut sink, &[8, 9, 10, 11, 12, 13]), Err(StreamError::Io(_))));
    assert_eq!(sink.held, vec![1, 2, 3, 4, 5, 6, 7, 8, 9, 10]);
}

#[test]
fn write_all_gives_up_on_a_sink_that_takes_nothing() {
    assert!(matches!(write_all(&mut Stuck, &[1]), Err(StreamError::WriteZero)));
    write_all(&mut Stuck, &[]).unwrap();
}

#[test]
fn read_full_gathers_short_reads() {
    let mut source = Trickle { data: vec![1, 2, 3, 4, 5], pos: 0, fails: false };
    assert_eq!(read_full(&mut source, 3).unwrap(), vec![1, 2, 3]);
    assert_eq!(read_full(&mut source, 3).unwrap(), vec![4, 5]);
    assert!(read_full(&mut source, 3).unwrap().is_empty());
    assert!(read_full(&mut source, 0).unwrap().is_empty());
}

#[test]
fn read_full_stops_before_an_error_it_need_not_meet() {
    let mut source = Trickle { data: vec![1, 2, 3, 4], pos: 0, fails: true };
    assert_eq!(read_full(&mut source, 4).unwrap(), vec![1, 2, 3, 4]);
    assert!(matches!(read_full(&mut source, 1), Err(StreamError::Io(_))));
    let mut source = Trickle { data: vec![1, 2, 3, 4], pos: 0, fails: true };
    assert!(matches!(read_full(&mut source, 5), Err(StreamError::Io(_))));
}

#[test]
fn read_to_end_takes_all_or_fails() {
    let data: Vec<u8> = (0..30000u32).map(|i| i as u8).collect();
    assert_eq!(read_to_end(&mut MemorySource::new(data.clone())).unwrap(), data);
    assert!(read_to_end(&mut MemorySource::new(Vec::new())).unwrap().is_empty());
    assert_eq!(read_to_end(&mut Trickle { data: vec![7, 8], pos: 0, fails: false }).unwrap(), vec![7, 8]);
    assert!(matches!(
        read_to_end(&mut Trickle { data: vec![7, 8], pos: 0, fails: true }),
        Err(StreamError::Io(_))
    ));
}

#[test]
fn copy_moves_everything_in_order() {
    let data: Vec<u8> = (0..(3 * COPY_BUFFER_SIZE as u32 + 5)).map(|i| (i / 3) as u8).collect();
    let mut source = MemorySource::new(data.clone());
    let mut sink = vec![42u8];
    copy(&mut source, &mut sink).unwrap();
    assert_eq!(sink[0], 42);
    assert_eq!(&sink[1..], &data[..]);
    assert!(source.read(1).unwrap().is_empty());
    let mut sink = Vec::new();
    copy(&mut MemorySource::new(Vec::new()), &mut sink).unwrap();
    assert!(sink.is_empty());
}

#[test]
fn copy_stops_at_the_first_error() {
    let mut sink = Vec::new();
    let res = copy(&mut Trickle { data: vec![1, 2, 3], pos: 0, fails: true }, &mut sink);
    assert!(matches!(res, Err(StreamError::Io(_))));
    assert_eq!(sink, vec![1, 2, 3]);
    let mut narrow = Narrow { held: Vec::new() };
    let res = copy(&mut MemorySource::new(vec![0u8; 50]), &mut narrow);
    assert!(matches!(res, Err(StreamError::Io(_))));
    assert!(matches!(copy(&mut MemorySource::new(vec![1u8]), &mut Stuck), Err(StreamError::WriteZero)));
}

/// A medium that keeps what it is given in a buffer until it is flushed.
struct Buffered {
    written: Vec<u8>,
    buffer: Vec<u8>,
    flushes: usize,
}

impl Buffered {
    fn new() -> Self {
        Buffered { written: Vec::new(), buffer: Vec::new(), flushes: 0 }
    }
}

impl Sink for Buffered {
    fn write(&mut self, buf: &[u8]) -> Result<usize, StreamError> {
        self.buffer.extend_from_slice(buf);
        Ok(buf.len())
    }

    fn flush(&mut self) -> Result<(), StreamError> {
        self.written.append(&mut self.buffer);
        self.flushes += 1;
        Ok(())
    }
}

/// A medium that cannot be flushed.
struct Clogged;

impl Sink for Clogged {
    fn write(&mut self, buf: &[u8]) -> Result<usize, StreamError> {
        Ok(buf.len())
    }

    fn flush(&mut self) -> Result<(), StreamError> {
        Err(StreamError::Io(std::io::Error::other("clogged")))
    }
}

#[test]
fn flush_of_the_passthrough_layers_reaches_the_medium() {

    let enc = EncryptorPassthrough::new(Buffered::new());
    let comp = PassthroughCompressor::new(enc);
    let mut sign = SignerPassthrough::new(comp);
    write_all(&mut sign, b"abc").unwrap();
    sign.flush().unwrap();
    sign.flush().unwrap();
    write_all(&mut sign, b"def").unwrap();
    let (_, medium) = sign.finalise().unwrap();
    // two flushes asked for, and the one of finalising
    assert_eq!(medium.flushes, 3);
    assert_eq!(medium.written, b"abcdef".to_vec());
    assert!(medium.buffer.is_empty());

    let mut enc = EncryptorPassthrough::new(Clogged);
    assert!(matches!(enc.flush(), Err(StreamError::Io(_))));
    let mut comp = PassthroughCompressor::new(EncryptorPassthrough::new(Clogged));
    assert!(matches!(comp.flush(), Err(StreamError::Io(_))));
    let mut sign = SignerPassthrough::new(PassthroughCompressor::new(EncryptorPassthrough::new(Clogged)));
    assert!(matches!(sign.flush(), Err(StreamError::Io(_))));
}

#[test]
fn flush_of_an_encryptor_reaches_the_medium_and_seals_nothing() {

    let key = vec![5u8; 32];
    let mut enc = XChaChaPolyAlgorithm::new().with_key(key.clone()).encryptor(Buffered::new()).unwrap();
    write_all(&mut enc, &[1u8; 100]).unwrap();
    enc.flush().unwrap();
    let medium = enc.finalise().unwrap();
    assert_eq!(medium.flushes, 2);
    // the hundred bytes were sealed at the end, as one chunk
    assert_eq!(medium.written.len(), 24 + 100 + 16);
    assert!(medium.buffer.is_empty());

    let mut enc = ChaChaPolyAlgorithm::new().with_key(key.clone()).encryptor(Buffered::new()).unwrap();
    write_all(&mut enc, &[1u8; 8193]).unwrap();
    enc.flush().unwrap();
    enc.flush().unwrap();
    let medium = enc.finalise().unwrap();
    assert_eq!(medium.flushes, 3);
    assert_eq!(medium.written.len(), (12 + 8192 + 16) + (12 + 1 + 16));

    let mut enc = AesGcmAlgorithm::new().with_key(key.clone()).encryptor(Buffered::new()).unwrap();
    enc.flush().unwrap();
    let medium = enc.finalise().unwrap();
    assert_eq!(medium.flushes, 2);
    assert!(medium.written.is_empty());

    let mut enc = XChaChaPolyAlgorithm::new().with_key(key.clone()).encryptor(Clogged).unwrap();
    assert!(matches!(enc.flush(), Err(StreamError::Io(_))));
    let mut enc = ChaChaPolyAlgorithm::new().with_key(key.clone()).encryptor(Clogged).unwrap();
    assert!(matches!(enc.flush(), Err(StreamError::Io(_))));
    let mut enc = AesGcmAlgorithm::new().with_key(key).encryptor(Clogged).unwrap();
    assert!(matches!(enc.flush(), Err(StreamError::Io(_))));
}

#[test]
fn flush_of_a_codec_passes_nothing_on() {

    let mut comp = Lz4Compressor::new(EncryptorPassthrough::new(Buffered::new()));
    write_all(&mut comp, b"abc").unwrap();
    comp.flush().unwrap();
    let medium = comp.finalise().unwrap();
    // only finalising reached the medium
    assert_eq!(medium.flushes, 1);
    assert!(!medium.written.is_empty());
    assert!(medium.buffer.is_empty());
}
