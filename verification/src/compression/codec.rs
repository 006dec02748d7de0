//! The three codecs. Each turns a whole buffer into one frame and a frame
//! back into the buffer.
use crate::error::StreamError;
use crate::stream::{read_to_end, write_all, Sink, Source};
use std::io::{Read, Write};
use vstd::prelude::*;
use vstd::slice::slice_subrange;

verus! {

/// How hard Gzip tries.
#[derive(Clone, Copy, Debug, PartialEq, Eq, Structural)]
pub enum CompressionLevel {
    Fastest,
    Best,
    Default,
}

impl CompressionLevel {
    pub open spec fn spec_level(self) -> u32 {
        match self {
            CompressionLevel::Fastest => 1,
            CompressionLevel::Best => 9,
            CompressionLevel::Default => 6,
        }
    }

    /// The level as DEFLATE counts it, from 0 to 9.
    #[verifier::when_used_as_spec(spec_level)]
    pub fn level(self) -> (res: u32)
        ensures
            res == self.spec_level(),
    {
        match self {
            CompressionLevel::Fastest => 1,
            CompressionLevel::Best => 9,
            CompressionLevel::Default => 6,
        }
    }
}

/// A compression format.
#[derive(Clone, Copy, Debug, PartialEq, Eq, Structural)]
pub enum Codec {
    Lz4,
    Gzip(CompressionLevel),
    Snappy,
}

/// The LZ4 frame that the encoder with default settings makes of `data`
/// given to it in one piece, or `None` where it reports an error.
pub uninterp spec fn lz4_frame(data: Seq<u8>) -> Option<Seq<u8>>;

/// What the LZ4 frame decoder reads out of `frame`, or `None` where it
/// reports an error.
pub uninterp spec fn lz4_frame_content(frame: Seq<u8>) -> Option<Seq<u8>>;

/// The Gzip member that the encoder makes of `data` at `level`, or `None`
/// where it reports an error.
pub uninterp spec fn gzip_member(level: u32, data: Seq<u8>) -> Option<Seq<u8>>;

/// What the Gzip decoder reads out of `member`, or `None` where it reports
/// an error.
pub uninterp spec fn gzip_member_content(member: Seq<u8>) -> Option<Seq<u8>>;

/// The Snappy frame stream that the encoder makes of `data` given to it in
/// one piece, or `None` where it reports an error.
pub uninterp spec fn snappy_frames(data: Seq<u8>) -> Option<Seq<u8>>;

/// What the Snappy frame decoder reads out of `frames`, or `None` where it
/// reports an error.
pub uninterp spec fn snappy_frames_content(frames: Seq<u8>) -> Option<Seq<u8>>;

/// Runs `lz4_flex::frame::FrameEncoder` over an empty buffer: `new`, one
/// `write_all` of the data, `finish`. What comes out is a frame from which
/// the crate's decoder reads the data again.
#[verifier::external_body]
pub(crate) fn lz4_compress(data: &[u8]) -> (res: Option<Vec<u8>>)
    ensures
        match res {
            Some(frame) => lz4_frame(data@) == Some(frame@) && lz4_frame_content(frame@) == Some(data@),
            None => lz4_frame(data@) is None,
        },
{
    let mut encoder = lz4_flex::frame::FrameEncoder::new(Vec::new());
    encoder.write_all(data).ok()?;
    encoder.finish().ok()
}

/// Reads `lz4_flex::frame::FrameDecoder` over the frame to its end.
#[verifier::external_body]
pub(crate) fn lz4_decompress(frame: &[u8]) -> (res: Option<Vec<u8>>)
    ensures
        match res {
            Some(data) => lz4_frame_content(frame@) == Some(data@),
            None => lz4_frame_content(frame@) is None,
        },
{
    let mut data = Vec::new();
    lz4_flex::frame::FrameDecoder::new(frame).read_to_end(&mut data).ok()?;
    Some(data)
}

/// Runs `flate2::write::GzEncoder` over an empty buffer: `new` with
/// `Compression::new(level)`, one `write_all` of the data, `finish`. What
/// comes out is a member from which the crate's decoder reads the data again.
#[verifier::external_body]
pub(crate) fn gzip_compress(level: u32, data: &[u8]) -> (res: Option<Vec<u8>>)
    requires
        level <= 9,
    ensures
        match res {
            Some(member) => gzip_member(level, data@) == Some(member@) && gzip_member_content(member@)
                == Some(data@),
            None => gzip_member(level, data@) is None,
        },
{
    let mut encoder = flate2::write::GzEncoder::new(Vec::new(), flate2::Compression::new(level));
    encoder.write_all(data).ok()?;
    encoder.finish().ok()
}

/// Reads `flate2::read::GzDecoder` over the member to its end.
#[verifier::external_body]
pub(crate) fn gzip_decompress(member: &[u8]) -> (res: Option<Vec<u8>>)
    ensures
        match res {
            Some(data) => gzip_member_content(member@) == Some(data@),
            None => gzip_member_content(member@) is None,
        },
{
    let mut data = Vec::new();
    flate2::read::GzDecoder::new(member).read_to_end(&mut data).ok()?;
    Some(data)
}

/// Runs `snap::write::FrameEncoder` over an empty buffer: `new`, one
/// `write_all` of the data, `into_inner`. What comes out is a stream of
/// frames from which the crate's decoder reads the data again.
#[verifier::external_body]
pub(crate) fn snappy_compress(data: &[u8]) -> (res: Option<Vec<u8>>)
    ensures
        match res {
            Some(frames) => snappy_frames(data@) == Some(frames@) && snappy_frames_content(frames@)
                == Some(data@),
            None => snappy_frames(data@) is None,
        },
{
    let mut encoder = snap::write::FrameEncoder::new(Vec::new());
    encoder.write_all(data).ok()?;
    encoder.into_inner().ok()
}

/// Reads `snap::read::FrameDecoder` over the frames to its end.
#[verifier::external_body]
pub(crate) fn snappy_decompress(frames: &[u8]) -> (res: Option<Vec<u8>>)
    ensures
        match res {
            Some(data) => snappy_frames_content(frames@) == Some(data@),
            None => snappy_frames_content(frames@) is None,
        },
{
    let mut data = Vec::new();
    snap::read::FrameDecoder::new(frames).read_to_end(&mut data).ok()?;
    Some(data)
}

/// What `codec` makes of `data`, if it compresses it.
pub open spec fn framed(codec: Codec, data: Seq<u8>) -> Option<Seq<u8>> {
    match codec {
        Codec::Lz4 => lz4_frame(data),
        Codec::Gzip(level) => gzip_member(level.level(), data),
        Codec::Snappy => snappy_frames(data),
    }
}

/// What `codec` reads out of `frame`, if it accepts it.
pub open spec fn content(codec: Codec, frame: Seq<u8>) -> Option<Seq<u8>> {
    match codec {
        Codec::Lz4 => lz4_frame_content(frame),
        Codec::Gzip(_) => gzip_member_content(frame),
        Codec::Snappy => snappy_frames_content(frame),
    }
}

/// The relation of a compressor: the layer beneath, which had accepted
/// `before` and whose own relation is `beneath`, is given what the codec
/// makes of the data, and the codec reads the data out of that again.
pub open spec fn packed_onto(codec: Codec, beneath: spec_fn(Seq<u8>, Seq<u8>) -> bool, before: Seq<u8>) -> spec_fn(
    Seq<u8>,
    Seq<u8>,
) -> bool {
    |data: Seq<u8>, medium: Seq<u8>|
        match framed(codec, data) {
            Some(frame) => content(codec, frame) == Some(data) && beneath(before + frame, medium),
            None => false,
        }
}

/// The condition on which a compressor comes to its end: the codec
/// compresses the data, and the layer beneath, which never fails if
/// `beneath_reliable` and whose own condition is `beneath`, comes to its end
/// on what it had accepted, `before`, and the compressed data after it.
pub open spec fn packing_finishes(
    codec: Codec,
    beneath_reliable: bool,
    beneath: spec_fn(Seq<u8>) -> bool,
    before: Seq<u8>,
) -> spec_fn(Seq<u8>) -> bool {
    |data: Seq<u8>|
        match framed(codec, data) {
            Some(frame) => beneath_reliable && beneath(before + frame),
            None => false,
        }
}

/// What a decompressor delivers from `wire`, and whether it then fails.
/// Where the wire is `cut`, that is, ends in an error of its source, or
/// where the codec rejects it, nothing is delivered.
pub open spec fn unpacked(codec: Codec, wire: Seq<u8>, cut: bool) -> (Seq<u8>, bool) {
    if cut {
        (Seq::empty(), true)
    } else {
        match content(codec, wire) {
            Some(data) => (data, false),
            None => (Seq::empty(), true),
        }
    }
}

/// Compresses a whole buffer.
pub fn compress(codec: Codec, data: &[u8]) -> (res: Option<Vec<u8>>)
    ensures
        match res {
            Some(frame) => framed(codec, data@) == Some(frame@) && content(codec, frame@) == Some(data@),
            None => framed(codec, data@) is None,
        },
{
    match codec {
        Codec::Lz4 => lz4_compress(data),
        Codec::Gzip(level) => gzip_compress(level.level(), data),
        Codec::Snappy => snappy_compress(data),
    }
}

/// Restores a whole buffer; `None` where the codec rejects the frame.
pub fn decompress(codec: Codec, frame: &[u8]) -> (res: Option<Vec<u8>>)
    ensures
        match res {
            Some(data) => content(codec, frame@) == Some(data@),
            None => content(codec, frame@) is None,
        },
{
    match codec {
        Codec::Lz4 => lz4_decompress(frame),
        Codec::Gzip(_) => gzip_decompress(frame),
        Codec::Snappy => snappy_decompress(frame),
    }
}

/// Compresses `pending` and writes the frame to `inner`. Where the codec
/// reports an error nothing is written and `StreamError::Compression` comes
/// back.
pub(crate) fn pack_and_send<W: Sink>(codec: Codec, pending: &Vec<u8>, inner: &mut W) -> (res: Result<(), StreamError>)
    requires
        old(inner).wf(),
    ensures
        framed(codec, pending@) is None ==> res matches Err(StreamError::Compression),
        framed(codec, pending@) is Some && old(inner).reliable() ==> res is Ok,
        res is Ok ==> {
            &&& framed(codec, pending@) matches Some(frame) && content(codec, frame) == Some(pending@)
                && final(inner).accepted() == old(inner).accepted() + frame
            &&& final(inner).wf()
            &&& final(inner).reliable() == old(inner).reliable()
            &&& final(inner).finishes() == old(inner).finishes()
            &&& final(inner).encoding() == old(inner).encoding()
            &&& final(inner).signature() == old(inner).signature()
        },
{
    let frame = match compress(codec, pending.as_slice()) {
        Some(frame) => frame,
        None => {
            return Err(StreamError::Compression);
        },
    };
    write_all(inner, frame.as_slice())
}

/// Reads `inner` to its end and restores what the codec had compressed.
pub(crate) fn load<R: Source>(codec: Codec, inner: &mut R) -> (res: Result<Vec<u8>, StreamError>)
    requires
        old(inner).wf(),
    ensures
        match res {
            Ok(data) => {
                &&& unpacked(codec, old(inner).remaining(), old(inner).fails()) == (data@, false)
                &&& final(inner).wf()
            },
            Err(e) => {
                &&& unpacked(codec, old(inner).remaining(), old(inner).fails()).1
                &&& unpacked(codec, old(inner).remaining(), old(inner).fails()).0.len() == 0
                &&& e is Decompression || old(inner).fails()
            },
        },
{
    let wire = match read_to_end(inner) {
        Ok(wire) => wire,
        Err(e) => {
            return Err(e);
        },
    };
    match decompress(codec, wire.as_slice()) {
        Some(data) => Ok(data),
        None => Err(StreamError::Decompression),
    }
}

/// Copies at most `max` bytes of `plain` from `pos` on, and moves `pos`
/// past them.
pub(crate) fn serve(plain: &Vec<u8>, pos: &mut usize, max: usize) -> (res: Vec<u8>)
    requires
        *old(pos) <= plain@.len(),
    ensures
        res@.len() == if max <= plain@.len() - *old(pos) {
            max as int
        } else {
            plain@.len() - *old(pos)
        },
        res@ == plain@.skip(*old(pos) as int).take(res@.len() as int),
        *final(pos) == *old(pos) + res@.len(),
{
    let left = plain.len() - *pos;
    let n = if max <= left {
        max
    } else {
        left
    };
    let piece = slice_subrange(plain.as_slice(), *pos, *pos + n);
    let mut out: Vec<u8> = Vec::new();
    out.extend_from_slice(piece);
    assert(out@ =~= plain@.skip(*old(pos) as int).take(n as int));
    *pos = *pos + n;
    out
}

} // verus!
