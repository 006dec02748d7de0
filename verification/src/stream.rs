//! Byte sinks and sources: the interface every layer of the pipeline offers
//! upwards and expects beneath it.
use crate::error::StreamError;
use vstd::prelude::*;
use vstd::slice::slice_subrange;

verus! {

/// Size of the buffer the copying helpers read with.
pub const COPY_BUFFER_SIZE: usize = 8192;

/// Something bytes can be written to.
///
/// A sink is described by the bytes it has accepted. A sink that stands on
/// top of another one transforms what it accepts before passing it down;
/// `encoding` then says what the bottom-most sink (the medium) ends up
/// holding.
///
/// The describing functions have bodies that describe nothing: a sink that
/// keeps them is never `wf`, so nothing is asked of its operations and
/// nothing is promised to those who use it.
pub trait Sink {
    /// The sink is usable. A sink whose operation returned an error is not.
    open spec fn wf(&self) -> bool {
        false
    }

    /// Every byte accepted so far, in order.
    open spec fn accepted(&self) -> Seq<u8> {
        Seq::empty()
    }

    /// No write to this sink and no flush of it fails.
    open spec fn reliable(&self) -> bool {
        false
    }

    /// Every byte that this sink has passed on has been pushed all the way
    /// to the medium: none waits in a buffer on its way there. What the sink
    /// itself still holds back does not count.
    open spec fn flushed(&self) -> bool {
        false
    }

    /// `finishes()(data)` holds when bringing this sink to its end succeeds
    /// once it has accepted exactly `data`.
    open spec fn finishes(&self) -> spec_fn(Seq<u8>) -> bool {
        |data: Seq<u8>| false
    }

    /// `encoding()(data, medium)` holds when `medium` may be the content of
    /// the medium once this sink has accepted exactly `data` and has been
    /// brought to its end.
    open spec fn encoding(&self) -> spec_fn(Seq<u8>, Seq<u8>) -> bool {
        |data: Seq<u8>, medium: Seq<u8>| false
    }

    /// `signature()(data)` is the signature that comes out when this sink,
    /// having accepted exactly `data`, is brought to its end; `None` for a
    /// sink that signs nothing.
    open spec fn signature(&self) -> spec_fn(Seq<u8>) -> Option<Seq<u8>> {
        |data: Seq<u8>| None
    }

    /// Offers `buf`; accepts a prefix of it and reports the prefix's length.
    fn write(&mut self, buf: &[u8]) -> (res: Result<usize, StreamError>)
        requires
            old(self).wf(),
        ensures
            old(self).reliable() ==> res == Ok::<usize, StreamError>(buf@.len() as usize),
            res matches Ok(n) ==> {
                &&& n <= buf@.len()
                &&& final(self).wf()
                &&& final(self).accepted() == old(self).accepted() + buf@.take(n as int)
                &&& final(self).reliable() == old(self).reliable()
                &&& final(self).finishes() == old(self).finishes()
                &&& final(self).encoding() == old(self).encoding()
                &&& final(self).signature() == old(self).signature()
            },
    ;

    /// Pushes what was passed on all the way to the medium. Accepts nothing.
    fn flush(&mut self) -> (res: Result<(), StreamError>)
        requires
            old(self).wf(),
        ensures
            old(self).reliable() ==> res is Ok,
            res is Ok ==> {
                &&& final(self).wf()
                &&& final(self).flushed()
                &&& final(self).accepted() == old(self).accepted()
                &&& final(self).reliable() == old(self).reliable()
                &&& final(self).finishes() == old(self).finishes()
                &&& final(self).encoding() == old(self).encoding()
                &&& final(self).signature() == old(self).signature()
            },
    ;
}

/// The relation of a sink that keeps what it held, `before`, and appends the
/// data unchanged.
pub open spec fn appended_onto(before: Seq<u8>) -> spec_fn(Seq<u8>, Seq<u8>) -> bool {
    |data: Seq<u8>, medium: Seq<u8>| medium == before + data
}

/// The relation of a layer that hands its data unchanged to the layer
/// beneath, which had accepted `before` when the layer was put on it and
/// whose own relation is `beneath`.
pub open spec fn passed_on(beneath: spec_fn(Seq<u8>, Seq<u8>) -> bool, before: Seq<u8>) -> spec_fn(
    Seq<u8>,
    Seq<u8>,
) -> bool {
    |data: Seq<u8>, medium: Seq<u8>| beneath(before + data, medium)
}

/// The condition that holds of all data, or of none.
pub open spec fn always(holds: bool) -> spec_fn(Seq<u8>) -> bool {
    |data: Seq<u8>| holds
}

/// The condition of a layer that hands its data unchanged to the layer
/// beneath, which had accepted `before` when the layer was put on it and
/// whose own condition is `beneath`.
pub open spec fn handed_on(beneath: spec_fn(Seq<u8>) -> bool, before: Seq<u8>) -> spec_fn(Seq<u8>) -> bool {
    |data: Seq<u8>| beneath(before + data)
}

/// The bytes of a signature or a judgement, if there is one.
pub open spec fn bytes_of(value: Option<Vec<u8>>) -> Option<Seq<u8>> {
    match value {
        Some(bytes) => Some(bytes@),
        None => None,
    }
}

/// `before` is what `sink` had accepted at some earlier time.
pub open spec fn grown_from<W: Sink>(sink: &W, before: Seq<u8>) -> bool {
    before.len() <= sink.accepted().len() && sink.accepted().take(before.len() as int) == before
}

/// Something bytes can be read from: a finite run of bytes that ends either
/// cleanly or in an error.
///
/// As with `Sink`, a source that keeps the bodies of the describing
/// functions is never `wf`.
pub trait Source {
    /// The source is usable.
    open spec fn wf(&self) -> bool {
        false
    }

    /// The bytes this source will still deliver.
    open spec fn remaining(&self) -> Seq<u8> {
        Seq::empty()
    }

    /// Whether an error, rather than a clean end, follows the remaining bytes.
    open spec fn fails(&self) -> bool {
        true
    }

    /// The judgement that comes out when this source, read to its end, is
    /// finalised; `None` for a source that verifies nothing.
    open spec fn judgement(&self) -> Option<Seq<u8>> {
        None
    }

    /// Delivers at most `max` of the remaining bytes. With `max > 0`, an
    /// empty result means that the source has ended cleanly.
    fn read(&mut self, max: usize) -> (res: Result<Vec<u8>, StreamError>)
        requires
            old(self).wf(),
        ensures
            match res {
                Ok(data) => {
                    &&& data@.len() <= max
                    &&& data@.len() <= old(self).remaining().len()
                    &&& data@ == old(self).remaining().take(data@.len() as int)
                    &&& data@.len() == 0 ==> max == 0 || (old(self).remaining().len() == 0
                        && !old(self).fails())
                    &&& final(self).wf()
                    &&& final(self).remaining() == old(self).remaining().skip(data@.len() as int)
                    &&& final(self).fails() == old(self).fails()
                    &&& final(self).judgement() == old(self).judgement()
                },
                Err(_) => old(self).fails() && old(self).remaining().len() == 0,
            },
    ;
}

impl Sink for Vec<u8> {
    open spec fn wf(&self) -> bool {
        true
    }

    open spec fn accepted(&self) -> Seq<u8> {
        self@
    }

    open spec fn reliable(&self) -> bool {
        true
    }

    open spec fn flushed(&self) -> bool {
        true
    }

    open spec fn finishes(&self) -> spec_fn(Seq<u8>) -> bool {
        always(true)
    }

    open spec fn encoding(&self) -> spec_fn(Seq<u8>, Seq<u8>) -> bool {
        appended_onto(Seq::empty())
    }

    fn write(&mut self, buf: &[u8]) -> (res: Result<usize, StreamError>) {
        self.extend_from_slice(buf);
        assert(buf@.take(buf@.len() as int) =~= buf@);
        Ok(buf.len())
    }

    fn flush(&mut self) -> (res: Result<(), StreamError>) {
        Ok(())
    }
}

/// A source that delivers the bytes of a buffer held in memory.
pub struct MemorySource {
    data: Vec<u8>,
    pos: usize,
}

impl MemorySource {
    /// A source that will deliver `data` and then end cleanly.
    pub fn new(data: Vec<u8>) -> (res: Self)
        ensures
            res.wf(),
            res.remaining() == data@,
            !res.fails(),
    {
        let res = MemorySource { data, pos: 0 };
        assert(res.data@.skip(0) =~= res.data@);
        res
    }
}

impl Source for MemorySource {
    closed spec fn wf(&self) -> bool {
        self.pos <= self.data@.len()
    }

    closed spec fn remaining(&self) -> Seq<u8> {
        self.data@.skip(self.pos as int)
    }

    open spec fn fails(&self) -> bool {
        false
    }

    /// Delivers as many bytes as were asked for, or all that remain.
    fn read(&mut self, max: usize) -> (res: Result<Vec<u8>, StreamError>)
        ensures
            res is Ok,
            res matches Ok(data) ==> data@.len() == if max <= old(self).remaining().len() {
                max as int
            } else {
                old(self).remaining().len() as int
            },
    {
        let left = self.data.len() - self.pos;
        let n = if max <= left {
            max
        } else {
            left
        };
        let piece = slice_subrange(self.data.as_slice(), self.pos, self.pos + n);
        let mut out: Vec<u8> = Vec::new();
        out.extend_from_slice(piece);
        self.pos = self.pos + n;
        assert(out@ =~= old(self).remaining().take(n as int));
        assert(self.remaining() =~= old(self).remaining().skip(n as int));
        Ok(out)
    }
}

/// Writes all of `buf`, however many calls of `write` that takes. A sink
/// that accepts nothing of a non-empty offer ends the attempt with
/// `StreamError::WriteZero`.
pub fn write_all<W: Sink>(sink: &mut W, buf: &[u8]) -> (res: Result<(), StreamError>)
    requires
        old(sink).wf(),
    ensures
        old(sink).reliable() ==> res is Ok,
        res is Ok ==> {
            &&& final(sink).wf()
            &&& final(sink).accepted() == old(sink).accepted() + buf@
            &&& final(sink).reliable() == old(sink).reliable()
            &&& final(sink).finishes() == old(sink).finishes()
            &&& final(sink).encoding() == old(sink).encoding()
            &&& final(sink).signature() == old(sink).signature()
        },
{
    let mut pos: usize = 0;
    assert(buf@.take(0) =~= Seq::<u8>::empty());
    assert(sink.accepted() + Seq::<u8>::empty() =~= sink.accepted());
    while pos < buf.len()
        invariant
            pos <= buf@.len(),
            sink.wf(),
            sink.accepted() == old(sink).accepted() + buf@.take(pos as int),
            sink.reliable() == old(sink).reliable(),
            sink.finishes() == old(sink).finishes(),
            sink.encoding() == old(sink).encoding(),
            sink.signature() == old(sink).signature(),
        decreases buf@.len() - pos,
    {
        let rest = slice_subrange(buf, pos, buf.len());
        let ghost before = sink.accepted();
        match sink.write(rest) {
            Ok(n) => {
                if n == 0 {
                    return Err(StreamError::WriteZero);
                }
                assert(before + rest@.take(n as int) =~= old(sink).accepted() + buf@.take(
                    pos + n,
                ));
                pos = pos + n;
            },
            Err(e) => {
                return Err(e);
            },
        }
    }
    assert(buf@.take(pos as int) =~= buf@);
    Ok(())
}

/// Reads until `n` bytes are gathered or the source has ended. An error of
/// the source is passed on and what was gathered before it is dropped.
pub fn read_full<R: Source>(source: &mut R, n: usize) -> (res: Result<Vec<u8>, StreamError>)
    requires
        old(source).wf(),
    ensures
        res is Ok <==> (n <= old(source).remaining().len() || !old(source).fails()),
        res matches Ok(data) ==> {
            &&& data@.len() == if n <= old(source).remaining().len() {
                n as int
            } else {
                old(source).remaining().len() as int
            }
            &&& data@ == old(source).remaining().take(data@.len() as int)
            &&& final(source).wf()
            &&& final(source).remaining() == old(source).remaining().skip(data@.len() as int)
            &&& final(source).fails() == old(source).fails()
            &&& final(source).judgement() == old(source).judgement()
        },
{
    let mut out: Vec<u8> = Vec::new();
    assert(source.remaining().skip(0) =~= source.remaining());
    assert(source.remaining().take(0) =~= out@);
    while out.len() < n
        invariant
            out@.len() <= n,
            out@.len() <= old(source).remaining().len(),
            out@ == old(source).remaining().take(out@.len() as int),
            source.wf(),
            source.remaining() == old(source).remaining().skip(out@.len() as int),
            source.fails() == old(source).fails(),
            source.judgement() == old(source).judgement(),
        ensures
            source.wf(),
            source.judgement() == old(source).judgement(),
            out@.len() == if n <= old(source).remaining().len() {
                n as int
            } else {
                old(source).remaining().len() as int
            },
            out@ == old(source).remaining().take(out@.len() as int),
            source.remaining() == old(source).remaining().skip(out@.len() as int),
            source.fails() == old(source).fails(),
            n <= old(source).remaining().len() || !old(source).fails(),
        decreases n - out@.len(),
    {
        let ghost had = out@;
        let ghost left = source.remaining();
        match source.read(n - out.len()) {
            Ok(piece) => {
                if piece.len() == 0 {
                    break ;
                }
                out.extend_from_slice(piece.as_slice());
                assert(out@ =~= old(source).remaining().take(out@.len() as int));
                assert(source.remaining() =~= old(source).remaining().skip(out@.len() as int));
            },
            Err(e) => {
                return Err(e);
            },
        }
    }
    Ok(out)
}

/// Reads a source to its end.
pub fn read_to_end<R: Source>(source: &mut R) -> (res: Result<Vec<u8>, StreamError>)
    requires
        old(source).wf(),
    ensures
        res is Ok <==> !old(source).fails(),
        res matches Ok(data) ==> {
            &&& data@ == old(source).remaining()
            &&& final(source).wf()
            &&& final(source).remaining() == Seq::<u8>::empty()
            &&& !final(source).fails()
            &&& final(source).judgement() == old(source).judgement()
        },
{
    let mut out: Vec<u8> = Vec::new();
    assert(source.remaining().skip(0) =~= source.remaining());
    assert(source.remaining().take(0) =~= out@);
    loop
        invariant
            out@.len() <= old(source).remaining().len(),
            out@ == old(source).remaining().take(out@.len() as int),
            source.wf(),
            source.remaining() == old(source).remaining().skip(out@.len() as int),
            source.fails() == old(source).fails(),
            source.judgement() == old(source).judgement(),
        ensures
            source.wf(),
            source.judgement() == old(source).judgement(),
            out@ == old(source).remaining(),
            source.remaining() == Seq::<u8>::empty(),
            !source.fails(),
            !old(source).fails(),
        decreases old(source).remaining().len() - out@.len(),
    {
        match source.read(COPY_BUFFER_SIZE) {
            Ok(piece) => {
                if piece.len() == 0 {
                    assert(out@ =~= old(source).remaining());
                    assert(source.remaining() =~= Seq::<u8>::empty());
                    break ;
                }
                out.extend_from_slice(piece.as_slice());
                assert(out@ =~= old(source).remaining().take(out@.len() as int));
                assert(source.remaining() =~= old(source).remaining().skip(out@.len() as int));
            },
            Err(e) => {
                return Err(e);
            },
        }
    }
    Ok(out)
}

/// Moves every remaining byte of `source` into `sink`, in order.
///
/// Stops at the first error. One of the source can come only after all its
/// bytes have been moved: where the sink never fails, it then holds all that
/// the source had to give before it failed.
pub fn copy<R: Source, W: Sink>(source: &mut R, sink: &mut W) -> (res: Result<(), StreamError>)
    requires
        old(source).wf(),
        old(sink).wf(),
    ensures
        old(source).fails() ==> res is Err,
        !old(source).fails() && old(sink).reliable() ==> res is Ok,
        res is Ok ==> {
            &&& final(source).wf()
            &&& final(source).remaining() == Seq::<u8>::empty()
            &&& !final(source).fails()
            &&& final(source).judgement() == old(source).judgement()
        },
        res is Ok || old(sink).reliable() ==> {
            &&& final(sink).wf()
            &&& final(sink).accepted() == old(sink).accepted() + old(source).remaining()
            &&& final(sink).reliable() == old(sink).reliable()
            &&& final(sink).finishes() == old(sink).finishes()
            &&& final(sink).encoding() == old(sink).encoding()
            &&& final(sink).signature() == old(sink).signature()
        },
{
    let ghost mut moved: Seq<u8> = Seq::empty();
    assert(source.remaining().skip(0) =~= source.remaining());
    assert(sink.accepted() + moved =~= sink.accepted());
    loop
        invariant
            moved.len() <= old(source).remaining().len(),
            moved == old(source).remaining().take(moved.len() as int),
            source.wf(),
            source.remaining() == old(source).remaining().skip(moved.len() as int),
            source.fails() == old(source).fails(),
            source.judgement() == old(source).judgement(),
            sink.wf(),
            sink.accepted() == old(sink).accepted() + moved,
            sink.reliable() == old(sink).reliable(),
            sink.finishes() == old(sink).finishes(),
            sink.encoding() == old(sink).encoding(),
            sink.signature() == old(sink).signature(),
        ensures
            source.wf(),
            source.remaining() == Seq::<u8>::empty(),
            !source.fails(),
            !old(source).fails(),
            source.judgement() == old(source).judgement(),
            sink.wf(),
            sink.accepted() == old(sink).accepted() + old(source).remaining(),
            sink.reliable() == old(sink).reliable(),
            sink.finishes() == old(sink).finishes(),
            sink.encoding() == old(sink).encoding(),
            sink.signature() == old(sink).signature(),
        decreases old(source).remaining().len() - moved.len(),
    {
        match source.read(COPY_BUFFER_SIZE) {
            Ok(piece) => {
                if piece.len() == 0 {
                    assert(moved =~= old(source).remaining());
                    assert(source.remaining() =~= Seq::<u8>::empty());
                    break ;
                }
                match write_all(sink, piece.as_slice()) {
                    Ok(()) => {},
                    Err(e) => {
                        return Err(e);
                    },
                }
                proof {
                    let grown = moved + piece@;
                    assert(grown =~= old(source).remaining().take(grown.len() as int));
                    assert(source.remaining() =~= old(source).remaining().skip(grown.len() as int));
                    assert(sink.accepted() =~= old(sink).accepted() + grown);
                    moved = grown;
                }
            },
            Err(e) => {
                assert(moved =~= old(source).remaining());
                return Err(e);
            },
        }
    }
    Ok(())
}

} // verus!
