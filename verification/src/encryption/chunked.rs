//! The stream of sealed chunks: what it is, how it is written, how it is read
//! back, and that reading undoes writing.
//!
//! On the wire a chunk is a nonce followed by what the cipher made of at most
//! `CHUNK_SIZE` bytes of plaintext: ciphertext and tag. Chunks follow each
//! other without a header or a count; only the last may be short, and the
//! end of the wire is the end of the stream.
use crate::encryption::aead::{fresh_nonce, open, opened, seal, sealed, Cipher, CHUNK_SIZE, KEY_SIZE, TAG_SIZE};
use crate::error::StreamError;
use crate::stream::{read_full, write_all, Sink, Source};
use vstd::prelude::*;
use vstd::slice::slice_subrange;

verus! {

/// Length of the first chunk cut from `len` bytes of plaintext.
pub open spec fn first_chunk_len(len: nat) -> nat {
    if len <= CHUNK_SIZE {
        len
    } else {
        CHUNK_SIZE as nat
    }
}

/// `wire` is a sealing of `data` under `key`: `data` cut into chunks of
/// `CHUNK_SIZE` bytes, the last one possibly shorter and none empty, each
/// written as a nonce followed by what the cipher makes of the chunk under
/// that nonce, which the cipher opens again.
pub open spec fn is_sealing_of(cipher: Cipher, key: Seq<u8>, wire: Seq<u8>, data: Seq<u8>) -> bool
    decreases data.len(),
{
    if data.len() == 0 {
        wire.len() == 0
    } else {
        let n = first_chunk_len(data.len()) as int;
        let ns = cipher.nonce_size() as int;
        let w = ns + n + TAG_SIZE;
        &&& wire.len() >= w
        &&& sealed(cipher, key, wire.take(ns), data.take(n)) == Some(wire.subrange(ns, w))
        &&& opened(cipher, key, wire.take(ns), wire.subrange(ns, w)) == Some(data.take(n))
        &&& is_sealing_of(cipher, key, wire.skip(w), data.skip(n))
    }
}

/// The relation between what an encryptor accepts and what its medium holds
/// in the end: the medium keeps what it held before, `before`, and after it
/// comes a sealing of the data.
pub open spec fn sealing_onto(cipher: Cipher, key: Seq<u8>, before: Seq<u8>) -> spec_fn(Seq<u8>, Seq<u8>) -> bool {
    |data: Seq<u8>, medium: Seq<u8>|
        {
            &&& before.len() <= medium.len()
            &&& medium.take(before.len() as int) == before
            &&& is_sealing_of(cipher, key, medium.skip(before.len() as int), data)
        }
}

/// What holds of an encryptor between two writes. Of what it has
/// `accepted` it holds back the end, `held`: at most one chunk, and at
/// least one byte once anything was accepted. What comes before is whole
/// chunks, and the `medium` holds them sealed, as `relation` has it.
pub open spec fn holds_back(
    accepted: Seq<u8>,
    held: Seq<u8>,
    medium: Seq<u8>,
    relation: spec_fn(Seq<u8>, Seq<u8>) -> bool,
) -> bool {
    &&& held.len() <= accepted.len()
    &&& held.len() <= CHUNK_SIZE
    &&& accepted.len() > 0 ==> held.len() > 0
    &&& (accepted.len() - held.len()) % (CHUNK_SIZE as int) == 0
    &&& held == accepted.skip(accepted.len() - held.len())
    &&& relation(accepted.take(accepted.len() - held.len()), medium)
}

/// What a decryptor makes of one piece of the wire: the piece's head is the
/// nonce, the rest goes to the cipher. A piece too short for a nonce is
/// rejected.
pub open spec fn open_chunk(cipher: Cipher, key: Seq<u8>, piece: Seq<u8>) -> Option<Seq<u8>> {
    let ns = cipher.nonce_size() as int;
    if piece.len() < ns {
        None
    } else {
        opened(cipher, key, piece.take(ns), piece.skip(ns))
    }
}

/// Length of the first piece a decryptor takes from `len` bytes of wire.
pub open spec fn first_piece_len(cipher: Cipher, len: nat) -> nat {
    if len <= cipher.wire_chunk_size() {
        len
    } else {
        cipher.wire_chunk_size() as nat
    }
}

/// What a decryptor delivers from `wire`, and whether it then fails.
///
/// The wire is taken in pieces of a full chunk's size, the last piece being
/// what is left. Plaintext is delivered up to the first piece that does not
/// open; of that piece nothing is delivered. Where the wire is `cut`, that
/// is, ends in an error of its source, a last piece that is not full is never
/// seen whole, so the stream fails there.
pub open spec fn open_stream(cipher: Cipher, key: Seq<u8>, wire: Seq<u8>, cut: bool) -> (Seq<u8>, bool)
    decreases wire.len(),
{
    if wire.len() == 0 {
        (Seq::empty(), cut)
    } else if cut && wire.len() < cipher.wire_chunk_size() {
        (Seq::empty(), true)
    } else {
        let m = first_piece_len(cipher, wire.len()) as int;
        match open_chunk(cipher, key, wire.take(m)) {
            Some(plain) => {
                let rest = open_stream(cipher, key, wire.skip(m), cut);
                (plain + rest.0, rest.1)
            },
            None => (Seq::empty(), true),
        }
    }
}

/// A sealing of whole chunks, followed by the sealing of one more chunk, is a
/// sealing of the data followed by that chunk.
pub proof fn lemma_sealing_extends(
    cipher: Cipher,
    key: Seq<u8>,
    wire: Seq<u8>,
    data: Seq<u8>,
    more_wire: Seq<u8>,
    chunk: Seq<u8>,
)
    requires
        is_sealing_of(cipher, key, wire, data),
        data.len() % (CHUNK_SIZE as nat) == 0,
        0 < chunk.len() <= CHUNK_SIZE,
        is_sealing_of(cipher, key, more_wire, chunk),
    ensures
        is_sealing_of(cipher, key, wire + more_wire, data + chunk),
    decreases data.len(),
{
    if data.len() == 0 {
        assert(wire + more_wire =~= more_wire);
        assert(data + chunk =~= chunk);
    } else {
        let n = CHUNK_SIZE as int;
        let ns = cipher.nonce_size() as int;
        let w = ns + n + TAG_SIZE;
        assert(data.len() >= CHUNK_SIZE);
        assert(first_chunk_len(data.len()) == n);
        let all_wire = wire + more_wire;
        let all_data = data + chunk;
        assert(first_chunk_len(all_data.len()) == n);
        assert(all_wire.take(ns) =~= wire.take(ns));
        assert(all_wire.subrange(ns, w) =~= wire.subrange(ns, w));
        assert(all_data.take(n) =~= data.take(n));
        assert(all_wire.skip(w) =~= wire.skip(w) + more_wire);
        assert(all_data.skip(n) =~= data.skip(n) + chunk);
        assert(data.skip(n).len() % (CHUNK_SIZE as nat) == 0) by {
            assert(data.skip(n).len() == data.len() - CHUNK_SIZE);
        }
        lemma_sealing_extends(cipher, key, wire.skip(w), data.skip(n), more_wire, chunk);
    }
}

/// The number of chunks that `len` bytes of plaintext are cut into.
pub open spec fn chunk_count(len: nat) -> nat {
    (len + CHUNK_SIZE - 1) as nat / (CHUNK_SIZE as nat)
}

/// Bytes on the wire for `len` bytes of plaintext: the plaintext's length
/// and, for each chunk, a nonce and a tag.
pub open spec fn sealed_len(cipher: Cipher, len: nat) -> nat {
    len + chunk_count(len) * (cipher.nonce_size() + TAG_SIZE) as nat
}

/// A sealing accounts for every byte of its data: it is as long as the data
/// and, for every chunk, a nonce and a tag. A last chunk that is short
/// counts like any other.
pub proof fn lemma_sealing_len(cipher: Cipher, key: Seq<u8>, wire: Seq<u8>, data: Seq<u8>)
    requires
        is_sealing_of(cipher, key, wire, data),
    ensures
        wire.len() == sealed_len(cipher, data.len()),
    decreases data.len(),
{
    if data.len() != 0 {
        let n = first_chunk_len(data.len()) as int;
        let w = cipher.nonce_size() + n + TAG_SIZE;
        lemma_sealing_len(cipher, key, wire.skip(w), data.skip(n));
        let rest = (data.len() - n) as nat;
        assert(chunk_count(data.len()) == 1 + chunk_count(rest));
        assert(sealed_len(cipher, data.len()) == w + sealed_len(cipher, rest)) by (nonlinear_arith)
            requires
                chunk_count(data.len()) == 1 + chunk_count(rest),
                data.len() == n + rest,
                w == cipher.nonce_size() + n + TAG_SIZE,
                sealed_len(cipher, data.len()) == data.len() + chunk_count(data.len()) * (cipher.nonce_size()
                    + TAG_SIZE) as nat,
                sealed_len(cipher, rest) == rest + chunk_count(rest) * (cipher.nonce_size() + TAG_SIZE) as nat,
        ;
    }
}

/// What an encryptor leaves on its medium accounts for every byte it
/// accepted: the medium has grown by the length of the data and, for every
/// chunk, by a nonce and a tag.
pub proof fn lemma_nothing_truncated(cipher: Cipher, key: Seq<u8>, before: Seq<u8>, data: Seq<u8>, medium: Seq<u8>)
    requires
        sealing_onto(cipher, key, before)(data, medium),
    ensures
        medium.len() == before.len() + sealed_len(cipher, data.len()),
{
    lemma_sealing_len(cipher, key, medium.skip(before.len() as int), data);
}

/// Reading undoes writing: a decryptor with the same key delivers from a
/// sealing of `data` exactly `data`, and ends cleanly.
pub proof fn lemma_opening_restores(cipher: Cipher, key: Seq<u8>, wire: Seq<u8>, data: Seq<u8>)
    requires
        is_sealing_of(cipher, key, wire, data),
    ensures
        open_stream(cipher, key, wire, false) == (data, false),
    decreases data.len(),
{
    if data.len() == 0 {
    } else {
        let n = first_chunk_len(data.len()) as int;
        let ns = cipher.nonce_size() as int;
        let w = ns + n + TAG_SIZE;
        lemma_opening_restores(cipher, key, wire.skip(w), data.skip(n));
        if data.len() <= CHUNK_SIZE {
            reveal_with_fuel(is_sealing_of, 2);
            assert(data.skip(n).len() == 0);
            assert(wire.skip(w).len() == 0);
            assert(wire.len() == w);
        }
        let m = first_piece_len(cipher, wire.len()) as int;
        assert(m == w);
        let piece = wire.take(m);
        assert(piece.take(ns) =~= wire.take(ns));
        assert(piece.skip(ns) =~= wire.subrange(ns, w));
        assert(open_chunk(cipher, key, piece) == Some(data.take(n)));
        assert(data.take(n) + data.skip(n) =~= data);
    }
}

/// The `k`-th piece that a decryptor takes from `wire`, counting from 0:
/// `wire_chunk_size` bytes from where the piece before it ended, or what is
/// left of the wire. Empty where the wire has no such piece.
pub open spec fn piece(cipher: Cipher, wire: Seq<u8>, k: nat) -> Seq<u8> {
    let w = cipher.wire_chunk_size() as int;
    if k * w >= wire.len() {
        Seq::empty()
    } else if (k + 1) * w >= wire.len() {
        wire.skip(k * w)
    } else {
        wire.subrange(k * w, (k + 1) * w)
    }
}

/// The plaintext of the first `k` pieces of `wire` in order, if every one of
/// them opens.
pub open spec fn opened_pieces(cipher: Cipher, key: Seq<u8>, wire: Seq<u8>, k: nat) -> Option<Seq<u8>>
    decreases k,
{
    if k == 0 {
        Some(Seq::empty())
    } else {
        match (opened_pieces(cipher, key, wire, (k - 1) as nat), open_chunk(cipher, key, piece(cipher, wire, (k - 1) as nat))) {
            (Some(before), Some(plain)) => Some(before + plain),
            _ => None,
        }
    }
}

/// Damage to one chunk is that chunk's alone. Two wires of one length that
/// differ only within their `k`-th pieces have every other piece in common,
/// so that a decryptor judges every other piece of the one as it judges the
/// same piece of the other.
pub proof fn lemma_damage_is_local(cipher: Cipher, key: Seq<u8>, wire: Seq<u8>, damaged: Seq<u8>, k: nat, j: nat)
    requires
        wire.len() == damaged.len(),
        forall|i: int|
            0 <= i < wire.len() && !(k * cipher.wire_chunk_size() <= i < (k + 1) * cipher.wire_chunk_size())
                ==> wire[i] == damaged[i],
        j != k,
    ensures
        piece(cipher, damaged, j) == piece(cipher, wire, j),
        open_chunk(cipher, key, piece(cipher, damaged, j)) == open_chunk(cipher, key, piece(cipher, wire, j)),
{
    let w = cipher.wire_chunk_size() as int;
    assert(w == 8232 || w == 8220);
    assert(j < k ==> (j + 1) * w <= k * w) by (nonlinear_arith)
        requires
            w > 0,
    ;
    assert(j > k ==> (k + 1) * w <= j * w) by (nonlinear_arith)
        requires
            w > 0,
    ;
    assert(j * w < (j + 1) * w) by (nonlinear_arith)
        requires
            w > 0,
    ;
    assert(piece(cipher, damaged, j) =~= piece(cipher, wire, j));
}

/// The pieces of a wire after its first are the pieces of what follows the
/// first.
proof fn lemma_piece_shifts(cipher: Cipher, wire: Seq<u8>, k: nat)
    requires
        wire.len() > cipher.wire_chunk_size(),
    ensures
        piece(cipher, wire, k + 1) == piece(cipher, wire.skip(cipher.wire_chunk_size() as int), k),
{
    let w = cipher.wire_chunk_size() as int;
    assert((k + 1) * w == k * w + w) by (nonlinear_arith);
    assert((k + 2) * w == (k + 1) * w + w) by (nonlinear_arith);
    assert(k * w >= 0) by (nonlinear_arith)
        requires
            w > 0,
    ;
    assert(piece(cipher, wire, k + 1) =~= piece(cipher, wire.skip(w), k));
}

/// Plaintext opened from the first piece on, then from the pieces of the
/// rest, is the plaintext of the first pieces of the whole.
proof fn lemma_opened_pieces_shift(cipher: Cipher, key: Seq<u8>, wire: Seq<u8>, k: nat)
    requires
        wire.len() > cipher.wire_chunk_size(),
    ensures
        opened_pieces(cipher, key, wire, k + 1) == match (
            open_chunk(cipher, key, piece(cipher, wire, 0)),
            opened_pieces(cipher, key, wire.skip(cipher.wire_chunk_size() as int), k),
        ) {
            (Some(plain), Some(after)) => Some(plain + after),
            _ => None,
        },
    decreases k,
{
    let rest = wire.skip(cipher.wire_chunk_size() as int);
    if k == 0 {
        reveal_with_fuel(opened_pieces, 2);
        match open_chunk(cipher, key, piece(cipher, wire, 0)) {
            Some(plain) => {
                assert(Seq::<u8>::empty() + plain =~= plain + Seq::<u8>::empty());
            },
            None => {},
        }
    } else {
        lemma_opened_pieces_shift(cipher, key, wire, (k - 1) as nat);
        lemma_piece_shifts(cipher, wire, (k - 1) as nat);
        match (
            open_chunk(cipher, key, piece(cipher, wire, 0)),
            opened_pieces(cipher, key, rest, (k - 1) as nat),
            open_chunk(cipher, key, piece(cipher, rest, (k - 1) as nat)),
        ) {
            (Some(plain), Some(after), Some(last)) => {
                assert((plain + after) + last =~= plain + (after + last));
            },
            _ => {},
        }
    }
}

/// A chunk that fails stops the stream where it stands. Where the first `k`
/// pieces of a wire open and the `k`-th does not, a decryptor delivers the
/// plaintext of those `k` pieces and then fails: of the failed chunk, and of
/// what follows it, no byte is delivered.
pub proof fn lemma_failure_stops_delivery(cipher: Cipher, key: Seq<u8>, wire: Seq<u8>, k: nat)
    requires
        k * cipher.wire_chunk_size() < wire.len(),
        opened_pieces(cipher, key, wire, k) is Some,
        open_chunk(cipher, key, piece(cipher, wire, k)) is None,
    ensures
        open_stream(cipher, key, wire, false) == (opened_pieces(cipher, key, wire, k).unwrap(), true),
    decreases k,
{
    let w = cipher.wire_chunk_size() as int;
    let m = first_piece_len(cipher, wire.len()) as int;
    assert(0 * w == 0 && (0 + 1) * w == w) by (nonlinear_arith);
    assert(piece(cipher, wire, 0) =~= wire.take(m));
    if k == 0 {
    } else {
        assert(k * w >= w) by (nonlinear_arith)
            requires
                k >= 1,
                w > 0,
        ;
        assert((k - 1) * w == k * w - w) by (nonlinear_arith);
        lemma_opened_pieces_shift(cipher, key, wire, (k - 1) as nat);
        lemma_piece_shifts(cipher, wire, (k - 1) as nat);
        lemma_failure_stops_delivery(cipher, key, wire.skip(w), (k - 1) as nat);
    }
}

/// Damage ends the stream at the damaged chunk, not before it. Take a
/// sealing of `data`, and a wire `damaged` of its length that agrees with it
/// on the `k` chunks in front and whose `k`-th piece the cipher rejects. From
/// `damaged` a decryptor delivers the `k` chunks in front whole and
/// unchanged, `data.take(k * CHUNK_SIZE)`, and then fails: no byte of the
/// `k`-th chunk is delivered, and none of what follows, whatever has become
/// of the chunks behind.
pub proof fn lemma_damage_ends_delivery(
    cipher: Cipher,
    key: Seq<u8>,
    wire: Seq<u8>,
    data: Seq<u8>,
    damaged: Seq<u8>,
    k: nat,
    cut: bool,
)
    requires
        is_sealing_of(cipher, key, wire, data),
        damaged.len() == wire.len(),
        k * cipher.wire_chunk_size() < wire.len(),
        forall|i: int| 0 <= i < k * cipher.wire_chunk_size() ==> damaged[i] == wire[i],
        open_chunk(cipher, key, piece(cipher, damaged, k)) is None,
    ensures
        k * CHUNK_SIZE < data.len(),
        open_stream(cipher, key, damaged, cut) == (data.take(k * CHUNK_SIZE), true),
    decreases k,
{
    let w = cipher.wire_chunk_size() as int;
    let ns = cipher.nonce_size() as int;
    let m = first_piece_len(cipher, damaged.len()) as int;
    assert(0 * w == 0 && (0 + 1) * w == w) by (nonlinear_arith);
    assert(piece(cipher, damaged, 0) =~= damaged.take(m));
    if k == 0 {
        assert(data.take(0) =~= Seq::<u8>::empty());
    } else {
        assert(k * w >= w) by (nonlinear_arith)
            requires
                k >= 1,
                w > 0,
        ;
        assert((k - 1) * w == k * w - w) by (nonlinear_arith);
        assert((k - 1) * CHUNK_SIZE == k * CHUNK_SIZE - CHUNK_SIZE) by (nonlinear_arith);
        let n = first_chunk_len(data.len()) as int;
        if data.len() <= CHUNK_SIZE {
            reveal_with_fuel(is_sealing_of, 2);
            assert(data.skip(n).len() == 0);
            assert(wire.skip(ns + n + TAG_SIZE).len() == 0);
        }
        assert(n == CHUNK_SIZE && m == w);
        let rest = damaged.skip(w);
        assert(damaged.take(w).take(ns) =~= wire.take(ns));
        assert(damaged.take(w).skip(ns) =~= wire.subrange(ns, w));
        assert(open_chunk(cipher, key, damaged.take(m)) == Some(data.take(n)));
        lemma_piece_shifts(cipher, damaged, (k - 1) as nat);
        lemma_damage_ends_delivery(cipher, key, wire.skip(w), data.skip(n), rest, (k - 1) as nat, cut);
        assert(data.take(n) + data.skip(n).take((k - 1) * CHUNK_SIZE) =~= data.take(k * CHUNK_SIZE));
    }
}

/// Where every piece of a wire opens, a decryptor delivers the plaintext of
/// all of them and ends cleanly.
pub proof fn lemma_sound_stream_is_delivered(cipher: Cipher, key: Seq<u8>, wire: Seq<u8>, k: nat)
    requires
        (k - 1) * cipher.wire_chunk_size() < wire.len() <= k * cipher.wire_chunk_size(),
        opened_pieces(cipher, key, wire, k) is Some,
    ensures
        open_stream(cipher, key, wire, false) == (opened_pieces(cipher, key, wire, k).unwrap(), false),
    decreases k,
{
    let w = cipher.wire_chunk_size() as int;
    let m = first_piece_len(cipher, wire.len()) as int;
    assert(0 * w == 0 && (0 + 1) * w == w) by (nonlinear_arith);
    assert(piece(cipher, wire, 0) =~= wire.take(m));
    if k == 0 {
        assert(wire.len() == 0);
    } else if wire.len() <= w {
        assert(k == 1) by (nonlinear_arith)
            requires
                (k - 1) * w < wire.len(),
                wire.len() <= w,
                k >= 1,
                w > 0,
        ;
        reveal_with_fuel(opened_pieces, 2);
        reveal_with_fuel(open_stream, 2);
        assert(wire.len() > 0);
        assert(wire.skip(m).len() == 0);
        let plain = open_chunk(cipher, key, piece(cipher, wire, 0)).unwrap();
        assert(Seq::<u8>::empty() + plain =~= plain + Seq::<u8>::empty());
    } else {
        assert(k >= 2) by (nonlinear_arith)
            requires
                wire.len() <= k * w,
                wire.len() > w,
                w > 0,
        ;
        assert((k - 1) * w == k * w - w) by (nonlinear_arith);
        assert((k - 2) * w == k * w - 2 * w) by (nonlinear_arith);
        lemma_opened_pieces_shift(cipher, key, wire, (k - 1) as nat);
        lemma_sound_stream_is_delivered(cipher, key, wire.skip(w), (k - 1) as nat);
    }
}

/// The plaintext of the next chunk of `wire` that holds any: what a
/// decryptor with nothing on hand comes by next. Empty where the wire ends,
/// or fails, before such a chunk.
pub open spec fn next_plain(cipher: Cipher, key: Seq<u8>, wire: Seq<u8>, cut: bool) -> Seq<u8>
    decreases wire.len(),
{
    if wire.len() == 0 || (cut && wire.len() < cipher.wire_chunk_size()) {
        Seq::empty()
    } else {
        let m = first_piece_len(cipher, wire.len()) as int;
        match open_chunk(cipher, key, wire.take(m)) {
            Some(plain) => if plain.len() > 0 {
                plain
            } else {
                next_plain(cipher, key, wire.skip(m), cut)
            },
            None => Seq::empty(),
        }
    }
}

/// What is left of `wire` once a decryptor with nothing on hand has taken
/// the next chunk that holds any plaintext, and the chunks before it that
/// hold none. A piece that the cipher rejects is taken from the wire like
/// any other: what is left begins behind it.
pub open spec fn after_next(cipher: Cipher, key: Seq<u8>, wire: Seq<u8>, cut: bool) -> Seq<u8>
    decreases wire.len(),
{
    if wire.len() == 0 || (cut && wire.len() < cipher.wire_chunk_size()) {
        wire
    } else {
        let m = first_piece_len(cipher, wire.len()) as int;
        match open_chunk(cipher, key, wire.take(m)) {
            Some(plain) => if plain.len() > 0 {
                wire.skip(m)
            } else {
                after_next(cipher, key, wire.skip(m), cut)
            },
            None => wire.skip(m),
        }
    }
}

/// What the decryptor over `source` will deliver, and whether it then fails.
pub open spec fn pending_plain<R: Source>(cipher: Cipher, key: Seq<u8>, source: &R) -> (Seq<u8>, bool) {
    open_stream(cipher, key, source.remaining(), source.fails())
}

/// Seals `chunk` under `nonce` and writes the nonce and the sealed chunk to
/// `io`. Where the cipher reports an error, which it does on no chunk of
/// `CHUNK_SIZE` bytes or less, nothing is written and
/// `StreamError::Encryption` comes back.
pub fn seal_under<W: Sink>(cipher: Cipher, key: &[u8], nonce: &[u8], chunk: &[u8], io: &mut W) -> (res: Result<
    (),
    StreamError,
>)
    requires
        key@.len() == KEY_SIZE,
        nonce@.len() == cipher.nonce_size(),
        old(io).wf(),
    ensures
        chunk@.len() <= CHUNK_SIZE ==> sealed(cipher, key@, nonce@, chunk@) is Some,
        sealed(cipher, key@, nonce@, chunk@) is None ==> res matches Err(StreamError::Encryption),
        sealed(cipher, key@, nonce@, chunk@) is Some && old(io).reliable() ==> res is Ok,
        res matches Err(e) ==> e is Encryption || !old(io).reliable(),
        res is Ok ==> {
            &&& sealed(cipher, key@, nonce@, chunk@) matches Some(body) && {
                &&& final(io).accepted() == old(io).accepted() + nonce@ + body
                &&& body.len() == chunk@.len() + TAG_SIZE
                &&& opened(cipher, key@, nonce@, body) == Some(chunk@)
            }
            &&& final(io).wf()
            &&& final(io).reliable() == old(io).reliable()
            &&& final(io).encoding() == old(io).encoding()
            &&& final(io).signature() == old(io).signature()
        },
{
    let body = match seal(cipher, key, nonce, chunk) {
        Some(body) => body,
        None => {
            return Err(StreamError::Encryption);
        },
    };
    match write_all(io, nonce) {
        Ok(()) => {},
        Err(e) => {
            return Err(e);
        },
    }
    write_all(io, body.as_slice())
}

/// Opens one piece of the wire: its head is the nonce, the rest goes to the
/// cipher. `None` where the piece is too short for a nonce or the cipher
/// rejects it.
pub fn open_piece(cipher: Cipher, key: &[u8], piece: &[u8]) -> (res: Option<Vec<u8>>)
    requires
        key@.len() == KEY_SIZE,
    ensures
        match res {
            Some(plain) => open_chunk(cipher, key@, piece@) == Some(plain@),
            None => open_chunk(cipher, key@, piece@) is None,
        },
        res matches Some(plain) ==> plain@.len() + TAG_SIZE + cipher.nonce_size() == piece@.len(),
{
    let ns = cipher.nonce_size();
    if piece.len() < ns {
        return None;
    }
    let nonce = slice_subrange(piece, 0, ns);
    let body = slice_subrange(piece, ns, piece.len());
    assert(nonce@ =~= piece@.take(ns as int));
    assert(body@ =~= piece@.skip(ns as int));
    open(cipher, key, nonce, body)
}

/// Seals `chunk` under a fresh nonce and writes the nonce and the sealed
/// chunk to `io`, which so far holds a sealing of the whole chunks `done`.
/// Where no nonce can be had, `StreamError::Encryption` comes back.
pub(crate) fn seal_chunk<W: Sink>(
    cipher: Cipher,
    key: &[u8],
    chunk: &[u8],
    io: &mut W,
    Ghost(before): Ghost<Seq<u8>>,
    Ghost(done): Ghost<Seq<u8>>,
) -> (res: Result<(), StreamError>)
    requires
        key@.len() == KEY_SIZE,
        0 < chunk@.len() <= CHUNK_SIZE,
        old(io).wf(),
        sealing_onto(cipher, key@, before)(done, old(io).accepted()),
        done.len() % (CHUNK_SIZE as nat) == 0,
    ensures
        res matches Err(e) ==> e is Encryption || !old(io).reliable(),
        res is Ok ==> {
            &&& final(io).wf()
            &&& sealing_onto(cipher, key@, before)(done + chunk@, final(io).accepted())
            &&& final(io).reliable() == old(io).reliable()
            &&& final(io).encoding() == old(io).encoding()
            &&& final(io).signature() == old(io).signature()
        },
{
    let nonce = match fresh_nonce(cipher) {
        Some(nonce) => nonce,
        None => {
            return Err(StreamError::Encryption);
        },
    };
    match seal_under(cipher, key, nonce.as_slice(), chunk, io) {
        Ok(()) => {},
        Err(e) => {
            return Err(e);
        },
    }
    proof {
        let ns = cipher.nonce_size() as int;
        let n = chunk@.len() as int;
        let w = ns + n + TAG_SIZE;
        let body = sealed(cipher, key@, nonce@, chunk@).unwrap();
        let added = nonce@ + body;
        let wire = old(io).accepted().skip(before.len() as int);
        assert(added.take(ns) =~= nonce@);
        assert(added.subrange(ns, w) =~= body);
        assert(chunk@.take(n) =~= chunk@);
        assert(added.skip(w).len() == 0);
        assert(chunk@.skip(n).len() == 0);
        reveal_with_fuel(is_sealing_of, 2);
        assert(is_sealing_of(cipher, key@, added, chunk@));
        lemma_sealing_extends(cipher, key@, wire, done, added, chunk@);
        assert(io.accepted() =~= old(io).accepted() + added);
        assert(io.accepted().take(before.len() as int) =~= before);
        assert(io.accepted().skip(before.len() as int) =~= wire + added);
    }
    Ok(())
}

/// Seals and writes chunks of `CHUNK_SIZE` bytes from the front of `buffer`
/// for as long as it holds more than one chunk, and leaves in it what was
/// not sealed. Returns the plaintext sealed so far.
pub(crate) fn seal_full_chunks<W: Sink>(
    cipher: Cipher,
    key: &[u8],
    buffer: &mut Vec<u8>,
    io: &mut W,
    Ghost(before): Ghost<Seq<u8>>,
    Ghost(done): Ghost<Seq<u8>>,
) -> (res: Result<Ghost<Seq<u8>>, StreamError>)
    requires
        key@.len() == KEY_SIZE,
        old(io).wf(),
        sealing_onto(cipher, key@, before)(done, old(io).accepted()),
        done.len() % (CHUNK_SIZE as nat) == 0,
    ensures
        old(buffer)@.len() <= CHUNK_SIZE ==> res is Ok,
        res matches Err(e) ==> e is Encryption || !old(io).reliable(),
        res matches Ok(now) ==> {
            &&& final(io).wf()
            &&& sealing_onto(cipher, key@, before)(now@, final(io).accepted())
            &&& now@.len() % (CHUNK_SIZE as nat) == 0
            &&& now@ + final(buffer)@ == done + old(buffer)@
            &&& final(buffer)@.len() <= CHUNK_SIZE
            &&& old(buffer)@.len() > 0 ==> final(buffer)@.len() > 0
            &&& final(io).reliable() == old(io).reliable()
            &&& final(io).encoding() == old(io).encoding()
            &&& final(io).signature() == old(io).signature()
        },
{
    let ghost mut now = done;
    let mut pos: usize = 0;
    assert(now + buffer@.skip(0) =~= done + buffer@);
    while buffer.len() - pos > CHUNK_SIZE
        invariant
            key@.len() == KEY_SIZE,
            pos <= buffer@.len(),
            buffer@ == old(buffer)@,
            io.wf(),
            sealing_onto(cipher, key@, before)(now, io.accepted()),
            now.len() % (CHUNK_SIZE as nat) == 0,
            now + buffer@.skip(pos as int) == done + old(buffer)@,
            old(buffer)@.len() > 0 ==> buffer@.len() - pos > 0,
            io.reliable() == old(io).reliable(),
            io.encoding() == old(io).encoding(),
            io.signature() == old(io).signature(),
        decreases buffer@.len() - pos,
    {
        let chunk = slice_subrange(buffer.as_slice(), pos, pos + CHUNK_SIZE);
        match seal_chunk(cipher, key, chunk, io, Ghost(before), Ghost(now)) {
            Ok(()) => {},
            Err(e) => {
                return Err(e);
            },
        }
        proof {
            assert(now + chunk@ + buffer@.skip(pos + CHUNK_SIZE) =~= now + buffer@.skip(pos as int));
            now = now + chunk@;
        }
        pos = pos + CHUNK_SIZE;
    }
    if pos > 0 {
        let rest = buffer.split_off(pos);
        assert(rest@ =~= old(buffer)@.skip(pos as int));
        *buffer = rest;
    } else {
        assert(buffer@.skip(0) =~= buffer@);
    }
    Ok(Ghost(now))
}

/// Seals and writes whatever `buffer` holds, in chunks of at most
/// `CHUNK_SIZE` bytes, then flushes `io`.
pub(crate) fn seal_rest<W: Sink>(
    cipher: Cipher,
    key: &[u8],
    buffer: Vec<u8>,
    io: &mut W,
    Ghost(before): Ghost<Seq<u8>>,
    Ghost(done): Ghost<Seq<u8>>,
) -> (res: Result<(), StreamError>)
    requires
        key@.len() == KEY_SIZE,
        old(io).wf(),
        sealing_onto(cipher, key@, before)(done, old(io).accepted()),
        done.len() % (CHUNK_SIZE as nat) == 0,
    ensures
        buffer@.len() == 0 && old(io).reliable() ==> res is Ok,
        res matches Err(e) ==> e is Encryption || !old(io).reliable(),
        res is Ok ==> {
            &&& final(io).wf()
            &&& final(io).flushed()
            &&& sealing_onto(cipher, key@, before)(done + buffer@, final(io).accepted())
            &&& final(io).reliable() == old(io).reliable()
            &&& final(io).encoding() == old(io).encoding()
            &&& final(io).signature() == old(io).signature()
        },
{
    let ghost mut now = done;
    let mut pos: usize = 0;
    assert(now + buffer@.skip(0) =~= done + buffer@);
    while pos < buffer.len()
        invariant
            key@.len() == KEY_SIZE,
            pos <= buffer@.len(),
            io.wf(),
            sealing_onto(cipher, key@, before)(now, io.accepted()),
            now.len() % (CHUNK_SIZE as nat) == 0 || pos == buffer@.len(),
            now + buffer@.skip(pos as int) == done + buffer@,
            io.reliable() == old(io).reliable(),
            io.encoding() == old(io).encoding(),
            io.signature() == old(io).signature(),
        decreases buffer@.len() - pos,
    {
        let n = if buffer.len() - pos <= CHUNK_SIZE {
            buffer.len() - pos
        } else {
            CHUNK_SIZE
        };
        let chunk = slice_subrange(buffer.as_slice(), pos, pos + n);
        match seal_chunk(cipher, key, chunk, io, Ghost(before), Ghost(now)) {
            Ok(()) => {},
            Err(e) => {
                return Err(e);
            },
        }
        proof {
            assert(now + chunk@ + buffer@.skip(pos + n) =~= now + buffer@.skip(pos as int));
            now = now + chunk@;
        }
        pos = pos + n;
    }
    assert(now =~= done + buffer@) by {
        assert(buffer@.skip(pos as int).len() == 0);
    }
    match io.flush() {
        Ok(()) => Ok(()),
        Err(e) => Err(e),
    }
}

/// Fills the empty `buffer` with the plaintext of the next chunk of `io` that
/// holds any. Leaves it empty where the wire has ended cleanly.
///
/// A chunk that the cipher rejects, or a piece too short for a nonce, gives
/// `StreamError::Decryption`, and nothing of it reaches the buffer. The
/// rejected piece has then been taken from `io`, which stands at the piece
/// behind it.
pub(crate) fn refill<R: Source>(cipher: Cipher, key: &[u8], buffer: &mut Vec<u8>, io: &mut R) -> (res: Result<
    (),
    StreamError,
>)
    requires
        key@.len() == KEY_SIZE,
        old(io).wf(),
        old(buffer)@.len() == 0,
    ensures
        match res {
            Ok(()) => {
                &&& final(io).wf()
                &&& final(io).fails() == old(io).fails()
                &&& final(buffer)@ + pending_plain(cipher, key@, final(io)).0 == pending_plain(
                    cipher,
                    key@,
                    old(io),
                ).0
                &&& pending_plain(cipher, key@, final(io)).1 == pending_plain(cipher, key@, old(io)).1
                &&& final(buffer)@.len() == 0 ==> pending_plain(cipher, key@, old(io)).0.len() == 0
                    && !pending_plain(cipher, key@, old(io)).1
                &&& final(buffer)@ == next_plain(cipher, key@, old(io).remaining(), old(io).fails())
                &&& final(io).remaining() == after_next(cipher, key@, old(io).remaining(), old(io).fails())
            },
            Err(e) => {
                &&& pending_plain(cipher, key@, old(io)).0.len() == 0
                &&& pending_plain(cipher, key@, old(io)).1
                &&& e is Decryption || old(io).fails()
                &&& !old(io).fails() ==> {
                    &&& final(io).wf()
                    &&& !final(io).fails()
                    &&& final(buffer)@.len() == 0
                    &&& final(io).remaining() == after_next(cipher, key@, old(io).remaining(), false)
                }
            },
        },
{
    assert(buffer@ + pending_plain(cipher, key@, io).0 =~= pending_plain(cipher, key@, old(io)).0);
    while buffer.len() == 0
        invariant
            key@.len() == KEY_SIZE,
            io.wf(),
            io.fails() == old(io).fails(),
            buffer@ + pending_plain(cipher, key@, io).0 == pending_plain(cipher, key@, old(io)).0,
            pending_plain(cipher, key@, io).1 == pending_plain(cipher, key@, old(io)).1,
            buffer@.len() == 0 ==> next_plain(cipher, key@, io.remaining(), io.fails()) == next_plain(
                cipher,
                key@,
                old(io).remaining(),
                old(io).fails(),
            ) && after_next(cipher, key@, io.remaining(), io.fails()) == after_next(
                cipher,
                key@,
                old(io).remaining(),
                old(io).fails(),
            ),
            buffer@.len() > 0 ==> buffer@ == next_plain(cipher, key@, old(io).remaining(), old(io).fails())
                && io.remaining() == after_next(cipher, key@, old(io).remaining(), old(io).fails()),
        ensures
            io.wf(),
            io.fails() == old(io).fails(),
            buffer@ + pending_plain(cipher, key@, io).0 == pending_plain(cipher, key@, old(io)).0,
            pending_plain(cipher, key@, io).1 == pending_plain(cipher, key@, old(io)).1,
            buffer@.len() == 0 ==> pending_plain(cipher, key@, old(io)).0.len() == 0
                && !pending_plain(cipher, key@, old(io)).1,
            buffer@ == next_plain(cipher, key@, old(io).remaining(), old(io).fails()),
            io.remaining() == after_next(cipher, key@, old(io).remaining(), old(io).fails()),
        decreases io.remaining().len(),
    {
        let ghost wire = io.remaining();
        let piece = match read_full(io, cipher.wire_chunk_size()) {
            Ok(piece) => piece,
            Err(e) => {
                assert(pending_plain(cipher, key@, old(io)).0 =~= Seq::<u8>::empty());
                return Err(e);
            },
        };
        if piece.len() == 0 {
            assert(pending_plain(cipher, key@, old(io)).0 =~= Seq::<u8>::empty());
            assert(io.remaining() =~= wire);
            break ;
        }
        assert(piece@ == wire.take(first_piece_len(cipher, wire.len()) as int));
        match open_piece(cipher, key, piece.as_slice()) {
            Some(plain) => {
                assert(plain@ + pending_plain(cipher, key@, io).0 =~= pending_plain(
                    cipher,
                    key@,
                    old(io),
                ).0);
                *buffer = plain;
            },
            None => {
                assert(pending_plain(cipher, key@, old(io)).0 =~= Seq::<u8>::empty());
                return Err(StreamError::Decryption);
            },
        }
    }
    Ok(())
}

/// Takes at most `max` bytes from the front of `buffer`.
pub(crate) fn take_front(buffer: &mut Vec<u8>, max: usize) -> (res: Vec<u8>)
    ensures
        res@.len() == if max <= old(buffer)@.len() {
            max as int
        } else {
            old(buffer)@.len() as int
        },
        res@ == old(buffer)@.take(res@.len() as int),
        final(buffer)@ == old(buffer)@.skip(res@.len() as int),
{
    let n = if max <= buffer.len() {
        max
    } else {
        buffer.len()
    };
    let mut rest = buffer.split_off(n);
    std::mem::swap(buffer, &mut rest);
    assert(rest@ =~= old(buffer)@.take(n as int));
    assert(buffer@ =~= old(buffer)@.skip(n as int));
    rest
}

} // verus!
