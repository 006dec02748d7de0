//! Counting a nonce up.
//!
//! The encryptors of this library draw every nonce at random. A nonce that
//! is counted up from the one before it is the scheme for a single stream
//! sealed under a key of its own; it is offered here for such uses.
use vstd::arithmetic::div_mod::{lemma_small_mod, lemma_truncate_middle};
use vstd::prelude::*;

verus! {

/// The number that `bytes` spell, least significant byte first.
pub open spec fn le_value(bytes: Seq<u8>) -> nat
    decreases bytes.len(),
{
    if bytes.len() == 0 {
        0
    } else {
        bytes[0] as nat + 256 * le_value(bytes.skip(1))
    }
}

/// The count of numbers that `len` bytes can spell: 256 to the power `len`.
pub open spec fn le_limit(len: nat) -> nat
    decreases len,
{
    if len == 0 {
        1
    } else {
        256 * le_limit((len - 1) as nat)
    }
}

/// `bytes` with one added to the number they spell, least significant byte
/// first; the carry that leaves the last byte is dropped.
pub open spec fn incremented(bytes: Seq<u8>) -> Seq<u8>
    decreases bytes.len(),
{
    if bytes.len() == 0 {
        bytes
    } else if bytes[0] == 255 {
        seq![0u8] + incremented(bytes.skip(1))
    } else {
        seq![(bytes[0] + 1) as u8] + bytes.skip(1)
    }
}

/// Bytes spell a number below the limit of their length.
pub proof fn lemma_le_value_bound(bytes: Seq<u8>)
    ensures
        le_value(bytes) < le_limit(bytes.len()),
    decreases bytes.len(),
{
    if bytes.len() != 0 {
        lemma_le_value_bound(bytes.skip(1));
    }
}

/// Counting up adds one to the number spelt, and wraps to zero from the
/// largest number that the bytes can spell.
pub proof fn lemma_incremented_value(bytes: Seq<u8>)
    ensures
        incremented(bytes).len() == bytes.len(),
        le_value(incremented(bytes)) == (le_value(bytes) + 1) % le_limit(bytes.len()),
    decreases bytes.len(),
{
    if bytes.len() == 0 {
    } else {
        let rest = bytes.skip(1);
        let limit = le_limit(rest.len());
        lemma_le_value_bound(rest);
        lemma_le_value_bound(bytes);
        if bytes[0] == 255 {
            lemma_incremented_value(rest);
            let up = seq![0u8] + incremented(rest);
            assert(up.skip(1) =~= incremented(rest));
            lemma_truncate_middle((le_value(rest) + 1) as int, 256, limit as int);
            assert(le_value(bytes) + 1 == 256 * (le_value(rest) + 1));
        } else {
            let up = seq![(bytes[0] + 1) as u8] + rest;
            assert(up.skip(1) =~= rest);
            assert(le_value(up) == le_value(bytes) + 1);
            assert(le_value(bytes) + 1 < le_limit(bytes.len()));
            lemma_small_mod(le_value(up), le_limit(bytes.len()));
        }
    }
}

/// The nonce that follows `nonce`: the same bytes with one added to the
/// number they spell, least significant byte first. After the largest
/// number comes zero.
pub fn increment_nonce(nonce: Vec<u8>) -> (res: Vec<u8>)
    ensures
        res@ == incremented(nonce@),
        res@.len() == nonce@.len(),
        le_value(res@) == (le_value(nonce@) + 1) % le_limit(nonce@.len()),
{
    let mut new_nonce = nonce;
    let ghost old_nonce = new_nonce@;
    let mut i: usize = 0;
    proof {
        lemma_incremented_value(old_nonce);
        assert(old_nonce.take(0) + incremented(old_nonce.skip(0)) =~= incremented(old_nonce)) by {
            assert(old_nonce.skip(0) =~= old_nonce);
        }
    }
    while i < new_nonce.len()
        invariant_except_break
            i <= new_nonce@.len(),
            new_nonce@.len() == old_nonce.len(),
            forall|j: int| i <= j < new_nonce@.len() ==> new_nonce@[j] == old_nonce[j],
            new_nonce@.take(i as int) + incremented(old_nonce.skip(i as int)) == incremented(old_nonce),
        ensures
            new_nonce@.len() == old_nonce.len(),
            new_nonce@ == incremented(old_nonce) || (i == new_nonce@.len() && new_nonce@.take(i as int)
                + incremented(old_nonce.skip(i as int)) == incremented(old_nonce)),
        decreases new_nonce@.len() - i,
    {
        let byte = new_nonce[i];
        let ghost before = new_nonce@;
        let ghost tail = old_nonce.skip(i as int);
        assert(tail[0] == byte);
        if byte == 255 {
            new_nonce[i] = 0;
            proof {
                assert(tail.skip(1) =~= old_nonce.skip(i + 1));
                assert(new_nonce@.take(i + 1) =~= before.take(i as int) + seq![0u8]);
                assert(new_nonce@.take(i + 1) + incremented(old_nonce.skip(i + 1)) =~= before.take(i as int) + (
                seq![0u8] + incremented(tail.skip(1))));
            }
            i = i + 1;
        } else {
            new_nonce[i] = byte + 1;
            proof {
                assert(new_nonce@ =~= before.take(i as int) + (seq![(byte + 1) as u8] + tail.skip(1)));
            }
            break ;
        }
    }
    proof {
        if new_nonce@ != incremented(old_nonce) {
            assert(old_nonce.skip(i as int).len() == 0);
            assert(new_nonce@.take(i as int) =~= new_nonce@);
            assert(new_nonce@ + incremented(old_nonce.skip(i as int)) =~= new_nonce@);
        }
    }
    new_nonce
}

} // verus!
