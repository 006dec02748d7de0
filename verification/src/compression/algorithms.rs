//! The LZ4 layers as constructors that can be bound to those of the other
//! layers.
use crate::compression::codec::{packed_onto, packing_finishes, unpacked, Codec};
use crate::compression::lz4::{Lz4Compressor, Lz4Deompressor};
use crate::encryption::{DecryptionModule, EncryptionModule};
use crate::error::StreamError;
use crate::stream::{Sink, Source};
use vstd::prelude::*;

verus! {

/// Puts an LZ4 compressor on the layer beneath; a failure to make that
/// layer is passed on.
pub fn lz4_encoder<T: EncryptionModule>(input: Result<T, StreamError>) -> (res: Result<Lz4Compressor<T>, StreamError>)
    requires
        input matches Ok(writer) ==> writer.wf(),
    ensures
        match input {
            Err(e) => res == Err::<Lz4Compressor<T>, StreamError>(e),
            Ok(writer) => res matches Ok(comp) && comp.wf() && comp.accepted() == Seq::<u8>::empty()
                && comp.reliable() && comp.finishes() == packing_finishes(
                Codec::Lz4,
                writer.reliable(),
                writer.finishes(),
                writer.accepted(),
            ) && comp.codec() == Codec::Lz4 && comp.encoding() == packed_onto(
                Codec::Lz4,
                writer.encoding(),
                writer.accepted(),
            ),
        },
{
    match input {
        Err(e) => Err(e),
        Ok(writer) => Ok(Lz4Compressor::new(writer)),
    }
}

/// Puts an LZ4 decompressor on the layer beneath; a failure to make that
/// layer is passed on.
pub fn lz4_decoder<T: DecryptionModule>(input: Result<T, StreamError>) -> (res: Result<Lz4Deompressor<T>, StreamError>)
    requires
        input matches Ok(reader) ==> reader.wf(),
    ensures
        match input {
            Err(e) => res == Err::<Lz4Deompressor<T>, StreamError>(e),
            Ok(reader) => res matches Ok(dec) && dec.wf() && (dec.remaining(), dec.fails()) == unpacked(
                Codec::Lz4,
                reader.remaining(),
                reader.fails(),
            ),
        },
{
    match input {
        Err(e) => Err(e),
        Ok(reader) => Ok(Lz4Deompressor::new(reader)),
    }
}

} // verus!
