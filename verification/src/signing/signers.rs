//! The passthrough signing layers as constructors that can be bound to
//! those of the other layers.
use crate::compression::{Compress, Decompress};
use crate::error::StreamError;
use crate::signing::passthrough::{no_signature, SignerPassthrough, VerifierPassthrough};
use crate::stream::{handed_on, passed_on, Sink, Source};
use vstd::prelude::*;

verus! {

/// Puts a signer that signs nothing on the layer beneath; a failure to
/// make that layer is passed on.
pub fn signer_passthrough<T: Compress>(input: Result<T, StreamError>) -> (res: Result<SignerPassthrough<T>, StreamError>)
    requires
        input matches Ok(writer) ==> writer.wf(),
    ensures
        match input {
            Err(e) => res == Err::<SignerPassthrough<T>, StreamError>(e),
            Ok(writer) => res matches Ok(signer) && signer.wf() && signer.accepted() == Seq::<u8>::empty()
                && signer.reliable() == writer.reliable() && signer.finishes() == handed_on(
                writer.finishes(),
                writer.accepted(),
            ) && signer.encoding() == passed_on(
                writer.encoding(),
                writer.accepted(),
            ) && signer.signature() == no_signature(),
        },
{
    match input {
        Err(e) => Err(e),
        Ok(input) => Ok(SignerPassthrough::new(input)),
    }
}

/// Puts a verifier that verifies nothing on the layer beneath; a failure
/// to make that layer is passed on.
pub fn verifier_passthrough<T: Decompress>(input: Result<T, StreamError>) -> (res: Result<
    VerifierPassthrough<T>,
    StreamError,
>)
    requires
        input matches Ok(reader) ==> reader.wf(),
    ensures
        match input {
            Err(e) => res == Err::<VerifierPassthrough<T>, StreamError>(e),
            Ok(reader) => res matches Ok(made) && made.wf() && made.remaining() == reader.remaining() && made.fails()
                == reader.fails() && made.judgement() is None,
        },
{
    match input {
        Err(e) => Err(e),
        Ok(input) => Ok(VerifierPassthrough::new(input)),
    }
}

} // verus!
