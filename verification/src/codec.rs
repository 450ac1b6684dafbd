//! The external codec behind the retry loop: libdeflater's `Decompressor`,
//! one trusted wrapper per decode method, and names for what each method
//! yields.

use vstd::prelude::*;

verus! {

/// What libdeflater's zlib decoder yields for a given input: the decompressed
/// payload where the input is a zlib-wrapped stream the decoder accepts,
/// `None` where it rejects the input. The decoder is deterministic, so the
/// result depends on the input bytes alone.
pub uninterp spec fn zlib_inflated(input: Seq<u8>) -> Option<Seq<u8>>;

/// What libdeflater's gzip decoder yields for a given input, as
/// `zlib_inflated` for the zlib decoder.
pub uninterp spec fn gzip_inflated(input: Seq<u8>) -> Option<Seq<u8>>;

/// The two container formats the codec is asked to unwrap.
#[derive(Clone, Copy)]
pub enum Container {
    Zlib,
    Gzip,
}

/// The payload that the decoder for container `c` yields for `input`.
pub open spec fn inflated(c: Container, input: Seq<u8>) -> Option<Seq<u8>> {
    match c {
        Container::Zlib => zlib_inflated(input),
        Container::Gzip => gzip_inflated(input),
    }
}

/// The outcome of one decompression attempt into a fixed-size buffer.
pub(crate) enum Attempt {
    /// The buffer held the whole payload; it fills the first `n` bytes.
    Filled(usize),
    /// The buffer was too small for the payload.
    SpaceTooSmall,
    /// The decoder rejected the stream; the diagnostic text says why.
    Rejected(String),
}

#[verifier::external_type_specification]
#[verifier::external_body]
pub struct ExDecompressor(libdeflater::Decompressor);

/// Relies on libdeflater's `Decompressor::new`: allocates a fresh decoder
/// context. Nothing is claimed of the context itself.
pub assume_specification[ libdeflater::Decompressor::new ]() -> (d: libdeflater::Decompressor);

/// Relies on libdeflater's `Decompressor::zlib_decompress`: on success it
/// writes the whole decompressed payload into the front of `out` and returns
/// the payload's length; it reports insufficient space only when the payload
/// (of a stream it would otherwise accept) does not fit in `out`; it rejects
/// a stream only when its zlib decoder does not accept it. The buffer keeps
/// its length either way.
#[verifier::external_body]
pub(crate) fn zlib_attempt(d: &mut libdeflater::Decompressor, input: &[u8], out: &mut Vec<u8>) -> (r: Attempt)
    ensures
        final(out)@.len() == old(out)@.len(),
        r matches Attempt::Filled(n) ==> {
            &&& n <= final(out)@.len()
            &&& zlib_inflated(input@) == Some(final(out)@.take(n as int))
        },
        r is SpaceTooSmall ==> (zlib_inflated(input@) matches Some(p) ==> p.len() > old(out)@.len()),
        r matches Attempt::Rejected(_) ==> zlib_inflated(input@) is None,
{
    match d.zlib_decompress(input, out.as_mut_slice()) {
        Ok(n) => Attempt::Filled(n),
        Err(libdeflater::DecompressionError::InsufficientSpace) => Attempt::SpaceTooSmall,
        Err(e) => Attempt::Rejected(format!("{:?}", e)),
    }
}

/// Relies on libdeflater's `Decompressor::gzip_decompress`, exactly as
/// `zlib_attempt` relies on `zlib_decompress`.
#[verifier::external_body]
pub(crate) fn gzip_attempt(d: &mut libdeflater::Decompressor, input: &[u8], out: &mut Vec<u8>) -> (r: Attempt)
    ensures
        final(out)@.len() == old(out)@.len(),
        r matches Attempt::Filled(n) ==> {
            &&& n <= final(out)@.len()
            &&& gzip_inflated(input@) == Some(final(out)@.take(n as int))
        },
        r is SpaceTooSmall ==> (gzip_inflated(input@) matches Some(p) ==> p.len() > old(out)@.len()),
        r matches Attempt::Rejected(_) ==> gzip_inflated(input@) is None,
{
    match d.gzip_decompress(input, out.as_mut_slice()) {
        Ok(n) => Attempt::Filled(n),
        Err(libdeflater::DecompressionError::InsufficientSpace) => Attempt::SpaceTooSmall,
        Err(e) => Attempt::Rejected(format!("{:?}", e)),
    }
}

} // verus!
