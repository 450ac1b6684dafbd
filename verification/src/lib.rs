//! Adaptive decompression of zlib- and gzip-wrapped DEFLATE streams.
//!
//! The decompressed size of a stream is not known ahead of time, so each
//! entry point guesses an output capacity, retries with a doubled capacity
//! whenever the codec reports insufficient space, and gives up once the
//! capacity would exceed a hard ceiling of 256 MiB. A combined entry point
//! picks the container format from the two leading magic bytes.

use vstd::prelude::*;

pub mod capacity;
pub mod codec;

use crate::capacity::{
    grown_capacity, initial_capacity, last_capacity, lemma_initial_capacity_in_range,
    lemma_last_capacity_grows, lemma_last_capacity_past_half, lemma_last_capacity_within_ceiling,
    OUTPUT_CEILING,
};
use crate::codec::{gzip_attempt, inflated, zlib_attempt, Attempt, Container};

verus! {

/// Why a call failed.
#[derive(Debug)]
pub enum InflateError {
    /// The auto-detecting entry point got fewer than two input bytes, too
    /// few to sniff the container format.
    InputTooShort,
    /// The decompressed data could not be bounded within the 256 MiB
    /// ceiling: every capacity of the doubling schedule was too small.
    OutputTooLarge,
    /// The codec rejected the stream as malformed; the text is the codec's
    /// own diagnostic.
    DecodeFailed(String),
}

/// What a finished decompression call guarantees, for the container `c`:
/// success returns exactly the payload the codec yields for `input`, and
/// each failure names its cause. `DecodeFailed` comes only from a stream
/// the codec rejects; `OutputTooLarge` only when no capacity the schedule
/// offers holds the payload; `InputTooShort` never comes from here.
pub open spec fn decode_post(c: Container, input: Seq<u8>, r: Result<Vec<u8>, InflateError>) -> bool {
    match r {
        Ok(v) => inflated(c, input) == Some(v@) && v@.len() <= grown_capacity(input.len()),
        Err(e) => match e {
            InflateError::DecodeFailed(_) => inflated(c, input) is None,
            InflateError::OutputTooLarge => (inflated(c, input) matches Some(p) ==> p.len()
                > grown_capacity(input.len())),
            InflateError::InputTooShort => false,
        },
    }
}

/// The first two bytes of `s` are the gzip magic numbers.
pub open spec fn gzip_magic(s: Seq<u8>) -> bool {
    s.len() >= 2 && s[0] == 0x1f && s[1] == 0x8b
}

/// The container an input of at least two bytes is taken to use: gzip on
/// the gzip magic bytes, zlib on anything else.
pub open spec fn detected_container(s: Seq<u8>) -> Container {
    if gzip_magic(s) {
        Container::Gzip
    } else {
        Container::Zlib
    }
}

/// The first capacity tried for an input of `n` bytes.
fn pick_initial_capacity(n: usize) -> (c: usize)
    ensures
        c == initial_capacity(n as nat),
{
    if n > OUTPUT_CEILING / 4 {
        OUTPUT_CEILING
    } else if n == 0 {
        1
    } else {
        n * 4
    }
}

/// The retry loop shared by both containers: try the current capacity,
/// double it on an insufficient-space report, and stop at the ceiling.
fn inflate_with(c: Container, input: &[u8]) -> (r: Result<Vec<u8>, InflateError>)
    ensures
        decode_post(c, input@, r),
{
    let mut decoder = libdeflater::Decompressor::new();
    let mut cap: usize = pick_initial_capacity(input.len());
    proof {
        lemma_initial_capacity_in_range(input@.len());
    }
    loop
        invariant
            1 <= cap <= OUTPUT_CEILING,
            last_capacity(cap as nat) == grown_capacity(input@.len()),
        decreases OUTPUT_CEILING - cap,
    {
        let mut out: Vec<u8> = vec![0u8; cap];
        let attempt = match c {
            Container::Zlib => zlib_attempt(&mut decoder, input, &mut out),
            Container::Gzip => gzip_attempt(&mut decoder, input, &mut out),
        };
        match attempt {
            Attempt::Filled(n) => {
                out.truncate(n);
                proof {
                    lemma_last_capacity_grows(cap as nat);
                }
                return Ok(out);
            },
            Attempt::SpaceTooSmall => {
                if cap > OUTPUT_CEILING / 2 {
                    return Err(InflateError::OutputTooLarge);
                }
                cap = cap * 2;
            },
            Attempt::Rejected(diagnostic) => {
                return Err(InflateError::DecodeFailed(diagnostic));
            },
        }
    }
}

/// Decompress a zlib-wrapped DEFLATE stream.
pub fn inflate_zlib(input: &[u8]) -> (r: Result<Vec<u8>, InflateError>)
    ensures
        decode_post(Container::Zlib, input@, r),
{
    inflate_with(Container::Zlib, input)
}

/// Decompress a gzip-wrapped DEFLATE stream.
pub fn inflate_gzip(input: &[u8]) -> (r: Result<Vec<u8>, InflateError>)
    ensures
        decode_post(Container::Gzip, input@, r),
{
    inflate_with(Container::Gzip, input)
}

/// Decompress a stream whose container is sniffed from its first two
/// bytes: the gzip magic numbers pick the gzip decoder, anything else is
/// handed to the zlib decoder. Inputs of fewer than two bytes are rejected
/// outright.
pub fn inflate(input: &[u8]) -> (r: Result<Vec<u8>, InflateError>)
    ensures
        (r matches Err(InflateError::InputTooShort)) <==> input@.len() < 2,
        input@.len() >= 2 ==> decode_post(detected_container(input@), input@, r),
{
    if input.len() < 2 {
        return Err(InflateError::InputTooShort);
    }
    if input[0] == 0x1f && input[1] == 0x8b {
        inflate_gzip(input)
    } else {
        inflate_zlib(input)
    }
}

/// Auto-detection agrees with the dedicated entry points: on an input that
/// carries the gzip magic bytes the combined entry point is specified
/// exactly as the gzip one, and on any other input of at least two bytes
/// exactly as the zlib one.
pub proof fn lemma_detection_agrees(input: Seq<u8>, r: Result<Vec<u8>, InflateError>)
    requires
        input.len() >= 2,
    ensures
        gzip_magic(input) ==> decode_post(detected_container(input), input, r) == decode_post(
            Container::Gzip,
            input,
            r,
        ),
        !gzip_magic(input) ==> decode_post(detected_container(input), input, r) == decode_post(
            Container::Zlib,
            input,
            r,
        ),
{
}

/// Growth reaches every payload the schedule can hold: where the codec
/// accepts the stream and the payload fits some capacity the schedule
/// offers, the call succeeds and returns exactly that payload — even when
/// the payload is far larger than the initial four-times-input guess.
pub proof fn lemma_fitting_payload_is_returned(
    c: Container,
    input: Seq<u8>,
    r: Result<Vec<u8>, InflateError>,
)
    requires
        decode_post(c, input, r),
        inflated(c, input) is Some,
        inflated(c, input).unwrap().len() <= grown_capacity(input.len()),
    ensures
        r is Ok,
        inflated(c, input) == Some(r->Ok_0@),
{
}

/// A payload of at most half the ceiling is always returned: the schedule
/// stops doubling only once the next capacity would overshoot the ceiling,
/// so the last capacity it offers is above 128 MiB.
pub proof fn lemma_half_ceiling_always_fits(
    c: Container,
    input: Seq<u8>,
    r: Result<Vec<u8>, InflateError>,
)
    requires
        decode_post(c, input, r),
        inflated(c, input) is Some,
        2 * inflated(c, input).unwrap().len() <= OUTPUT_CEILING,
    ensures
        r is Ok,
        inflated(c, input) == Some(r->Ok_0@),
{
    lemma_initial_capacity_in_range(input.len());
    lemma_last_capacity_past_half(initial_capacity(input.len()));
    lemma_fitting_payload_is_returned(c, input, r);
}

/// The ceiling is enforced: a stream whose payload exceeds 256 MiB is
/// reported as too large, never returned and never misreported — the
/// schedule offers no capacity above the ceiling, so such a payload fits
/// none of them.
pub proof fn lemma_ceiling_enforced(c: Container, input: Seq<u8>, r: Result<Vec<u8>, InflateError>)
    requires
        decode_post(c, input, r),
        inflated(c, input) is Some,
        inflated(c, input).unwrap().len() > OUTPUT_CEILING,
    ensures
        r matches Err(InflateError::OutputTooLarge),
{
    lemma_initial_capacity_in_range(input.len());
    lemma_last_capacity_within_ceiling(initial_capacity(input.len()));
}

} // verus!
