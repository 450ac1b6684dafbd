use adaptive_inflate::{inflate, inflate_gzip, inflate_zlib, InflateError};
use libdeflater::{CompressionLvl, Compressor};

fn zlib_pack(data: &[u8]) -> Vec<u8> {
    let mut compressor = Compressor::new(CompressionLvl::new(1).unwrap());
    let mut out = vec![0u8; compressor.zlib_compress_bound(data.len())];
    let n = compressor.zlib_compress(data, &mut out).unwrap();
    out.truncate(n);
    out
}

fn gzip_pack(data: &[u8]) -> Vec<u8> {
    let mut compressor = Compressor::new(CompressionLvl::new(1).unwrap());
    let mut out = vec![0u8; compressor.gzip_compress_bound(data.len())];
    let n = compressor.gzip_compress(data, &mut out).unwrap();
    out.truncate(n);
    out
}

#[test]
fn round_trip_zlib() {
    let data = b"a moderately sized line of text, repeated a few times to give \
                 the encoder something to chew on; repeated a few times.";
    let packed = zlib_pack(data);
    assert_ne!(packed, data.to_vec());
    assert_eq!(inflate_zlib(&packed).unwrap(), data.to_vec());
}

#[test]
fn round_trip_zlib_empty() {
    let packed = zlib_pack(&[]);
    let out = inflate_zlib(&packed).unwrap();
    assert_eq!(out, Vec::<u8>::new());
}

#[test]
fn round_trip_gzip() {
    let data = b"gzip wraps the same deflate payload in a different container";
    let packed = gzip_pack(data);
    assert_ne!(packed, data.to_vec());
    assert_eq!(inflate_gzip(&packed).unwrap(), data.to_vec());
}

#[test]
fn round_trip_gzip_empty() {
    let packed = gzip_pack(&[]);
    let out = inflate_gzip(&packed).unwrap();
    assert_eq!(out, Vec::<u8>::new());
}

#[test]
fn auto_detect_matches_gzip_entry_point() {
    let data = b"auto detection must pick the gzip decoder for gzip input";
    let packed = gzip_pack(data);
    assert_eq!(packed[0], 0x1f);
    assert_eq!(packed[1], 0x8b);
    assert_eq!(inflate(&packed).unwrap(), inflate_gzip(&packed).unwrap());
    assert_eq!(inflate(&packed).unwrap(), data.to_vec());
}

#[test]
fn auto_detect_matches_zlib_entry_point() {
    let data = b"auto detection must fall back to the zlib decoder otherwise";
    let packed = zlib_pack(data);
    assert!(packed[0] != 0x1f || packed[1] != 0x8b);
    assert_eq!(inflate(&packed).unwrap(), inflate_zlib(&packed).unwrap());
    assert_eq!(inflate(&packed).unwrap(), data.to_vec());
}

#[test]
fn short_input_is_rejected() {
    assert!(matches!(inflate(&[]), Err(InflateError::InputTooShort)));
    assert!(matches!(inflate(&[0x78]), Err(InflateError::InputTooShort)));
    assert!(matches!(inflate(&[0x1f]), Err(InflateError::InputTooShort)));
}

#[test]
fn two_garbage_bytes_fail_on_decode_grounds() {
    // Long enough to sniff: the failure must come from the decoder, not
    // from the length check.
    assert!(matches!(inflate(&[0x00, 0x00]), Err(InflateError::DecodeFailed(_))));
}

#[test]
fn growth_beyond_initial_guess() {
    // A run of zero bytes compresses to a stream so short that the true
    // inflated size exceeds the initial four-times-input capacity, so the
    // doubling retry has to run.
    let data = vec![0u8; 10_000];
    let packed = zlib_pack(&data);
    assert!(data.len() > 4 * packed.len());
    assert_eq!(inflate_zlib(&packed).unwrap(), data);

    let gz_packed = gzip_pack(&data);
    assert!(data.len() > 4 * gz_packed.len());
    assert_eq!(inflate_gzip(&gz_packed).unwrap(), data);
}

#[test]
fn ceiling_is_enforced() {
    // Just over 256 MiB of zeros: every capacity of the doubling schedule
    // is too small, so the call must fail instead of growing without bound.
    let data = vec![0u8; 270_000_000];
    let packed = zlib_pack(&data);
    assert!(matches!(inflate_zlib(&packed), Err(InflateError::OutputTooLarge)));
}

#[test]
fn flipped_byte_is_rejected() {
    let data = b"corruption anywhere in the stream must be reported";
    let mut packed = zlib_pack(data);
    // Flip a bit in the final checksum byte.
    let last = packed.len() - 1;
    packed[last] ^= 0x01;
    assert!(matches!(inflate_zlib(&packed), Err(InflateError::DecodeFailed(_))));

    let mut header_flipped = zlib_pack(data);
    header_flipped[0] ^= 0x01;
    assert!(matches!(inflate_zlib(&header_flipped), Err(InflateError::DecodeFailed(_))));
}

#[test]
fn truncated_stream_is_rejected() {
    let data = b"a truncated stream is not a shorter valid stream";
    let packed = zlib_pack(data);
    let truncated = &packed[..packed.len() - 3];
    assert!(matches!(inflate_zlib(truncated), Err(InflateError::DecodeFailed(_))));

    let gz_packed = gzip_pack(data);
    let gz_truncated = &gz_packed[..gz_packed.len() - 3];
    assert!(matches!(inflate_gzip(gz_truncated), Err(InflateError::DecodeFailed(_))));
}

#[test]
fn format_mismatch_is_rejected() {
    let data = b"each dedicated entry point accepts only its own container";
    let zlib_packed = zlib_pack(data);
    let gzip_packed = gzip_pack(data);
    assert!(matches!(inflate_gzip(&zlib_packed), Err(InflateError::DecodeFailed(_))));
    assert!(matches!(inflate_zlib(&gzip_packed), Err(InflateError::DecodeFailed(_))));
}

#[test]
fn empty_payload_gzip_auto_detects_to_empty() {
    // A valid empty-payload gzip stream starts with the 0x1f 0x8b magic
    // bytes, so the combined entry point must hand it to the gzip decoder
    // and return an empty buffer.
    let packed = gzip_pack(&[]);
    assert_eq!(packed[0], 0x1f);
    assert_eq!(packed[1], 0x8b);
    assert_eq!(inflate(&packed).unwrap(), Vec::<u8>::new());
}
