//! Gzip compression of upload payloads.

use vstd::prelude::*;
use std::io::Write;

verus! {

#[verifier::external_type_specification]
#[verifier::external_body]
pub struct ExIoError(std::io::Error);

/// Payloads of at least this many bytes are worth compressing.
pub const COMPRESS_MIN_BYTES: usize = 1024;

/// The gzip stream that flate2's `GzEncoder`, at the default level and with its default
/// header, writes for `data`.
pub uninterp spec fn gzip_stream(data: Seq<u8>) -> Seq<u8>;

/// The ten header bytes that flate2 writes at the default level: magic, deflate, no
/// flags, no modification time, no extra flags, unknown operating system.
pub open spec fn gzip_default_header() -> Seq<u8> {
    seq![0x1fu8, 0x8bu8, 0x08u8, 0u8, 0u8, 0u8, 0u8, 0u8, 0u8, 0xffu8]
}

/// Compressing failed inside the encoder.
#[derive(Debug)]
pub struct CompressError {
    pub error: std::io::Error,
}

/// flate2's `GzEncoder::new` over a `Vec`, `write_all` of `data` and `finish`.
/// It succeeds: writing into a `Vec` never fails or stops short, and the default
/// (miniz_oxide) deflate backend reports an error only for bad parameters or a failing
/// output callback, neither of which a fresh encoder at the default level meets. The
/// bytes are the gzip stream of `data`, which starts with flate2's default header.
#[verifier::external_body]
fn gzip_encode(data: &[u8]) -> (r: Result<Vec<u8>, std::io::Error>)
    ensures
        r is Ok,
        r matches Ok(v) ==> v@ == gzip_stream(data@) && v@.len() >= 10 && v@.subrange(0, 10)
            == gzip_default_header(),
{
    let mut encoder = flate2::write::GzEncoder::new(Vec::new(), flate2::Compression::default());
    encoder.write_all(data)?;
    encoder.finish()
}

/// Compress HTTP payloads before uploading batches of logs.
///
/// Sender can attach the returned bytes with:
/// Content-Encoding: gzip
pub fn gzip_compress(data: &[u8]) -> (r: Result<Vec<u8>, CompressError>)
    ensures
        r is Ok,
        r matches Ok(v) ==> v@ == gzip_stream(data@) && v@.subrange(0, 10)
            == gzip_default_header(),
{
    match gzip_encode(data) {
        Ok(v) => Ok(v),
        Err(error) => Err(CompressError { error }),
    }
}

/// Whether a payload of `size` bytes should be compressed.
pub fn should_compress(size: usize) -> (b: bool)
    ensures
        b == (size >= 1024),
{
    size >= COMPRESS_MIN_BYTES
}

} // verus!
