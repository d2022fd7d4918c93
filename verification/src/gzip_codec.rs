//! GZip-framed DEFLATE, as `flate2` writes and reads it.

use crate::error::{stage_result, ErrorKind, PipelineError};
use flate2::read::GzDecoder;
use flate2::write::GzEncoder;
use flate2::Compression;
use std::io::{Read, Write};
use vstd::prelude::*;

verus! {

/// The GZip stream of `bytes`: what `GzEncoder` writes for them at the default
/// level, `None` where it reports a failure.
pub uninterp spec fn gzip_stream(bytes: Seq<u8>) -> Option<Seq<u8>>;

/// The bytes that `stream` holds: what `GzDecoder` reads out of it, `None`
/// where it reports a failure.
pub uninterp spec fn gzip_payload(stream: Seq<u8>) -> Option<Seq<u8>>;

/// Whether `stream` has the frame of a GZip container: ten bytes of header, of
/// which the first two identify the format and the third names DEFLATE, and
/// room behind them for the eight bytes of checksum and length.
pub open spec fn has_frame(stream: Seq<u8>) -> bool {
    &&& stream.len() >= 18
    &&& stream[0] == 0x1f
    &&& stream[1] == 0x8b
    &&& stream[2] == 8
}

/// Whether `stream` is refused when it is cut short anywhere.
pub open spec fn needs_every_byte(stream: Seq<u8>) -> bool {
    forall|n: int| 0 <= n < stream.len() ==> gzip_payload(#[trigger] stream.take(n)) is None
}

/// Runs `flate2::write::GzEncoder` over a `Vec` at `Compression::default()`:
/// `new`, `write_all`, `finish`. Claimed of it: the outcome is a function of
/// the bytes alone (the header holds no time and no system); a stream that it
/// returns has the GZip frame and decompresses to the bytes; and no shorter
/// beginning of it decompresses, since the decoder reads on to the end of the
/// last DEFLATE block and then asks for all eight bytes behind it. A failure
/// comes back as its message.
#[verifier::external_body]
fn gz_compress(data: &[u8]) -> (r: Result<Vec<u8>, String>)
    ensures
        r matches Ok(stream) ==> gzip_stream(data@) == Some(stream@),
        r matches Ok(stream) ==> has_frame(stream@),
        r matches Ok(stream) ==> gzip_payload(stream@) == Some(data@),
        r matches Ok(stream) ==> needs_every_byte(stream@),
        r is Err ==> gzip_stream(data@) is None,
{
    let mut encoder = GzEncoder::new(Vec::new(), Compression::default());
    match encoder.write_all(data) {
        Ok(()) => encoder.finish().map_err(|e| e.to_string()),
        Err(e) => Err(e.to_string()),
    }
}

/// Runs `flate2::read::GzDecoder` over the stream with `read_to_end`, into a
/// buffer that grows as needed. Claimed of it: the outcome is a function of the
/// stream alone, and a stream is refused that does not begin with the GZip
/// header or is too short to hold header, checksum and length. A failure comes
/// back as its message.
#[verifier::external_body]
fn gz_decompress(stream: &[u8]) -> (r: Result<Vec<u8>, String>)
    ensures
        r matches Ok(bytes) ==> gzip_payload(stream@) == Some(bytes@),
        r is Ok ==> has_frame(stream@),
        r is Err ==> gzip_payload(stream@) is None,
{
    let mut bytes = Vec::new();
    match GzDecoder::new(stream).read_to_end(&mut bytes) {
        Ok(_) => Ok(bytes),
        Err(e) => Err(e.to_string()),
    }
}

/// Wraps `data` in a GZip container at the default compression level.
///
/// A stream that comes back has the GZip frame and decompresses to `data`,
/// and no shorter beginning of it decompresses at all. A failure underneath
/// the compressor is reported as `IoFailure`.
pub fn compress(data: &[u8]) -> (r: Result<Vec<u8>, PipelineError>)
    ensures
        match r {
            Ok(stream) => {
                &&& gzip_stream(data@) == Some(stream@)
                &&& has_frame(stream@)
                &&& gzip_payload(stream@) == Some(data@)
                &&& needs_every_byte(stream@)
            },
            Err(e) => gzip_stream(data@) is None && e.kind == ErrorKind::IoFailure,
        },
{
    stage_result(gz_compress(data), ErrorKind::IoFailure)
}

/// Unwraps a GZip container, or fails with `CorruptStream`.
///
/// A stream without the GZip frame is never accepted.
pub fn decompress(stream: &[u8]) -> (r: Result<Vec<u8>, PipelineError>)
    ensures
        match r {
            Ok(bytes) => gzip_payload(stream@) == Some(bytes@),
            Err(e) => gzip_payload(stream@) is None && e.kind == ErrorKind::CorruptStream,
        },
        !has_frame(stream@) ==> r is Err,
{
    stage_result(gz_decompress(stream), ErrorKind::CorruptStream)
}

} // verus!
