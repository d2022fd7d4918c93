//! The two directions of the transcoding, composed of the stages.
//!
//! Reading a save file: unmask, drop the trailing zero bytes, decode Base64,
//! decompress, lay out as XML. Writing one: lay out as XML, compress, encode
//! as Base64, mask. A stage that fails ends the run; nothing partial comes
//! back.

use crate::base64_codec;
use crate::base64_codec::{base64_bytes, base64_text, encoded_len, well_framed};
use crate::error::{fails_with, ErrorKind, PipelineError};
use crate::gzip_codec;
use crate::gzip_codec::{gzip_payload, gzip_stream, has_frame};
use crate::padding;
use crate::padding::{is_trimmed, trimmed};
use crate::xml_format;
use crate::xml_format::{layout_spec, xml_canonical};
use crate::xor;
use crate::xor::{masked, XOR_KEY};
use vstd::prelude::*;
use vstd::utf8::encode_utf8;

verus! {

/// The Base64 text inside the save file `raw`: unmasked, trailing zeros gone.
pub open spec fn unmasked_text(raw: Seq<u8>) -> Seq<u8> {
    trimmed(masked(raw, XOR_KEY))
}

/// What `unpack` owes for the save file `raw`: the document inside it, or the
/// stage that refuses it.
pub open spec fn unpack_spec(raw: Seq<u8>) -> Result<Seq<u8>, ErrorKind> {
    match base64_bytes(unmasked_text(raw)) {
        None => Err(ErrorKind::InvalidEncoding),
        Some(stream) => match gzip_payload(stream) {
            None => Err(ErrorKind::CorruptStream),
            Some(document) => Ok(document),
        },
    }
}

/// What `decode` owes for the save file `raw`: the canonical text of the
/// document inside it, or the stage that refuses it.
pub open spec fn decode_spec(raw: Seq<u8>) -> Result<Seq<char>, ErrorKind> {
    match unpack_spec(raw) {
        Err(kind) => Err(kind),
        Ok(document) => layout_spec(document),
    }
}

/// What `pack` owes for `document`: its save file, or the stage that fails.
pub open spec fn pack_spec(document: Seq<u8>) -> Result<Seq<u8>, ErrorKind> {
    match gzip_stream(document) {
        None => Err(ErrorKind::IoFailure),
        Some(stream) => if encoded_len(stream.len()) <= usize::MAX {
            Ok(masked(base64_text(stream), XOR_KEY))
        } else {
            Err(ErrorKind::InvalidEncoding)
        },
    }
}

/// What `encode` owes for the XML document `xml`: the save file of its
/// canonical text, or the stage that fails.
pub open spec fn encode_spec(xml: Seq<u8>) -> Result<Seq<u8>, ErrorKind> {
    match xml_canonical(xml) {
        None => Err(ErrorKind::MalformedXml),
        Some(text) => pack_spec(encode_utf8(text)),
    }
}

/// What decoding gives for a save file that was encoded from the document
/// `xml`: the canonical layout of the canonical text of `xml`.
pub open spec fn round_trip_spec(xml: Seq<u8>) -> Result<Seq<char>, ErrorKind> {
    match xml_canonical(xml) {
        None => Err(ErrorKind::MalformedXml),
        Some(text) => layout_spec(encode_utf8(text)),
    }
}

/// Whether the exec result `r` is the outcome `spec`: the same bytes, or a
/// failure of the same stage.
pub open spec fn bytes_outcome(
    r: Result<Vec<u8>, PipelineError>,
    spec: Result<Seq<u8>, ErrorKind>,
) -> bool {
    match r {
        Ok(bytes) => spec == Ok::<Seq<u8>, ErrorKind>(bytes@),
        Err(e) => spec == Err::<Seq<u8>, ErrorKind>(e.kind),
    }
}

/// Whether the exec result `r` is the outcome `spec`: the same text, or a
/// failure of the same stage.
pub open spec fn text_outcome(
    r: Result<String, PipelineError>,
    spec: Result<Seq<char>, ErrorKind>,
) -> bool {
    match r {
        Ok(text) => spec == Ok::<Seq<char>, ErrorKind>(text@),
        Err(e) => spec == Err::<Seq<char>, ErrorKind>(e.kind),
    }
}

/// Whether the text inside the save file `raw` is seen not to be Base64: it
/// holds a byte outside the alphabet, its length is no multiple of four, or it
/// has a padding sign anywhere but at its end.
pub open spec fn is_not_base64(raw: Seq<u8>) -> bool {
    !well_framed(unmasked_text(raw))
}

/// Whether the text inside the save file `raw` is Base64 and stands for bytes
/// that are seen not to be a GZip stream: they do not begin with its header,
/// or are too short for its frame.
pub open spec fn is_not_gzip(raw: Seq<u8>) -> bool {
    match base64_bytes(unmasked_text(raw)) {
        None => false,
        Some(stream) => !has_frame(stream),
    }
}

/// The bytes of the canonical text of the document `xml`, which are what
/// `encode` packs.
pub open spec fn canonical_bytes(xml: Seq<u8>) -> Result<Seq<u8>, ErrorKind> {
    match xml_canonical(xml) {
        None => Err(ErrorKind::MalformedXml),
        Some(text) => Ok(encode_utf8(text)),
    }
}

/// Base64 text survives masking, unmasking and trimming unchanged: it holds no
/// zero byte, so the trim finds nothing to remove.
pub proof fn lemma_text_survives_mask(text: Seq<u8>)
    requires
        base64_codec::all_symbols(text),
    ensures
        unmasked_text(masked(text, XOR_KEY)) == text,
{
    xor::lemma_mask_self_inverse(text, XOR_KEY);
    if text.len() > 0 {
        assert(base64_codec::is_symbol(text[text.len() - 1]));
    }
    assert(is_trimmed(text));
    padding::lemma_trim_noop(text);
}

/// A save file with any number of masked zero bytes behind it, which are bytes
/// equal to `XOR_KEY`, holds the same text, and so decodes to the same.
pub proof fn lemma_decode_ignores_padding(raw: Seq<u8>, n: nat)
    ensures
        unmasked_text(raw + Seq::new(n, |i: int| XOR_KEY)) == unmasked_text(raw),
        unpack_spec(raw + Seq::new(n, |i: int| XOR_KEY)) == unpack_spec(raw),
        decode_spec(raw + Seq::new(n, |i: int| XOR_KEY)) == decode_spec(raw),
{
    let padding = Seq::new(n, |i: int| XOR_KEY);
    xor::lemma_mask_concat(raw, padding, XOR_KEY);
    xor::lemma_mask_of_key_run(n, XOR_KEY);
    padding::lemma_trim_ignores_padding(masked(raw, XOR_KEY), n);
}

/// Recovers the document inside the save file `raw`: unmasks it with
/// `XOR_KEY`, drops the trailing zero bytes, decodes the Base64 text and
/// decompresses the GZip stream.
///
/// Text that is seen not to be Base64 fails with `InvalidEncoding`; text that
/// stands for bytes without the GZip frame, with `CorruptStream`.
pub fn unpack(raw: &[u8]) -> (r: Result<Vec<u8>, PipelineError>)
    ensures
        bytes_outcome(r, unpack_spec(raw@)),
        is_not_base64(raw@) ==> fails_with(r, ErrorKind::InvalidEncoding),
        is_not_gzip(raw@) ==> fails_with(r, ErrorKind::CorruptStream),
{
    let mut text = xor::mask(raw, XOR_KEY);
    padding::trim(&mut text);
    let stream = base64_codec::decode(text.as_slice())?;
    gzip_codec::decompress(stream.as_slice())
}

/// Turns the save file `raw` into readable XML: `unpack`, then the canonical
/// layout of the document. The failures of `unpack` are failures here.
pub fn decode(raw: &[u8]) -> (r: Result<String, PipelineError>)
    ensures
        text_outcome(r, decode_spec(raw@)),
        is_not_base64(raw@) ==> fails_with(r, ErrorKind::InvalidEncoding),
        is_not_gzip(raw@) ==> fails_with(r, ErrorKind::CorruptStream),
{
    let document = unpack(raw)?;
    xml_format::canonicalize(document.as_slice())
}

/// Makes the save file of `document`: compresses it, encodes the stream as
/// Base64 text and masks the text with `XOR_KEY`.
///
/// A save file that comes back unpacks to `document` again.
pub fn pack(document: &[u8]) -> (r: Result<Vec<u8>, PipelineError>)
    ensures
        bytes_outcome(r, pack_spec(document@)),
        r matches Ok(raw) ==> unpack_spec(raw@) == Ok::<Seq<u8>, ErrorKind>(document@),
{
    let stream = gzip_codec::compress(document)?;
    if !base64_codec::fits(stream.len()) {
        return Err(
            PipelineError {
                kind: ErrorKind::InvalidEncoding,
                detail: "the compressed document is too long for Base64 text".to_owned(),
            },
        );
    }
    let mut text = base64_codec::encode(stream.as_slice());
    proof {
        lemma_text_survives_mask(text@);
    }
    xor::mask_in_place(&mut text, XOR_KEY);
    Ok(text)
}

/// Turns the XML document `xml` into a save file: the canonical layout of the
/// document, packed.
///
/// A save file that comes back holds the canonical text of the document: it
/// unpacks to the bytes of that text, and decodes to their canonical layout.
pub fn encode(xml: &[u8]) -> (r: Result<Vec<u8>, PipelineError>)
    ensures
        bytes_outcome(r, encode_spec(xml@)),
        r matches Ok(raw) ==> unpack_spec(raw@) == canonical_bytes(xml@),
        r matches Ok(raw) ==> decode_spec(raw@) == round_trip_spec(xml@),
{
    let text = xml_format::canonicalize(xml)?;
    pack(text.as_str().as_bytes())
}

} // verus!
