//! URL-safe Base64 with padding, as the `base64` crate's `URL_SAFE` engine
//! writes and reads it.

use crate::error::{stage_result, ErrorKind, PipelineError};
use base64::engine::general_purpose::URL_SAFE;
use base64::engine::Engine;
use vstd::prelude::*;

verus! {

/// The Base64 text of `bytes`: what `URL_SAFE.encode` returns for them.
pub uninterp spec fn base64_text(bytes: Seq<u8>) -> Seq<u8>;

/// The bytes that `text` stands for: what `URL_SAFE.decode` returns for it,
/// `None` where it refuses the text.
pub uninterp spec fn base64_bytes(text: Seq<u8>) -> Option<Seq<u8>>;

/// The length of the Base64 text of `n` bytes: four symbols for every three
/// bytes begun.
pub open spec fn encoded_len(n: nat) -> nat {
    4 * ((n + 2) / 3)
}

/// Whether `byte` can occur in URL-safe Base64 text: a letter, a digit, `-`,
/// `_` or the padding sign `=`.
pub open spec fn is_symbol(byte: u8) -> bool {
    ||| 0x41 <= byte <= 0x5a
    ||| 0x61 <= byte <= 0x7a
    ||| 0x30 <= byte <= 0x39
    ||| byte == 0x2d
    ||| byte == 0x5f
    ||| byte == 0x3d
}

/// Whether every byte of `text` is a Base64 symbol.
pub open spec fn all_symbols(text: Seq<u8>) -> bool {
    forall|i: int| 0 <= i < text.len() ==> is_symbol(#[trigger] text[i])
}

/// Whether `text` has the frame of padded Base64 text: whole groups of four
/// symbols, with padding signs only at its very end, and two of them at most.
pub open spec fn well_framed(text: Seq<u8>) -> bool {
    &&& text.len() % 4 == 0
    &&& all_symbols(text)
    &&& forall|i: int| 0 <= i < text.len() - 2 ==> #[trigger] text[i] != 0x3d
    &&& (text.len() >= 2 && text[text.len() - 2] == 0x3d ==> text[text.len() - 1] == 0x3d)
}

/// Calls `Engine::encode` on `base64`'s `URL_SAFE` engine. Claimed of it: the
/// result is a function of the bytes alone; it has `encoded_len` symbols, all
/// of the URL-safe alphabet or `=`, with `=` only at the end; and decoding it
/// gives the bytes back. The call panics where that length overflows `usize`,
/// which `requires` excludes.
#[verifier::external_body]
fn url_safe_encode(data: &[u8]) -> (text: Vec<u8>)
    requires
        encoded_len(data@.len()) <= usize::MAX,
    ensures
        text@ == base64_text(data@),
        text@.len() == encoded_len(data@.len()),
        well_framed(text@),
        base64_bytes(text@) == Some(data@),
{
    URL_SAFE.encode(data).into_bytes()
}

/// Calls `Engine::decode` on `base64`'s `URL_SAFE` engine. Claimed of it: the
/// outcome is a function of the text alone, and text is refused that holds a
/// byte outside the alphabet, whose length is no multiple of four, or that has
/// a padding sign anywhere but at its end. The error comes back as its
/// message.
#[verifier::external_body]
fn url_safe_decode(text: &[u8]) -> (r: Result<Vec<u8>, String>)
    ensures
        r matches Ok(bytes) ==> base64_bytes(text@) == Some(bytes@),
        r is Ok ==> well_framed(text@),
        r is Err ==> base64_bytes(text@) is None,
{
    match URL_SAFE.decode(text) {
        Ok(bytes) => Ok(bytes),
        Err(e) => Err(e.to_string()),
    }
}

/// Whether the Base64 text of `len` bytes has a length that fits in `usize`.
pub fn fits(len: usize) -> (r: bool)
    ensures
        r == (encoded_len(len as nat) <= usize::MAX),
{
    let groups: usize = len / 3 + (if len % 3 == 0 { 0 } else { 1 });
    assert(groups == (len + 2) / 3);
    groups <= usize::MAX / 4
}

/// Encodes `data` as URL-safe Base64 text with padding.
///
/// The text decodes to `data` again, and its length depends on the length of
/// `data` alone.
pub fn encode(data: &[u8]) -> (text: Vec<u8>)
    requires
        encoded_len(data@.len()) <= usize::MAX,
    ensures
        text@ == base64_text(data@),
        text@.len() == encoded_len(data@.len()),
        well_framed(text@),
        base64_bytes(text@) == Some(data@),
{
    url_safe_encode(data)
}

/// Decodes URL-safe Base64 text, or fails with `InvalidEncoding`.
///
/// Text is never accepted that holds a byte outside the alphabet, whose length
/// is no multiple of four, or that has a padding sign anywhere but at its end.
pub fn decode(text: &[u8]) -> (r: Result<Vec<u8>, PipelineError>)
    ensures
        match r {
            Ok(bytes) => base64_bytes(text@) == Some(bytes@),
            Err(e) => base64_bytes(text@) is None && e.kind == ErrorKind::InvalidEncoding,
        },
        !well_framed(text@) ==> r is Err,
{
    stage_result(url_safe_decode(text), ErrorKind::InvalidEncoding)
}

} // verus!
