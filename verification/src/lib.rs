//! Transcoding of Geometry Dash save files between the obfuscated on-disk
//! form and readable XML.
//!
//! A save file is XML that was GZip-compressed, written as URL-safe Base64
//! text and masked byte by byte with a fixed XOR key. The stages come first,
//! one module each; `pipeline` composes them in both directions; `decoder`,
//! `encoder` and `ui` keep what the tool's window needs to know. Files and
//! dialogs are the caller's: this crate is handed bytes and hands bytes back.

pub mod error;
pub mod xor;
pub mod padding;
pub mod base64_codec;
pub mod gzip_codec;
pub mod xml_format;
pub mod pipeline;
pub mod path;
pub mod naming;
pub mod decoder;
pub mod encoder;
pub mod ui;
