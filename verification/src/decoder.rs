//! A save file selected for decoding, and what becomes of it.

use crate::error::{fails_with, ErrorKind, PipelineError, TranscodeError};
use crate::naming::{output_name, output_name_spec};
use crate::padding::trimmed;
use crate::padding;
use crate::path::{file_stem, path_stem};
use crate::pipeline::{is_not_base64, is_not_gzip, unpack_spec};
use crate::pipeline;
use crate::xml_format::layout_spec;
use crate::xml_format;
use crate::xor::masked;
use crate::xor;
use std::path::PathBuf;
use vstd::prelude::*;

verus! {

/// A selected save file: where it lies, and the document found in it.
pub struct FileSelected {
    pub file_path: PathBuf,
    pub data: Vec<u8>,
}

/// What `FileSelected::decode` owes for what was read of the file: the
/// document inside it, or the stage that fails. A file that could not be read
/// is an `IoFailure`.
pub open spec fn load_spec(savedata: Option<Vec<u8>>) -> Result<Seq<u8>, ErrorKind> {
    match savedata {
        None => Err(ErrorKind::IoFailure),
        Some(raw) => unpack_spec(raw@),
    }
}

/// Whether the file was read and its text is seen not to be Base64.
pub open spec fn seen_not_base64(savedata: Option<Vec<u8>>) -> bool {
    match savedata {
        None => false,
        Some(raw) => is_not_base64(raw@),
    }
}

/// Whether the file was read and its text stands for bytes that are seen not
/// to be a GZip stream.
pub open spec fn seen_not_gzip(savedata: Option<Vec<u8>>) -> bool {
    match savedata {
        None => false,
        Some(raw) => is_not_gzip(raw@),
    }
}

impl FileSelected {
    /// A selected file of which nothing is decoded yet.
    pub fn new(file_path: PathBuf) -> (selected: Self)
        ensures
            selected.file_path == file_path,
            selected.data@ == Seq::<u8>::empty(),
    {
        FileSelected { file_path, data: Vec::new() }
    }

    /// The stem of the file's name, where it has one that is Unicode text.
    pub fn file_name(&self) -> (stem: Option<&str>)
        ensures
            stem matches Some(text) ==> path_stem(self.file_path) == Some(text@),
            stem is None ==> path_stem(self.file_path) is None,
    {
        file_stem(&self.file_path)
    }

    /// Unmasks `data` with `key`.
    pub fn decrypt_xor(data: &[u8], key: u8) -> (result: Vec<u8>)
        ensures
            result@ == masked(data@, key),
    {
        xor::mask(data, key)
    }

    /// Removes the zero bytes at the end of `vector`.
    pub fn remove_null_bytes(vector: &mut Vec<u8>)
        ensures
            final(vector)@ == trimmed(old(vector)@),
    {
        padding::trim(vector)
    }

    /// Decodes `savedata`, the bytes read from the file (`None` where it could
    /// not be read), and keeps the document. On failure the selected file is
    /// left as it was.
    ///
    /// A file whose text is seen not to be Base64 fails with `InvalidEncoding`;
    /// one whose text stands for bytes without the GZip frame, with
    /// `CorruptStream`.
    pub fn decode(&mut self, savedata: Option<Vec<u8>>) -> (r: Result<(), PipelineError>)
        ensures
            final(self).file_path == old(self).file_path,
            r is Ok ==> load_spec(savedata) == Ok::<Seq<u8>, ErrorKind>(final(self).data@),
            r is Err ==> final(self).data == old(self).data,
            r matches Err(e) ==> load_spec(savedata) == Err::<Seq<u8>, ErrorKind>(e.kind),
            seen_not_base64(savedata) ==> fails_with(r, ErrorKind::InvalidEncoding),
            seen_not_gzip(savedata) ==> fails_with(r, ErrorKind::CorruptStream),
    {
        match savedata {
            None => Err(
                PipelineError {
                    kind: ErrorKind::IoFailure,
                    detail: "the save file could not be read".to_owned(),
                },
            ),
            Some(raw) => {
                let document = pipeline::unpack(raw.as_slice())?;
                self.data = document;
                Ok(())
            },
        }
    }
}

/// Whether a save file is selected.
pub enum DecoderVariant {
    NoFileSelected,
    FileSelected(FileSelected),
}

/// Whether a request to save the decoded file led to a file.
#[derive(Clone, Copy, Debug, PartialEq, Eq, Structural)]
pub enum DecoderOutputResult {
    FileNotCreated,
    FileCreated,
}

/// The decoding side of the tool.
pub struct Decoder {
    pub variant: DecoderVariant,
}

impl Default for Decoder {
    fn default() -> (decoder: Self)
        ensures
            decoder.variant is NoFileSelected,
    {
        Decoder { variant: DecoderVariant::NoFileSelected }
    }
}

/// What `Decoder::output` owes: the text to write, or why there is none.
pub open spec fn output_spec(decoder: Decoder, destination_chosen: bool) -> Result<
    Seq<char>,
    Option<ErrorKind>,
> {
    match decoder.variant {
        DecoderVariant::NoFileSelected => Err(None),
        DecoderVariant::FileSelected(selected) => if !destination_chosen {
            Err(None)
        } else {
            match layout_spec(selected.data@) {
                Ok(text) => Ok(text),
                Err(kind) => Err(Some(kind)),
            }
        },
    }
}

impl Decoder {
    /// Whether the file at `file_path` is selected, with the document that
    /// `savedata` gives.
    pub open spec fn holds(self, file_path: PathBuf, savedata: Option<Vec<u8>>) -> bool {
        match self.variant {
            DecoderVariant::NoFileSelected => false,
            DecoderVariant::FileSelected(selected) => selected.file_path == file_path && load_spec(
                savedata,
            ) == Ok::<Seq<u8>, ErrorKind>(selected.data@),
        }
    }

    /// Whether a file is selected whose name has a stem.
    pub open spec fn names_output(self) -> bool {
        match self.variant {
            DecoderVariant::NoFileSelected => false,
            DecoderVariant::FileSelected(selected) => path_stem(selected.file_path) is Some,
        }
    }

    /// Whether `name` is the name to propose for the decoded file.
    pub open spec fn output_name_is(self, name: Seq<char>) -> bool {
        match self.variant {
            DecoderVariant::NoFileSelected => false,
            DecoderVariant::FileSelected(selected) => match path_stem(selected.file_path) {
                None => false,
                Some(stem) => name == output_name_spec(stem, "xml"@),
            },
        }
    }

    /// A decoder with no file selected.
    pub fn new_no_file_selected() -> (decoder: Self)
        ensures
            decoder.variant is NoFileSelected,
    {
        Decoder { variant: DecoderVariant::NoFileSelected }
    }

    /// A decoder for the file at `file_path`, of which `savedata` was read
    /// (`None` where it could not be read). It holds the decoded document, or
    /// the decoding fails, as `FileSelected::decode` does, and there is no
    /// decoder.
    pub fn new_file_selected(file_path: PathBuf, savedata: Option<Vec<u8>>) -> (r: Result<
        Self,
        PipelineError,
    >)
        ensures
            match r {
                Ok(decoder) => decoder.holds(file_path, savedata),
                Err(e) => load_spec(savedata) == Err::<Seq<u8>, ErrorKind>(e.kind),
            },
            seen_not_base64(savedata) ==> fails_with(r, ErrorKind::InvalidEncoding),
            seen_not_gzip(savedata) ==> fails_with(r, ErrorKind::CorruptStream),
    {
        let mut selected_file = FileSelected::new(file_path);
        selected_file.decode(savedata)?;
        Ok(Decoder { variant: DecoderVariant::FileSelected(selected_file) })
    }

    /// The name to propose for the decoded file: that of the selected file with
    /// the extension `xml`. There is none without a selected file, or where its
    /// name has no stem that is Unicode text.
    pub fn output_file_name(&self) -> (name: Option<String>)
        ensures
            name.is_some() == self.names_output(),
            name matches Some(text) ==> self.output_name_is(text@),
    {
        match &self.variant {
            DecoderVariant::NoFileSelected => None,
            DecoderVariant::FileSelected(selected_file) => match selected_file.file_name() {
                None => None,
                Some(stem) => Some(output_name(stem, "xml")),
            },
        }
    }

    /// The document `src` as readable XML, or `MalformedXml`.
    pub fn format_xml(src: &[u8]) -> (r: Result<String, PipelineError>)
        ensures
            match r {
                Ok(text) => layout_spec(src@) == Ok::<Seq<char>, ErrorKind>(text@),
                Err(e) => layout_spec(src@) == Err::<Seq<char>, ErrorKind>(e.kind),
            },
    {
        xml_format::canonicalize(src)
    }

    /// The text to write when the user asks to save the decoded file.
    /// `destination_chosen` says whether the user named a destination.
    ///
    /// Without a selected file there is `NoInputSelected`; without a
    /// destination, `OutputNotWritten`, and the document is not looked at; a
    /// document that is not well-formed XML is a `TranscodeFailure`.
    pub fn output(&self, destination_chosen: bool) -> (r: Result<String, TranscodeError>)
        ensures
            match r {
                Ok(text) => output_spec(*self, destination_chosen) == Ok::<
                    Seq<char>,
                    Option<ErrorKind>,
                >(text@),
                Err(TranscodeError::NoInputSelected) => self.variant is NoFileSelected,
                Err(TranscodeError::OutputNotWritten) => self.variant is FileSelected
                    && !destination_chosen,
                Err(TranscodeError::TranscodeFailure(e)) => output_spec(*self, destination_chosen)
                    == Err::<Seq<char>, Option<ErrorKind>>(Some(e.kind)),
            },
    {
        match &self.variant {
            DecoderVariant::NoFileSelected => Err(TranscodeError::NoInputSelected),
            DecoderVariant::FileSelected(selected_file) => {
                if !destination_chosen {
                    return Err(TranscodeError::OutputNotWritten);
                }
                match Self::format_xml(selected_file.data.as_slice()) {
                    Ok(formatted_data) => Ok(formatted_data),
                    Err(e) => Err(TranscodeError::TranscodeFailure(e)),
                }
            },
        }
    }
}

impl DecoderOutputResult {
    /// What the outcome of `Decoder::output` means for the file, once text
    /// that came back has been written: nothing where no file was selected,
    /// a file where there was text, and no file otherwise.
    pub fn of(outcome: &Result<String, TranscodeError>) -> (r: Option<Self>)
        ensures
            r == match *outcome {
                Ok(_) => Some(DecoderOutputResult::FileCreated),
                Err(TranscodeError::NoInputSelected) => None,
                Err(_) => Some(DecoderOutputResult::FileNotCreated),
            },
    {
        match outcome {
            Ok(_) => Some(DecoderOutputResult::FileCreated),
            Err(TranscodeError::NoInputSelected) => None,
            Err(_) => Some(DecoderOutputResult::FileNotCreated),
        }
    }
}

} // verus!
