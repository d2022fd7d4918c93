//! An XML file selected for encoding, and what becomes of it.

use crate::error::{ErrorKind, PipelineError, TranscodeError};
use crate::naming::{output_name, output_name_spec};
use crate::path::{file_stem, path_stem};
use crate::pipeline::{canonical_bytes, decode_spec, encode_spec, round_trip_spec, unpack_spec};
use crate::pipeline;
use crate::xml_format::layout_spec;
use crate::xml_format;
use crate::xor::masked;
use crate::xor;
use std::path::PathBuf;
use vstd::prelude::*;

verus! {

/// A selected XML file: where it lies, and the save file made of it.
pub struct FileSelected {
    pub file_path: PathBuf,
    pub data: Vec<u8>,
}

/// What `FileSelected::encode` owes for what was read of the file: the save
/// file of the document, or the stage that fails. A file that could not be
/// read is an `IoFailure`.
pub open spec fn store_spec(xmldata: Option<Vec<u8>>) -> Result<Seq<u8>, ErrorKind> {
    match xmldata {
        None => Err(ErrorKind::IoFailure),
        Some(xml) => encode_spec(xml@),
    }
}

/// Whether the save file `raw` gives back what went into it: it unpacks to the
/// bytes of the canonical text of the document that was read, and decodes to
/// the canonical layout of that text.
pub open spec fn reopens(xmldata: Option<Vec<u8>>, raw: Seq<u8>) -> bool {
    match xmldata {
        None => false,
        Some(xml) => unpack_spec(raw) == canonical_bytes(xml@) && decode_spec(raw)
            == round_trip_spec(xml@),
    }
}

impl FileSelected {
    /// A selected file of which nothing is encoded yet.
    pub fn new(file_path: PathBuf) -> (selected: Self)
        ensures
            selected.file_path == file_path,
            selected.data@ == Seq::<u8>::empty(),
    {
        FileSelected { file_path, data: Vec::new() }
    }

    /// The stem of the file's name, where it has one that is Unicode text.
    pub fn file_name(&self) -> (stem: Option<&str>)
        ensures
            stem matches Some(text) ==> path_stem(self.file_path) == Some(text@),
            stem is None ==> path_stem(self.file_path) is None,
    {
        file_stem(&self.file_path)
    }

    /// Masks `data` with `key` where it stands, and hands it back.
    pub fn encrypt_xor(data: &mut Vec<u8>, key: u8) -> (result: &mut Vec<u8>)
        ensures
            result@ == masked(old(data)@, key),
            *final(data) == *final(result),
    {
        xor::mask_in_place(data, key);
        data
    }

    /// Encodes `xmldata`, the bytes read from the file (`None` where it could
    /// not be read), and keeps the save file. On failure the selected file is
    /// left as it was.
    ///
    /// A save file that is kept holds the canonical text of the document: it
    /// unpacks to the bytes of that text and decodes to their canonical layout.
    pub fn encode(&mut self, xmldata: Option<Vec<u8>>) -> (r: Result<(), PipelineError>)
        ensures
            final(self).file_path == old(self).file_path,
            r is Ok ==> store_spec(xmldata) == Ok::<Seq<u8>, ErrorKind>(final(self).data@),
            r is Ok ==> reopens(xmldata, final(self).data@),
            r is Err ==> final(self).data == old(self).data,
            r matches Err(e) ==> store_spec(xmldata) == Err::<Seq<u8>, ErrorKind>(e.kind),
    {
        match xmldata {
            None => Err(
                PipelineError {
                    kind: ErrorKind::IoFailure,
                    detail: "the XML file could not be read".to_owned(),
                },
            ),
            Some(xml) => {
                let raw = pipeline::encode(xml.as_slice())?;
                self.data = raw;
                Ok(())
            },
        }
    }
}

/// Whether an XML file is selected.
pub enum EncoderVariant {
    NoFileSelected,
    FileSelected(FileSelected),
}

/// Whether a request to save the encoded file led to a file.
#[derive(Clone, Copy, Debug, PartialEq, Eq, Structural)]
pub enum EncoderOutputResult {
    FileNotCreated,
    FileCreated,
}

/// The encoding side of the tool.
pub struct Encoder {
    pub variant: EncoderVariant,
}

impl Default for Encoder {
    fn default() -> (encoder: Self)
        ensures
            encoder.variant is NoFileSelected,
    {
        Encoder { variant: EncoderVariant::NoFileSelected }
    }
}

impl Encoder {
    /// Whether the file at `file_path` is selected, with the save file that
    /// `xmldata` gives, which holds the canonical text of the document.
    pub open spec fn holds(self, file_path: PathBuf, xmldata: Option<Vec<u8>>) -> bool {
        match self.variant {
            EncoderVariant::NoFileSelected => false,
            EncoderVariant::FileSelected(selected) => {
                &&& selected.file_path == file_path
                &&& store_spec(xmldata) == Ok::<Seq<u8>, ErrorKind>(selected.data@)
                &&& reopens(xmldata, selected.data@)
            },
        }
    }

    /// Whether a file is selected whose name has a stem.
    pub open spec fn names_output(self) -> bool {
        match self.variant {
            EncoderVariant::NoFileSelected => false,
            EncoderVariant::FileSelected(selected) => path_stem(selected.file_path) is Some,
        }
    }

    /// Whether `name` is the name to propose for the encoded file.
    pub open spec fn output_name_is(self, name: Seq<char>) -> bool {
        match self.variant {
            EncoderVariant::NoFileSelected => false,
            EncoderVariant::FileSelected(selected) => match path_stem(selected.file_path) {
                None => false,
                Some(stem) => name == output_name_spec(stem, "dat"@),
            },
        }
    }

    /// An encoder with no file selected.
    pub fn new_no_file_selected() -> (encoder: Self)
        ensures
            encoder.variant is NoFileSelected,
    {
        Encoder { variant: EncoderVariant::NoFileSelected }
    }

    /// An encoder for the file at `file_path`, of which `xmldata` was read
    /// (`None` where it could not be read). It holds the save file, or the
    /// encoding fails and there is no encoder.
    pub fn new_file_selected(file_path: PathBuf, xmldata: Option<Vec<u8>>) -> (r: Result<
        Self,
        PipelineError,
    >)
        ensures
            match r {
                Ok(encoder) => encoder.holds(file_path, xmldata),
                Err(e) => store_spec(xmldata) == Err::<Seq<u8>, ErrorKind>(e.kind),
            },
    {
        let mut selected_file = FileSelected::new(file_path);
        selected_file.encode(xmldata)?;
        Ok(Encoder { variant: EncoderVariant::FileSelected(selected_file) })
    }

    /// The name to propose for the encoded file: that of the selected file with
    /// the extension `dat`. There is none without a selected file, or where its
    /// name has no stem that is Unicode text.
    pub fn output_file_name(&self) -> (name: Option<String>)
        ensures
            name.is_some() == self.names_output(),
            name matches Some(text) ==> self.output_name_is(text@),
    {
        match &self.variant {
            EncoderVariant::NoFileSelected => None,
            EncoderVariant::FileSelected(selected_file) => match selected_file.file_name() {
                None => None,
                Some(stem) => Some(output_name(stem, "dat")),
            },
        }
    }

    /// The document `src` as canonical XML, or `MalformedXml`.
    pub fn format_xml(src: &[u8]) -> (r: Result<String, PipelineError>)
        ensures
            match r {
                Ok(text) => layout_spec(src@) == Ok::<Seq<char>, ErrorKind>(text@),
                Err(e) => layout_spec(src@) == Err::<Seq<char>, ErrorKind>(e.kind),
            },
    {
        xml_format::canonicalize(src)
    }

    /// The bytes to write when the user asks to save the encoded file.
    /// `destination_chosen` says whether the user named a destination.
    ///
    /// Without a selected file there is `NoInputSelected`; without a
    /// destination, `OutputNotWritten`; else the save file comes back.
    pub fn output(&self, destination_chosen: bool) -> (r: Result<Vec<u8>, TranscodeError>)
        ensures
            match r {
                Ok(raw) => self.variant matches EncoderVariant::FileSelected(selected)
                    && destination_chosen && raw@ == selected.data@,
                Err(TranscodeError::NoInputSelected) => self.variant is NoFileSelected,
                Err(TranscodeError::OutputNotWritten) => self.variant is FileSelected
                    && !destination_chosen,
                Err(TranscodeError::TranscodeFailure(_)) => false,
            },
    {
        match &self.variant {
            EncoderVariant::NoFileSelected => Err(TranscodeError::NoInputSelected),
            EncoderVariant::FileSelected(selected_file) => {
                if !destination_chosen {
                    return Err(TranscodeError::OutputNotWritten);
                }
                Ok(selected_file.data.clone())
            },
        }
    }
}

impl EncoderOutputResult {
    /// What the outcome of `Encoder::output` means for the file, once bytes
    /// that came back have been written: nothing where no file was selected,
    /// a file where there were bytes, and no file otherwise.
    pub fn of(outcome: &Result<Vec<u8>, TranscodeError>) -> (r: Option<Self>)
        ensures
            r == match *outcome {
                Ok(_) => Some(EncoderOutputResult::FileCreated),
                Err(TranscodeError::NoInputSelected) => None,
                Err(_) => Some(EncoderOutputResult::FileNotCreated),
            },
    {
        match outcome {
            Ok(_) => Some(EncoderOutputResult::FileCreated),
            Err(TranscodeError::NoInputSelected) => None,
            Err(_) => Some(EncoderOutputResult::FileNotCreated),
        }
    }
}

} // verus!
