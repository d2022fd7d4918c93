//! The failures that a transcoding stage can end in.

use vstd::prelude::*;

verus! {

/// Which stage failed.
#[derive(Clone, Copy, Debug, PartialEq, Eq, Structural)]
pub enum ErrorKind {
    /// The Base64 stage: the text is not URL-safe Base64 with canonical
    /// padding, or the data is too long for its Base64 text to be addressed.
    InvalidEncoding,
    /// The decompression stage: the GZip container is invalid or truncated.
    CorruptStream,
    /// The XML stage: the document is not well-formed.
    MalformedXml,
    /// Reading or writing failed underneath a stage.
    IoFailure,
}

/// A failed transcoding: the stage, and the message that came with it.
#[derive(Clone, Debug)]
pub struct PipelineError {
    pub kind: ErrorKind,
    /// For a human reader only; no rule of this crate depends on it.
    pub detail: String,
}

/// Why a request to save a transcoded file produced nothing to write.
#[derive(Clone, Debug)]
pub enum TranscodeError {
    /// No input file was selected.
    NoInputSelected,
    /// A stage failed on the selected file.
    TranscodeFailure(PipelineError),
    /// The caller gave no destination.
    OutputNotWritten,
}

/// Whether `r` is what the stage `kind` returns for `outcome`, the result of
/// its work with the failure as a message: the same value, or a failure of
/// that stage with that message.
pub open spec fn tagged<T>(
    outcome: Result<T, String>,
    kind: ErrorKind,
    r: Result<T, PipelineError>,
) -> bool {
    match outcome {
        Ok(value) => r == Ok::<T, PipelineError>(value),
        Err(detail) => r == Err::<T, PipelineError>(PipelineError { kind, detail }),
    }
}

/// Tags the failure of a stage: a value passes through, a message becomes the
/// `detail` of a failure of the stage `kind`.
pub fn stage_result<T>(outcome: Result<T, String>, kind: ErrorKind) -> (r: Result<
    T,
    PipelineError,
>)
    ensures
        tagged(outcome, kind, r),
{
    match outcome {
        Ok(value) => Ok(value),
        Err(detail) => Err(PipelineError { kind, detail }),
    }
}

/// Whether `r` is a failure of the stage `kind`.
pub open spec fn fails_with<T>(r: Result<T, PipelineError>, kind: ErrorKind) -> bool {
    match r {
        Ok(_) => false,
        Err(e) => e.kind == kind,
    }
}

} // verus!
