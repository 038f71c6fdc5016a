//! Why the conversion of one file failed.
//!
//! Such a failure never ends a batch: the file is left out of the count of
//! converted files and the batch goes on with the next one.

use vstd::prelude::*;
use vstd::string::*;

verus! {

/// The step of a conversion that failed.
#[derive(Clone, Copy, Debug, PartialEq, Eq, Structural)]
pub enum ErrorKind {
    /// The source could not be read, or the result could not be written.
    Io,
    /// The source does not hold an image that its format's decoder accepts.
    Decode,
    /// The encoder of the output format refused the image.
    Encode,
    /// The output type names none of the supported formats.
    UnsupportedFormat,
}

/// A failed conversion: the step that failed, the file it was working on, and
/// the cause as the failing step described it.
#[derive(Clone, Debug)]
pub struct ConvertError {
    pub kind: ErrorKind,
    pub path: String,
    pub cause: String,
}

/// A `ConvertError` with its texts as sequences of characters.
pub struct ConvertErrorView {
    pub kind: ErrorKind,
    pub path: Seq<char>,
    pub cause: Seq<char>,
}

impl View for ConvertError {
    type V = ConvertErrorView;

    open spec fn view(&self) -> ConvertErrorView {
        ConvertErrorView { kind: self.kind, path: self.path@, cause: self.cause@ }
    }
}

/// How a message names the step that failed.
pub open spec fn kind_label(kind: ErrorKind) -> Seq<char> {
    match kind {
        ErrorKind::Io => "Failed to access file "@,
        ErrorKind::Decode => "Failed to decode image "@,
        ErrorKind::Encode => "Failed to encode image "@,
        ErrorKind::UnsupportedFormat => "Unsupported output type for "@,
    }
}

/// The message of a failure: the step, the file, `: ` and the cause.
pub open spec fn message_of(error: ConvertErrorView) -> Seq<char> {
    kind_label(error.kind) + error.path + ": "@ + error.cause
}

impl ConvertError {
    /// A failure of the given kind on the given file.
    pub fn new(kind: ErrorKind, path: &str, cause: &str) -> (error: ConvertError)
        ensures
            error@ == (ConvertErrorView { kind, path: path@, cause: cause@ }),
    {
        ConvertError { kind, path: path.to_owned(), cause: cause.to_owned() }
    }

    /// The failure as one line of text, fit for a log.
    pub fn message(&self) -> (text: String)
        ensures
            text@ == message_of(self@),
    {
        let mut text: String = match self.kind {
            ErrorKind::Io => "Failed to access file ".to_owned(),
            ErrorKind::Decode => "Failed to decode image ".to_owned(),
            ErrorKind::Encode => "Failed to encode image ".to_owned(),
            ErrorKind::UnsupportedFormat => "Unsupported output type for ".to_owned(),
        };
        text.append(self.path.as_str());
        text.append(": ");
        text.append(self.cause.as_str());
        text
    }
}

} // verus!
