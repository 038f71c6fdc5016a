//! The batch driver's decisions: what is done with each entry of the input
//! directory.
//!
//! The driver itself lists the directory, reads and writes the files and
//! keeps the time. For every entry it asks `ConversionRequest::plan` what to
//! do, and it reports how each conversion ended to a `Stats` value.
//!
//! Two sources with the same stem, or two without an extension, are given the
//! same destination. The later conversion then overwrites the earlier file:
//! the last one wins.

use vstd::prelude::*;
use vstd::string::*;
use crate::adapter::{adapter_for, select_adapter, Adapter, MemoryCodec};
use crate::codec::{bytes_view, failure, transcode, transcoding_meets};
use crate::error::{ConvertError, ConvertErrorView, ErrorKind};
use crate::names::{accepts, dest_file_name, dest_name_of, extension_of, matches_filter};
use crate::stats::ConversionOutcome;

verus! {

/// One batch run: the directories, the filter on the input, the output type
/// and the quality. `input_file_type` is `*` or an extension without its dot.
#[derive(Clone, Debug)]
pub struct ConversionRequest {
    pub input_dir: String,
    pub output_dir: String,
    pub input_file_type: String,
    pub output_file_type: String,
    pub quality: u8,
}

/// One conversion to carry out: the name of the source inside the input
/// directory, the name of the file to write inside the output directory, and
/// the adapter that converts.
#[derive(Clone, Debug)]
pub struct FileTask {
    pub source_name: String,
    pub dest_name: String,
    pub adapter: Adapter,
}

/// A `FileTask` with its names as sequences of characters.
pub struct FileTaskView {
    pub source_name: Seq<char>,
    pub dest_name: Seq<char>,
    pub adapter: Adapter,
}

impl View for FileTask {
    type V = FileTaskView;

    open spec fn view(&self) -> FileTaskView {
        FileTaskView {
            source_name: self.source_name@,
            dest_name: self.dest_name@,
            adapter: self.adapter,
        }
    }
}

/// What the driver does with one entry of the input directory.
#[derive(Clone, Debug)]
pub enum Step {
    /// The filter leaves the entry out: nothing is attempted.
    Skip,
    /// The entry is converted.
    Convert(FileTask),
    /// The entry passes the filter, but the output type is not supported:
    /// the file counts as failed, and the batch goes on.
    Reject(ConvertError),
}

/// A `Step` with its texts as sequences of characters.
pub enum StepView {
    Skip,
    Convert(FileTaskView),
    Reject(ConvertErrorView),
}

impl View for Step {
    type V = StepView;

    open spec fn view(&self) -> StepView {
        match self {
            Step::Skip => StepView::Skip,
            Step::Convert(task) => StepView::Convert(task@),
            Step::Reject(error) => StepView::Reject(error@),
        }
    }
}

/// The step for an entry named `name`. An entry that the filter does not
/// accept is skipped. An accepted one is converted by the adapter that the
/// output type and the quality select, to the destination that its name and
/// the output type give; where the output type selects no adapter, it is
/// rejected as unsupported, with the output type as the cause.
pub open spec fn step_for(
    input_file_type: Seq<char>,
    output_file_type: Seq<char>,
    quality: int,
    name: Seq<char>,
) -> StepView {
    if !accepts(input_file_type, name) {
        StepView::Skip
    } else {
        match adapter_for(output_file_type, quality) {
            Some(adapter) => StepView::Convert(
                FileTaskView {
                    source_name: name,
                    dest_name: dest_name_of(name, output_file_type),
                    adapter,
                },
            ),
            None => StepView::Reject(
                ConvertErrorView {
                    kind: ErrorKind::UnsupportedFormat,
                    path: name,
                    cause: output_file_type,
                },
            ),
        }
    }
}

impl ConversionRequest {
    /// Decides what is done with the entry named `name`.
    pub fn plan(&self, name: &str) -> (step: Step)
        ensures
            step@ == step_for(
                self.input_file_type@,
                self.output_file_type@,
                self.quality as int,
                name@,
            ),
    {
        if !matches_filter(self.input_file_type.as_str(), name) {
            Step::Skip
        } else {
            match select_adapter(self.output_file_type.as_str(), self.quality) {
                Some(adapter) => Step::Convert(
                    FileTask {
                        source_name: name.to_owned(),
                        dest_name: dest_file_name(name, self.output_file_type.as_str()),
                        adapter,
                    },
                ),
                None => Step::Reject(
                    ConvertError::new(
                        ErrorKind::UnsupportedFormat,
                        name,
                        self.output_file_type.as_str(),
                    ),
                ),
            }
        }
    }
}

/// The failure of a file whose source could not be read: an I/O failure
/// with the text of the error that reading gave.
pub fn unreadable_source(name: &str, cause: &str) -> (error: ConvertError)
    ensures
        error@ == failure(ErrorKind::Io, name@, cause@),
{
    ConvertError::new(ErrorKind::Io, name, cause)
}

/// Converts a source as the driver read it, for an adapter that works in
/// memory. `source` holds the bytes of the file `name`, or the text of the
/// error that reading it gave.
///
/// A source that could not be read is an I/O failure; one that was read is
/// decoded and encoded, and fails with the step that fails.
pub fn convert_source(name: &str, source: Result<Vec<u8>, String>, codec: MemoryCodec) -> (encoded:
    Result<Vec<u8>, ConvertError>)
    ensures
        match source {
            Err(cause) => bytes_view(encoded) == Err::<Seq<u8>, ConvertErrorView>(
                failure(ErrorKind::Io, name@, cause@),
            ),
            Ok(bytes) => transcoding_meets(name@, bytes@, codec, bytes_view(encoded)),
        },
{
    match source {
        Ok(bytes) => transcode(name, bytes.as_slice(), codec),
        Err(cause) => Err(unreadable_source(name, cause.as_str())),
    }
}

/// How the conversion of the file `name` ended, given how writing its
/// `size` bytes ended: a success of that size, or an I/O failure with the
/// text of the error that writing gave.
pub fn outcome_of_write(name: &str, size: u64, written: Result<(), String>) -> (outcome:
    ConversionOutcome)
    ensures
        match written {
            Ok(_) => outcome == ConversionOutcome::Success(size),
            Err(cause) => outcome matches ConversionOutcome::Failure(error) && error@ == failure(
                ErrorKind::Io,
                name@,
                cause@,
            ),
        },
{
    match written {
        Ok(_) => ConversionOutcome::Success(size),
        Err(cause) => ConversionOutcome::Failure(
            ConvertError::new(ErrorKind::Io, name, cause.as_str()),
        ),
    }
}

/// With the filter `*` no entry is skipped, whatever its name; and which
/// adapter converts it depends on the output type and the quality alone.
pub proof fn lemma_wildcard_attempts_every_entry(
    output_file_type: Seq<char>,
    quality: int,
    name: Seq<char>,
)
    ensures
        accepts("*"@, name),
        step_for("*"@, output_file_type, quality, name) !is Skip,
        step_for("*"@, output_file_type, quality, name) matches StepView::Convert(task)
            ==> adapter_for(output_file_type, quality) == Some(task.adapter),
        step_for("*"@, output_file_type, quality, name) is Reject <==> adapter_for(
            output_file_type,
            quality,
        ) is None,
{
}

/// An entry that the filter accepts is never skipped: it is converted where
/// the output type is supported, and rejected where it is not, whatever the
/// entry is.
pub proof fn lemma_output_type_alone_selects(
    input_file_type: Seq<char>,
    output_file_type: Seq<char>,
    quality: int,
    first: Seq<char>,
    second: Seq<char>,
)
    requires
        accepts(input_file_type, first),
        accepts(input_file_type, second),
    ensures
        step_for(input_file_type, output_file_type, quality, first) matches StepView::Convert(a)
            ==> step_for(input_file_type, output_file_type, quality, second) matches StepView::Convert(
            b,
        ) && a.adapter == b.adapter,
        step_for(input_file_type, output_file_type, quality, first) is Reject ==> step_for(
            input_file_type,
            output_file_type,
            quality,
            second,
        ) is Reject,
{
}

/// A source without an extension is written under the stem `converted`.
pub proof fn lemma_no_extension_falls_back(name: Seq<char>, output_file_type: Seq<char>)
    requires
        extension_of(name) is None,
    ensures
        dest_name_of(name, output_file_type) == "converted"@ + seq!['.'] + output_file_type,
{
}

/// Two sources without an extension are given the same destination, whatever
/// their names.
pub proof fn lemma_extensionless_sources_collide(
    first: Seq<char>,
    second: Seq<char>,
    output_file_type: Seq<char>,
)
    requires
        extension_of(first) is None,
        extension_of(second) is None,
    ensures
        dest_name_of(first, output_file_type) == dest_name_of(second, output_file_type),
{
}

} // verus!
