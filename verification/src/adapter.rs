//! The adapters: which encoder an output type selects, and the settings it
//! runs with.

use vstd::prelude::*;
use vstd::string::*;
use crate::error::{ConvertError, ConvertErrorView, ErrorKind};
use crate::names::same_text;
use crate::policy::{clamp_quality, clamped_quality, compression_band, compression_for_quality, TiffCompression};

verus! {

/// An encoder that works in memory, from pixels to the bytes of a file.
#[derive(Clone, Copy, Debug, PartialEq, Eq, Structural)]
pub enum MemoryCodec {
    /// Lossy WebP; `quality` runs from 0, the lowest, to 100, the highest.
    WebP { quality: u8 },
    /// JPEG; `quality` is the encoder's own scale, and alpha is dropped.
    Jpeg { quality: u8 },
    /// PNG without row filtering. It is lossless and takes no quality.
    Png,
}

/// The settings of the TIFF adapter. Its backend reads and writes the files
/// itself, so the library only decides how it is to be set up.
#[derive(Clone, Copy, Debug, PartialEq, Eq, Structural)]
pub struct TiffSettings {
    pub compression: TiffCompression,
    pub quality: u8,
}

/// The adapter that converts a file.
#[derive(Clone, Copy, Debug, PartialEq, Eq, Structural)]
pub enum Adapter {
    Memory(MemoryCodec),
    Tiff(TiffSettings),
}

/// The adapter that an output type and a quality select: `webp`, `jpeg` and
/// `png` their encoders, `tiff` and `tif` both the TIFF adapter, anything
/// else none. The quality is clamped to `0..=100` first.
pub open spec fn adapter_for(output_file_type: Seq<char>, quality: int) -> Option<Adapter> {
    let q = clamped_quality(quality) as u8;
    if output_file_type == "webp"@ {
        Some(Adapter::Memory(MemoryCodec::WebP { quality: q }))
    } else if output_file_type == "jpeg"@ {
        Some(Adapter::Memory(MemoryCodec::Jpeg { quality: q }))
    } else if output_file_type == "png"@ {
        Some(Adapter::Memory(MemoryCodec::Png))
    } else if output_file_type == "tiff"@ || output_file_type == "tif"@ {
        Some(Adapter::Tiff(TiffSettings { compression: compression_band(quality), quality: q }))
    } else {
        None
    }
}

/// One call that the TIFF adapter makes on its backend.
#[derive(Clone, Copy, Debug, PartialEq, Eq, Structural)]
pub enum BackendCall {
    /// Set the backend up. It is set up once in a process, however often
    /// this is asked for.
    Initialize,
    /// Read the source image from its file.
    ReadImage,
    /// Set the format of the image to TIFF.
    SetImageFormat,
    /// Set the compression method.
    SetCompression(TiffCompression),
    /// Set the compression quality, on the scale from 0 to 100.
    SetCompressionQuality(u8),
    /// Write the image to the destination file.
    WriteImage,
}

/// The calls that convert one file with the given settings, in their order.
pub open spec fn tiff_script(settings: TiffSettings) -> Seq<BackendCall> {
    seq![
        BackendCall::Initialize,
        BackendCall::ReadImage,
        BackendCall::SetImageFormat,
        BackendCall::SetCompression(settings.compression),
        BackendCall::SetCompressionQuality(settings.quality),
        BackendCall::WriteImage,
    ]
}

/// The kind of failure that a failed call is: a source that cannot be read
/// is a decoding failure, a destination that cannot be written an I/O
/// failure, and a setting that the backend refuses an encoding failure.
pub open spec fn failure_kind_of(call: BackendCall) -> ErrorKind {
    match call {
        BackendCall::ReadImage => ErrorKind::Decode,
        BackendCall::WriteImage => ErrorKind::Io,
        _ => ErrorKind::Encode,
    }
}

/// The calls that convert one file with the given settings, in their order.
/// The conversion has succeeded when the last one has; it has failed with
/// the first call that fails, and no later call is made.
pub fn tiff_calls(settings: TiffSettings) -> (calls: Vec<BackendCall>)
    ensures
        calls@ == tiff_script(settings),
{
    let mut calls: Vec<BackendCall> = Vec::new();
    calls.push(BackendCall::Initialize);
    calls.push(BackendCall::ReadImage);
    calls.push(BackendCall::SetImageFormat);
    calls.push(BackendCall::SetCompression(settings.compression));
    calls.push(BackendCall::SetCompressionQuality(settings.quality));
    calls.push(BackendCall::WriteImage);
    assert(calls@ =~= tiff_script(settings));
    calls
}

/// The failure of the conversion of the file `name` whose backend call
/// `call` failed with `cause`.
pub fn backend_failure(name: &str, call: BackendCall, cause: &str) -> (error: ConvertError)
    ensures
        error@ == (ConvertErrorView { kind: failure_kind_of(call), path: name@, cause: cause@ }),
{
    let kind = match call {
        BackendCall::ReadImage => ErrorKind::Decode,
        BackendCall::WriteImage => ErrorKind::Io,
        _ => ErrorKind::Encode,
    };
    ConvertError::new(kind, name, cause)
}

/// The settings of the TIFF adapter for a quality.
pub fn tiff_settings(quality: u8) -> (settings: TiffSettings)
    ensures
        settings.compression == compression_band(quality as int),
        settings.quality as int == clamped_quality(quality as int),
{
    TiffSettings { compression: compression_for_quality(quality), quality: clamp_quality(quality) }
}

/// Selects the adapter for an output type and a quality.
pub fn select_adapter(output_file_type: &str, quality: u8) -> (adapter: Option<Adapter>)
    ensures
        adapter == adapter_for(output_file_type@, quality as int),
{
    let q: u8 = clamp_quality(quality);
    if same_text(output_file_type, "webp") {
        Some(Adapter::Memory(MemoryCodec::WebP { quality: q }))
    } else if same_text(output_file_type, "jpeg") {
        Some(Adapter::Memory(MemoryCodec::Jpeg { quality: q }))
    } else if same_text(output_file_type, "png") {
        Some(Adapter::Memory(MemoryCodec::Png))
    } else if same_text(output_file_type, "tiff") || same_text(output_file_type, "tif") {
        Some(Adapter::Tiff(tiff_settings(quality)))
    } else {
        None
    }
}

} // verus!
