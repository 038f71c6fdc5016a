//! The compression policy of the TIFF adapter: a quality value selects one of
//! four compression methods by bands.

use vstd::prelude::*;

verus! {

/// The highest quality value; larger requests are treated as this one.
pub const MAX_QUALITY: u8 = 100;

/// A compression method that the TIFF adapter can ask of its backend.
#[derive(Clone, Copy, Debug, PartialEq, Eq, Structural)]
pub enum TiffCompression {
    /// Deflate: the strongest compression, lossless.
    Zip,
    /// LZW: good compression, lossless.
    Lzw,
    /// Run-length encoding: medium compression, fast.
    Rle,
    /// No compression method is named: the fastest write and the largest file.
    Undefined,
}

/// The quality that is looked up for a requested quality: the nearest value
/// in `0..=100`.
pub open spec fn clamped_quality(quality: int) -> int {
    if quality < 0 {
        0
    } else if quality > 100 {
        100
    } else {
        quality
    }
}

/// The band of a quality value, after clamping: `0..=25` is `Zip`, `26..=50`
/// is `Lzw`, `51..=75` is `Rle`, and `76..=100` is `Undefined`.
pub open spec fn compression_band(quality: int) -> TiffCompression {
    let q = clamped_quality(quality);
    if q <= 25 {
        TiffCompression::Zip
    } else if q <= 50 {
        TiffCompression::Lzw
    } else if q <= 75 {
        TiffCompression::Rle
    } else {
        TiffCompression::Undefined
    }
}

/// The four bands meet exactly at 25 and 26, at 50 and 51, and at 75 and 76;
/// below 0 the first band goes on, above 100 the last.
pub proof fn lemma_compression_bands(quality: int)
    ensures
        quality <= 25 ==> compression_band(quality) == TiffCompression::Zip,
        26 <= quality <= 50 ==> compression_band(quality) == TiffCompression::Lzw,
        51 <= quality <= 75 ==> compression_band(quality) == TiffCompression::Rle,
        76 <= quality ==> compression_band(quality) == TiffCompression::Undefined,
{
}

/// Clamps a requested quality to `0..=100`.
pub fn clamp_quality(quality: u8) -> (q: u8)
    ensures
        q as int == clamped_quality(quality as int),
        q <= MAX_QUALITY,
{
    if quality > MAX_QUALITY {
        MAX_QUALITY
    } else {
        quality
    }
}

/// Selects the compression method for a quality value.
pub fn compression_for_quality(quality: u8) -> (method: TiffCompression)
    ensures
        method == compression_band(quality as int),
{
    let q: u8 = clamp_quality(quality);
    if q <= 25 {
        TiffCompression::Zip
    } else if q <= 50 {
        TiffCompression::Lzw
    } else if q <= 75 {
        TiffCompression::Rle
    } else {
        TiffCompression::Undefined
    }
}

} // verus!
