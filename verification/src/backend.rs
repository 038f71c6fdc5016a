//! The calls into the codec crates. Nothing in this file is proved: each
//! function states what the crate it calls is trusted to do.

use vstd::prelude::*;
use crate::raster::byte_len;

verus! {

/// Whether an extension selects `image`'s OpenEXR decoder: it is `exr`, in
/// any mix of upper and lower case.
pub open spec fn names_exr(extension: Seq<char>) -> bool {
    &&& extension.len() == 3
    &&& (extension[0] == 'e' || extension[0] == 'E')
    &&& (extension[1] == 'x' || extension[1] == 'X')
    &&& (extension[2] == 'r' || extension[2] == 'R')
}

/// Whether a stream of bytes opens as an OpenEXR file does: with the four
/// bytes of its magic number.
pub open spec fn opens_as_exr(source: Seq<u8>) -> bool {
    source.len() >= 4 && source.subrange(0, 4) == seq![0x76u8, 0x2f, 0x31, 0x01]
}

/// What `image` decodes from the bytes of a file when the decoder is chosen by
/// `extension`, converted to 8-bit RGBA: width, height and pixel data, or the
/// text of the error it reports. The decoder is given the bytes and the
/// format alone, under `image`'s default limits; no hook or setting of the
/// process has a part in it.
///
/// The name is not used for the extensions of `names_exr`: the OpenEXR
/// decoder picks its inverse cosine transform by the processor it runs on,
/// and the kernels differ in their last bits.
pub uninterp spec fn rgba8_decoded(source: Seq<u8>, extension: Seq<char>) -> Result<(nat, nat, Seq<u8>), Seq<char>>;

/// Whether a stream of bytes opens as a WebP file does: the tag `RIFF`, four
/// bytes of length, then the tag `WEBP`.
pub open spec fn opens_as_webp(bytes: Seq<u8>) -> bool {
    &&& bytes.len() >= 12
    &&& bytes.subrange(0, 4) == seq![0x52u8, 0x49, 0x46, 0x46]
    &&& bytes.subrange(8, 12) == seq![0x57u8, 0x45, 0x42, 0x50]
}

/// Whether the first chunk of a lossy WebP stream states the given size. An
/// image with transparency starts with a `VP8X` chunk, which holds width and
/// height less one in three bytes each; any other starts with the `VP8 `
/// chunk, whose frame header holds them in two bytes each. All are written
/// with the low byte first.
pub open spec fn states_size(bytes: Seq<u8>, width: nat, height: nat) -> bool {
    &&& bytes.len() >= 30
    &&& {
        ||| {
            &&& bytes.subrange(12, 16) == seq![0x56u8, 0x50, 0x38, 0x58]
            &&& bytes[24] + 256 * bytes[25] + 65536 * bytes[26] + 1 == width
            &&& bytes[27] + 256 * bytes[28] + 65536 * bytes[29] + 1 == height
        }
        ||| {
            &&& bytes.subrange(12, 16) == seq![0x56u8, 0x50, 0x38, 0x20]
            &&& bytes[26] + 256 * bytes[27] == width
            &&& bytes[28] + 256 * bytes[29] == height
        }
    }
}

/// What `image`'s JPEG encoder makes of an 8-bit RGBA image at a quality:
/// the bytes of the file, or the text of the error it reports. The encoder
/// works on the pixels alone, in integer and single IEEE arithmetic.
pub uninterp spec fn jpeg_encoded(pixels: Seq<u8>, width: nat, height: nat, quality: nat) -> Result<Seq<u8>, Seq<char>>;

/// What `png`'s encoder makes of an 8-bit RGBA image: the bytes of the file,
/// or the text of the error it reports. With `filter_rows` the rows are
/// filtered adaptively before they are compressed, without it not at all.
pub uninterp spec fn png_encoded(pixels: Seq<u8>, width: nat, height: nat, filter_rows: bool) -> Result<Seq<u8>, Seq<char>>;

/// Decodes `source` with the decoder that `image::ImageFormat::from_extension`
/// selects for `extension`, through `image::ImageReader::with_format` and
/// `decode`, and converts the image to 8-bit RGBA with
/// `DynamicImage::to_rgba8`. An extension that names no format gives the
/// error that `ImageReader` itself makes for it.
///
/// For every extension but `exr` the result, image or error text, is the one
/// that `rgba8_decoded` names. For `exr` only this is claimed: an image comes
/// back only from bytes that open with the magic number, which the decoder
/// tests before anything else.
///
/// Nothing is claimed of the length of the pixel data: the caller checks it
/// against the size.
#[verifier::external_body]
pub(crate) fn decode_rgba8(source: &[u8], extension: &str) -> (decoded: Result<(u32, u32, Vec<u8>), String>)
    ensures
        !names_exr(extension@) ==> match decoded {
            Ok((width, height, pixels)) => rgba8_decoded(source@, extension@)
                == Ok::<(nat, nat, Seq<u8>), Seq<char>>((width as nat, height as nat, pixels@)),
            Err(cause) => rgba8_decoded(source@, extension@)
                == Err::<(nat, nat, Seq<u8>), Seq<char>>(cause@),
        },
        names_exr(extension@) && decoded is Ok ==> opens_as_exr(source@),
{
    let format = match image::ImageFormat::from_extension(extension) {
        Some(format) => format,
        None => return Err(image::ImageError::Unsupported(
            image::error::ImageFormatHint::PathExtension(extension.into()).into()).to_string()),
    };
    match image::ImageReader::with_format(std::io::Cursor::new(source), format).decode() {
        Ok(image) => {
            let rgba = image.to_rgba8();
            Ok((rgba.width(), rgba.height(), rgba.into_raw()))
        },
        Err(error) => Err(error.to_string()),
    }
}

/// Encodes an 8-bit RGBA image as WebP with `webp::Encoder::from_rgba` and
/// `encode_simple`, which is `encode` without its panic on failure and with
/// the choice between lossy and lossless left to the caller. Returns the
/// bytes, or the name of libwebp's error code.
///
/// `from_rgba` panics on pixel data shorter than the image, and libwebp
/// takes sizes up to 16383 and qualities up to 100 only: the `requires` keeps
/// to that. The bytes themselves have no name, because libwebp derives its
/// quantizers through the platform's `pow`. What holds of every lossy stream
/// it hands back is that libwebp wrote the RIFF header first, and behind it
/// the chunk that states the size of the picture it was given.
#[verifier::external_body]
pub(crate) fn webp_encode(pixels: &Vec<u8>, width: u32, height: u32, lossless: bool, quality: u8) -> (encoded: Result<Vec<u8>, String>)
    requires
        pixels@.len() == byte_len(width as nat, height as nat),
        1 <= width <= 16383,
        1 <= height <= 16383,
        quality <= 100,
    ensures
        !lossless ==> (encoded matches Ok(bytes) ==> opens_as_webp(bytes@) && states_size(
            bytes@,
            width as nat,
            height as nat,
        )),
{
    let encoder = webp::Encoder::from_rgba(pixels.as_slice(), width, height);
    match encoder.encode_simple(lossless, quality.into()) {
        Ok(memory) => Ok(memory.to_vec()),
        Err(error) => Err(format!("{:?}", error)),
    }
}

/// Encodes an 8-bit RGBA image as JPEG with
/// `image::codecs::jpeg::JpegEncoder::new_with_quality` and `encode_image`.
/// The result, bytes or error text, is the one that `jpeg_encoded` names.
///
/// The encoder takes the quality as it comes (it clamps to 1..=100 itself)
/// and drops alpha. It writes into memory, so it fails for one reason only:
/// a width or height outside 1..=65535.
#[verifier::external_body]
pub(crate) fn jpeg_encode(pixels: &Vec<u8>, width: u32, height: u32, quality: u8) -> (encoded: Result<Vec<u8>, String>)
    requires
        pixels@.len() == byte_len(width as nat, height as nat),
    ensures
        match encoded {
            Ok(bytes) => jpeg_encoded(pixels@, width as nat, height as nat, quality as nat)
                == Ok::<Seq<u8>, Seq<char>>(bytes@),
            Err(cause) => jpeg_encoded(pixels@, width as nat, height as nat, quality as nat)
                == Err::<Seq<u8>, Seq<char>>(cause@),
        },
        encoded is Ok <==> (1 <= width <= 65535 && 1 <= height <= 65535),
{
    let view = match image::ImageBuffer::<image::Rgba<u8>, &[u8]>::from_raw(width, height, pixels.as_slice()) {
        Some(view) => view,
        None => return Err(String::from("pixel data is shorter than the image")),
    };
    let mut bytes: Vec<u8> = Vec::new();
    let written =
        image::codecs::jpeg::JpegEncoder::new_with_quality(&mut bytes, quality).encode_image(&view);
    match written {
        Ok(()) => Ok(bytes),
        Err(error) => Err(error.to_string()),
    }
}

/// Encodes an 8-bit RGBA image as PNG with `png::Encoder`, then
/// `write_header`, `write_image_data` and `finish`. The encoder is told what
/// the pixel data is, colour type RGBA at depth eight, and is given the
/// filter `Adaptive` (its default) with `filter_rows`, `NoFilter` without.
/// The result, bytes or error text, is the one that `png_encoded` names.
///
/// The encoder writes into memory, so under the `requires` it fails for one
/// reason only: a width or height of zero.
#[verifier::external_body]
pub(crate) fn png_encode(pixels: &Vec<u8>, width: u32, height: u32, filter_rows: bool) -> (encoded: Result<Vec<u8>, String>)
    requires
        pixels@.len() == byte_len(width as nat, height as nat),
    ensures
        match encoded {
            Ok(bytes) => png_encoded(pixels@, width as nat, height as nat, filter_rows)
                == Ok::<Seq<u8>, Seq<char>>(bytes@),
            Err(cause) => png_encoded(pixels@, width as nat, height as nat, filter_rows)
                == Err::<Seq<u8>, Seq<char>>(cause@),
        },
        encoded is Ok <==> (width >= 1 && height >= 1),
{
    let mut bytes: Vec<u8> = Vec::new();
    let mut encoder = png::Encoder::new(&mut bytes, width, height);
    encoder.set_color(png::ColorType::Rgba);
    encoder.set_depth(png::BitDepth::Eight);
    encoder.set_filter(if filter_rows { png::Filter::Adaptive } else { png::Filter::NoFilter });
    let written = match encoder.write_header() {
        Ok(mut writer) => match writer.write_image_data(pixels.as_slice()) {
            Ok(()) => writer.finish(),
            Err(error) => Err(error),
        },
        Err(error) => Err(error),
    };
    match written { Ok(()) => Ok(bytes), Err(error) => Err(error.to_string()) }
}

} // verus!
