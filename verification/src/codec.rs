//! The adapters that work in memory: decoding the bytes of a source file and
//! encoding the image as WebP, JPEG or PNG.
//!
//! The decoders and encoders are those of the `image`, `webp` and `png`
//! crates. What they compute is theirs; what is decided around them is
//! decided, and proved, here: which decoder a name selects, which images an
//! encoder is given, and which failure a caller sees.

use vstd::prelude::*;
use vstd::string::*;
use crate::adapter::MemoryCodec;
use crate::backend::{
    decode_rgba8, jpeg_encode, jpeg_encoded, names_exr, opens_as_exr, opens_as_webp, png_encode,
    png_encoded, rgba8_decoded, states_size, webp_encode,
};
use crate::error::{ConvertError, ConvertErrorView, ErrorKind};
use crate::names::{extension, extension_of};
use crate::policy::clamp_quality;
use crate::raster::{well_formed, Raster, RasterView};

verus! {

/// The largest width and height that a WebP image can have.
pub const WEBP_MAX_DIMENSION: u32 = 16383;

/// The largest width and height that a JPEG image can have.
pub const JPEG_MAX_DIMENSION: u32 = 65535;

/// WebP is written lossy: the quality sets how much is lost.
pub const WEBP_LOSSLESS: bool = false;

/// PNG rows are written as they are, without a filter: the files are larger,
/// and written faster, than with one.
pub const PNG_FILTER_ROWS: bool = false;

/// Whether an image has a size that JPEG can hold.
pub open spec fn fits_jpeg(image: RasterView) -> bool {
    1 <= image.width <= JPEG_MAX_DIMENSION && 1 <= image.height <= JPEG_MAX_DIMENSION
}

/// Whether an image has a size that WebP can hold.
pub open spec fn fits_webp(image: RasterView) -> bool {
    1 <= image.width <= WEBP_MAX_DIMENSION && 1 <= image.height <= WEBP_MAX_DIMENSION
}

/// The cause given where a name has no extension to select a decoder by.
pub open spec fn no_format_cause() -> Seq<char> {
    "The image format could not be determined"@
}

/// The cause given where a decoder hands back pixel data of the wrong length.
pub open spec fn short_data_cause() -> Seq<char> {
    "The decoded pixel data does not fill the image"@
}

/// The cause given where an image is empty or too large for WebP.
pub open spec fn webp_size_cause() -> Seq<char> {
    "WebP holds images from 1x1 to 16383x16383 pixels"@
}

/// A failure on the file `name`.
pub open spec fn failure(kind: ErrorKind, name: Seq<char>, cause: Seq<char>) -> ConvertErrorView {
    ConvertErrorView { kind, path: name, cause }
}

/// A decoder's answer, as an image.
pub open spec fn raster_of(decoded: Result<(nat, nat, Seq<u8>), Seq<char>>) -> Result<
    RasterView,
    Seq<char>,
> {
    match decoded {
        Ok((width, height, pixels)) => Ok(RasterView { width, height, pixels }),
        Err(cause) => Err(cause),
    }
}

/// What a decoder handed back, with its data and texts as sequences.
pub open spec fn decoded_view(decoded: Result<(u32, u32, Vec<u8>), String>) -> Result<
    RasterView,
    Seq<char>,
> {
    match decoded {
        Ok((width, height, pixels)) => Ok(
            RasterView { width: width as nat, height: height as nat, pixels: pixels@ },
        ),
        Err(cause) => Err(cause@),
    }
}

/// What an encoder handed back, with its data and texts as sequences.
pub open spec fn encoded_view(encoded: Result<Vec<u8>, String>) -> Result<Seq<u8>, Seq<char>> {
    match encoded {
        Ok(bytes) => Ok(bytes@),
        Err(cause) => Err(cause@),
    }
}

/// The result of a decoding, with its data and texts as sequences.
pub open spec fn image_view(image: Result<Raster, ConvertError>) -> Result<
    RasterView,
    ConvertErrorView,
> {
    match image {
        Ok(raster) => Ok(raster@),
        Err(error) => Err(error@),
    }
}

/// The result of an encoding, with its data and texts as sequences.
pub open spec fn bytes_view(encoded: Result<Vec<u8>, ConvertError>) -> Result<
    Seq<u8>,
    ConvertErrorView,
> {
    match encoded {
        Ok(bytes) => Ok(bytes@),
        Err(error) => Err(error@),
    }
}

/// What a decoding of the file `name` comes to, given what the decoder handed
/// back: its image where the pixel data fills it, else a decoding failure;
/// and a decoding failure with the decoder's own cause where it reported one.
pub open spec fn decoding_outcome(name: Seq<char>, decoded: Result<RasterView, Seq<char>>) -> Result<
    RasterView,
    ConvertErrorView,
> {
    match decoded {
        Ok(image) => if well_formed(image) {
            Ok(image)
        } else {
            Err(failure(ErrorKind::Decode, name, short_data_cause()))
        },
        Err(cause) => Err(failure(ErrorKind::Decode, name, cause)),
    }
}

/// What an encoding of the file `name` comes to, given what the encoder
/// handed back: its bytes, or an encoding failure with the encoder's cause.
pub open spec fn encoding_outcome(name: Seq<char>, encoded: Result<Seq<u8>, Seq<char>>) -> Result<
    Seq<u8>,
    ConvertErrorView,
> {
    match encoded {
        Ok(bytes) => Ok(bytes),
        Err(cause) => Err(failure(ErrorKind::Encode, name, cause)),
    }
}

/// What decoding the bytes `source` of the file `name` comes to, for every
/// name but those with the extension `exr`. A name without an extension is a
/// decoding failure that no decoder is asked about. Otherwise the extension
/// selects the decoder, and its answer counts as `decoding_outcome` says.
pub open spec fn decoding_of(name: Seq<char>, source: Seq<u8>) -> Result<
    RasterView,
    ConvertErrorView,
> {
    match extension_of(name) {
        None => Err(failure(ErrorKind::Decode, name, no_format_cause())),
        Some(extension) => decoding_outcome(name, raster_of(rgba8_decoded(source, extension))),
    }
}

/// Whether the decoder of a name is the one whose answer depends on the
/// processor: the name has the extension `exr`.
pub open spec fn decoder_varies(name: Seq<char>) -> bool {
    extension_of(name) matches Some(extension) && names_exr(extension)
}

/// Whether `result` is a result of decoding the bytes `source` of the file
/// `name`.
///
/// There is one such result, `decoding_of`, except for a name with the
/// extension `exr`. There the decoder decides: a success is an image whose
/// pixel data fills it, decoded from bytes that open as an OpenEXR file
/// does; a failure is a decoding failure on `name`.
pub open spec fn decoding_meets(
    name: Seq<char>,
    source: Seq<u8>,
    result: Result<RasterView, ConvertErrorView>,
) -> bool {
    if decoder_varies(name) {
        match result {
            Ok(image) => well_formed(image) && opens_as_exr(source),
            Err(error) => error.kind == ErrorKind::Decode && error.path == name,
        }
    } else {
        result == decoding_of(name, source)
    }
}

/// Whether `result` is a result of encoding `image` for the file `name`.
///
/// For JPEG and PNG there is one such result: the encoder's, bytes or
/// failure. It is a failure exactly for an image that the format cannot
/// hold: JPEG holds images from 1x1 to 65535x65535 pixels, PNG any image
/// that is not empty. PNG is written without row filtering.
///
/// WebP holds images from 1x1 to 16383x16383 pixels: for any other image the
/// one result is the size failure. For an image that fits, the WebP encoder
/// decides: a success is a stream that opens as a WebP file does and states
/// the size of the image, a failure is an encoding failure on `name`.
pub open spec fn encoding_meets(
    name: Seq<char>,
    image: RasterView,
    codec: MemoryCodec,
    result: Result<Seq<u8>, ConvertErrorView>,
) -> bool {
    match codec {
        MemoryCodec::WebP { quality } => if fits_webp(image) {
            match result {
                Ok(bytes) => opens_as_webp(bytes) && states_size(bytes, image.width, image.height),
                Err(error) => error.kind == ErrorKind::Encode && error.path == name,
            }
        } else {
            result == Err::<Seq<u8>, ConvertErrorView>(
                failure(ErrorKind::Encode, name, webp_size_cause()),
            )
        },
        MemoryCodec::Jpeg { quality } => {
            &&& result == encoding_outcome(
                name,
                jpeg_encoded(image.pixels, image.width, image.height, quality as nat),
            )
            &&& result is Ok <==> fits_jpeg(image)
        },
        MemoryCodec::Png => {
            &&& result == encoding_outcome(
                name,
                png_encoded(image.pixels, image.width, image.height, PNG_FILTER_ROWS),
            )
            &&& result is Ok <==> image.width >= 1 && image.height >= 1
        },
    }
}

/// Whether `result` is what a conversion comes to once its decoding has come
/// to `decoded`: the decoding failure, or a result of encoding the image.
pub open spec fn encoding_follows(
    name: Seq<char>,
    decoded: Result<RasterView, ConvertErrorView>,
    codec: MemoryCodec,
    result: Result<Seq<u8>, ConvertErrorView>,
) -> bool {
    match decoded {
        Ok(image) => encoding_meets(name, image, codec, result),
        Err(error) => result == Err::<Seq<u8>, ConvertErrorView>(error),
    }
}

/// Whether `result` is a result of converting the bytes `source` of the file
/// `name`: what follows from some result of decoding them.
pub open spec fn transcoding_meets(
    name: Seq<char>,
    source: Seq<u8>,
    codec: MemoryCodec,
    result: Result<Seq<u8>, ConvertErrorView>,
) -> bool {
    exists|decoded: Result<RasterView, ConvertErrorView>|
        #![trigger decoding_meets(name, source, decoded)]
        decoding_meets(name, source, decoded) && encoding_follows(name, decoded, codec, result)
}

/// Turns what a decoder handed back for the file `name` into an image or a
/// decoding failure.
pub fn raster_from_decoded(name: &str, decoded: Result<(u32, u32, Vec<u8>), String>) -> (image:
    Result<Raster, ConvertError>)
    ensures
        image_view(image) == decoding_outcome(name@, decoded_view(decoded)),
{
    match decoded {
        Ok((width, height, pixels)) => match Raster::new(width, height, pixels) {
            Some(raster) => Ok(raster),
            None => Err(
                ConvertError::new(
                    ErrorKind::Decode,
                    name,
                    "The decoded pixel data does not fill the image",
                ),
            ),
        },
        Err(cause) => Err(ConvertError::new(ErrorKind::Decode, name, cause.as_str())),
    }
}

/// Turns what an encoder handed back for the file `name` into the bytes to
/// write or an encoding failure.
pub fn bytes_from_encoded(name: &str, encoded: Result<Vec<u8>, String>) -> (bytes: Result<
    Vec<u8>,
    ConvertError,
>)
    ensures
        bytes_view(bytes) == encoding_outcome(name@, encoded_view(encoded)),
{
    match encoded {
        Ok(bytes) => Ok(bytes),
        Err(cause) => Err(ConvertError::new(ErrorKind::Encode, name, cause.as_str())),
    }
}

/// Decodes the bytes of the file `name` into an 8-bit RGBA image. The
/// extension of the name selects the decoder; the bytes are not looked at to
/// guess a format.
pub fn decode(name: &str, source: &[u8]) -> (image: Result<Raster, ConvertError>)
    ensures
        decoding_meets(name@, source@, image_view(image)),
        image matches Ok(raster) ==> well_formed(raster@),
{
    match extension(name) {
        None => Err(
            ConvertError::new(ErrorKind::Decode, name, "The image format could not be determined"),
        ),
        Some(ext) => {
            let decoded = decode_rgba8(source, ext.as_str());
            assert(!names_exr(ext@) ==> decoded_view(decoded) == raster_of(
                rgba8_decoded(source@, ext@),
            ));
            raster_from_decoded(name, decoded)
        },
    }
}

/// Encodes an image for the file `name` with an in-memory codec. The WebP
/// encoder is given the quality clamped to `0..=100`.
pub fn encode(name: &str, image: &Raster, codec: MemoryCodec) -> (encoded: Result<
    Vec<u8>,
    ConvertError,
>)
    ensures
        encoding_meets(name@, image@, codec, bytes_view(encoded)),
{
    let width: u32 = image.width();
    let height: u32 = image.height();
    let pixels = image.pixels();
    match codec {
        MemoryCodec::WebP { quality } => {
            if 1 <= width && width <= WEBP_MAX_DIMENSION && 1 <= height && height
                <= WEBP_MAX_DIMENSION {
                bytes_from_encoded(
                    name,
                    webp_encode(pixels, width, height, WEBP_LOSSLESS, clamp_quality(quality)),
                )
            } else {
                Err(
                    ConvertError::new(
                        ErrorKind::Encode,
                        name,
                        "WebP holds images from 1x1 to 16383x16383 pixels",
                    ),
                )
            }
        },
        MemoryCodec::Jpeg { quality } => bytes_from_encoded(
            name,
            jpeg_encode(pixels, width, height, quality),
        ),
        MemoryCodec::Png => bytes_from_encoded(
            name,
            png_encode(pixels, width, height, PNG_FILTER_ROWS),
        ),
    }
}

/// Converts the bytes of the file `name` with an in-memory codec: decodes
/// them, then encodes the image. Returns the bytes to write, or the failure
/// of the step that failed.
pub fn transcode(name: &str, source: &[u8], codec: MemoryCodec) -> (encoded: Result<
    Vec<u8>,
    ConvertError,
>)
    ensures
        transcoding_meets(name@, source@, codec, bytes_view(encoded)),
{
    match decode(name, source) {
        Ok(image) => {
            let encoded = encode(name, &image, codec);
            assert(encoding_follows(name@, Ok(image@), codec, bytes_view(encoded)));
            encoded
        },
        Err(error) => {
            assert(encoding_follows(
                name@,
                Err(error@),
                codec,
                Err::<Seq<u8>, ConvertErrorView>(error@),
            ));
            Err(error)
        },
    }
}

/// A conversion fails only at decoding or at encoding, and always on the
/// file it was asked to convert; and a file whose name has no extension
/// fails at decoding, for want of a format.
pub proof fn lemma_transcoding_fails_by_step(
    name: Seq<char>,
    source: Seq<u8>,
    codec: MemoryCodec,
    result: Result<Seq<u8>, ConvertErrorView>,
)
    requires
        transcoding_meets(name, source, codec, result),
    ensures
        result matches Err(error) ==> error.path == name && (error.kind == ErrorKind::Decode
            || error.kind == ErrorKind::Encode),
        extension_of(name) is None ==> result == Err::<Seq<u8>, ConvertErrorView>(
            failure(ErrorKind::Decode, name, no_format_cause()),
        ),
{
}

/// But for a name with the extension `exr`, a conversion is what follows
/// from the one result of decoding.
pub proof fn lemma_transcoding_is_decided(
    name: Seq<char>,
    source: Seq<u8>,
    codec: MemoryCodec,
    result: Result<Seq<u8>, ConvertErrorView>,
)
    requires
        !decoder_varies(name),
    ensures
        transcoding_meets(name, source, codec, result) <==> encoding_follows(
            name,
            decoding_of(name, source),
            codec,
            result,
        ),
{
    assert(decoding_meets(name, source, decoding_of(name, source)));
}

/// JPEG and PNG take every quality: whether an image is encoded depends on
/// its size alone.
pub proof fn lemma_size_alone_decides(
    name: Seq<char>,
    image: RasterView,
    codec: MemoryCodec,
    result: Result<Seq<u8>, ConvertErrorView>,
)
    requires
        encoding_meets(name, image, codec, result),
    ensures
        codec is Jpeg ==> (result is Ok <==> fits_jpeg(image)),
        codec is Png ==> (result is Ok <==> image.width >= 1 && image.height >= 1),
        codec is WebP && !fits_webp(image) ==> result is Err,
        codec is WebP ==> (result matches Ok(bytes) ==> states_size(
            bytes,
            image.width,
            image.height,
        )),
{
}

} // verus!
