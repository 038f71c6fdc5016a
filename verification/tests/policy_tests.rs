use image_converter::adapter::{select_adapter, tiff_settings, Adapter, MemoryCodec, TiffSettings};
use image_converter::policy::{clamp_quality, compression_for_quality, TiffCompression};

#[test]
fn first_band_is_zip() {
    assert_eq!(compression_for_quality(0), TiffCompression::Zip);
    assert_eq!(compression_for_quality(24), TiffCompression::Zip);
    assert_eq!(compression_for_quality(25), TiffCompression::Zip);
}

#[test]
fn second_band_is_lzw() {
    assert_eq!(compression_for_quality(26), TiffCompression::Lzw);
    assert_eq!(compression_for_quality(50), TiffCompression::Lzw);
}

#[test]
fn third_band_is_rle() {
    assert_eq!(compression_for_quality(51), TiffCompression::Rle);
    assert_eq!(compression_for_quality(75), TiffCompression::Rle);
}

#[test]
fn fourth_band_is_undefined() {
    assert_eq!(compression_for_quality(76), TiffCompression::Undefined);
    assert_eq!(compression_for_quality(100), TiffCompression::Undefined);
}

#[test]
fn every_quality_falls_in_its_band() {
    let mut q: u16 = 0;
    while q <= 255 {
        let expected = if q <= 25 {
            TiffCompression::Zip
        } else if q <= 50 {
            TiffCompression::Lzw
        } else if q <= 75 {
            TiffCompression::Rle
        } else {
            TiffCompression::Undefined
        };
        assert_eq!(compression_for_quality(q as u8), expected);
        q += 1;
    }
}

#[test]
fn quality_above_the_range_is_clamped() {
    assert_eq!(clamp_quality(100), 100);
    assert_eq!(clamp_quality(101), 100);
    assert_eq!(clamp_quality(255), 100);
    assert_eq!(clamp_quality(0), 0);
    assert_eq!(clamp_quality(42), 42);
    assert_eq!(compression_for_quality(255), TiffCompression::Undefined);
}

#[test]
fn tiff_settings_carry_band_and_clamped_quality() {
    assert_eq!(
        tiff_settings(30),
        TiffSettings { compression: TiffCompression::Lzw, quality: 30 }
    );
    assert_eq!(
        tiff_settings(200),
        TiffSettings { compression: TiffCompression::Undefined, quality: 100 }
    );
}

#[test]
fn output_types_select_their_adapters() {
    assert_eq!(
        select_adapter("webp", 80),
        Some(Adapter::Memory(MemoryCodec::WebP { quality: 80 }))
    );
    assert_eq!(
        select_adapter("jpeg", 55),
        Some(Adapter::Memory(MemoryCodec::Jpeg { quality: 55 }))
    );
    assert_eq!(select_adapter("png", 10), Some(Adapter::Memory(MemoryCodec::Png)));
    let tiff = Some(Adapter::Tiff(TiffSettings { compression: TiffCompression::Zip, quality: 10 }));
    assert_eq!(select_adapter("tiff", 10), tiff);
    assert_eq!(select_adapter("tif", 10), tiff);
}

#[test]
fn other_output_types_select_nothing() {
    assert_eq!(select_adapter("bmp", 80), None);
    assert_eq!(select_adapter("jpg", 80), None);
    assert_eq!(select_adapter("WEBP", 80), None);
    assert_eq!(select_adapter("", 80), None);
    assert_eq!(select_adapter("*", 80), None);
}

#[test]
fn adapters_get_the_clamped_quality() {
    assert_eq!(
        select_adapter("webp", 180),
        Some(Adapter::Memory(MemoryCodec::WebP { quality: 100 }))
    );
    assert_eq!(
        select_adapter("jpeg", 101),
        Some(Adapter::Memory(MemoryCodec::Jpeg { quality: 100 }))
    );
}
