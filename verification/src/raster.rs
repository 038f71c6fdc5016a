//! A decoded image in the one pixel layout that every adapter starts from:
//! 8-bit RGBA, rows from the top, four bytes for each pixel.

use vstd::prelude::*;

verus! {

/// An image as the contracts see it.
pub struct RasterView {
    pub width: nat,
    pub height: nat,
    pub pixels: Seq<u8>,
}

/// The number of bytes that an image of the given size holds.
pub open spec fn byte_len(width: nat, height: nat) -> nat {
    4 * width * height
}

/// Whether the pixel data fills the image exactly.
pub open spec fn well_formed(image: RasterView) -> bool {
    image.pixels.len() == byte_len(image.width, image.height)
}

/// An 8-bit RGBA image. Its pixel data always fills it exactly.
#[derive(Debug)]
pub struct Raster {
    width: u32,
    height: u32,
    pixels: Vec<u8>,
}

impl View for Raster {
    type V = RasterView;

    closed spec fn view(&self) -> RasterView {
        RasterView {
            width: self.width as nat,
            height: self.height as nat,
            pixels: self.pixels@,
        }
    }
}

impl Raster {
    #[verifier::type_invariant]
    spec fn filled(self) -> bool {
        self.pixels@.len() == byte_len(self.width as nat, self.height as nat)
    }

    /// An image of the given size over the given pixel data, where the data
    /// has exactly four bytes for each pixel; otherwise nothing.
    pub fn new(width: u32, height: u32, pixels: Vec<u8>) -> (image: Option<Raster>)
        ensures
            match image {
                Some(r) => r@ == (RasterView {
                    width: width as nat,
                    height: height as nat,
                    pixels: pixels@,
                }) && well_formed(r@),
                None => pixels@.len() != byte_len(width as nat, height as nat),
            },
    {
        let w: u128 = width as u128;
        let h: u128 = height as u128;
        assert(4 * (w * h) <= 4 * (0xffff_ffff * 0xffff_ffff)) by (nonlinear_arith)
            requires
                w <= 0xffff_ffff,
                h <= 0xffff_ffff,
        ;
        assert(4 * (w * h) == byte_len(width as nat, height as nat)) by (nonlinear_arith)
            requires
                w == width,
                h == height,
        ;
        let expected: u128 = 4 * (w * h);
        if pixels.len() as u128 == expected {
            Some(Raster { width, height, pixels })
        } else {
            None
        }
    }

    /// The width in pixels.
    pub fn width(&self) -> (width: u32)
        ensures
            width as nat == self@.width,
    {
        self.width
    }

    /// The height in pixels.
    pub fn height(&self) -> (height: u32)
        ensures
            height as nat == self@.height,
    {
        self.height
    }

    /// The pixel data, which fills the image exactly.
    pub fn pixels(&self) -> (pixels: &Vec<u8>)
        ensures
            pixels@ == self@.pixels,
            well_formed(self@),
    {
        proof {
            use_type_invariant(self);
        }
        &self.pixels
    }
}

} // verus!
