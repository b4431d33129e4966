//! The canonical image representation: a rectangular buffer of positive
//! 32-bit dimensions holding exactly `width * height * 4` interleaved RGBA
//! bytes. Any mismatch is a fatal validation error, never a silent truncation
//! or padding. A validated image can be encoded to PNG bytes.

use vstd::prelude::*;

use crate::errors::Error;

verus! {

/// A validated rectangular RGBA pixel buffer.
#[derive(Debug)]
pub struct PixelImage {
    pub width: u32,
    pub height: u32,
    pub bytes: Vec<u8>,
}

/// True when the dimensions are positive and each fits a 32-bit width.
pub open spec fn dims_valid(width: int, height: int) -> bool {
    &&& 1 <= width <= u32::MAX
    &&& 1 <= height <= u32::MAX
}

impl PixelImage {
    /// The invariant every constructed image carries: positive dimensions and
    /// exactly four bytes per pixel.
    pub open spec fn wf(self) -> bool {
        &&& self.width >= 1
        &&& self.height >= 1
        &&& self.bytes@.len() == self.width * self.height * 4
    }

    /// Validates a raw buffer into an image. Succeeds exactly when the
    /// dimensions are positive, each fits in 32 bits, and the byte length is
    /// exactly `width * height * 4`; the result then holds the inputs
    /// unchanged. Everything else is an `ImageValidationError`.
    pub fn from_raw(width: usize, height: usize, bytes: Vec<u8>) -> (r: Result<PixelImage, Error>)
        ensures
            r matches Ok(img) ==> img.width == width && img.height == height && img.bytes@
                == bytes@ && img.wf(),
            (r matches Ok(img)) <==> (dims_valid(width as int, height as int) && bytes@.len()
                == width * height * 4),
            r matches Err(e) ==> e == Error::ImageValidationError,
    {
        if width == 0 || height == 0 || width > 0xFFFF_FFFF || height > 0xFFFF_FFFF {
            return Err(Error::ImageValidationError);
        }
        let w = width as u32;
        let h = height as u32;
        proof {
            assert((w as int) * (h as int) <= 0xFFFF_FFFFu64 * 0xFFFF_FFFFu64) by (nonlinear_arith)
                requires
                    w <= 0xFFFF_FFFFu64,
                    h <= 0xFFFF_FFFFu64,
            ;
        }
        let pixels: u64 = (w as u64) * (h as u64);
        let len64: u64 = bytes.len() as u64;
        if len64 % 4 == 0 && len64 / 4 == pixels {
            Ok(PixelImage { width: w, height: h, bytes })
        } else {
            Err(Error::ImageValidationError)
        }
    }
}

/// The PNG encoding of an RGBA buffer of the given dimensions. The encoder is
/// deterministic: the bytes depend on the arguments alone.
pub uninterp spec fn png_bytes_of(width: u32, height: u32, bytes: Seq<u8>) -> Seq<u8>;

/// Relies on `image::codecs::png::PngEncoder` through `ImageEncoder::
/// write_image` with the `Rgba8` color type: encodes the buffer as lossless
/// PNG into memory; the output depends on the arguments alone. The invariant
/// rules out every failure the encoder has: the dimensions are positive, the
/// buffer length is exactly the demanded `width * height * 4` (which also
/// keeps the encoder's row arithmetic within `usize`), the color and depth
/// combination is fixed and valid, and a write into an in-memory `Vec` cannot
/// fail. The call is therefore owed success.
#[verifier::external_body]
fn encode_png(img: &PixelImage) -> (r: Result<Vec<u8>, Error>)
    requires
        img.wf(),
    ensures
        r is Ok,
        r matches Ok(png) ==> png@ == png_bytes_of(img.width, img.height, img.bytes@),
{
    let mut out: Vec<u8> = Vec::new();
    let encoder = image::codecs::png::PngEncoder::new(&mut out);
    let written = image::ImageEncoder::write_image(
        encoder,
        img.bytes.as_slice(),
        img.width,
        img.height,
        image::ExtendedColorType::Rgba8,
    );
    match written {
        Ok(()) => Ok(out),
        Err(_) => Err(Error::WriteError),
    }
}

/// Encodes a validated image to the bytes of a lossless PNG file, ready to be
/// written to disk. Encoding a well-formed image always succeeds; only the
/// write to disk, which the caller performs, can still fail.
pub fn encode_image(img: &PixelImage) -> (r: Vec<u8>)
    requires
        img.wf(),
    ensures
        r@ == png_bytes_of(img.width, img.height, img.bytes@),
{
    match encode_png(img) {
        Ok(png) => png,
        Err(_) => vstd::pervasive::unreached(),
    }
}

} // verus!
