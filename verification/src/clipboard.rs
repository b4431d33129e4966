//! The clipboard image reader: acquires the system clipboard, asks it for the
//! current content as a raw pixel buffer, and validates that buffer into a
//! `PixelImage`. The handle is scoped to the single read and released on
//! every path. Each failure is a distinct kind: the clipboard service being
//! unreachable, the clipboard holding no image, or the raw buffer failing
//! validation.

use vstd::prelude::*;

use crate::errors::Error;
use crate::pixels::dims_valid;
use crate::pixels::PixelImage;

verus! {

/// The raw pixel buffer as the clipboard hands it out, not yet validated.
pub struct ClipboardPixels {
    pub width: usize,
    pub height: usize,
    pub bytes: Vec<u8>,
}

#[verifier::external_type_specification]
#[verifier::external_body]
pub struct ExClipboard(arboard::Clipboard);

/// Relies on `arboard::Clipboard::new`: acquires the system clipboard, which
/// fails when no clipboard service is available or supported. Whether it
/// succeeds depends on the environment alone; a failure becomes
/// `ClipboardUnavailable`.
#[verifier::external_body]
fn clipboard_new() -> (r: Result<arboard::Clipboard, Error>)
    ensures
        r matches Err(e) ==> e == Error::ClipboardUnavailable,
{
    match arboard::Clipboard::new() {
        Ok(clipboard) => Ok(clipboard),
        Err(_) => Err(Error::ClipboardUnavailable),
    }
}

/// Relies on `arboard::Clipboard::get_image`: a single atomic query for the
/// current clipboard content as raw RGBA pixels. `ContentNotAvailable` and
/// `ConversionFailure` mean the clipboard holds nothing usable as an image
/// (`NoImageOnClipboard`); every other failure is the service being
/// inaccessible (`ClipboardUnavailable`). What comes back depends on what the
/// clipboard holds; nothing is assumed of the buffer.
#[verifier::external_body]
fn clipboard_get_image(clipboard: &mut arboard::Clipboard) -> (r: Result<ClipboardPixels, Error>)
    ensures
        r matches Err(e) ==> e == Error::NoImageOnClipboard || e == Error::ClipboardUnavailable,
{
    match clipboard.get_image() {
        Ok(img) => Ok(
            ClipboardPixels {
                width: img.width,
                height: img.height,
                bytes: img.bytes.into_owned(),
            },
        ),
        Err(arboard::Error::ContentNotAvailable) => Err(Error::NoImageOnClipboard),
        Err(arboard::Error::ConversionFailure) => Err(Error::NoImageOnClipboard),
        Err(_) => Err(Error::ClipboardUnavailable),
    }
}

/// Turns a clipboard read's outcome into a validated image. A read failure is
/// passed through exactly as it came; a raw buffer is validated and succeeds
/// exactly when its dimensions are positive 32-bit values and its length is
/// exactly `width * height * 4`.
pub fn capture_image(raw: Result<ClipboardPixels, Error>) -> (r: Result<PixelImage, Error>)
    ensures
        raw matches Err(e) ==> r == Err::<PixelImage, Error>(e),
        raw matches Ok(c) ==> {
            &&& (r matches Ok(img) ==> img.width == c.width && img.height == c.height && img.bytes@
                == c.bytes@ && img.wf())
            &&& ((r matches Ok(img)) <==> (dims_valid(c.width as int, c.height as int)
                && c.bytes@.len() == c.width * c.height * 4))
            &&& (r matches Err(e) ==> e == Error::ImageValidationError)
        },
{
    match raw {
        Ok(c) => PixelImage::from_raw(c.width, c.height, c.bytes),
        Err(e) => Err(e),
    }
}

/// Turns a clipboard acquisition's outcome into the image read. An
/// acquisition failure surfaces exactly as it came; an acquired clipboard is
/// queried once, for the scope of this call, and its raw buffer validated.
pub fn image_from_acquisition(acquired: Result<arboard::Clipboard, Error>) -> (r: Result<
    PixelImage,
    Error,
>)
    ensures
        acquired matches Err(e) ==> r == Err::<PixelImage, Error>(e),
        r matches Ok(img) ==> img.wf(),
        acquired is Ok ==> (r matches Err(e) ==> e == Error::NoImageOnClipboard || e
            == Error::ClipboardUnavailable || e == Error::ImageValidationError),
{
    match acquired {
        Ok(mut clipboard) => {
            let raw = clipboard_get_image(&mut clipboard);
            capture_image(raw)
        },
        Err(e) => Err(e),
    }
}

/// Reads the current clipboard image: acquires the clipboard for the scope of
/// one query, reads the raw buffer, and validates it. On success the image is
/// well formed; on failure the error names the failing step, and an
/// acquisition failure passes through `image_from_acquisition` unchanged.
pub fn get_image_from_clipboard() -> (r: Result<PixelImage, Error>)
    ensures
        r matches Ok(img) ==> img.wf(),
        r matches Err(e) ==> e == Error::ClipboardUnavailable || e == Error::NoImageOnClipboard
            || e == Error::ImageValidationError,
{
    image_from_acquisition(clipboard_new())
}

} // verus!
