//! The capture orchestrator: resolves the save directory from the overrides,
//! computes the timestamped save path, reads and validates the clipboard
//! image, and encodes it to PNG bytes. Each step short-circuits on its first
//! failure, and the error kind names the step that failed. Writing the bytes
//! to disk is the caller's final step.

use vstd::prelude::*;

use crate::clipboard::get_image_from_clipboard;
use crate::errors::Error;
use crate::filename::get_save_filename;
use crate::filename::save_path_chars;
use crate::filename::Timestamp;
use crate::pixels::encode_image;
use crate::pixels::png_bytes_of;
use crate::pixels::PixelImage;
use crate::resolve::chosen_directory;
use crate::resolve::get_save_directory;
use crate::resolve::has_dollar;
use crate::resolve::opt_chars;
use crate::resolve::starts_tilde;

verus! {

/// Everything a successful capture produces: the absolute save path, the
/// validated image, and its PNG encoding, ready to be written at the path.
pub struct Capture {
    pub path: String,
    pub image: PixelImage,
    pub png: Vec<u8>,
}

/// Runs one capture: resolve the directory from the overrides (command line
/// first, then configuration, then `"."`), join it with a filename stamped
/// with the current local second, read and validate the clipboard image, and
/// encode it as PNG. Fails with `PathExpansionError` only when the chosen
/// override holds a `$` reference; any other failure comes from the clipboard
/// read or the validation, named by its kind — encoding a validated image
/// cannot fail, and the write to disk is the caller's step.
pub fn clipsaver(cli_directory: &Option<String>, config_directory: &Option<String>) -> (r: Result<
    Capture,
    Error,
>)
    ensures
        r matches Ok(c) ==> c.image.wf() && c.png@ == png_bytes_of(
            c.image.width,
            c.image.height,
            c.image.bytes@,
        ),
        r matches Ok(c) ==> exists|dir: Seq<char>, ts: Timestamp|
            ts.wf() && c.path@ == save_path_chars(dir, ts),
        r matches Ok(c) ==> (!has_dollar(
            chosen_directory(opt_chars(*cli_directory), opt_chars(*config_directory)),
        ) && !starts_tilde(
            chosen_directory(opt_chars(*cli_directory), opt_chars(*config_directory)),
        ) ==> exists|ts: Timestamp|
            ts.wf() && c.path@ == save_path_chars(
                chosen_directory(opt_chars(*cli_directory), opt_chars(*config_directory)),
                ts,
            )),
        r matches Ok(c) ==> (!has_dollar(
            chosen_directory(opt_chars(*cli_directory), opt_chars(*config_directory)),
        ) && starts_tilde(
            chosen_directory(opt_chars(*cli_directory), opt_chars(*config_directory)),
        ) ==> exists|home: Seq<char>, ts: Timestamp|
            ts.wf() && c.path@ == save_path_chars(
                home + chosen_directory(
                    opt_chars(*cli_directory),
                    opt_chars(*config_directory),
                ).skip(1),
                ts,
            )),
        r matches Err(e) ==> e == Error::PathExpansionError || e == Error::ClipboardUnavailable
            || e == Error::NoImageOnClipboard || e == Error::ImageValidationError,
        r matches Err(e) && e == Error::PathExpansionError ==> has_dollar(
            chosen_directory(opt_chars(*cli_directory), opt_chars(*config_directory)),
        ),
{
    let directory = match get_save_directory(cli_directory, config_directory) {
        Ok(d) => d,
        Err(e) => {
            return Err(e);
        },
    };
    let path = get_save_filename(directory.as_str());
    let image = match get_image_from_clipboard() {
        Ok(img) => img,
        Err(e) => {
            return Err(e);
        },
    };
    let png = encode_image(&image);
    proof {
        let ts = choose|ts: Timestamp| ts.wf() && path@ == save_path_chars(directory@, ts);
        assert(ts.wf() && path@ == save_path_chars(directory@, ts));
        let chosen = chosen_directory(opt_chars(*cli_directory), opt_chars(*config_directory));
        if !has_dollar(chosen) && starts_tilde(chosen) {
            let home = choose|home: Seq<char>| directory@ == home + chosen.skip(1);
            assert(directory@ == home + chosen.skip(1));
            assert(ts.wf() && path@ == save_path_chars(home + chosen.skip(1), ts));
        }
    }
    Ok(Capture { path, image, png })
}

} // verus!
