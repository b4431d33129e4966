//! The failure taxonomy of the capture pipeline. Each step that can fail
//! reports a distinct kind, and each kind carries a distinct human-readable
//! message, so a user can tell which step went wrong.

use vstd::prelude::*;

verus! {

/// One error kind per failing step of the pipeline.
#[derive(Clone, Copy, Debug, PartialEq, Eq, Structural)]
pub enum Error {
    /// The persisted configuration could not be read or parsed.
    ConfigError,
    /// Shell expansion of the chosen directory override failed.
    PathExpansionError,
    /// The system clipboard service could not be reached.
    ClipboardUnavailable,
    /// The clipboard holds no image content.
    NoImageOnClipboard,
    /// The clipboard image's dimensions or byte length are inconsistent.
    ImageValidationError,
    /// The encoded image could not be produced or written.
    WriteError,
}

/// The message that `Error::message` returns for each kind.
pub open spec fn message_chars(e: Error) -> Seq<char> {
    match e {
        Error::ConfigError => "configuration could not be read"@,
        Error::PathExpansionError => "could not expand the save directory path"@,
        Error::ClipboardUnavailable => "the system clipboard is unavailable"@,
        Error::NoImageOnClipboard => "the clipboard does not hold an image"@,
        Error::ImageValidationError => "the clipboard image failed validation"@,
        Error::WriteError => "the image could not be written"@,
    }
}

impl Error {
    /// A human-readable description of this error kind.
    pub fn message(&self) -> (r: String)
        ensures
            r@ == message_chars(*self),
    {
        match self {
            Error::ConfigError => "configuration could not be read".to_owned(),
            Error::PathExpansionError => "could not expand the save directory path".to_owned(),
            Error::ClipboardUnavailable => "the system clipboard is unavailable".to_owned(),
            Error::NoImageOnClipboard => "the clipboard does not hold an image".to_owned(),
            Error::ImageValidationError => "the clipboard image failed validation".to_owned(),
            Error::WriteError => "the image could not be written".to_owned(),
        }
    }
}

/// Distinct error kinds carry distinct messages, so a report always tells
/// which step failed.
pub proof fn lemma_messages_distinguish_errors(a: Error, b: Error)
    requires
        a != b,
    ensures
        message_chars(a) != message_chars(b),
{
    reveal_strlit("configuration could not be read");
    reveal_strlit("could not expand the save directory path");
    reveal_strlit("the system clipboard is unavailable");
    reveal_strlit("the clipboard does not hold an image");
    reveal_strlit("the clipboard image failed validation");
    reveal_strlit("the image could not be written");
    assert(message_chars(Error::ConfigError).len() == 31);
    assert(message_chars(Error::PathExpansionError).len() == 40);
    assert(message_chars(Error::ClipboardUnavailable).len() == 35);
    assert(message_chars(Error::NoImageOnClipboard).len() == 36);
    assert(message_chars(Error::ImageValidationError).len() == 37);
    assert(message_chars(Error::WriteError).len() == 30);
}

} // verus!
