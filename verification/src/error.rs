//! The errors of decoding and playback.
use vstd::prelude::*;
use vstd::string::StringExecFns;
use serde_json::Error as JsonError;
use image::ImageError;
use std::io::Error as IoError;

verus! {

#[verifier::external_type_specification]
#[verifier::external_body]
pub struct ExIoError(IoError);

#[verifier::external_type_specification]
#[verifier::external_body]
pub struct ExImageError(ImageError);

#[verifier::external_type_specification]
#[verifier::external_body]
pub struct ExJsonError(JsonError);

/// Errors that can occur during GIF decoding or playback.
#[derive(Debug)]
#[non_exhaustive]
pub enum Error {
    /// An I/O error occurred.
    Io(IoError),
    /// The image crate returned an error during decoding.
    Image(ImageError),
    /// JSON (de)serialisation failed (cache metadata).
    Json(JsonError),
    /// The GIF has fewer than 2 frames.
    TooFewFrames,
}

impl From<IoError> for Error {
    fn from(e: IoError) -> (r: Self) {
        Error::Io(e)
    }
}

impl vstd::std_specs::convert::FromSpecImpl<IoError> for Error {
    open spec fn obeys_from_spec() -> bool {
        true
    }

    open spec fn from_spec(e: IoError) -> Self {
        Error::Io(e)
    }
}

impl From<ImageError> for Error {
    fn from(e: ImageError) -> (r: Self) {
        Error::Image(e)
    }
}

impl vstd::std_specs::convert::FromSpecImpl<ImageError> for Error {
    open spec fn obeys_from_spec() -> bool {
        true
    }

    open spec fn from_spec(e: ImageError) -> Self {
        Error::Image(e)
    }
}

impl From<JsonError> for Error {
    fn from(e: JsonError) -> (r: Self) {
        Error::Json(e)
    }
}

impl vstd::std_specs::convert::FromSpecImpl<JsonError> for Error {
    open spec fn obeys_from_spec() -> bool {
        true
    }

    open spec fn from_spec(e: JsonError) -> Self {
        Error::Json(e)
    }
}

/// Calls `Display::fmt` of `std::io::Error` through `format!`; nothing is
/// promised of the text (it comes from the operating system).
#[verifier::external_body]
fn io_error_text(e: &IoError) -> String {
    format!("{e}")
}

/// Calls `Display::fmt` of `image::ImageError` through `format!`; nothing
/// is promised of the text.
#[verifier::external_body]
fn image_error_text(e: &ImageError) -> String {
    format!("{e}")
}

/// Calls `Display::fmt` of `serde_json::Error` through `format!`; nothing
/// is promised of the text.
#[verifier::external_body]
fn json_error_text(e: &JsonError) -> String {
    format!("{e}")
}

/// The text that an error is shown with: a kind prefix, then the cause.
pub open spec fn message_prefix(e: Error) -> Seq<char> {
    match e {
        Error::Io(_) => "I/O error: "@,
        Error::Image(_) => "image error: "@,
        Error::Json(_) => "JSON error: "@,
        Error::TooFewFrames => "need at least 2 frames for animation"@,
    }
}

/// A message made of a prefix and the cause's own text after it.
pub fn with_cause(prefix: &str, cause: String) -> (m: String)
    ensures
        m@ == prefix@ + cause@,
{
    let mut m = String::from_str(prefix);
    m.append(cause.as_str());
    m
}

impl Error {
    /// The error's message: `I/O error: `, `image error: ` or `JSON error: `
    /// followed by the cause's own text (as `with_cause` joins them), or the
    /// fixed text for too few frames.
    pub fn message(&self) -> (m: String)
        ensures
            m@.len() >= message_prefix(*self).len(),
            m@.take(message_prefix(*self).len() as int) == message_prefix(*self),
            self is TooFewFrames ==> m@ == message_prefix(*self),
    {
        let m = match self {
            Error::Io(e) => with_cause("I/O error: ", io_error_text(e)),
            Error::Image(e) => with_cause("image error: ", image_error_text(e)),
            Error::Json(e) => with_cause("JSON error: ", json_error_text(e)),
            Error::TooFewFrames => String::from_str("need at least 2 frames for animation"),
        };
        proof {
            let p = message_prefix(*self);
            assert(m@.take(p.len() as int) =~= p);
        }
        m
    }
}

} // verus!
