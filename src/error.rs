use vstd::prelude::*;
use vstd::utf8::{decode_utf8, valid_utf8};

verus! {

/// A failure reported by the platform layer, carrying a human-readable
/// message.
#[derive(Debug)]
pub struct SdlError {
    pub message: String,
}

pub type SdlResult<T> = Result<T, SdlError>;

/// The text of the error that `std::str::from_utf8` reports for `bytes`.
pub uninterp spec fn utf8_error_text(bytes: Seq<u8>) -> Seq<char>;

/// Relies on `std::str::from_utf8`: it succeeds exactly when `bytes` is valid
/// UTF-8, and then yields the decoded text. On failure the error's display
/// text is returned instead.
#[verifier::external_body]
fn decode_text(bytes: &[u8]) -> (r: Result<String, String>)
    ensures
        match r {
            Ok(text) => valid_utf8(bytes@) && text@ == decode_utf8(bytes@),
            Err(text) => !valid_utf8(bytes@) && text@ == utf8_error_text(bytes@),
        },
{
    match std::str::from_utf8(bytes) {
        Ok(text) => Ok(text.to_string()),
        Err(error) => Err(error.to_string()),
    }
}

/// The message of an error whose platform description is `bytes`: the
/// decoded description after an `SDL Error: ` prefix, or, when the bytes are
/// not UTF-8, the decoding error after a `Utf8Error: ` prefix.
pub open spec fn platform_message(bytes: Seq<u8>) -> Seq<char> {
    if valid_utf8(bytes) {
        "SDL Error: "@ + decode_utf8(bytes)
    } else {
        "Utf8Error: "@ + utf8_error_text(bytes)
    }
}

impl SdlError {
    /// Builds the error for a failed platform call from the bytes of the
    /// platform's description of its last error (without a terminator; empty
    /// when there is none).
    pub fn from_platform_bytes(bytes: &[u8]) -> (r: SdlError)
        ensures
            r.message@ == platform_message(bytes@),
    {
        let (mut message, detail) = match decode_text(bytes) {
            Ok(text) => (String::from_str("SDL Error: "), text),
            Err(text) => (String::from_str("Utf8Error: "), text),
        };
        message.append(detail.as_str());
        SdlError { message }
    }
}

/// The outcome of a platform call that signals failure in its return value:
/// a `bool` that is `false` on failure, or a handle that is absent (null) on
/// failure.
pub trait SdlFunctionResult<T>: Sized {
    /// Whether the call succeeded.
    spec fn succeeded(&self) -> bool;

    /// What a successful call produced.
    spec fn produced(&self) -> T;

    /// Turns the outcome into a `Result`. On failure the error is obtained
    /// from `current_error`, which is called exactly then.
    fn ok<F: FnOnce() -> SdlError>(self, current_error: F) -> (r: SdlResult<T>)
        requires
            current_error.requires(()),
        ensures
            match r {
                Ok(v) => self.succeeded() && v == self.produced(),
                Err(e) => !self.succeeded() && current_error.ensures((), e),
            },
    ;
}

impl SdlFunctionResult<()> for bool {
    open spec fn succeeded(&self) -> bool {
        *self
    }

    open spec fn produced(&self) -> () {
        ()
    }

    fn ok<F: FnOnce() -> SdlError>(self, current_error: F) -> (r: SdlResult<()>) {
        if self {
            Ok(())
        } else {
            Err(current_error())
        }
    }
}

impl<T> SdlFunctionResult<T> for Option<T> {
    open spec fn succeeded(&self) -> bool {
        self is Some
    }

    open spec fn produced(&self) -> T {
        self->Some_0
    }

    fn ok<F: FnOnce() -> SdlError>(self, current_error: F) -> (r: SdlResult<T>) {
        match self {
            Some(handle) => Ok(handle),
            None => Err(current_error()),
        }
    }
}

} // verus!
