//! The errors of a verification.

use vstd::prelude::*;
use vstd::string::*;
use crate::decimal::{decimal, push_decimal};

verus! {

/// Why a verification did not end in an outcome.
#[derive(Debug, Clone)]
pub enum ReCaptchaError {
    /// The secret key is invalid.
    InvalidInputSecret,
    /// The reCAPTCHA token is invalid.
    InvalidReCaptchaToken,
    /// The reCAPTCHA token is no longer valid.
    TimeoutOrDuplicate,
    /// Errors caused by internal malfunctions.
    InternalError(String),
}

/// A `ReCaptchaError` with its text as a sequence of characters.
pub enum ReCaptchaErrorView {
    InvalidInputSecret,
    InvalidReCaptchaToken,
    TimeoutOrDuplicate,
    InternalError(Seq<char>),
}

impl View for ReCaptchaError {
    type V = ReCaptchaErrorView;

    open spec fn view(&self) -> ReCaptchaErrorView {
        match self {
            ReCaptchaError::InvalidInputSecret => ReCaptchaErrorView::InvalidInputSecret,
            ReCaptchaError::InvalidReCaptchaToken => ReCaptchaErrorView::InvalidReCaptchaToken,
            ReCaptchaError::TimeoutOrDuplicate => ReCaptchaErrorView::TimeoutOrDuplicate,
            ReCaptchaError::InternalError(text) => ReCaptchaErrorView::InternalError(text@),
        }
    }
}

impl ReCaptchaErrorView {
    /// The sentence that describes the error.
    pub open spec fn message(self) -> Seq<char> {
        match self {
            ReCaptchaErrorView::InvalidInputSecret => "The secret key is invalid."@,
            ReCaptchaErrorView::InvalidReCaptchaToken => "The reCAPTCHA token is invalid."@,
            ReCaptchaErrorView::TimeoutOrDuplicate => "The reCAPTCHA token is no longer valid."@,
            ReCaptchaErrorView::InternalError(text) => text,
        }
    }
}

/// The text of the error for a required field, `name`, that the answer lacks.
pub open spec fn missing_field_text(name: Seq<char>) -> Seq<char> {
    "There is no `"@ + name + "` field."@
}

/// The text of the error for a timestamp, `stamp`, that cannot be read.
pub open spec fn timestamp_text(stamp: Seq<char>) -> Seq<char> {
    "The format of the timestamp `"@ + stamp + "` is incorrect."@
}

/// The text of the error for a response with the status `status`.
pub open spec fn status_text(status: u16) -> Seq<char> {
    "The response status code of the `siteverify` API is "@ + decimal(status as nat) + "."@
}

/// The text of the error for a list of error codes with no known code in it.
pub open spec fn unexpected_codes_text() -> Seq<char> {
    "No expected error codes."@
}

/// The text of the error for a refusal that comes without a list of error codes.
pub open spec fn no_codes_text() -> Seq<char> {
    "No error codes."@
}

impl ReCaptchaError {
    /// The error for a required field, `name`, that the answer lacks.
    pub fn missing_field(name: &str) -> (error: Self)
        ensures
            error@ == ReCaptchaErrorView::InternalError(missing_field_text(name@)),
    {
        let mut text = "There is no `".to_owned();
        text.append(name);
        text.append("` field.");
        ReCaptchaError::InternalError(text)
    }

    /// The error for a timestamp, `stamp`, that cannot be read.
    pub fn malformed_timestamp(stamp: &str) -> (error: Self)
        ensures
            error@ == ReCaptchaErrorView::InternalError(timestamp_text(stamp@)),
    {
        let mut text = "The format of the timestamp `".to_owned();
        text.append(stamp);
        text.append("` is incorrect.");
        ReCaptchaError::InternalError(text)
    }

    /// The error for a response with the status `status`.
    pub fn unexpected_status(status: u16) -> (error: Self)
        ensures
            error@ == ReCaptchaErrorView::InternalError(status_text(status)),
    {
        let mut text = "The response status code of the `siteverify` API is ".to_owned();
        push_decimal(&mut text, status);
        text.append(".");
        ReCaptchaError::InternalError(text)
    }

    /// The error for a list of error codes with no known code in it.
    pub fn unexpected_codes() -> (error: Self)
        ensures
            error@ == ReCaptchaErrorView::InternalError(unexpected_codes_text()),
    {
        ReCaptchaError::InternalError("No expected error codes.".to_owned())
    }

    /// The error for a refusal that comes without a list of error codes.
    pub fn no_codes() -> (error: Self)
        ensures
            error@ == ReCaptchaErrorView::InternalError(no_codes_text()),
    {
        ReCaptchaError::InternalError("No error codes.".to_owned())
    }

    /// The sentence that describes the error.
    pub fn message(&self) -> (text: String)
        ensures
            text@ == self@.message(),
    {
        match self {
            ReCaptchaError::InvalidInputSecret => "The secret key is invalid.".to_owned(),
            ReCaptchaError::InvalidReCaptchaToken => "The reCAPTCHA token is invalid.".to_owned(),
            ReCaptchaError::TimeoutOrDuplicate => {
                "The reCAPTCHA token is no longer valid.".to_owned()
            },
            ReCaptchaError::InternalError(text) => text.clone(),
        }
    }
}

} // verus!
