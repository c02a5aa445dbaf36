//! The two variants of the protocol.

use vstd::prelude::*;

verus! {

/// A variant of the protocol, known by the label under which its keys are
/// configured.
pub trait ReCaptchaVariant: Sync + Send + 'static {
    /// The label of the variant.
    fn get_version_str(&self) -> &'static str;
}

/// The variant whose answers carry a score.
#[derive(Debug, Clone, Copy)]
pub struct V3;

impl ReCaptchaVariant for V3 {
    fn get_version_str(&self) -> (label: &'static str)
        ensures
            label@ == "v3"@,
    {
        "v3"
    }
}

/// The variant whose answers only pass or fail.
#[derive(Debug, Clone, Copy)]
pub struct V2;

impl ReCaptchaVariant for V2 {
    fn get_version_str(&self) -> (label: &'static str)
        ensures
            label@ == "v2"@,
    {
        "v2"
    }
}

} // verus!
