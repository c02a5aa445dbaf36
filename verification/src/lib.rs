//! Verification of reCAPTCHA challenge tokens: validated keys and tokens, the
//! request sent to the `siteverify` endpoint, and the reading of its answer
//! as a typed outcome or error.

pub mod alphabet;
pub mod client;
pub mod decimal;
pub mod errors;
pub mod laws;
pub mod models;
pub mod timestamp;
pub mod variant;
pub mod verification;

pub use client::{ReCaptcha, Reply, SiteVerifyRequest, Step, API_URL};
pub use errors::{ReCaptchaError, ReCaptchaErrorView};
pub use models::{ReCaptchaKey, ReCaptchaToken, ValidationError};
pub use timestamp::Timestamp;
pub use variant::{ReCaptchaVariant, V2, V3};
pub use verification::{ReCaptchaVerification, ReCaptchaVerificationInner, Score};
