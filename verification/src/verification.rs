//! The answer of the `siteverify` endpoint and what it comes to.

use vstd::prelude::*;
use vstd::string::*;
use crate::errors::{
    missing_field_text, no_codes_text, timestamp_text, unexpected_codes_text, ReCaptchaError,
    ReCaptchaErrorView,
};
use crate::timestamp::{moment_of, parse_moment, Timestamp};

verus! {

/// The bits of the double-precision number 1.0.
pub const FULL_SCORE_BITS: u64 = 0x3ff0_0000_0000_0000;

/// A score between 0.0 and 1.0, held as the bits of a double-precision number.
/// The higher the more human.
#[derive(Debug, Clone, Copy, PartialEq, Eq, Structural)]
pub struct Score {
    pub bits: u64,
}

impl Score {
    /// The score 1.0, which stands in where the answer gives none.
    pub open spec fn spec_full() -> Score {
        Score { bits: FULL_SCORE_BITS }
    }

    /// The score 1.0, which stands in where the answer gives none.
    #[verifier::when_used_as_spec(spec_full)]
    pub fn full() -> (score: Score)
        ensures
            score == Score::spec_full(),
    {
        Score { bits: FULL_SCORE_BITS }
    }

    /// The score with the given bits.
    pub fn from_bits(bits: u64) -> (score: Score)
        ensures
            score.bits == bits,
    {
        Score { bits }
    }

    /// The bits of the score.
    pub fn to_bits(&self) -> (bits: u64)
        ensures
            bits == self.bits,
    {
        self.bits
    }
}

/// A challenge that the endpoint has accepted.
#[derive(Debug, Clone)]
pub struct ReCaptchaVerification {
    /// The score for this verification (0.0 - 1.0). The higher the more human.
    pub score: Score,
    /// The action name for this verification, where the answer gives one.
    pub action: Option<String>,
    /// The timestamp of the challenge load.
    pub challenge_ts: Timestamp,
    /// The hostname of the site where the reCAPTCHA was solved.
    pub hostname: String,
}

/// A `ReCaptchaVerification` with its texts as sequences of characters.
pub struct ReCaptchaVerificationView {
    pub score: Score,
    pub action: Option<Seq<char>>,
    pub challenge_ts: Timestamp,
    pub hostname: Seq<char>,
}

impl View for ReCaptchaVerification {
    type V = ReCaptchaVerificationView;

    open spec fn view(&self) -> ReCaptchaVerificationView {
        ReCaptchaVerificationView {
            score: self.score,
            action: self.action.deep_view(),
            challenge_ts: self.challenge_ts,
            hostname: self.hostname@,
        }
    }
}

/// The answer of the endpoint, field by field as its JSON object gives them.
#[derive(Debug, Clone)]
pub struct ReCaptchaVerificationInner {
    pub success: bool,
    pub score: Option<Score>,
    pub action: Option<String>,
    pub challenge_ts: Option<String>,
    pub hostname: Option<String>,
    pub error_codes: Option<Vec<String>>,
}

/// A `ReCaptchaVerificationInner` with its texts as sequences of characters.
pub struct ReCaptchaVerificationInnerView {
    pub success: bool,
    pub score: Option<Score>,
    pub action: Option<Seq<char>>,
    pub challenge_ts: Option<Seq<char>>,
    pub hostname: Option<Seq<char>>,
    pub error_codes: Option<Seq<Seq<char>>>,
}

impl View for ReCaptchaVerificationInner {
    type V = ReCaptchaVerificationInnerView;

    open spec fn view(&self) -> ReCaptchaVerificationInnerView {
        ReCaptchaVerificationInnerView {
            success: self.success,
            score: self.score,
            action: self.action.deep_view(),
            challenge_ts: self.challenge_ts.deep_view(),
            hostname: self.hostname.deep_view(),
            error_codes: self.error_codes.deep_view(),
        }
    }
}

/// The result of a verification with its texts as sequences of characters.
pub open spec fn result_view(
    result: Result<ReCaptchaVerification, ReCaptchaError>,
) -> Result<ReCaptchaVerificationView, ReCaptchaErrorView> {
    match result {
        Ok(verification) => Ok(verification@),
        Err(error) => Err(error@),
    }
}

/// The error code for a secret key that the endpoint does not know.
pub open spec fn secret_code() -> Seq<char> {
    "invalid-input-secret"@
}

/// The error code for a token that the endpoint cannot read.
pub open spec fn response_code() -> Seq<char> {
    "invalid-input-response"@
}

/// The error code for a token that is too old or was seen before.
pub open spec fn timeout_code() -> Seq<char> {
    "timeout-or-duplicate"@
}

/// The error that a refusal with the error codes `codes` comes to: the first
/// of the three known codes that the list holds decides, in the order secret
/// key, token, timeout.
pub open spec fn rejection(codes: Option<Seq<Seq<char>>>) -> ReCaptchaErrorView {
    match codes {
        None => ReCaptchaErrorView::InternalError(no_codes_text()),
        Some(codes) => if codes.contains(secret_code()) {
            ReCaptchaErrorView::InvalidInputSecret
        } else if codes.contains(response_code()) {
            ReCaptchaErrorView::InvalidReCaptchaToken
        } else if codes.contains(timeout_code()) {
            ReCaptchaErrorView::TimeoutOrDuplicate
        } else {
            ReCaptchaErrorView::InternalError(unexpected_codes_text())
        },
    }
}

/// What an accepting answer comes to, given the moment `moment` that was read
/// out of its timestamp.
pub open spec fn acceptance(
    answer: ReCaptchaVerificationInnerView,
    moment: Option<Timestamp>,
) -> Result<ReCaptchaVerificationView, ReCaptchaErrorView> {
    match (answer.challenge_ts, answer.hostname, moment) {
        (None, _, _) => Err(ReCaptchaErrorView::InternalError(missing_field_text("challenge_ts"@))),
        (Some(_), None, _) => Err(
            ReCaptchaErrorView::InternalError(missing_field_text("hostname"@)),
        ),
        (Some(stamp), Some(_), None) => Err(
            ReCaptchaErrorView::InternalError(timestamp_text(stamp)),
        ),
        (Some(_), Some(hostname), Some(challenge_ts)) => Ok(
            ReCaptchaVerificationView {
                score: match answer.score {
                    Some(score) => score,
                    None => Score::spec_full(),
                },
                action: answer.action,
                challenge_ts,
                hostname,
            },
        ),
    }
}

/// The moment that the timestamp of `answer` denotes, where it has one that
/// denotes one.
pub open spec fn answer_moment(answer: ReCaptchaVerificationInnerView) -> Option<Timestamp> {
    match answer.challenge_ts {
        Some(stamp) => moment_of(stamp),
        None => None,
    }
}

/// What an answer comes to.
pub open spec fn interpretation(answer: ReCaptchaVerificationInnerView) -> Result<
    ReCaptchaVerificationView,
    ReCaptchaErrorView,
> {
    if answer.success {
        acceptance(answer, answer_moment(answer))
    } else {
        Err(rejection(answer.error_codes))
    }
}

/// Tells whether `code` is among `codes`.
pub fn holds_code(codes: &Vec<String>, code: &str) -> (found: bool)
    ensures
        found == codes.deep_view().contains(code@),
{
    let wanted = code.to_owned();
    let mut i: usize = 0;
    while i < codes.len()
        invariant
            i <= codes@.len(),
            wanted@ == code@,
            forall|j: int| 0 <= j < i ==> (#[trigger] codes.deep_view()[j]) != code@,
        decreases codes@.len() - i,
    {
        if codes[i] == wanted {
            assert(codes.deep_view()[i as int] == code@);
            return true;
        }
        assert(codes.deep_view()[i as int] == codes@[i as int]@);
        i += 1;
    }
    false
}

/// The error that a refusal with the error codes `codes` comes to.
pub fn rejected(codes: &Option<Vec<String>>) -> (error: ReCaptchaError)
    ensures
        error@ == rejection(codes.deep_view()),
{
    match codes {
        Some(codes) => {
            if holds_code(codes, "invalid-input-secret") {
                ReCaptchaError::InvalidInputSecret
            } else if holds_code(codes, "invalid-input-response") {
                ReCaptchaError::InvalidReCaptchaToken
            } else if holds_code(codes, "timeout-or-duplicate") {
                ReCaptchaError::TimeoutOrDuplicate
            } else {
                ReCaptchaError::unexpected_codes()
            }
        },
        None => ReCaptchaError::no_codes(),
    }
}

impl ReCaptchaVerificationInner {
    /// What this answer comes to as an accepting one, given the moment that
    /// was read out of its timestamp.
    pub fn accepted(self, moment: Option<Timestamp>) -> (result: Result<
        ReCaptchaVerification,
        ReCaptchaError,
    >)
        ensures
            result_view(result) == acceptance(self@, moment),
    {
        let score = match self.score {
            Some(score) => score,
            None => Score::full(),
        };
        let stamp = match self.challenge_ts {
            Some(stamp) => stamp,
            None => { return Err(ReCaptchaError::missing_field("challenge_ts")); },
        };
        let hostname = match self.hostname {
            Some(hostname) => hostname,
            None => { return Err(ReCaptchaError::missing_field("hostname")); },
        };
        match moment {
            Some(challenge_ts) => Ok(
                ReCaptchaVerification { score, action: self.action, challenge_ts, hostname },
            ),
            None => Err(ReCaptchaError::malformed_timestamp(stamp.as_str())),
        }
    }

    /// What this answer comes to.
    pub fn interpret(self) -> (result: Result<ReCaptchaVerification, ReCaptchaError>)
        ensures
            result_view(result) == interpretation(self@),
    {
        if self.success {
            let moment = match &self.challenge_ts {
                Some(stamp) => parse_moment(stamp.as_str()),
                None => None,
            };
            self.accepted(moment)
        } else {
            Err(rejected(&self.error_codes))
        }
    }
}

} // verus!
