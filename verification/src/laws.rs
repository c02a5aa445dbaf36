//! What holds of every key, token and answer.

use vstd::prelude::*;
use vstd::utf8::encode_utf8;
use crate::alphabet::{lemma_url_safe_encoding, url_safe_char};
use crate::client::{step_after, success_status, ReplyView, StepView};
use crate::decimal::{decimal, digit, digit_value, number_of};
use crate::errors::ReCaptchaErrorView;
use crate::models::{key_check, key_text, token_check, token_text, ValidationError, KEY_LENGTH};
use crate::verification::{
    interpretation, rejection, response_code, secret_code, timeout_code,
    ReCaptchaVerificationInnerView, Score,
};

verus! {

/// A text passes as a key exactly when it is forty characters of the
/// alphabet; any other text is refused as `KeyFormat`.
pub proof fn law_key_pattern(text: Seq<char>)
    ensures
        key_text(text) ==> key_check(encode_utf8(text)) == Ok::<(), ValidationError>(()),
        !key_text(text) ==> key_check(encode_utf8(text)) == Err::<(), ValidationError>(
            ValidationError::KeyFormat,
        ),
{
    lemma_url_safe_encoding(text);
}

/// A text of another length than forty, or with a character outside the
/// alphabet, is no key.
pub proof fn law_key_refused(text: Seq<char>, i: int)
    requires
        text.len() != KEY_LENGTH || (0 <= i < text.len() && !url_safe_char(text[i])),
    ensures
        key_check(encode_utf8(text)) == Err::<(), ValidationError>(ValidationError::KeyFormat),
{
    law_key_pattern(text);
}

/// A text passes as a token exactly when it is one or more characters of the
/// alphabet.
pub proof fn law_token_pattern(text: Seq<char>)
    ensures
        token_check(encode_utf8(text)) is Ok <==> token_text(text),
{
    lemma_url_safe_encoding(text);
}

/// A text that holds a padding sign, or any other character outside the
/// alphabet, is no token.
pub proof fn law_token_refused(text: Seq<char>, i: int)
    requires
        0 <= i < text.len(),
        !url_safe_char(text[i]),
    ensures
        token_check(encode_utf8(text)) is Err,
{
    law_token_pattern(text);
}

/// Among the error codes of a refusal, the secret key's comes first, then the
/// token's, then the timeout's, wherever in the list each stands.
pub proof fn law_rejection_precedence(codes: Seq<Seq<char>>)
    ensures
        codes.contains(secret_code()) ==> rejection(Some(codes))
            == ReCaptchaErrorView::InvalidInputSecret,
        !codes.contains(secret_code()) && codes.contains(response_code()) ==> rejection(
            Some(codes),
        ) == ReCaptchaErrorView::InvalidReCaptchaToken,
        !codes.contains(secret_code()) && !codes.contains(response_code()) && codes.contains(
            timeout_code(),
        ) ==> rejection(Some(codes)) == ReCaptchaErrorView::TimeoutOrDuplicate,
        !codes.contains(secret_code()) && !codes.contains(response_code()) && !codes.contains(
            timeout_code(),
        ) ==> rejection(Some(codes)) is InternalError,
{
}

/// Two lists that hold the same error codes, in whatever order and however
/// often, come to the same error.
pub proof fn law_rejection_ignores_order(first: Seq<Seq<char>>, second: Seq<Seq<char>>)
    requires
        first.to_set() == second.to_set(),
    ensures
        rejection(Some(first)) == rejection(Some(second)),
{
    assert forall|code: Seq<char>| first.contains(code) == second.contains(code) by {
        assert(first.contains(code) == first.to_set().contains(code));
        assert(second.contains(code) == second.to_set().contains(code));
    }
}

/// The digits written for a number denote that number; there is at least one
/// digit, and the first is `0` only for the number zero.
pub proof fn law_decimal_reads_back(n: nat)
    ensures
        number_of(decimal(n)) == n,
        decimal(n).len() >= 1,
        decimal(n)[0] == '0' <==> n == 0,
    decreases n,
{
    if n < 10 {
        assert(decimal(n).drop_last() =~= Seq::<char>::empty());
        assert(number_of(Seq::<char>::empty()) == 0);
        assert(digit_value(digit(n)) == n);
    } else {
        law_decimal_reads_back(n / 10);
        assert(decimal(n).drop_last() =~= decimal(n / 10));
        assert(digit_value(digit(n % 10)) == n % 10);
    }
}

/// The body of a response is asked for after a status of success, and after
/// nothing else: every other reply of the transport ends the verification.
pub proof fn law_body_only_after_success(reply: ReplyView)
    ensures
        step_after(reply) is Receive <==> (reply matches ReplyView::Status(status)
            && success_status(status)),
{
}

/// A failure of the transport or of the decoder ends the verification with an
/// internal error that carries the diagnostic, never with one of the errors
/// that the endpoint signals.
pub proof fn law_failures_are_internal(reply: ReplyView, diagnostic: Seq<char>)
    requires
        reply == ReplyView::SendFailed(diagnostic) || reply == ReplyView::ReceiveFailed(diagnostic)
            || reply == ReplyView::Malformed(diagnostic),
    ensures
        step_after(reply) == StepView::Done(Err(ReCaptchaErrorView::InternalError(diagnostic))),
{
}

/// An answer whose `success` is false never comes to an outcome.
pub proof fn law_refusal_is_error(answer: ReCaptchaVerificationInnerView)
    requires
        !answer.success,
    ensures
        interpretation(answer) is Err,
        interpretation(answer)->Err_0 == rejection(answer.error_codes),
{
}

/// A verification ends in an outcome only after an answer whose `success` is
/// true and which holds a timestamp and a hostname; the outcome repeats the
/// hostname and the action of the answer, and its score, or is 1.0 where the
/// answer has none.
pub proof fn law_outcome_from_accepting_answer(reply: ReplyView)
    requires
        step_after(reply) matches StepView::Done(Ok(_)),
    ensures
        match (reply, step_after(reply)) {
            (ReplyView::Answer(answer), StepView::Done(Ok(outcome))) => {
                &&& answer.success
                &&& answer.challenge_ts is Some
                &&& answer.hostname == Some(outcome.hostname)
                &&& answer.action == outcome.action
                &&& outcome.score == match answer.score {
                    Some(score) => score,
                    None => Score::spec_full(),
                }
            },
            _ => false,
        },
{
}

} // verus!
