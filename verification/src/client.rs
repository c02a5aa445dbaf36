//! The client: the keys of a site, the request that a verification sends, and
//! what each reply of the transport leads to.

use std::marker::PhantomData;
use vstd::prelude::*;
use vstd::string::*;
use crate::errors::{status_text, ReCaptchaError, ReCaptchaErrorView};
use crate::models::{key_text, ReCaptchaKey, ReCaptchaToken, ValidationError};
use crate::variant::{ReCaptchaVariant, V3};
use crate::verification::{
    interpretation, result_view, ReCaptchaVerification, ReCaptchaVerificationInner,
    ReCaptchaVerificationInnerView, ReCaptchaVerificationView,
};

verus! {

/// The address of the endpoint.
pub const API_URL: &'static str = "https://www.google.com/recaptcha/api/siteverify";

/// The one POST request of a verification. It has no body, and it declares so:
/// its parameters travel in the query, and its content length is given as zero.
#[derive(Debug, Clone)]
pub struct SiteVerifyRequest {
    /// The address that the request goes to.
    pub url: String,
    /// The length to declare for the body.
    pub content_length: usize,
    /// The parameters of the query, each a name and a value.
    pub query: Vec<(String, String)>,
}

/// The parameters of the query for the secret key `secret`, the token
/// `response` and the address `remote_ip` of the user.
pub open spec fn query_of(
    secret: Seq<char>,
    response: Seq<char>,
    remote_ip: Option<Seq<char>>,
) -> Seq<(Seq<char>, Seq<char>)> {
    let required = seq![("secret"@, secret), ("response"@, response)];
    match remote_ip {
        Some(ip) => required.push(("remoteip"@, ip)),
        None => required,
    }
}

/// What the transport reports of the exchange.
#[derive(Debug, Clone)]
pub enum Reply {
    /// The request could not be sent, or no response came: the diagnostic.
    SendFailed(String),
    /// A response came, with this status.
    Status(u16),
    /// The body of the response could not be received: the diagnostic.
    ReceiveFailed(String),
    /// The body is not an answer of the endpoint: the diagnostic of the decoder.
    Malformed(String),
    /// The body, decoded.
    Answer(ReCaptchaVerificationInner),
}

/// A `Reply` with its texts as sequences of characters.
pub enum ReplyView {
    SendFailed(Seq<char>),
    Status(u16),
    ReceiveFailed(Seq<char>),
    Malformed(Seq<char>),
    Answer(ReCaptchaVerificationInnerView),
}

impl View for Reply {
    type V = ReplyView;

    open spec fn view(&self) -> ReplyView {
        match self {
            Reply::SendFailed(text) => ReplyView::SendFailed(text@),
            Reply::Status(status) => ReplyView::Status(*status),
            Reply::ReceiveFailed(text) => ReplyView::ReceiveFailed(text@),
            Reply::Malformed(text) => ReplyView::Malformed(text@),
            Reply::Answer(answer) => ReplyView::Answer(answer@),
        }
    }
}

/// What a verification does next.
#[derive(Debug)]
pub enum Step {
    /// Receive the body of the response and decode it.
    Receive,
    /// End with this result.
    Done(Result<ReCaptchaVerification, ReCaptchaError>),
}

/// A `Step` with its texts as sequences of characters.
pub enum StepView {
    Receive,
    Done(Result<ReCaptchaVerificationView, ReCaptchaErrorView>),
}

impl View for Step {
    type V = StepView;

    open spec fn view(&self) -> StepView {
        match self {
            Step::Receive => StepView::Receive,
            Step::Done(result) => StepView::Done(result_view(*result)),
        }
    }
}

/// Whether `status` is one of the statuses of success, 200 to 299.
pub open spec fn success_status(status: u16) -> bool {
    200 <= status < 300
}

/// What a verification does after `reply`. A failure of the transport or of
/// the decoder ends it with that diagnostic; a status of success calls for the
/// body, any other ends it; an answer ends it with what the answer comes to.
pub open spec fn step_after(reply: ReplyView) -> StepView {
    match reply {
        ReplyView::SendFailed(text) => StepView::Done(Err(ReCaptchaErrorView::InternalError(text))),
        ReplyView::Status(status) => if success_status(status) {
            StepView::Receive
        } else {
            StepView::Done(Err(ReCaptchaErrorView::InternalError(status_text(status))))
        },
        ReplyView::ReceiveFailed(text) => StepView::Done(
            Err(ReCaptchaErrorView::InternalError(text)),
        ),
        ReplyView::Malformed(text) => StepView::Done(Err(ReCaptchaErrorView::InternalError(text))),
        ReplyView::Answer(answer) => StepView::Done(interpretation(answer)),
    }
}

/// Tells whether `status` is one of the statuses of success.
pub fn is_success_status(status: u16) -> (success: bool)
    ensures
        success == success_status(status),
{
    200 <= status && status < 300
}

/// The keys of a site for one variant of the protocol.
#[derive(Debug)]
pub struct ReCaptcha<V: ReCaptchaVariant = V3> {
    html_key: Option<ReCaptchaKey>,
    secret_key: ReCaptchaKey,
    phantom: PhantomData<V>,
}

/// A `ReCaptcha` with its keys as sequences of characters.
pub struct ReCaptchaView {
    pub html_key: Option<Seq<char>>,
    pub secret_key: Seq<char>,
}

impl<V: ReCaptchaVariant> View for ReCaptcha<V> {
    type V = ReCaptchaView;

    closed spec fn view(&self) -> ReCaptchaView {
        ReCaptchaView {
            html_key: match self.html_key {
                Some(key) => Some(key@),
                None => None,
            },
            secret_key: self.secret_key@,
        }
    }
}

impl<V: ReCaptchaVariant> Clone for ReCaptcha<V> {
    fn clone(&self) -> (copy: Self)
        ensures
            copy@ == self@,
    {
        let html_key = match &self.html_key {
            Some(key) => Some(key.clone()),
            None => None,
        };
        ReCaptcha { html_key, secret_key: self.secret_key.clone(), phantom: PhantomData }
    }
}

/// Whether the texts `html_key`, where there is one, and `secret_key` are keys.
pub open spec fn key_texts(html_key: Option<Seq<char>>, secret_key: Seq<char>) -> bool {
    &&& html_key matches Some(text) ==> key_text(text)
    &&& key_text(secret_key)
}

impl<V: ReCaptchaVariant> ReCaptcha<V> {
    /// The client with the given keys.
    pub fn new(html_key: Option<ReCaptchaKey>, secret_key: ReCaptchaKey) -> (client: ReCaptcha<V>)
        ensures
            client@.html_key == html_key.deep_view(),
            client@.secret_key == secret_key@,
    {
        ReCaptcha { html_key, secret_key, phantom: PhantomData }
    }

    /// The client with the given keys, where each of them is a key.
    pub fn from_str(html_key: Option<&str>, secret_key: &str) -> (client: Result<
        ReCaptcha<V>,
        ValidationError,
    >)
        ensures
            client is Ok <==> key_texts(html_key.deep_view(), secret_key@),
            client matches Ok(c) ==> c@.html_key == html_key.deep_view() && c@.secret_key
                == secret_key@,
            client matches Err(e) ==> e == ValidationError::KeyFormat,
    {
        let html_key = match html_key {
            Some(html_key) => match ReCaptchaKey::parse_str(html_key) {
                Ok(key) => Some(key),
                Err(e) => { return Err(e); },
            },
            None => None,
        };
        let secret_key = match ReCaptchaKey::parse_str(secret_key) {
            Ok(key) => key,
            Err(e) => { return Err(e); },
        };
        Ok(ReCaptcha::<V>::new(html_key, secret_key))
    }

    /// The client with the given keys, where each of them is a key.
    pub fn from_string(html_key: Option<String>, secret_key: String) -> (client: Result<
        ReCaptcha<V>,
        ValidationError,
    >)
        ensures
            client is Ok <==> key_texts(html_key.deep_view(), secret_key@),
            client matches Ok(c) ==> c@.html_key == html_key.deep_view() && c@.secret_key
                == secret_key@,
            client matches Err(e) ==> e == ValidationError::KeyFormat,
    {
        let html_key = match html_key {
            Some(html_key) => match ReCaptchaKey::parse_string(html_key) {
                Ok(key) => Some(key),
                Err(e) => { return Err(e); },
            },
            None => None,
        };
        let secret_key = match ReCaptchaKey::parse_string(secret_key) {
            Ok(key) => key,
            Err(e) => { return Err(e); },
        };
        Ok(ReCaptcha::<V>::new(html_key, secret_key))
    }

    /// The site key, where the client has one.
    pub fn get_html_key_as_str(&self) -> (text: Option<&str>)
        ensures
            text.deep_view() == self@.html_key,
            text matches Some(t) ==> key_text(t@),
    {
        match &self.html_key {
            Some(key) => Some(key.as_str()),
            None => None,
        }
    }

    /// The secret key.
    pub fn get_secret_key_as_str(&self) -> (text: &str)
        ensures
            text@ == self@.secret_key,
            key_text(text@),
    {
        self.secret_key.as_str()
    }

    /// The request that verifies `recaptcha_token`, with the address of the
    /// user where it is known.
    pub fn request(&self, recaptcha_token: &ReCaptchaToken, remote_ip: Option<&str>) -> (request:
        SiteVerifyRequest)
        ensures
            request.url@ == API_URL@,
            request.content_length == 0,
            request.query.deep_view() == query_of(
                self@.secret_key,
                recaptcha_token@,
                remote_ip.deep_view(),
            ),
    {
        let mut query: Vec<(String, String)> = Vec::new();
        query.push(("secret".to_owned(), self.get_secret_key_as_str().to_owned()));
        query.push(("response".to_owned(), recaptcha_token.as_str().to_owned()));
        if let Some(ip) = remote_ip {
            query.push(("remoteip".to_owned(), ip.to_owned()));
        }
        assert(query.deep_view() =~= query_of(
            self@.secret_key,
            recaptcha_token@,
            remote_ip.deep_view(),
        ));
        SiteVerifyRequest { url: API_URL.to_owned(), content_length: 0, query }
    }

    /// What the verification does after `reply`.
    pub fn verify(&self, reply: Reply) -> (step: Step)
        ensures
            step@ == step_after(reply@),
    {
        match reply {
            Reply::SendFailed(text) => Step::Done(Err(ReCaptchaError::InternalError(text))),
            Reply::Status(status) => if is_success_status(status) {
                Step::Receive
            } else {
                Step::Done(Err(ReCaptchaError::unexpected_status(status)))
            },
            Reply::ReceiveFailed(text) => Step::Done(Err(ReCaptchaError::InternalError(text))),
            Reply::Malformed(text) => Step::Done(Err(ReCaptchaError::InternalError(text))),
            Reply::Answer(answer) => Step::Done(answer.interpret()),
        }
    }
}

} // verus!
