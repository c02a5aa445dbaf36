//! Validated string values: the keys of a site and the token of one challenge.

use vstd::prelude::*;
use vstd::string::*;
use vstd::utf8::encode_utf8;
use crate::alphabet::{
    is_url_safe_byte, lemma_url_safe_encoding, url_safe_byte, url_safe_bytes, url_safe_text,
};

verus! {

/// Why a text was refused as a key or as a token.
#[derive(Clone, Copy, Debug, PartialEq, Eq, Structural)]
pub enum ValidationError {
    /// The text is not forty characters of the alphabet.
    KeyFormat,
    /// The text is empty or holds a byte outside the alphabet.
    TokenInvalid,
    /// The first byte outside the alphabet is `=`, in the last group of the text.
    TokenPadding,
}

/// The number of characters of a key.
pub const KEY_LENGTH: usize = 40;

/// The ASCII code of the padding sign `=`.
pub const PADDING: u8 = 0x3d;

/// Whether `text` is forty characters of the alphabet.
pub open spec fn key_text(text: Seq<char>) -> bool {
    text.len() == KEY_LENGTH && url_safe_text(text)
}

/// Whether `text` is one or more characters of the alphabet.
pub open spec fn token_text(text: Seq<char>) -> bool {
    text.len() > 0 && url_safe_text(text)
}

/// Where the last group of up to four bytes begins in a text of `len` bytes.
pub open spec fn last_group_start(len: int) -> int {
    if len % 4 == 0 {
        len - 4
    } else {
        len - len % 4
    }
}

/// Whether `i` is the place of the first byte of `bytes` outside the alphabet.
pub open spec fn first_foreign_at(bytes: Seq<u8>, i: int) -> bool {
    &&& 0 <= i < bytes.len()
    &&& !url_safe_byte(bytes[i])
    &&& url_safe_bytes(bytes.take(i))
}

/// Whether the first byte of `bytes` outside the alphabet is a padding sign in
/// the last group.
pub open spec fn padded(bytes: Seq<u8>) -> bool {
    exists|i: int|
        #![trigger bytes[i]]
        first_foreign_at(bytes, i) && bytes[i] == PADDING && last_group_start(bytes.len() as int)
            <= i
}

/// The verdict on the UTF-8 bytes of a would-be key.
pub open spec fn key_check(bytes: Seq<u8>) -> Result<(), ValidationError> {
    if bytes.len() == KEY_LENGTH && url_safe_bytes(bytes) {
        Ok(())
    } else {
        Err(ValidationError::KeyFormat)
    }
}

/// The verdict on the UTF-8 bytes of a would-be token.
pub open spec fn token_check(bytes: Seq<u8>) -> Result<(), ValidationError> {
    if bytes.len() == 0 {
        Err(ValidationError::TokenInvalid)
    } else if url_safe_bytes(bytes) {
        Ok(())
    } else if padded(bytes) {
        Err(ValidationError::TokenPadding)
    } else {
        Err(ValidationError::TokenInvalid)
    }
}

/// The place of the first byte of `bytes` outside the alphabet, or the length
/// of `bytes` where every byte is inside.
fn first_foreign(bytes: &[u8]) -> (at: usize)
    ensures
        at <= bytes@.len(),
        url_safe_bytes(bytes@.take(at as int)),
        at < bytes@.len() ==> !url_safe_byte(bytes@[at as int]),
{
    let mut at: usize = 0;
    while at < bytes.len() && is_url_safe_byte(bytes[at])
        invariant
            at <= bytes@.len(),
            url_safe_bytes(bytes@.take(at as int)),
        decreases bytes@.len() - at,
    {
        assert forall|j: int| 0 <= j < at + 1 implies url_safe_byte(
            #[trigger] bytes@.take(at + 1)[j],
        ) by {
            if j < at {
                assert(bytes@.take(at as int)[j] == bytes@[j]);
            }
        }
        at += 1;
    }
    at
}

/// Checks the bytes of a would-be key.
pub fn check_key(bytes: &[u8]) -> (verdict: Result<(), ValidationError>)
    ensures
        verdict == key_check(bytes@),
{
    if bytes.len() != KEY_LENGTH {
        return Err(ValidationError::KeyFormat);
    }
    let at = first_foreign(bytes);
    assert(bytes@.take(bytes@.len() as int) =~= bytes@);
    if at == bytes.len() {
        Ok(())
    } else {
        Err(ValidationError::KeyFormat)
    }
}

/// Checks the bytes of a would-be token.
pub fn check_token(bytes: &[u8]) -> (verdict: Result<(), ValidationError>)
    ensures
        verdict == token_check(bytes@),
{
    let length = bytes.len();
    if length == 0 {
        return Err(ValidationError::TokenInvalid);
    }
    let at = first_foreign(bytes);
    assert(bytes@.take(bytes@.len() as int) =~= bytes@);
    if at == length {
        return Ok(());
    }
    let rest = length % 4;
    let last_length = if rest == 0 {
        4
    } else {
        rest
    };
    proof {
        assert(first_foreign_at(bytes@, at as int));
        assert forall|i: int| first_foreign_at(bytes@, i) implies i == at by {
            if i < at {
                assert(bytes@.take(at as int)[i] == bytes@[i]);
            }
            if at < i {
                assert(bytes@.take(i)[at as int] == bytes@[at as int]);
            }
        }
    }
    if bytes[at] == PADDING && at >= length - last_length {
        Err(ValidationError::TokenPadding)
    } else {
        Err(ValidationError::TokenInvalid)
    }
}

/// A key of a site: forty characters of the alphabet.
#[derive(Debug)]
pub struct ReCaptchaKey(String);

impl View for ReCaptchaKey {
    type V = Seq<char>;

    closed spec fn view(&self) -> Seq<char> {
        self.0@
    }
}

impl DeepView for ReCaptchaKey {
    type V = Seq<char>;

    open spec fn deep_view(&self) -> Seq<char> {
        self.view()
    }
}

impl Clone for ReCaptchaKey {
    fn clone(&self) -> (copy: Self)
        ensures
            copy@ == self@,
    {
        proof {
            use_type_invariant(self);
        }
        ReCaptchaKey(self.0.clone())
    }
}

impl ReCaptchaKey {
    #[verifier::type_invariant]
    spec fn well_formed(self) -> bool {
        key_text(self.0@)
    }

    /// Wraps a text that is known to be a key.
    pub fn new(token: String) -> (key: Self)
        requires
            key_text(token@),
        ensures
            key@ == token@,
    {
        ReCaptchaKey(token)
    }

    /// The text of the key.
    pub fn as_str(&self) -> (text: &str)
        ensures
            text@ == self@,
            key_text(text@),
    {
        proof {
            use_type_invariant(self);
        }
        self.0.as_str()
    }

    /// Tells whether `s` is a key.
    pub fn validate_str(s: &str) -> (verdict: Result<(), ValidationError>)
        ensures
            verdict == key_check(encode_utf8(s@)),
            verdict is Ok <==> key_text(s@),
    {
        proof {
            lemma_url_safe_encoding(s@);
        }
        check_key(s.as_bytes())
    }

    /// Makes a key of `s`, or refuses it.
    pub fn parse_str(s: &str) -> (parsed: Result<Self, ValidationError>)
        ensures
            parsed is Ok <==> key_text(s@),
            parsed matches Ok(key) ==> key@ == s@,
            parsed matches Err(e) ==> e == ValidationError::KeyFormat,
    {
        match Self::validate_str(s) {
            Ok(()) => Ok(ReCaptchaKey(s.to_owned())),
            Err(e) => Err(e),
        }
    }

    /// Makes a key of `s`, or refuses it.
    pub fn parse_string(s: String) -> (parsed: Result<Self, ValidationError>)
        ensures
            parsed is Ok <==> key_text(s@),
            parsed matches Ok(key) ==> key@ == s@,
            parsed matches Err(e) ==> e == ValidationError::KeyFormat,
    {
        match Self::validate_str(s.as_str()) {
            Ok(()) => Ok(ReCaptchaKey(s)),
            Err(e) => Err(e),
        }
    }
}

/// The token of one challenge: one or more characters of the alphabet.
#[derive(Debug)]
pub struct ReCaptchaToken(String);

impl View for ReCaptchaToken {
    type V = Seq<char>;

    closed spec fn view(&self) -> Seq<char> {
        self.0@
    }
}

impl DeepView for ReCaptchaToken {
    type V = Seq<char>;

    open spec fn deep_view(&self) -> Seq<char> {
        self.view()
    }
}

impl Clone for ReCaptchaToken {
    fn clone(&self) -> (copy: Self)
        ensures
            copy@ == self@,
    {
        proof {
            use_type_invariant(self);
        }
        ReCaptchaToken(self.0.clone())
    }
}

impl ReCaptchaToken {
    #[verifier::type_invariant]
    spec fn well_formed(self) -> bool {
        token_text(self.0@)
    }

    /// Wraps a text that is known to be a token.
    pub fn new(token: String) -> (wrapped: Self)
        requires
            token_text(token@),
        ensures
            wrapped@ == token@,
    {
        ReCaptchaToken(token)
    }

    /// The text of the token.
    pub fn as_str(&self) -> (text: &str)
        ensures
            text@ == self@,
            token_text(text@),
    {
        proof {
            use_type_invariant(self);
        }
        self.0.as_str()
    }

    /// Tells whether `s` is a token, and if not, what is wrong with it.
    pub fn validate_str(s: &str) -> (verdict: Result<(), ValidationError>)
        ensures
            verdict == token_check(encode_utf8(s@)),
            verdict is Ok <==> token_text(s@),
    {
        proof {
            lemma_url_safe_encoding(s@);
        }
        check_token(s.as_bytes())
    }

    /// Makes a token of `s`, or refuses it.
    pub fn parse_str(s: &str) -> (parsed: Result<Self, ValidationError>)
        ensures
            parsed is Ok <==> token_text(s@),
            parsed matches Ok(token) ==> token@ == s@,
            parsed matches Err(e) ==> token_check(encode_utf8(s@)) == Err::<(), ValidationError>(e),
    {
        match Self::validate_str(s) {
            Ok(()) => Ok(ReCaptchaToken(s.to_owned())),
            Err(e) => Err(e),
        }
    }

    /// Makes a token of `s`, or refuses it.
    pub fn parse_string(s: String) -> (parsed: Result<Self, ValidationError>)
        ensures
            parsed is Ok <==> token_text(s@),
            parsed matches Ok(token) ==> token@ == s@,
            parsed matches Err(e) ==> token_check(encode_utf8(s@)) == Err::<
                (),
                ValidationError,
            >(e),
    {
        match Self::validate_str(s.as_str()) {
            Ok(()) => Ok(ReCaptchaToken(s)),
            Err(e) => Err(e),
        }
    }
}

} // verus!
