use recaptcha_verify::models::{check_key, check_token};
use recaptcha_verify::{ReCaptcha, ReCaptchaKey, ReCaptchaToken, ValidationError, V2, V3};

const KEY: &str = "6LdGh7kUAAAAAKpS0tiZ-rODL_u5J9xYF1CJvmDe";
const OTHER_KEY: &str = "0123456789abcdefghijABCDEFGHIJ-_-_-_-_-_";

#[test]
fn key_of_forty_characters_round_trips() {
    assert_eq!(KEY.len(), 40);
    let key = ReCaptchaKey::parse_str(KEY).unwrap();
    assert_eq!(key.as_str(), KEY);
    let key = ReCaptchaKey::parse_string(OTHER_KEY.to_string()).unwrap();
    assert_eq!(key.as_str(), OTHER_KEY);
    assert_eq!(key.clone().as_str(), OTHER_KEY);
    assert_eq!(ReCaptchaKey::validate_str(KEY), Ok(()));
    assert_eq!(ReCaptchaKey::new(KEY.to_string()).as_str(), KEY);
}

#[test]
fn key_of_every_alphabet_character_is_accepted() {
    let alphabet = "0123456789ABCDEFGHIJKLMNOPQRSTUVWXYZabcdefghijklmnopqrstuvwxyz-_";
    for c in alphabet.chars() {
        let text: String = std::iter::repeat(c).take(40).collect();
        assert_eq!(ReCaptchaKey::parse_str(&text).unwrap().as_str(), text);
    }
}

#[test]
fn key_of_thirty_nine_characters_is_refused() {
    let text = &KEY[..39];
    assert_eq!(ReCaptchaKey::parse_str(text).err(), Some(ValidationError::KeyFormat));
    assert_eq!(ReCaptchaKey::validate_str(text), Err(ValidationError::KeyFormat));
}

#[test]
fn key_of_forty_one_characters_is_refused() {
    let text = format!("{}a", KEY);
    assert_eq!(ReCaptchaKey::parse_str(&text).err(), Some(ValidationError::KeyFormat));
    assert_eq!(ReCaptchaKey::parse_string(text).err(), Some(ValidationError::KeyFormat));
}

#[test]
fn key_with_a_character_outside_the_alphabet_is_refused() {
    for bad in ["+", "/", "=", " ", ".", "\n", "@", "[", "`", "{", ":"] {
        let text = format!("{}{}", &KEY[..39], bad);
        assert_eq!(text.len(), 40);
        assert_eq!(ReCaptchaKey::parse_str(&text).err(), Some(ValidationError::KeyFormat));
    }
    assert_eq!(ReCaptchaKey::parse_str("").err(), Some(ValidationError::KeyFormat));
}

#[test]
fn key_with_a_trailing_line_break_is_refused() {
    let text = format!("{}\n", KEY);
    assert_eq!(ReCaptchaKey::parse_str(&text).err(), Some(ValidationError::KeyFormat));
}

#[test]
fn key_counts_characters_not_bytes() {
    // Forty bytes, but thirty-nine characters, one of them outside the alphabet.
    let text = format!("{}\u{e9}", &KEY[..38]);
    assert_eq!(text.len(), 40);
    assert_eq!(ReCaptchaKey::parse_str(&text).err(), Some(ValidationError::KeyFormat));
    // Forty characters, one of them outside the alphabet.
    let text = format!("{}\u{e9}", &KEY[..39]);
    assert_eq!(text.chars().count(), 40);
    assert_eq!(ReCaptchaKey::parse_str(&text).err(), Some(ValidationError::KeyFormat));
}

#[test]
fn check_key_works_on_bytes() {
    assert_eq!(check_key(KEY.as_bytes()), Ok(()));
    assert_eq!(check_key(&KEY.as_bytes()[1..]), Err(ValidationError::KeyFormat));
    assert_eq!(check_key(&[0xff; 40]), Err(ValidationError::KeyFormat));
    assert_eq!(check_key(&[]), Err(ValidationError::KeyFormat));
}

#[test]
fn token_of_the_alphabet_round_trips() {
    for text in ["a", "ab", "abc", "abcd", "abcde", "03AGdBq24-_xyzXYZ019", "____", "----"] {
        let token = ReCaptchaToken::parse_str(text).unwrap();
        assert_eq!(token.as_str(), text);
        assert_eq!(ReCaptchaToken::validate_str(text), Ok(()));
        let token = ReCaptchaToken::parse_string(text.to_string()).unwrap();
        assert_eq!(token.as_str(), text);
        assert_eq!(token.clone().as_str(), text);
        assert_eq!(ReCaptchaToken::new(text.to_string()).as_str(), text);
    }
}

#[test]
fn long_token_is_accepted() {
    let text: String = "AZaz09-_".chars().cycle().take(2051).collect();
    assert_eq!(ReCaptchaToken::parse_str(&text).unwrap().as_str(), text);
}

#[test]
fn empty_token_is_invalid() {
    assert_eq!(ReCaptchaToken::parse_str("").err(), Some(ValidationError::TokenInvalid));
    assert_eq!(check_token(&[]), Err(ValidationError::TokenInvalid));
}

#[test]
fn token_with_padding_in_its_last_group_is_padded() {
    for text in ["YQ==", "YWI=", "=", "a=", "ab=c", "abcdYQ==", "abcdefgh=", "abcd="] {
        assert_eq!(
            ReCaptchaToken::parse_str(text).err(),
            Some(ValidationError::TokenPadding),
            "{}",
            text
        );
        assert_eq!(ReCaptchaToken::validate_str(text), Err(ValidationError::TokenPadding));
    }
}

#[test]
fn token_with_padding_before_its_last_group_is_invalid() {
    for text in ["a=cdefgh", "=bcde", "abc=efgh", "abc=e"] {
        assert_eq!(
            ReCaptchaToken::parse_str(text).err(),
            Some(ValidationError::TokenInvalid),
            "{}",
            text
        );
    }
}

#[test]
fn token_with_a_foreign_character_is_invalid() {
    for text in ["+", "a+b", "a/b", "ab c", "abcd+", "a.b", "\u{e9}", "abc\u{e9}", "a\n"] {
        assert_eq!(
            ReCaptchaToken::parse_str(text).err(),
            Some(ValidationError::TokenInvalid),
            "{}",
            text
        );
        assert_eq!(
            ReCaptchaToken::parse_string(text.to_string()).err(),
            Some(ValidationError::TokenInvalid)
        );
    }
}

#[test]
fn first_foreign_byte_decides_between_invalid_and_padded() {
    // The foreign byte before the padding sign decides.
    assert_eq!(ReCaptchaToken::parse_str("a+=").err(), Some(ValidationError::TokenInvalid));
    // The padding sign before the foreign byte decides.
    assert_eq!(ReCaptchaToken::parse_str("a=+").err(), Some(ValidationError::TokenPadding));
    // The last group is counted in bytes: here it is the last three of seven.
    assert_eq!(ReCaptchaToken::parse_str("abcd=\u{e9}").err(), Some(ValidationError::TokenPadding));
    assert_eq!(ReCaptchaToken::parse_str("abc=\u{e9}x").err(), Some(ValidationError::TokenInvalid));
}

#[test]
fn check_token_works_on_bytes() {
    assert_eq!(check_token(b"abc"), Ok(()));
    assert_eq!(check_token(b"ab="), Err(ValidationError::TokenPadding));
    assert_eq!(check_token(b"=bcdefgh"), Err(ValidationError::TokenInvalid));
    assert_eq!(check_token(&[0x80]), Err(ValidationError::TokenInvalid));
}

#[test]
fn client_of_two_keys_hands_them_back() {
    let client = ReCaptcha::<V3>::from_str(Some(KEY), OTHER_KEY).unwrap();
    assert_eq!(client.get_html_key_as_str(), Some(KEY));
    assert_eq!(client.get_secret_key_as_str(), OTHER_KEY);
    let copy = client.clone();
    assert_eq!(copy.get_html_key_as_str(), Some(KEY));
    assert_eq!(copy.get_secret_key_as_str(), OTHER_KEY);
}

#[test]
fn client_without_a_site_key_has_none() {
    let client = ReCaptcha::<V2>::from_str(None, KEY).unwrap();
    assert_eq!(client.get_html_key_as_str(), None);
    assert_eq!(client.get_secret_key_as_str(), KEY);
    let client = ReCaptcha::<V2>::from_string(None, KEY.to_string()).unwrap();
    assert_eq!(client.get_html_key_as_str(), None);
    assert_eq!(client.get_secret_key_as_str(), KEY);
}

#[test]
fn client_of_owned_keys_hands_them_back() {
    let client =
        ReCaptcha::<V3>::from_string(Some(KEY.to_string()), OTHER_KEY.to_string()).unwrap();
    assert_eq!(client.get_html_key_as_str(), Some(KEY));
    assert_eq!(client.get_secret_key_as_str(), OTHER_KEY);
    let client = ReCaptcha::<V3>::new(
        Some(ReCaptchaKey::parse_str(OTHER_KEY).unwrap()),
        ReCaptchaKey::parse_str(KEY).unwrap(),
    );
    assert_eq!(client.get_html_key_as_str(), Some(OTHER_KEY));
    assert_eq!(client.get_secret_key_as_str(), KEY);
}

#[test]
fn client_with_a_bad_secret_key_is_refused() {
    assert_eq!(
        ReCaptcha::<V3>::from_str(Some(KEY), &KEY[..39]).err(),
        Some(ValidationError::KeyFormat)
    );
    assert_eq!(ReCaptcha::<V3>::from_str(None, "").err(), Some(ValidationError::KeyFormat));
    assert_eq!(
        ReCaptcha::<V2>::from_string(None, format!("{}+", &KEY[..39])).err(),
        Some(ValidationError::KeyFormat)
    );
}

#[test]
fn client_with_a_bad_site_key_is_refused() {
    assert_eq!(
        ReCaptcha::<V3>::from_str(Some("site"), KEY).err(),
        Some(ValidationError::KeyFormat)
    );
    assert_eq!(
        ReCaptcha::<V3>::from_string(Some(format!("{}x", KEY)), KEY.to_string()).err(),
        Some(ValidationError::KeyFormat)
    );
}
