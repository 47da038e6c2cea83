use base64::Engine;
use gatekeeper::review::{Review, ReviewAction, TryFromError};

fn raw(action: u8, chat_id: i64, user_id: u64, declared_len: u8, locale: &[u8]) -> String {
    let mut buffer = Vec::new();
    buffer.push(action);
    buffer.extend_from_slice(&chat_id.to_le_bytes());
    buffer.extend_from_slice(&user_id.to_le_bytes());
    buffer.push(declared_len);
    buffer.extend_from_slice(locale);
    base64::prelude::BASE64_STANDARD_NO_PAD.encode(buffer)
}

#[test]
fn encodes_to_base64() {
    let review = Review::new(
        ReviewAction::Approve,
        123456,
        987654,
        b"de-DE".to_vec(),
    );
    let result: String = review.encode();

    assert_eq!(result, "AUDiAQAAAAAABhIPAAAAAAAFZGUtREU");
}

#[test]
fn decodes_from_base64() {
    let data = "AUDiAQAAAAAABhIPAAAAAAAFZGUtREU";
    let review: Review = Review::decode(data).unwrap();

    assert_eq!(review.action, ReviewAction::Approve);
    assert_eq!(review.chat_id, 123456);
    assert_eq!(review.locale, b"de-DE".to_vec());
}

#[test]
fn round_trips_every_action() {
    let actions = [
        ReviewAction::Deny,
        ReviewAction::Approve,
        ReviewAction::Block,
        ReviewAction::Unblock,
        ReviewAction::RequestContact,
    ];
    for action in actions {
        let review = Review::new(action, -42, 7, b"en".to_vec());
        let decoded = Review::decode(&review.encode()).unwrap();
        assert_eq!(decoded.action, action);
        assert_eq!(decoded.chat_id, -42);
        assert_eq!(decoded.user_id, 7);
        assert_eq!(decoded.locale, b"en".to_vec());
    }
}

#[test]
fn round_trips_extreme_ids_and_locales() {
    let cases: Vec<(i64, u64, &[u8])> = vec![
        (i64::MIN, u64::MAX, b"de"),
        (i64::MAX, 0, b"sr-Cyrl-RS"),
        (0, 1, b"de-DE-1996"),
        (-1, u64::MAX / 2, b"zh-Hans-CN"),
    ];
    for (chat_id, user_id, locale) in cases {
        let review = Review::new(ReviewAction::Block, chat_id, user_id, locale.to_vec());
        let decoded = Review::decode(&review.encode()).unwrap();
        assert_eq!(decoded.chat_id, chat_id);
        assert_eq!(decoded.user_id, user_id);
        assert_eq!(decoded.locale, locale.to_vec());
    }
}

#[test]
fn encoded_size_fits_button_payload() {
    // the host limit is 64 bytes; an 18-byte header plus a locale of up to
    // 30 bytes stays within it
    let review = Review::new(
        ReviewAction::RequestContact,
        i64::MIN,
        u64::MAX,
        b"zh-Hans-CN".to_vec(),
    );
    assert!(review.encode().len() <= 64);
}

#[test]
fn rejects_malformed_base64() {
    assert!(matches!(
        Review::decode("%%% not base64 %%%"),
        Err(TryFromError::InvalidBase64)
    ));
    // a length of one more than a multiple of four can never be produced
    assert!(matches!(
        Review::decode("AUDiA"),
        Err(TryFromError::InvalidBase64)
    ));
    // padded input is refused by the unpadded scheme
    assert!(matches!(
        Review::decode("AA=="),
        Err(TryFromError::InvalidBase64)
    ));
}

#[test]
fn rejects_short_buffer() {
    let short = base64::prelude::BASE64_STANDARD_NO_PAD.encode([1u8; 17]);
    assert!(matches!(
        Review::decode(&short),
        Err(TryFromError::TooShort)
    ));
}

#[test]
fn rejects_locale_length_past_buffer() {
    // 18 bytes, but the header declares a 5-byte locale
    let data = raw(1, 5, 9, 5, b"");
    assert!(matches!(Review::decode(&data), Err(TryFromError::TooShort)));
}

#[test]
fn rejects_locale_length_one_past_buffer() {
    // 19 bytes with a declared 2-byte locale: one byte short of 18 + 2
    let data = raw(1, 5, 9, 2, b"e");
    assert!(matches!(Review::decode(&data), Err(TryFromError::TooShort)));
}

#[test]
fn rejects_unknown_action() {
    // tag 5 is not registered
    let data = raw(5, 5, 9, 2, b"en");
    assert!(matches!(
        Review::decode(&data),
        Err(TryFromError::InvalidReviewAction)
    ));
}

#[test]
fn rejects_invalid_locale() {
    // not UTF-8
    let data = raw(1, 5, 9, 2, &[0xFF, 0xFE]);
    assert!(matches!(
        Review::decode(&data),
        Err(TryFromError::InvalidLocale)
    ));
    // UTF-8, but no well-formed language tag
    let data = raw(1, 5, 9, 2, b"1!");
    assert!(matches!(
        Review::decode(&data),
        Err(TryFromError::InvalidLocale)
    ));
    // an empty locale is no well-formed language tag either
    let data = raw(1, 5, 9, 0, b"");
    assert!(matches!(
        Review::decode(&data),
        Err(TryFromError::InvalidLocale)
    ));
}

#[test]
fn ignores_bytes_past_declared_locale() {
    let data = raw(0, -7, 12, 2, b"entrailing-junk");
    let review = Review::decode(&data).unwrap();
    assert_eq!(review.action, ReviewAction::Deny);
    assert_eq!(review.chat_id, -7);
    assert_eq!(review.user_id, 12);
    assert_eq!(review.locale, b"en".to_vec());
}

#[test]
fn action_tags_are_stable() {
    assert_eq!(ReviewAction::Deny.tag(), 0);
    assert_eq!(ReviewAction::Approve.tag(), 1);
    assert_eq!(ReviewAction::Block.tag(), 2);
    assert_eq!(ReviewAction::Unblock.tag(), 3);
    assert_eq!(ReviewAction::RequestContact.tag(), 4);
    for tag in 0u8..5 {
        assert_eq!(ReviewAction::try_from(tag).unwrap().tag(), tag);
    }
    assert!(ReviewAction::try_from(5).is_err());
    assert!(ReviewAction::try_from(255).is_err());
}
