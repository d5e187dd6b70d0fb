use base64::engine::general_purpose::URL_SAFE_NO_PAD;
use base64::Engine;
use bjcloudvod::bjc_url_decoder::decode_bjc_url;
use bjcloudvod::bjc_url_decoder::BjcUrlDecodeError;

#[test]
fn base64_worked_vector() {
    let encoded = URL_SAFE_NO_PAD.encode([1u8, 73, 104, 113, 112, 113]);
    assert_eq!(encoded, "AUlocXBx");
}

#[test]
fn decode_worked_vector() {
    match decode_bjc_url("bjcloudvod://AUlocXBx") {
        Ok(s) => assert_eq!(s, "Hello"),
        Err(_) => panic!("expected a decoded URL"),
    }
}

#[test]
fn decode_rejects_http_prefix() {
    match decode_bjc_url("http://example.com") {
        Err(BjcUrlDecodeError::InvalidUrl(orig)) => assert_eq!(orig, "http://example.com"),
        _ => panic!("expected InvalidUrl"),
    }
}

#[test]
fn decode_rejects_malformed_body() {
    assert!(matches!(
        decode_bjc_url("bjcloudvod://!!!"),
        Err(BjcUrlDecodeError::Base64DecodeError(_))
    ));
}

#[test]
fn decode_rejects_padded_body() {
    assert!(matches!(
        decode_bjc_url("bjcloudvod://aGk="),
        Err(BjcUrlDecodeError::Base64DecodeError(_))
    ));
}

#[test]
fn decode_rejects_empty_payload() {
    match decode_bjc_url("bjcloudvod://") {
        Err(BjcUrlDecodeError::InvalidUrl(orig)) => assert_eq!(orig, "bjcloudvod://"),
        _ => panic!("expected InvalidUrl"),
    }
}

#[test]
fn decode_length_law() {
    for payload in [
        vec![1u8, 73, 104, 113, 112, 113],
        vec![0u8],
        vec![200u8, 1, 2, 3, 4, 5, 6, 7, 8, 9],
        vec![7u8, 255, 0, 128],
    ] {
        let link = format!("bjcloudvod://{}", URL_SAFE_NO_PAD.encode(&payload));
        let decoded = decode_bjc_url(&link).expect("valid link");
        assert_eq!(decoded.chars().count(), payload.len() - 1);
    }
}

#[test]
fn decode_deterministic() {
    let inputs = [
        "bjcloudvod://AUlocXBx",
        "http://example.com",
        "bjcloudvod://!!!",
        "bjcloudvod://",
    ];
    for input in inputs {
        let first = decode_bjc_url(input);
        let second = decode_bjc_url(input);
        match (first, second) {
            (Ok(a), Ok(b)) => assert_eq!(a, b),
            (
                Err(BjcUrlDecodeError::InvalidUrl(a)),
                Err(BjcUrlDecodeError::InvalidUrl(b)),
            ) => assert_eq!(a, b),
            (
                Err(BjcUrlDecodeError::Base64DecodeError(_)),
                Err(BjcUrlDecodeError::Base64DecodeError(_)),
            ) => {}
            _ => panic!("two calls on the same input disagreed"),
        }
    }
}

#[test]
fn decode_wraps_and_keeps_high_bytes() {
    // Key byte 0, then byte 0x00: position 0 has step 1, and 0x00 - 1 wraps
    // to 0xFF, which must come back as the code point U+00FF, not an error.
    let link = format!("bjcloudvod://{}", URL_SAFE_NO_PAD.encode([0u8, 0u8]));
    match decode_bjc_url(&link) {
        Ok(s) => assert_eq!(s, "\u{ff}"),
        Err(_) => panic!("expected a decoded string"),
    }
}
