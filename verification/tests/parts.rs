//! The parts on their own: framing, base64url, content types and the checks of claims
//! against the clock.

use jwt_compact::base64url::{decode, DecodeError};
use jwt_compact::buffer::SignatureBytes;
use jwt_compact::codec::same_text;
use jwt_compact::header::eq_ignoring_case;
use jwt_compact::wire::split;
use std::cell::Cell;

use jwt_compact::{Claims, CompleteHeader, ContentType, Empty, Header, TimeOptions, ValidationError};

#[test]
fn split_takes_a_token_apart_at_its_dots() {
    let segments = split(b"header.claims.signature").unwrap();
    assert_eq!(segments.header, b"header");
    assert_eq!(segments.claims, b"claims");
    assert_eq!(segments.signature, b"signature");
    assert_eq!(segments.signed_data, b"header.claims");

    let segments = split(b"..").unwrap();
    assert_eq!(segments.header, b"");
    assert_eq!(segments.claims, b"");
    assert_eq!(segments.signature, b"");
    assert_eq!(segments.signed_data, b".");

    let segments = split(b".b.").unwrap();
    assert_eq!(segments.header, b"");
    assert_eq!(segments.claims, b"b");
    assert_eq!(segments.signature, b"");
    assert_eq!(segments.signed_data, b".b");

    let segments = split(b"a..c").unwrap();
    assert_eq!(segments.header, b"a");
    assert_eq!(segments.claims, b"");
    assert_eq!(segments.signature, b"c");
    assert_eq!(segments.signed_data, b"a.");
}

#[test]
fn split_wants_exactly_two_dots() {
    assert!(split(b"").is_none());
    assert!(split(b"abc").is_none());
    assert!(split(b".").is_none());
    assert!(split(b"a.b").is_none());
    assert!(split(b"...").is_none());
    assert!(split(b"a.b.c.d").is_none());
    assert!(split(b"a.b.c.d.e").is_none());
    assert!(split(b"a.b.c.").is_none());
}

#[test]
fn decode_reads_base64url_without_padding() {
    assert_eq!(decode(b"").unwrap(), b"");
    assert_eq!(decode(b"Zg").unwrap(), b"f");
    assert_eq!(decode(b"Zm8").unwrap(), b"fo");
    assert_eq!(decode(b"Zm9v").unwrap(), b"foo");
    assert_eq!(decode(b"Zm9vYmFy").unwrap(), b"foobar");
    assert_eq!(decode(b"-_-_").unwrap(), [0xfb, 0xff, 0xbf]);
    assert_eq!(decode(b"e30").unwrap(), b"{}");

    let long: Vec<u8> = (0..=255u8).cycle().take(1000).collect();
    let text = base64::encode_config(&long, base64::URL_SAFE_NO_PAD);
    assert_eq!(decode(text.as_bytes()).unwrap(), long);
}

#[test]
fn decode_says_what_is_wrong() {
    // The alphabet is the URL-safe one.
    assert_eq!(decode(b"+/+/").unwrap_err(), DecodeError::InvalidByte(0, b'+'));
    assert_eq!(decode(b"Zm9v.").unwrap_err(), DecodeError::InvalidByte(4, b'.'));
    assert_eq!(decode(b"Z").unwrap_err(), DecodeError::InvalidLength);
    assert_eq!(decode(b"Zh").unwrap_err(), DecodeError::InvalidLastSymbol(1, b'h'));
}

#[test]
fn signature_bytes_decode_like_any_segment() {
    for len in [0usize, 1, 2, 3, 32, 64, 127, 128, 129, 500] {
        let data: Vec<u8> = (0..len).map(|i| (i * 7 + 3) as u8).collect();
        let text = base64::encode_config(&data, base64::URL_SAFE_NO_PAD);
        assert!(SignatureBytes::decode(text.as_bytes()).is_ok());
    }
    assert_eq!(
        SignatureBytes::decode(b"A").unwrap_err(),
        DecodeError::InvalidLength
    );
    assert_eq!(
        SignatureBytes::decode(b"AA*A").unwrap_err(),
        DecodeError::InvalidByte(2, b'*')
    );
}

#[test]
fn letters_compare_without_their_case() {
    assert!(eq_ignoring_case(b"", b""));
    assert!(eq_ignoring_case(b"json", b"JSON"));
    assert!(eq_ignoring_case(b"JsOn", b"jSoN"));
    assert!(eq_ignoring_case(b"a-1_z", b"A-1_Z"));
    assert!(!eq_ignoring_case(b"json", b"jso"));
    assert!(!eq_ignoring_case(b"json", b"jsom"));
    // `@` and `` ` `` stand next to the letters, and `[` and `{` behind them.
    assert!(!eq_ignoring_case(b"@", b"`"));
    assert!(!eq_ignoring_case(b"[", b"{"));
    // Bytes beyond the letters are compared as they are.
    assert!(!eq_ignoring_case(&[0xc4], &[0xe4]));
}

#[test]
fn tags_name_content_types() {
    assert_eq!(ContentType::from_tag(None), Ok(ContentType::Json));
    for tag in ["json", "JSON", "Json", "jSON"] {
        assert_eq!(ContentType::from_tag(Some(tag.to_owned())), Ok(ContentType::Json));
    }
    for tag in ["cbor", "CBOR", "Cbor", "cboR"] {
        assert_eq!(ContentType::from_tag(Some(tag.to_owned())), Ok(ContentType::Cbor));
    }
    for tag in ["", "txt", "jso", "json ", " cbor", "application/json", "cbor\0"] {
        assert_eq!(ContentType::from_tag(Some(tag.to_owned())), Err(tag.to_owned()));
    }
}

#[test]
fn stamping_puts_name_and_tag_around_the_header() {
    let inner = Header { key_id: Some("k".to_owned()), ..Header::default() };
    let complete = CompleteHeader::stamp("HS256", None, inner.clone());
    assert_eq!(complete.algorithm, "HS256");
    assert_eq!(complete.content_type, None);
    assert_eq!(complete.inner.key_id, Some("k".to_owned()));
    assert_eq!(complete.inner.signature_type, None);

    let complete = CompleteHeader::stamp("EdDSA", Some("CBOR"), inner);
    assert_eq!(complete.algorithm, "EdDSA");
    assert_eq!(complete.content_type, Some("CBOR".to_owned()));
    let copy = complete.clone();
    assert_eq!(copy.algorithm, "EdDSA");
    assert_eq!(copy.content_type, Some("CBOR".to_owned()));
    assert_eq!(copy.inner.key_id, Some("k".to_owned()));
}

#[test]
fn default_header_sets_nothing() {
    let header = Header::default();
    assert_eq!(header.key_set_url, None);
    assert_eq!(header.key_id, None);
    assert_eq!(header.certificate_url, None);
    assert_eq!(header.certificate_thumbprint, None);
    assert_eq!(header.signature_type, None);
}

#[test]
fn texts_compare_by_their_characters() {
    assert!(same_text("", ""));
    assert!(same_text("HS256", "HS256"));
    assert!(!same_text("HS256", "HS384"));
    assert!(!same_text("HS256", "hs256"));
    assert!(!same_text("HS256", "HS2566"));
    assert!(!same_text("HS256", ""));
    assert!(same_text("\u{e9}t\u{e9}", "\u{e9}t\u{e9}"));
    assert!(!same_text("\u{e9}", "e"));
}

#[test]
fn claims_without_timestamps_are_always_valid() {
    let claims = Claims::empty();
    assert_eq!(claims.expiration_date, None);
    assert_eq!(claims.not_before, None);
    assert_eq!(claims.issued_at, None);
    assert_eq!(claims.custom, Empty {});
    for now in [i64::MIN, -1, 0, 1, i64::MAX] {
        for leeway in [i64::MIN, 0, i64::MAX] {
            let options = TimeOptions::new(leeway, || now);
            assert!(claims.validate_expiration(&options).is_ok());
            assert!(claims.validate_maturity(&options).is_ok());
        }
    }
}

#[test]
fn expiration_is_reached_at_the_date_itself() {
    let claims = Claims::new(5u8).set_duration(1_000, 60);
    assert_eq!(claims.expiration_date, Some(1_060));
    assert_eq!(claims.issued_at, None);
    assert_eq!(claims.custom, 5);

    assert!(claims.validate_expiration(&TimeOptions::from_clock(|| 1_059)).is_ok());
    assert!(matches!(
        claims.validate_expiration(&TimeOptions::from_clock(|| 1_060)).unwrap_err(),
        ValidationError::Expired
    ));
    assert!(matches!(
        claims.validate_expiration(&TimeOptions::from_clock(|| 1_061)).unwrap_err(),
        ValidationError::Expired
    ));

    // The leeway is taken off the current time.
    assert!(claims.validate_expiration(&TimeOptions::new(10, || 1_069)).is_ok());
    assert!(matches!(
        claims.validate_expiration(&TimeOptions::new(10, || 1_070)).unwrap_err(),
        ValidationError::Expired
    ));

    // The check gives the claims back, so that checks can follow one another.
    let checked = claims.validate_expiration(&TimeOptions::from_clock(|| 0)).unwrap();
    assert_eq!(*checked, claims);
}

#[test]
fn maturity_is_reached_at_the_time_itself() {
    let claims = Claims::new(()).set_not_before(500);
    assert_eq!(claims.not_before, Some(500));

    assert!(matches!(
        claims.validate_maturity(&TimeOptions::from_clock(|| 499)).unwrap_err(),
        ValidationError::NotMature
    ));
    assert!(claims.validate_maturity(&TimeOptions::from_clock(|| 500)).is_ok());
    assert!(claims.validate_maturity(&TimeOptions::from_clock(|| 501)).is_ok());

    // The leeway is added to the current time.
    assert!(matches!(
        claims.validate_maturity(&TimeOptions::new(10, || 489)).unwrap_err(),
        ValidationError::NotMature
    ));
    assert!(claims.validate_maturity(&TimeOptions::new(10, || 490)).is_ok());
}

#[test]
fn time_checks_do_not_overflow() {
    let claims = Claims::new(())
        .set_duration_and_issuance(i64::MAX - 1, 1)
        .set_not_before(i64::MIN);
    assert_eq!(claims.issued_at, Some(i64::MAX - 1));
    assert_eq!(claims.expiration_date, Some(i64::MAX));

    // The latest time less the least leeway is far beyond any date.
    assert!(matches!(
        claims
            .validate_expiration(&TimeOptions::new(i64::MIN, || i64::MAX))
            .unwrap_err(),
        ValidationError::Expired
    ));
    assert!(claims
        .validate_expiration(&TimeOptions::new(i64::MAX, || i64::MIN))
        .is_ok());
    assert!(claims
        .validate_maturity(&TimeOptions::new(0, || i64::MIN))
        .is_ok());
    // The earliest time plus the least leeway is before any time.
    assert!(matches!(
        claims
            .validate_maturity(&TimeOptions::new(i64::MIN, || i64::MIN))
            .unwrap_err(),
        ValidationError::NotMature
    ));

    let claims = Claims::new(()).set_not_before(i64::MAX);
    assert!(matches!(
        claims
            .validate_maturity(&TimeOptions::new(-1, || i64::MAX))
            .unwrap_err(),
        ValidationError::NotMature
    ));
    assert!(claims
        .validate_maturity(&TimeOptions::new(i64::MAX, || i64::MAX))
        .is_ok());
}

#[test]
fn time_options_hold_what_they_are_given() {
    let options = TimeOptions::new(3, || 7);
    assert_eq!(options.leeway, 3);
    assert_eq!((options.clock_fn)(), 7);
    let options = TimeOptions::from_clock(|| 9);
    assert_eq!(options.leeway, 0);
    assert_eq!((options.clock_fn)(), 9);
}

#[test]
fn clock_is_asked_once_where_a_check_needs_the_time() {
    let asked = Cell::new(0u32);
    let options = TimeOptions::new(0, || {
        asked.set(asked.get() + 1);
        1_000
    });

    let claims = Claims::new(());
    assert!(claims.validate_expiration(&options).is_ok());
    assert!(claims.validate_maturity(&options).is_ok());
    assert_eq!(asked.get(), 0);

    let claims = Claims::new(()).set_duration(1_000, 1).set_not_before(1_000);
    assert!(claims.validate_expiration(&options).is_ok());
    assert_eq!(asked.get(), 1);
    assert!(claims.validate_maturity(&options).is_ok());
    assert_eq!(asked.get(), 2);
}

#[test]
fn expiry_and_maturity_at_a_given_time() {
    let claims = Claims::new(()).set_duration_and_issuance(100, 50).set_not_before(120);
    assert!(!claims.has_expired(149, 0));
    assert!(claims.has_expired(150, 0));
    assert!(!claims.has_expired(150, 1));
    assert!(claims.has_expired(149, -1));
    assert!(claims.is_not_mature(119, 0));
    assert!(!claims.is_not_mature(120, 0));
    assert!(!claims.is_not_mature(119, 1));
    assert!(claims.is_not_mature(120, -1));
    assert!(!Claims::new(()).has_expired(i64::MAX, i64::MIN));
    assert!(!Claims::new(()).is_not_mature(i64::MIN, i64::MIN));
}
