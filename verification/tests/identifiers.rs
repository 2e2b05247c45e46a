use axum::http::HeaderValue;
use storefront::ids::XGuestCartId;

const ID: u128 = 0x0123_4567_89ab_4cde_8f01_2345_6789_abcd;

fn read(text: &str) -> Option<u128> {
    let value = HeaderValue::from_str(text).unwrap();
    XGuestCartId::decode(Some(&value)).map(|id| id.0)
}

#[test]
fn guest_header_has_its_name() {
    assert_eq!(XGuestCartId::name(), "x-guest-cart-id");
}

#[test]
fn guest_header_is_written() {
    let value = XGuestCartId(ID).encode();
    assert_eq!(value.to_str().unwrap(), "01234567-89ab-4cde-8f01-23456789abcd");
}

#[test]
fn guest_header_reads_back() {
    for id in [0, 1, ID, u128::MAX, 0x8000_0000_0000_0000_0000_0000_0000_0000] {
        let value = XGuestCartId(id).encode();
        assert_eq!(XGuestCartId::decode(Some(&value)), Some(XGuestCartId(id)));
    }
}

#[test]
fn guest_header_is_read_in_each_layout() {
    assert_eq!(read("01234567-89ab-4cde-8f01-23456789abcd"), Some(ID));
    assert_eq!(read("0123456789ab4cde8f0123456789abcd"), Some(ID));
    assert_eq!(read("{01234567-89AB-4CDE-8F01-23456789ABCD}"), Some(ID));
    assert_eq!(read("URN:uuid:01234567-89ab-4cde-8f01-23456789abcd"), Some(ID));
}

#[test]
fn malformed_guest_header_gives_nothing() {
    assert_eq!(XGuestCartId::decode(None), None);
    assert_eq!(read(""), None);
    assert_eq!(read("01234567-89ab-4cde-8f01-23456789abc"), None);
    assert_eq!(read("01234567-89ab-4cde-8f01-23456789abcg"), None);
    assert_eq!(read("0123456789ab-4cde-8f01-2345-6789abcd"), None);
    assert_eq!(read("{01234567-89ab-4cde-8f01-23456789abcd"), None);
    assert_eq!(read("urn:uuis:01234567-89ab-4cde-8f01-23456789abcd"), None);
    assert_eq!(read("01234567-89ab-4cde-8f01-23456789abcż"), None);
    let bytes = HeaderValue::from_bytes(b"\xff0123456789ab4cde8f0123456789abcd").unwrap();
    assert_eq!(XGuestCartId::decode(Some(&bytes)), None);
}

#[test]
fn reading_agrees_with_the_uuid_crate() {
    for text in [
        "01234567-89ab-4cde-8f01-23456789abcd",
        "0123456789ab4cde8f0123456789abcd",
        "{01234567-89ab-4cde-8f01-23456789abcd}",
        "urn:uuid:01234567-89ab-4cde-8f01-23456789abcd",
        "{0123456789ab4cde8f0123456789abcd}",
        "urn:uuid:0123456789ab4cde8f0123456789abcd",
        "01234567-89ab4cde-8f01-23456789abcd",
        "------------------------------------",
        "not an id",
    ] {
        let expected = uuid::Uuid::parse_str(text).ok().map(|id| id.as_u128());
        assert_eq!(read(text), expected, "{text}");
    }
}
