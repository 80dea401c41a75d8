use mints_worker::text::{concat3, first_segment, same_text, starts_with_hex_prefix};

#[test]
fn first_segment_stops_at_the_first_separator() {
    assert_eq!(first_segment("ipfs://bafy/meta.json::/srv/img/1.png"), "ipfs://bafy/meta.json");
    assert_eq!(first_segment("a:b::c::d"), "a:b");
}

#[test]
fn first_segment_without_separator_is_the_whole_text() {
    assert_eq!(first_segment("ipfs://bafy/meta.json"), "ipfs://bafy/meta.json");
    assert_eq!(first_segment("a:b:c"), "a:b:c");
    assert_eq!(first_segment(""), "");
}

#[test]
fn first_segment_of_leading_or_repeated_colons() {
    assert_eq!(first_segment("::rest"), "");
    assert_eq!(first_segment(":::"), "");
    assert_eq!(first_segment("x:"), "x:");
    assert_eq!(first_segment("é::ü"), "é");
}

#[test]
fn first_segment_agrees_with_split() {
    for s in ["", "::", "a::", "::b", "a::b::c", "ab:", "a:::b", "日本::語"] {
        assert_eq!(first_segment(s), s.split("::").next().unwrap());
    }
}

#[test]
fn hex_prefix_is_exactly_0x() {
    assert!(starts_with_hex_prefix("0xabc"));
    assert!(starts_with_hex_prefix("0x"));
    assert!(!starts_with_hex_prefix("0X12"));
    assert!(!starts_with_hex_prefix("0"));
    assert!(!starts_with_hex_prefix(""));
    assert!(!starts_with_hex_prefix("x0"));
}

#[test]
fn same_text_and_concat3() {
    assert!(same_text("OK", "OK"));
    assert!(!same_text("OK", "ok"));
    assert!(!same_text("OK", "OK "));
    assert_eq!(concat3("a", "bc", ""), "abc");
}

#[test]
fn amqp_address_joins_credentials_host_and_port() {
    assert_eq!(
        mints_worker::settings::amqp_address("hoopoe", "pw", "rabbitmq", "5672"),
        "amqp://hoopoe:pw@rabbitmq:5672"
    );
    assert_eq!(mints_worker::settings::amqp_address("", "", "", ""), "amqp://:@:");
}
