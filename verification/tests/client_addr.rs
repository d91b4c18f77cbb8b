use api_rest_rust::middleware::client_addr::{first_forwarded_entry, resolve_client, ClientAddr};

/// Reads the few addresses that these tests name, as a caller would read
/// any with the parser of its platform.
fn parse(text: &str) -> Option<ClientAddr> {
    match text {
        "203.0.113.7" => Some(ClientAddr::V4(0xcb00_7107)),
        "198.51.100.4" => Some(ClientAddr::V4(0xc633_6404)),
        "10.0.0.1" => Some(ClientAddr::V4(0x0a00_0001)),
        "2001:db8::1" => Some(ClientAddr::V6(0x2001_0db8_0000_0000_0000_0000_0000_0001)),
        _ => None,
    }
}

#[test]
fn the_first_entry_of_a_list_is_taken_and_trimmed() {
    assert_eq!(first_forwarded_entry("203.0.113.7, 70.41.3.18, 150.172.238.178"), "203.0.113.7");
    assert_eq!(first_forwarded_entry("  203.0.113.7\t,70.41.3.18"), "203.0.113.7");
    assert_eq!(first_forwarded_entry("203.0.113.7"), "203.0.113.7");
    assert_eq!(first_forwarded_entry(" 2001:db8::1 "), "2001:db8::1");
    assert_eq!(first_forwarded_entry("a b , c"), "a b");
}

#[test]
fn an_empty_first_entry_is_empty() {
    assert_eq!(first_forwarded_entry(""), "");
    assert_eq!(first_forwarded_entry("   "), "");
    assert_eq!(first_forwarded_entry(",1.2.3.4"), "");
    assert_eq!(first_forwarded_entry("  , 1.2.3.4"), "");
}

#[test]
fn white_space_is_what_the_standard_library_trims() {
    let header = "\u{a0}\u{2003}\u{3000}10.0.0.1\u{85}\u{1680}\u{2028},x";
    assert_eq!(first_forwarded_entry(header), "10.0.0.1");
    assert_eq!(first_forwarded_entry(header), header.split(',').next().unwrap().trim());
    let kept = "\u{200b}10.0.0.1\u{feff}";
    assert_eq!(first_forwarded_entry(kept), kept);
    assert_eq!(first_forwarded_entry(kept), kept.trim());
}

#[test]
fn the_forwarded_address_comes_before_the_real_ip() {
    let forwarded = parse(first_forwarded_entry("203.0.113.7, 10.0.0.1"));
    let real_ip = parse("198.51.100.4");
    let peer = parse("10.0.0.1");
    assert_eq!(forwarded, Some(ClientAddr::V4(0xcb00_7107)));
    assert_eq!(resolve_client(forwarded, real_ip, peer), forwarded);
    assert_eq!(resolve_client(forwarded, real_ip, None), forwarded);
    assert_eq!(resolve_client(forwarded, None, None), forwarded);
}

#[test]
fn a_header_that_names_no_address_falls_through() {
    let forwarded = parse(first_forwarded_entry("unknown, 203.0.113.7"));
    let real_ip = parse("2001:db8::1");
    let peer = parse("10.0.0.1");
    assert_eq!(forwarded, None);
    assert_eq!(real_ip, Some(ClientAddr::V6(0x2001_0db8_0000_0000_0000_0000_0000_0001)));
    assert_eq!(resolve_client(forwarded, real_ip, peer), real_ip);
    assert_eq!(resolve_client(None, parse("not an address"), peer), peer);
    assert_eq!(resolve_client(None, None, None), None);
}
