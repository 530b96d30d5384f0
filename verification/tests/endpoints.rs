use anevicon_config::endpoint::{
    find_gap, parse_bounded, parse_bracketed_endpoint, parse_dotted_endpoint, parse_endpoint,
    parse_endpoint_chars, parse_group, parse_groups, parse_ipv4, parse_ipv6, parse_octet,
    parse_port, parse_scope, parse_scoped, Endpoint, EndpointError,
};

fn chars(text: &str) -> Vec<char> {
    text.chars().collect()
}

fn v4(octets: [u8; 4], port: u16) -> Result<Endpoint, EndpointError> {
    Ok(Endpoint::V4 { octets, port })
}

fn v6(segments: [u16; 8], scope_id: u32, port: u16) -> Result<Endpoint, EndpointError> {
    Ok(Endpoint::V6 { segments, scope_id, port })
}

#[test]
fn dotted_endpoints_are_read() {
    assert_eq!(parse_endpoint("127.0.0.1:8080"), v4([127, 0, 0, 1], 8080));
    assert_eq!(parse_endpoint("0.0.0.0:0"), v4([0, 0, 0, 0], 0));
    assert_eq!(parse_endpoint("255.255.255.255:65535"), v4([255, 255, 255, 255], 65535));
    assert_eq!(parse_endpoint("1.2.3.4:00080"), v4([1, 2, 3, 4], 80));
    assert_eq!(parse_endpoint("10.20.30.40:1"), v4([10, 20, 30, 40], 1));
}

#[test]
fn bracketed_endpoints_are_read() {
    assert_eq!(parse_endpoint("[::1]:8080"), v6([0, 0, 0, 0, 0, 0, 0, 1], 0, 8080));
    assert_eq!(parse_endpoint("[::]:0"), v6([0; 8], 0, 0));
    assert_eq!(parse_endpoint("[1:2:3:4:5:6:7:8]:9"), v6([1, 2, 3, 4, 5, 6, 7, 8], 0, 9));
    assert_eq!(parse_endpoint("[1:2:3:4:5:6:7::]:9"), v6([1, 2, 3, 4, 5, 6, 7, 0], 0, 9));
    assert_eq!(parse_endpoint("[::2:3:4:5:6:7:8]:9"), v6([0, 2, 3, 4, 5, 6, 7, 8], 0, 9));
    assert_eq!(parse_endpoint("[1::8]:9"), v6([1, 0, 0, 0, 0, 0, 0, 8], 0, 9));
    assert_eq!(parse_endpoint("[1:2::7:8]:9"), v6([1, 2, 0, 0, 0, 0, 7, 8], 0, 9));
    assert_eq!(
        parse_endpoint("[ABCD:ef01::]:1"),
        v6([0xabcd, 0xef01, 0, 0, 0, 0, 0, 0], 0, 1)
    );
    assert_eq!(
        parse_endpoint("[0000:0000:0000:0000:0000:0000:0000:0001]:1"),
        v6([0, 0, 0, 0, 0, 0, 0, 1], 0, 1)
    );
    assert_eq!(
        parse_endpoint("[ffff:ffff:ffff:ffff:ffff:ffff:ffff:ffff]:65535"),
        v6([0xffff; 8], 0, 65535)
    );
}

#[test]
fn dotted_groups_stand_for_the_last_two() {
    assert_eq!(
        parse_endpoint("[::ffff:1.2.3.4]:80"),
        v6([0, 0, 0, 0, 0, 0xffff, 0x0102, 0x0304], 0, 80)
    );
    assert_eq!(
        parse_endpoint("[1:2:3:4:5:6:1.2.3.4]:80"),
        v6([1, 2, 3, 4, 5, 6, 0x0102, 0x0304], 0, 80)
    );
    assert_eq!(parse_endpoint("[::1.2.3.4]:80"), v6([0, 0, 0, 0, 0, 0, 0x0102, 0x0304], 0, 80));
    assert_eq!(
        parse_endpoint("[::1:2:3:4:5:1.2.3.4]:80"),
        v6([0, 1, 2, 3, 4, 5, 0x0102, 0x0304], 0, 80)
    );
    assert_eq!(
        parse_endpoint("[1::255.255.255.255]:80"),
        v6([1, 0, 0, 0, 0, 0, 0xffff, 0xffff], 0, 80)
    );
}

#[test]
fn scopes_are_read() {
    assert_eq!(parse_endpoint("[fe80::1%3]:80"), v6([0xfe80, 0, 0, 0, 0, 0, 0, 1], 3, 80));
    assert_eq!(
        parse_endpoint("[fe80::1%0004294967295]:80"),
        v6([0xfe80, 0, 0, 0, 0, 0, 0, 1], 4294967295, 80)
    );
    assert_eq!(parse_endpoint("[::%0]:1"), v6([0; 8], 0, 1));
}

#[test]
fn other_texts_are_no_endpoints() {
    let texts = [
        "",
        ":",
        "not-an-address",
        "localhost:80",
        "127.0.0.1",
        "127.0.0.1:",
        "127.0.0.1:65536",
        "127.0.0.1:-1",
        "127.0.0.1:+1",
        "127.0.0.1:80 ",
        " 127.0.0.1:80",
        "127.0.0.01:80",
        "127.0.0.256:80",
        "127.0.0:80",
        "127.0.0.1.1:80",
        "1..2.3:80",
        "0127.0.0.1:80",
        "1.2.3.4:5:6",
        "::1:80",
        "[::1]",
        "[::1]:",
        "[::1]80",
        "[::1:80",
        "::1]:80",
        "[]:80",
        "[:::]:80",
        "[1::2::3]:80",
        "[1:2:3:4:5:6:7:8:9]:80",
        "[1:2:3:4:5:6:7]:80",
        "[1:2:3:4::5:6:7:8]:80",
        "[1::2:3:4:5:6:7:8]:80",
        "[12345::]:80",
        "[g::]:80",
        "[:1::]:80",
        "[1:]:80",
        "[1.2.3.4]:80",
        "[1.2.3.4::]:80",
        "[1:2:3:4:5:6:7:1.2.3.4]:80",
        "[1:2:3:4:5:1.2.3.4]:80",
        "[::1.2.3.4:5]:80",
        "[::1:2:3:4:5:6:1.2.3.4]:80",
        "[1::1.2.3]:80",
        "[1::1.2.3.04]:80",
        "[1::1.2.3.256]:80",
        "[fe80::1%]:80",
        "[fe80::1%eth0]:80",
        "[fe80::1%4294967296]:80",
        "[fe80::1%1%2]:80",
        "[%1]:80",
        "[::1]]:80",
        "[[::1]:80",
        "[::1]:80:80",
        "[::1]:65536",
        "１２７.0.0.1:80",
        "[::１]:80",
    ];
    for text in texts.iter() {
        assert_eq!(parse_endpoint(text), Err(EndpointError {}), "{:?}", text);
    }
}

#[test]
fn characters_and_text_read_alike() {
    for text in ["127.0.0.1:8080", "[::1]:8080", "[fe80::1%3]:80", "nothing", ""].iter() {
        assert_eq!(parse_endpoint_chars(&chars(text)), parse_endpoint(text).ok(), "{:?}", text);
    }
}

#[test]
fn each_kind_of_endpoint_has_its_reader() {
    assert_eq!(
        parse_dotted_endpoint(&chars("1.2.3.4:5")),
        Some(Endpoint::V4 { octets: [1, 2, 3, 4], port: 5 })
    );
    assert_eq!(parse_dotted_endpoint(&chars("[::1]:5")), None);
    assert_eq!(parse_dotted_endpoint(&chars("1.2.3.4")), None);
    assert_eq!(
        parse_bracketed_endpoint(&chars("[::1]:5")),
        Some(Endpoint::V6 { segments: [0, 0, 0, 0, 0, 0, 0, 1], scope_id: 0, port: 5 })
    );
    assert_eq!(parse_bracketed_endpoint(&chars("1.2.3.4:5")), None);
    assert_eq!(parse_bracketed_endpoint(&chars("::1]:5")), None);
    assert_eq!(parse_bracketed_endpoint(&chars("")), None);
    assert_eq!(parse_bracketed_endpoint(&chars("[")), None);
    assert_eq!(parse_bracketed_endpoint(&chars("[]")), None);
}

#[test]
fn an_address_may_have_a_scope() {
    assert_eq!(parse_scoped(&chars("::1")), Some(([0, 0, 0, 0, 0, 0, 0, 1], 0)));
    assert_eq!(parse_scoped(&chars("::1%0")), Some(([0, 0, 0, 0, 0, 0, 0, 1], 0)));
    assert_eq!(parse_scoped(&chars("::1%42")), Some(([0, 0, 0, 0, 0, 0, 0, 1], 42)));
    assert_eq!(parse_scoped(&chars("::1%")), None);
    assert_eq!(parse_scoped(&chars("%1")), None);
    assert_eq!(parse_scoped(&chars("::1%1%1")), None);
    assert_eq!(parse_scoped(&chars("::1%x")), None);
}

#[test]
fn bounded_numbers_are_read() {
    assert_eq!(parse_bounded(&chars("0"), 0), Some(0));
    assert_eq!(parse_bounded(&chars("1"), 0), None);
    assert_eq!(parse_bounded(&chars("000123"), 123), Some(123));
    assert_eq!(parse_bounded(&chars("124"), 123), None);
    assert_eq!(parse_bounded(&chars("4294967295"), u32::MAX), Some(u32::MAX));
    assert_eq!(parse_bounded(&chars("4294967296"), u32::MAX), None);
    assert_eq!(parse_bounded(&chars("99999999999999999999999999"), u32::MAX), None);
    assert_eq!(parse_bounded(&chars(""), 9), None);
    assert_eq!(parse_bounded(&chars("1a"), 99), None);
    assert_eq!(parse_bounded(&chars("+1"), 99), None);
}

#[test]
fn ports_and_scopes_are_read() {
    assert_eq!(parse_port(&chars("65535")), Some(65535));
    assert_eq!(parse_port(&chars("65536")), None);
    assert_eq!(parse_port(&chars("0")), Some(0));
    assert_eq!(parse_port(&chars("")), None);
    assert_eq!(parse_scope(&chars("4294967295")), Some(4294967295));
    assert_eq!(parse_scope(&chars("4294967296")), None);
}

#[test]
fn octets_are_read() {
    assert_eq!(parse_octet(&chars("0")), Some(0));
    assert_eq!(parse_octet(&chars("9")), Some(9));
    assert_eq!(parse_octet(&chars("10")), Some(10));
    assert_eq!(parse_octet(&chars("255")), Some(255));
    assert_eq!(parse_octet(&chars("256")), None);
    assert_eq!(parse_octet(&chars("00")), None);
    assert_eq!(parse_octet(&chars("01")), None);
    assert_eq!(parse_octet(&chars("0001")), None);
    assert_eq!(parse_octet(&chars("")), None);
    assert_eq!(parse_octet(&chars("1f")), None);
}

#[test]
fn dotted_addresses_are_read() {
    assert_eq!(parse_ipv4(&chars("192.168.0.1")), Some([192, 168, 0, 1]));
    assert_eq!(parse_ipv4(&chars("192.168.0")), None);
    assert_eq!(parse_ipv4(&chars("192.168.0.1.")), None);
    assert_eq!(parse_ipv4(&chars(".192.168.0.1")), None);
    assert_eq!(parse_ipv4(&chars("")), None);
}

#[test]
fn groups_are_read() {
    assert_eq!(parse_group(&chars("0")), Some(0));
    assert_eq!(parse_group(&chars("ffff")), Some(0xffff));
    assert_eq!(parse_group(&chars("FfFf")), Some(0xffff));
    assert_eq!(parse_group(&chars("1a2B")), Some(0x1a2b));
    assert_eq!(parse_group(&chars("00001")), None);
    assert_eq!(parse_group(&chars("")), None);
    assert_eq!(parse_group(&chars("12g")), None);
    assert_eq!(parse_groups(&chars(""), true), Some(vec![]));
    assert_eq!(parse_groups(&chars("1:2:3"), false), Some(vec![1, 2, 3]));
    assert_eq!(parse_groups(&chars("1:2:3.4.5.6"), true), Some(vec![1, 2, 0x0304, 0x0506]));
    assert_eq!(parse_groups(&chars("1:2:3.4.5.6"), false), None);
    assert_eq!(parse_groups(&chars("1:3.4.5.6:2"), true), None);
    assert_eq!(parse_groups(&chars("1::2"), true), None);
    assert_eq!(parse_groups(&chars(":"), true), None);
    assert_eq!(
        parse_groups(&chars("1:2:3:4:5:6:7:8:9:a"), true),
        Some(vec![1, 2, 3, 4, 5, 6, 7, 8, 9, 10])
    );
}

#[test]
fn gaps_are_found() {
    assert_eq!(find_gap(&chars("")), 0);
    assert_eq!(find_gap(&chars(":")), 1);
    assert_eq!(find_gap(&chars("::")), 0);
    assert_eq!(find_gap(&chars("1:2:3")), 5);
    assert_eq!(find_gap(&chars("1:2::3")), 3);
    assert_eq!(find_gap(&chars("1::2::3")), 1);
    assert_eq!(find_gap(&chars("12::")), 2);
}

#[test]
fn colon_addresses_are_read() {
    assert_eq!(parse_ipv6(&chars("::")), Some([0; 8]));
    assert_eq!(parse_ipv6(&chars("1::")), Some([1, 0, 0, 0, 0, 0, 0, 0]));
    assert_eq!(parse_ipv6(&chars("::1")), Some([0, 0, 0, 0, 0, 0, 0, 1]));
    assert_eq!(parse_ipv6(&chars("1:2:3::4:5:6:7")), Some([1, 2, 3, 0, 4, 5, 6, 7]));
    assert_eq!(parse_ipv6(&chars("1:2:3:4:5:6:7:8")), Some([1, 2, 3, 4, 5, 6, 7, 8]));
    assert_eq!(parse_ipv6(&chars("1:2:3:4:5:6:7")), None);
    assert_eq!(parse_ipv6(&chars("")), None);
    assert_eq!(parse_ipv6(&chars("1")), None);
}

#[test]
fn the_endpoint_error_says_what_is_wrong() {
    assert_eq!(EndpointError {}.message(), "invalid socket address syntax");
}
