use httpmock::address::{IpFamily, ServerAddress};

#[test]
fn version_4_address_as_text() {
    let addr = ServerAddress::new(String::from("127.0.0.1"), 5000, IpFamily::V4);
    assert_eq!(addr.to_string(), "127.0.0.1:5000");
    assert_eq!(addr.host(), "127.0.0.1");
    assert_eq!(addr.port(), 5000);
}

#[test]
fn version_6_address_as_text_stands_in_brackets() {
    let addr = ServerAddress::new(String::from("::1"), 8080, IpFamily::V6 { scope_id: 0 });
    assert_eq!(addr.to_string(), "[::1]:8080");
    assert_eq!(addr.host(), "::1");
}

#[test]
fn version_6_address_with_scope_as_text() {
    let addr = ServerAddress::new(String::from("fe80::1"), 80, IpFamily::V6 { scope_id: 3 });
    assert_eq!(addr.to_string(), "[fe80::1%3]:80");
    assert_eq!(addr.host(), "fe80::1");
}

#[test]
fn port_bounds_as_text() {
    let low = ServerAddress::new(String::from("10.0.0.2"), 0, IpFamily::V4);
    assert_eq!(low.to_string(), "10.0.0.2:0");
    let high = ServerAddress::new(String::from("10.0.0.2"), 65535, IpFamily::V4);
    assert_eq!(high.to_string(), "10.0.0.2:65535");
}

#[test]
fn addresses_as_the_socket_address_prints_them() {
    let cases = [
        (ServerAddress::new(String::from("0.0.0.0"), 0, IpFamily::V4), "0.0.0.0:0"),
        (
            ServerAddress::new(String::from("255.255.255.255"), 65535, IpFamily::V4),
            "255.255.255.255:65535",
        ),
        (
            ServerAddress::new(String::from("fe80::1"), 443, IpFamily::V6 { scope_id: 7 }),
            "[fe80::1%7]:443",
        ),
        (
            ServerAddress::new(
                String::from("2001:db8::ff00:42:8329"),
                1,
                IpFamily::V6 { scope_id: 4294967295 },
            ),
            "[2001:db8::ff00:42:8329%4294967295]:1",
        ),
    ];
    for (addr, text) in cases.iter() {
        assert_eq!(addr.to_string(), *text);
    }
}

#[test]
fn push_authority_appends() {
    let addr = ServerAddress::new(String::from("127.0.0.1"), 5000, IpFamily::V4);
    let mut out = String::from("http://");
    addr.push_authority(&mut out);
    assert_eq!(out, "http://127.0.0.1:5000");
}

#[test]
fn clone_of_an_address_is_equal() {
    let addr = ServerAddress::new(String::from("::1"), 1, IpFamily::V6 { scope_id: 2 });
    assert_eq!(addr.clone(), addr);
}
