use proxy_core::addr::{decimal_string, make_addr};

#[test]
fn decimal_digits() {
    assert_eq!(decimal_string(0), "0");
    assert_eq!(decimal_string(7), "7");
    assert_eq!(decimal_string(10), "10");
    assert_eq!(decimal_string(80), "80");
    assert_eq!(decimal_string(443), "443");
    assert_eq!(decimal_string(8080), "8080");
    assert_eq!(decimal_string(65535), "65535");
}

#[test]
fn addr_is_host_colon_port() {
    assert_eq!(make_addr("example.com", 80), "example.com:80");
    assert_eq!(make_addr("origin.test", 8080), "origin.test:8080");
    assert_eq!(make_addr("127.0.0.1", 0), "127.0.0.1:0");
    assert_eq!(make_addr("h", 65535), "h:65535");
}
