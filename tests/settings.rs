use k_librarian::service::{public_host, redirect_target, redis_url};

#[test]
fn redis_address_without_password() {
    assert_eq!(redis_url("localhost", "6379", ""), "redis://localhost:6379");
}

#[test]
fn redis_address_with_password() {
    assert_eq!(redis_url("cache", "6380", "pa:ss"), "redis://:pa:ss@cache:6380");
}

#[test]
fn public_host_prefers_trimmed_hostname() {
    assert_eq!(public_host("http://komga:25600", Some("  https://books.example ")), "https://books.example");
    assert_eq!(public_host("http://komga:25600", Some("   ")), "http://komga:25600");
    assert_eq!(public_host("http://komga:25600", None), "http://komga:25600");
}

#[test]
fn redirect_percent_encodes_path() {
    assert_eq!(redirect_target("/invite/abc-1_2.3~"), "/?redirect=%2Finvite%2Fabc-1_2.3~");
    assert_eq!(redirect_target("/a b?x=ü"), "/?redirect=%2Fa%20b%3Fx%3D%C3%BC");
    assert_eq!(redirect_target(""), "/?redirect=");
}

#[test]
fn public_host_trims_unicode_white_space() {
    assert_eq!(public_host("srv", Some("\u{3000}\thost.example\u{a0}\n")), "host.example");
    assert_eq!(public_host("srv", Some("\u{2028}")), "srv");
    assert_eq!(public_host("srv", Some("a b")), "a b");
}
