use k_librarian::auth::{auth_login, authorize, LoginForm};

fn secret() -> String {
    "s3cret".to_string()
}

fn reason(header: Option<&str>, secret: &String) -> Option<&'static str> {
    match authorize(header, secret) {
        Ok(_) => None,
        Err(e) => {
            assert!(!e.ok);
            Some(e.error)
        }
    }
}

#[test]
fn bearer_with_secret_passes() {
    match authorize(Some("Bearer s3cret"), &secret()) {
        Ok(t) => assert_eq!(t.0.to_str().unwrap(), "s3cret"),
        Err(_) => panic!("refused"),
    }
}

#[test]
fn missing_header_is_refused() {
    assert_eq!(reason(None, &secret()), Some("Missing Authorization header"));
}

#[test]
fn missing_prefix_is_refused() {
    assert_eq!(reason(Some("s3cret"), &secret()), Some("Missing Bearer prefix"));
    assert_eq!(reason(Some("bearer s3cret"), &secret()), Some("Missing Bearer prefix"));
}

#[test]
fn wrong_secret_is_refused() {
    assert_eq!(reason(Some("Bearer nope"), &secret()), Some("Invalid token"));
    assert_eq!(reason(Some("Bearer "), &secret()), Some("Invalid token"));
}

#[test]
fn only_the_leading_bearer_marker_is_dropped() {
    assert_eq!(reason(Some("Bearer s3Bearer cret"), &secret()), Some("Invalid token"));
    assert_eq!(reason(Some("Bearer Bearer s3cret"), &secret()), Some("Invalid token"));
    assert_eq!(reason(Some("Bearer s3cretBearer "), &secret()), Some("Invalid token"));
}

#[test]
fn unprintable_secret_is_bad_format() {
    let odd = "a\u{1}b".to_string();
    assert_eq!(reason(Some("Bearer a\u{1}b"), &odd), Some("Invalid token format"));
}

#[test]
fn login_compares_with_secret() {
    let s = secret();
    let ok = auth_login(Some(&s), &LoginForm { token: "s3cret".to_string() });
    assert!(ok.ok);
    assert!(ok.error.is_none());
    let bad = auth_login(Some(&s), &LoginForm { token: "x".to_string() });
    assert!(!bad.ok);
    assert_eq!(bad.error.as_deref(), Some("Invalid token"));
    let unset = auth_login(None, &LoginForm { token: "s3cret".to_string() });
    assert!(!unset.ok);
}
