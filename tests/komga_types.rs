use k_librarian::komga::{
    KomgaClient, KomgaCommonError, KomgaCommonErrorViolation, KomgaUser, KomgaViolationsError,
};

fn client() -> KomgaClient {
    KomgaClient::new("http://komga:25600".to_string(), "admin@x".to_string(), "pw".to_string())
}

#[test]
fn client_keeps_configuration() {
    let c = client();
    assert_eq!(c.get_host(), "http://komga:25600");
    assert_eq!(c.username(), "admin@x");
    assert_eq!(c.password(), "pw");
}

#[test]
fn client_endpoints() {
    let c = client();
    assert_eq!(c.me_url(), "http://komga:25600/api/v2/users/me");
    assert_eq!(c.users_url(), "http://komga:25600/api/v2/users");
    assert_eq!(c.user_url("0ABC"), "http://komga:25600/api/v2/users/0ABC");
    assert_eq!(c.sharing_labels_url(), "http://komga:25600/api/v1/sharing-labels");
    assert_eq!(c.libraries_url(), "http://komga:25600/api/v1/libraries");
}

#[test]
fn violation_texts() {
    let v = KomgaViolationsError {
        violations: vec![
            KomgaCommonErrorViolation { field_name: "email".to_string(), message: "taken".to_string() },
            KomgaCommonErrorViolation { field_name: "password".to_string(), message: "short".to_string() },
        ],
    };
    assert_eq!(v.violations[0].to_string(), "email: taken");
    assert_eq!(v.to_string(), "email: taken\npassword: short\n");
    assert_eq!(KomgaViolationsError { violations: vec![] }.to_string(), "");
}

#[test]
fn common_error_text() {
    let e = KomgaCommonError {
        timestamp: "2024-01-01T00:00:00Z".to_string(),
        status: 400,
        error: "Bad Request".to_string(),
        message: "User email already exists".to_string(),
        path: "/api/v2/users".to_string(),
    };
    assert_eq!(e.to_string(), "Bad Request: User email already exists");
}

#[test]
fn admin_role_check() {
    let mut u = KomgaUser {
        id: "1".to_string(),
        email: "a@b.c".to_string(),
        roles: vec!["USER".to_string(), "ADMIN".to_string()],
        shared_all_libraries: true,
        shared_libraries_ids: vec![],
        labels_allow: vec![],
        labels_exclude: vec![],
    };
    assert!(u.is_admin());
    assert!(u.has_role(&"USER".to_string()));
    u.roles = vec!["USER".to_string(), "admin".to_string()];
    assert!(!u.is_admin());
}
