use todo_api::response::{handle_err, DbError, Payload};
use todo_api::service::{is_authorized, sqlite_path};

#[test]
fn sqlite_path_strips_scheme() {
    assert_eq!(sqlite_path("sqlite://data/app.db"), Some("data/app.db".to_string()));
    assert_eq!(sqlite_path("sqlite://"), Some(String::new()));
}

#[test]
fn sqlite_path_refuses_other_schemes() {
    assert_eq!(sqlite_path("postgres://x"), None);
    assert_eq!(sqlite_path("sqlite:/x"), None);
    assert_eq!(sqlite_path(""), None);
    assert_eq!(sqlite_path("SQLITE://x"), None);
}

#[test]
fn authorization_needs_the_exact_key() {
    assert!(is_authorized(Some(b"secret".as_slice()), b"secret"));
    assert!(!is_authorized(Some(b"secreT".as_slice()), b"secret"));
    assert!(!is_authorized(Some(b"secret2".as_slice()), b"secret"));
    assert!(!is_authorized(Some(b"".as_slice()), b"secret"));
    assert!(!is_authorized(None, b"secret"));
    assert!(is_authorized(Some(b"".as_slice()), b""));
}

#[test]
fn errors_map_to_status() {
    let missing = handle_err(DbError::RowNotFound);
    assert_eq!(missing.status, 404);
    assert!(matches!(missing.payload, Payload::Text(ref t) if t == "Not found"));
    let other = handle_err(DbError::Other);
    assert_eq!(other.status, 500);
    assert!(matches!(other.payload, Payload::Text(ref t) if t == "Internal Server Error"));
}
