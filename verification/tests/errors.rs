use ctapi_rs::CtApiError;
use ctapi_rs::UserError;

#[test]
fn user_error_debug() {
    let error = UserError::TagNotFound(String::from("error"));
    println!("{:?}", error);
}

#[test]
fn user_error_from_string_names_the_tag() {
    let error = UserError::from(String::from("BIT_1"));
    assert!(matches!(error, UserError::TagNotFound(tag) if tag == "BIT_1"));
}

#[test]
fn error_classification_is_exact() {
    let tag = CtApiError::TagNotFound { tag: "BIT_1".to_string() };
    assert!(tag.is_tag_error());
    assert!(!tag.is_connection_error());
    assert!(!tag.is_system_error());

    let conn = CtApiError::ConnectionFailed;
    assert!(conn.is_connection_error());
    assert!(!conn.is_tag_error());
    assert!(!conn.is_system_error());

    let sys = CtApiError::System { code: 997 };
    assert!(sys.is_system_error());
    assert!(!sys.is_tag_error());
    assert!(!sys.is_connection_error());

    let timeout = CtApiError::Timeout;
    assert!(!timeout.is_tag_error());
    assert!(!timeout.is_connection_error());
    assert!(!timeout.is_system_error());
}
