use groundwork::error_code::ErrorCode;
use groundwork::text::str_eq;

#[test]
fn from_str_known_names() {
    assert_eq!(ErrorCode::from_str("NotFound").unwrap(), ErrorCode::NotFound);
    assert_eq!(ErrorCode::from_str("ImATeapot").unwrap(), ErrorCode::ImATeapot);
    assert_eq!(
        ErrorCode::from_str("NetworkAuthenticationRequired").unwrap(),
        ErrorCode::NetworkAuthenticationRequired
    );
    assert_eq!(ErrorCode::from_str("MultipleChoices").unwrap(), ErrorCode::MultipleChoices);
}

#[test]
fn from_str_unknown_name() {
    let e = ErrorCode::from_str("notfound").unwrap_err();
    assert_eq!(e.code, "notfound");
    assert!(ErrorCode::from_str("").is_err());
    assert!(ErrorCode::from_str("NotFound ").is_err());
}

#[test]
fn as_str_round_trips() {
    let all = [
        ErrorCode::Found,
        ErrorCode::SeeOther,
        ErrorCode::BadGateway,
        ErrorCode::LoopDetected,
        ErrorCode::UriTooLong,
        ErrorCode::TooManyRequests,
    ];
    for c in all {
        assert_eq!(ErrorCode::from_str(c.as_str()).unwrap(), c);
    }
    assert_eq!(ErrorCode::GatewayTimeout.as_str(), "GatewayTimeout");
}

#[test]
fn str_eq_compares_characters() {
    assert!(str_eq("abc", "abc"));
    assert!(!str_eq("abc", "abd"));
    assert!(!str_eq("abc", "ab"));
    assert!(str_eq("", ""));
}
