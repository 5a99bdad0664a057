use gradething::auth::{begin_sign_in, classroom_scopes, sign_in_url, AUTH_URL};
use gradething::redirect::{code_and_state, param_value, parse_redirect, redirect_query, RedirectError};

#[test]
fn redirect_with_code_and_state() {
    let r = parse_redirect("/callback?code=4%2F0AbC&state=xyz").unwrap();
    assert_eq!(r, ("4/0AbC".to_string(), "xyz".to_string()));
}

#[test]
fn redirect_errors() {
    assert_eq!(parse_redirect("/callback?state=xyz"), Err(RedirectError::MissingCode));
    assert_eq!(parse_redirect("/callback?code=abc"), Err(RedirectError::MissingState));
    assert_eq!(parse_redirect("/callback"), Err(RedirectError::MissingCode));
    assert_eq!(parse_redirect(""), Err(RedirectError::MissingCode));
    assert_eq!(parse_redirect("/cb?code=1?state=2"), Err(RedirectError::MissingState));
    assert_eq!(
        RedirectError::MissingCode.message(),
        "No code parameter found in redirect URL"
    );
    assert_eq!(
        RedirectError::MissingState.message(),
        "No state parameter found (CSRF protection)"
    );
}

#[test]
fn later_pairs_win_and_values_are_decoded() {
    let r = parse_redirect("/callback?code=first&state=a+b&code=second&&scope=x").unwrap();
    assert_eq!(r, ("second".to_string(), "a b".to_string()));
    let r = parse_redirect("/cb?state=&code=").unwrap();
    assert_eq!(r, (String::new(), String::new()));
}

#[test]
fn query_is_between_question_marks() {
    assert_eq!(redirect_query("/a?b=c"), b"b=c".to_vec());
    assert_eq!(redirect_query("/a?b=c?d"), b"b=c".to_vec());
    assert_eq!(redirect_query("/a"), Vec::<u8>::new());
    assert_eq!(redirect_query("?"), Vec::<u8>::new());
    assert_eq!(redirect_query("/é?x=ü"), "x=ü".as_bytes().to_vec());
}

#[test]
fn pair_lookup() {
    let pairs = vec![
        ("code".to_string(), "1".to_string()),
        ("state".to_string(), "s".to_string()),
        ("code".to_string(), "2".to_string()),
    ];
    assert_eq!(param_value(&pairs, "code"), Some("2".to_string()));
    assert_eq!(param_value(&pairs, "other"), None);
    assert_eq!(code_and_state(&pairs), Ok(("2".to_string(), "s".to_string())));
    assert_eq!(code_and_state(&vec![]), Err(RedirectError::MissingCode));
}

#[test]
fn scopes_requested() {
    let s = classroom_scopes();
    assert_eq!(s.len(), 5);
    assert_eq!(s[0], "openid");
    assert_eq!(s[4], "https://www.googleapis.com/auth/classroom.student-submissions.me.readonly");
}

#[test]
fn authorization_url_carries_the_request() {
    let url = sign_in_url("my-client", "st4te").unwrap();
    assert!(url.starts_with(AUTH_URL));
    assert!(url.contains("response_type=code"));
    assert!(url.contains("client_id=my-client"));
    assert!(url.contains("state=st4te"));
    assert!(url.contains("redirect_uri=http%3A%2F%2F127.0.0.1%3A8080%2Fcallback"));
    assert!(url.contains("scope=openid+https%3A%2F%2Fwww.googleapis.com%2Fauth%2Fclassroom.courses.readonly"));
}

#[test]
fn sign_in_uses_fresh_state() {
    let a = begin_sign_in("my-client").unwrap();
    let b = begin_sign_in("my-client").unwrap();
    assert_eq!(a.state.chars().count(), 22);
    assert!(a.state.chars().all(|c| c.is_ascii_alphanumeric() || c == '-' || c == '_'));
    assert!(a.url.contains(&format!("state={}", a.state)));
    assert_ne!(a.state, b.state);
}
