use corral_validate::token::{cookie_value, extract_token};

fn h(pairs: &[(&str, &str)]) -> Vec<(String, String)> {
    pairs.iter().map(|(k, v)| (k.to_string(), v.to_string())).collect()
}

#[test]
fn cookie_wins_over_bearer() {
    let headers = h(&[("Cookie", "better-auth.session_token=tok_abc"), ("Authorization", "Bearer tok_xyz")]);
    assert_eq!(extract_token(&headers), Some("tok_abc".to_string()));
}

#[test]
fn cookie_wins_even_when_listed_after_bearer() {
    let headers = h(&[("Authorization", "Bearer tok_xyz"), ("Cookie", "better-auth.session_token=tok_abc")]);
    assert_eq!(extract_token(&headers), Some("tok_abc".to_string()));
}

#[test]
fn bearer_used_without_cookie() {
    let headers = h(&[("Accept", "*/*"), ("authorization", "Bearer tok_xyz")]);
    assert_eq!(extract_token(&headers), Some("tok_xyz".to_string()));
}

#[test]
fn nothing_when_no_header_matches() {
    let headers = h(&[("Cookie", "other=1; theme=dark"), ("Authorization", "Basic abc")]);
    assert_eq!(extract_token(&headers), None);
    assert_eq!(extract_token(&[]), None);
}

#[test]
fn bearer_prefix_is_case_sensitive() {
    let headers = h(&[("Authorization", "bearer tok_xyz")]);
    assert_eq!(extract_token(&headers), None);
}

#[test]
fn header_names_ignore_ascii_case() {
    let headers = h(&[("COOKIE", "better-auth.session_token=t1")]);
    assert_eq!(extract_token(&headers), Some("t1".to_string()));
}

#[test]
fn cookie_segments_are_trimmed_and_first_wins() {
    assert_eq!(
        cookie_value("a=b;   better-auth.session_token=first ; better-auth.session_token=second"),
        Some("first".to_string())
    );
    assert_eq!(cookie_value("better-auth.session_token="), Some(String::new()));
    assert_eq!(cookie_value(""), None);
    assert_eq!(cookie_value("x-better-auth.session_token=zz"), None);
}

#[test]
fn later_cookie_header_used_when_first_lacks_token() {
    let headers = h(&[("Cookie", "a=1"), ("cookie", "better-auth.session_token=t2")]);
    assert_eq!(extract_token(&headers), Some("t2".to_string()));
}
