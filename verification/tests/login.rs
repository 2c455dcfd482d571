//! Tests for token extraction and the login handshake.

use smartschool::client::{find_token_from, get_token, has_session_cookie, Client};
use smartschool::error::Error;
use smartschool::http::{Body, Method};

#[test]
fn get_token_finds_single_double_space_value() {
    let body = "<html><input type=\"hidden\"   value=\"abc123\" /></html>";
    // note: three spaces before value, so the marker (two spaces) matches
    assert_eq!(get_token(body), Some("abc123"));
}

#[test]
fn get_token_exact_marker() {
    let body = "<input name=\"t\"  value=\"the-token\">";
    assert_eq!(get_token(body), Some("the-token"));
}

#[test]
fn get_token_fails_without_marker() {
    let body = "<input name=\"t\" value=\"the-token\">";
    assert_eq!(get_token(body), None);
    assert_eq!(get_token(""), None);
    assert_eq!(get_token("plain text, no attributes at all"), None);
}

#[test]
fn get_token_rejects_empty_capture() {
    // a capture must be non-empty; `""` right after the marker does not end it
    assert_eq!(get_token("  value=\"\""), None);
    // ... but a later quote can still close it, swallowing the first quote
    assert_eq!(get_token("  value=\"\"x\""), Some("\"x"));
}

#[test]
fn get_token_needs_a_closing_quote() {
    assert_eq!(get_token("  value=\"abc"), None);
    assert_eq!(get_token("  value=\""), None);
}

#[test]
fn get_token_does_not_cross_line_breaks() {
    assert_eq!(get_token("  value=\"ab\ncd\""), None);
    // a later marker on another line still matches
    let body = "  value=\"ab\ncd\"\n  value=\"ok\"";
    assert_eq!(get_token(body), Some("ok"));
}

#[test]
fn get_token_picks_earliest_match() {
    let body = "x  value=\"first\" y  value=\"second\"";
    assert_eq!(get_token(body), Some("first"));
}

#[test]
fn find_token_from_resumes_after_capture() {
    let body = "x  value=\"first\" y  value=\"second\"";
    let (t1, end) = find_token_from(body, 0).unwrap();
    assert_eq!(t1, "first");
    let (t2, _) = find_token_from(body, end).unwrap();
    assert_eq!(t2, "second");
    assert_eq!(find_token_from(body, body.len() - 1), None);
}

#[test]
fn login_request_targets_login_path() {
    let r = Client::login_request("https://myschool.example");
    assert_eq!(r.method, Method::Get);
    assert_eq!(r.url, "https://myschool.example/login");
    assert!(matches!(r.body, Body::Empty));
}

#[test]
fn login_submit_single_token_layout() {
    let page = "<form><input type=\"hidden\"  value=\"tok\" /></form>";
    let r = Client::login_submit("https://s.example", "user", "pass", page).unwrap();
    assert_eq!(r.method, Method::Post);
    assert_eq!(r.url, "https://s.example/login");
    match r.body {
        Body::Form(f) => {
            assert_eq!(f.len(), 3);
            assert_eq!(f[0].0, "login_form[_username]");
            assert_eq!(f[0].1, "user");
            assert_eq!(f[1].0, "login_form[_password]");
            assert_eq!(f[1].1, "pass");
            assert_eq!(f[2].0, "login_form[_token]");
            assert_eq!(f[2].1, "tok");
        }
        _ => panic!("expected a form body"),
    }
}

#[test]
fn login_submit_two_token_layout() {
    // older page layout: a generation timestamp first, then the token
    let page = "<input  value=\"1700000000\" /><input  value=\"tok\" />";
    let r = Client::login_submit("https://s.example", "u", "p", page).unwrap();
    match r.body {
        Body::Form(f) => {
            assert_eq!(f.len(), 4);
            assert_eq!(f[2].0, "login_form[_token]");
            assert_eq!(f[2].1, "tok");
            assert_eq!(f[3].0, "login_form[_generationTime]");
            assert_eq!(f[3].1, "1700000000");
        }
        _ => panic!("expected a form body"),
    }
}

#[test]
fn login_submit_fails_without_token() {
    let page = "<form>no hidden input here</form>";
    let r = Client::login_submit("https://s.example", "u", "p", page);
    assert!(matches!(r, Err(Error::Authentication)));
}

#[test]
fn login_outcome_success_keeps_url_exactly() {
    let c = Client::login_outcome("https://myschool.example", true).unwrap();
    assert_eq!(c.url(), "https://myschool.example");
    // no normalization happens, a trailing slash stays
    let c = Client::login_outcome("https://myschool.example/", true).unwrap();
    assert_eq!(c.url(), "https://myschool.example/");
}

#[test]
fn login_outcome_without_cookie_is_authentication_error() {
    let r = Client::login_outcome("https://myschool.example", false);
    assert!(matches!(r, Err(Error::Authentication)));
}

#[test]
fn session_cookie_detection() {
    assert!(has_session_cookie(&vec![
        "language".to_string(),
        "PHPSESSID".to_string(),
    ]));
    assert!(!has_session_cookie(&vec!["phpsessid".to_string()]));
    assert!(!has_session_cookie(&vec![]));
}

#[test]
fn realistic_login_page() {
    let body = "<!DOCTYPE html>\n<html>\n<head><title>Login</title></head>\n<body>\n\
        <form method=\"post\">\n\
        <input type=\"text\" name=\"login_form[_username]\" value=\"\" />\n\
        <input type=\"hidden\" name=\"login_form[_token]\"   value=\"8f2a-token-value\" />\n\
        </form>\n</body>\n</html>\n";
    assert_eq!(get_token(body), Some("8f2a-token-value"));
}
