use hmac::{Hmac, Mac};
use zero2prod::routes::login::get::{
    error_messages_html, login_form, FlashLevel, FlashMessage, QueryParams, VerifyError,
    LOGIN_PAGE_HEAD, LOGIN_PAGE_TAIL,
};
use zero2prod::startup::HmacSecret;

fn tag_of(secret: &str, query: &str) -> String {
    let mut mac = Hmac::<sha2::Sha256>::new_from_slice(secret.as_bytes()).unwrap();
    mac.update(query.as_bytes());
    hex::encode(mac.finalize().into_bytes())
}

fn params(error: &str, tag: &str) -> QueryParams {
    QueryParams { error: error.to_string(), tag: tag.to_string() }
}

fn secret() -> HmacSecret {
    HmacSecret("long-and-very-secret-random-key".to_string())
}

#[test]
fn a_correctly_signed_error_is_returned() {
    let tag = tag_of("long-and-very-secret-random-key", "error=Authentication%20failed");
    let r = params("Authentication failed", &tag).verify(&secret());
    assert_eq!(r, Ok("Authentication failed".to_string()));
}

#[test]
fn the_query_is_percent_encoded_byte_by_byte() {
    let tag = tag_of("long-and-very-secret-random-key", "error=%C3%A9%2Fx-._~%3C");
    let r = params("é/x-._~<", &tag).verify(&secret());
    assert_eq!(r, Ok("é/x-._~<".to_string()));
}

#[test]
fn upper_case_hex_tags_are_accepted() {
    let tag = tag_of("long-and-very-secret-random-key", "error=x").to_uppercase();
    assert_eq!(params("x", &tag).verify(&secret()), Ok("x".to_string()));
}

#[test]
fn a_tag_for_another_message_is_refused() {
    let tag = tag_of("long-and-very-secret-random-key", "error=Something%20else");
    let r = params("Authentication failed", &tag).verify(&secret());
    assert_eq!(r, Err(VerifyError::InvalidSignature));
}

#[test]
fn a_tag_under_another_secret_is_refused() {
    let tag = tag_of("another-secret", "error=x");
    assert_eq!(params("x", &tag).verify(&secret()), Err(VerifyError::InvalidSignature));
}

#[test]
fn a_truncated_tag_is_refused() {
    let tag = tag_of("long-and-very-secret-random-key", "error=x");
    let short = &tag[..tag.len() - 2];
    assert_eq!(params("x", short).verify(&secret()), Err(VerifyError::InvalidSignature));
}

#[test]
fn a_tag_that_is_not_hex_is_refused() {
    assert_eq!(params("x", "zz").verify(&secret()), Err(VerifyError::InvalidTag));
    assert_eq!(params("x", "abc").verify(&secret()), Err(VerifyError::InvalidTag));
    assert_eq!(params("x", "é1").verify(&secret()), Err(VerifyError::InvalidTag));
}

#[test]
fn an_empty_tag_is_hex_but_not_the_signature() {
    assert_eq!(params("x", "").verify(&secret()), Err(VerifyError::InvalidSignature));
}

#[test]
fn accept_if_authentic_follows_the_check() {
    assert_eq!(QueryParams::accept_if_authentic("e".to_string(), true), Ok("e".to_string()));
    assert_eq!(
        QueryParams::accept_if_authentic("e".to_string(), false),
        Err(VerifyError::InvalidSignature)
    );
}

fn msg(level: FlashLevel, content: &str) -> FlashMessage {
    FlashMessage { level, content: content.to_string() }
}

#[test]
fn only_error_messages_are_shown_in_order() {
    let messages = vec![
        msg(FlashLevel::Info, "welcome"),
        msg(FlashLevel::Error, "Authentication failed"),
        msg(FlashLevel::Warning, "careful"),
        msg(FlashLevel::Error, "try again"),
        msg(FlashLevel::Debug, "dbg"),
        msg(FlashLevel::Success, "ok"),
    ];
    assert_eq!(
        error_messages_html(&messages),
        "<p><i>Authentication failed</i></p>\n<p><i>try again</i></p>\n"
    );
}

#[test]
fn no_messages_no_html() {
    assert_eq!(error_messages_html(&vec![]), "");
    assert_eq!(error_messages_html(&vec![msg(FlashLevel::Info, "hi")]), "");
}

#[test]
fn login_form_matches_the_page_template() {
    let messages = vec![msg(FlashLevel::Error, "Authentication failed")];
    let error_html = "<p><i>Authentication failed</i></p>\n";
    let expected = format!(
        r#"<!DOCTYPE html>
                <html lang="en">
                <head>
                <meta http-equiv="content-type" content="text/html; charset=utf-8">
                <title>Login</title>
                </head>
                <body>
                {error_html}
                <form action="/login" method="post">
                <label>Username
                <input
                type="text"
                placeholder="Enter Username"
                name="username"
                >
                </label>
                <label>Password
                <input
                type="password"
                placeholder="Enter Password"
                name="password"
                >
                </label>
                <button type="submit">Login</button>
                </form>
                </body>
                </html>"#
    );
    assert_eq!(login_form(&messages), expected);
    assert_eq!(login_form(&vec![]), format!("{}{}", LOGIN_PAGE_HEAD, LOGIN_PAGE_TAIL));
}
