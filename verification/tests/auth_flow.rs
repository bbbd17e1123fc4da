use agent_server::auth::{
    apply_refresh, auth_plan, creds_from_file, creds_from_token, denied_page, exchange_params,
    exchange_token_record, expiry_epoch, is_token_expired, no_code_error, oauth_consent_url,
    oauth_error_text, parse_oauth_callback, refresh_params, success_page, AuthPlan,
    CallbackOutcome, ClientConfig, CredentialsFile, GoogleToken,
};

fn b(s: &str) -> Vec<u8> {
    s.as_bytes().to_vec()
}

fn empty_token() -> GoogleToken {
    GoogleToken {
        token: None,
        refresh_token: None,
        token_uri: None,
        client_id: None,
        client_secret: None,
        expiry: None,
        scopes: None,
        universe_domain: None,
        account: None,
    }
}

#[test]
fn expiry_reads_both_timestamp_forms() {
    let mut t = empty_token();
    assert!(is_token_expired(&t, 1000));

    t.expiry = Some(b("2001-09-09T01:46:40Z"));
    // The expiry is epoch second 1000000000; sixty seconds of slack apply.
    assert!(!is_token_expired(&t, 999999000));
    assert!(is_token_expired(&t, 999999940));
    assert!(is_token_expired(&t, 1000000001));

    // A single-digit month is no RFC 3339 timestamp, but the fallback form
    // still reads it as UTC.
    t.expiry = Some(b("2001-9-09T01:46:40Z"));
    assert!(!is_token_expired(&t, 999999000));

    t.expiry = Some(b("not a time"));
    assert!(is_token_expired(&t, 0));
}

#[test]
fn the_plan_uses_refreshes_or_gives_up() {
    let mut t = empty_token();
    t.token = Some(b("tok"));
    t.expiry = Some(b("2999-01-01T00:00:00Z"));
    match auth_plan(&t, 1000000000) {
        AuthPlan::UseStored(v) => assert_eq!(v, b("tok")),
        _ => panic!("a valid token is used as it stands"),
    }

    t.expiry = Some(b("2001-09-09T01:46:40Z"));
    t.refresh_token = Some(b("rt"));
    match auth_plan(&t, 2000000000) {
        AuthPlan::Refresh(v) => assert_eq!(v, b("rt")),
        _ => panic!("an expired token with a refresh token is refreshed"),
    }

    t.refresh_token = Some(b(""));
    match auth_plan(&t, 2000000000) {
        AuthPlan::CannotRefresh(m) => assert_eq!(
            m,
            b("Token expired and no refresh_token available. Re-authenticate from the app.")
        ),
        _ => panic!("an empty refresh token cannot refresh"),
    }
}

#[test]
fn client_credentials_come_from_the_token_or_the_file() {
    let mut t = empty_token();
    assert!(creds_from_token(&t).is_none());
    t.client_id = Some(b("id"));
    t.client_secret = Some(b("secret"));
    let (id, secret, uri) = creds_from_token(&t).unwrap();
    assert_eq!(id, b("id"));
    assert_eq!(secret, b("secret"));
    assert_eq!(uri, b("https://oauth2.googleapis.com/token"));

    let file = CredentialsFile {
        installed: None,
        web: Some(ClientConfig {
            client_id: b("wid"),
            client_secret: b("wsecret"),
            token_uri: Some(b("https://alt/token")),
        }),
    };
    let (id, secret, uri) = creds_from_file(file).unwrap();
    assert_eq!(id, b("wid"));
    assert_eq!(secret, b("wsecret"));
    assert_eq!(uri, b("https://alt/token"));

    let neither = CredentialsFile { installed: None, web: None };
    assert_eq!(
        creds_from_file(neither).unwrap_err(),
        b("credentials.json has no 'installed' or 'web' section.")
    );
}

#[test]
fn the_consent_url_is_exact() {
    let url = oauth_consent_url(&b("my-client.apps.googleusercontent.com"), 43217);
    assert_eq!(
        url,
        b("https://accounts.google.com/o/oauth2/auth?client_id=my-client.apps.googleusercontent.com&redirect_uri=http%3A%2F%2Flocalhost%3A43217&response_type=code&scope=https%3A%2F%2Fwww.googleapis.com%2Fauth%2Fgmail.readonly%20https%3A%2F%2Fwww.googleapis.com%2Fauth%2Fcalendar%20https%3A%2F%2Fwww.googleapis.com%2Fauth%2Fspreadsheets&access_type=offline&prompt=consent")
    );
}

#[test]
fn the_callback_parse_finds_codes_and_errors() {
    let req = b("GET /?code=abc%20d&scope=mail HTTP/1.1\r\nHost: localhost\r\n\r\n");
    match parse_oauth_callback(&req) {
        CallbackOutcome::Code(c) => assert_eq!(c, b("abc d")),
        _ => panic!("the code parameter decodes"),
    }

    let req = b("GET /?error=access_denied HTTP/1.1\r\n\r\n");
    match parse_oauth_callback(&req) {
        CallbackOutcome::Denied(e) => assert_eq!(e, b("access_denied")),
        _ => panic!("the error parameter refuses the flow"),
    }

    // An error parameter wins even when a code is also present.
    let req = b("GET /?code=x&error=server_error HTTP/1.1\r\n\r\n");
    assert!(matches!(parse_oauth_callback(&req), CallbackOutcome::Denied(_)));

    let req = b("GET / HTTP/1.1\r\n\r\n");
    assert!(matches!(parse_oauth_callback(&req), CallbackOutcome::NoCode));
    assert_eq!(no_code_error(), b("No authorization code in callback URL"));
    assert_eq!(oauth_error_text(&b("access_denied")), b("OAuth error: access_denied"));
}

#[test]
fn the_callback_pages_are_fixed() {
    let ok = String::from_utf8(success_page()).unwrap();
    assert!(ok.starts_with("HTTP/1.1 200 OK\r\n"));
    assert!(ok.contains("\u{2705} Authentication Successful!"));
    let bad = String::from_utf8(denied_page()).unwrap();
    assert!(bad.starts_with("HTTP/1.1 400 Bad Request\r\n"));
    assert!(bad.contains("Authentication cancelled or denied."));
}

#[test]
fn token_records_are_written_back_exactly() {
    assert_eq!(expiry_epoch(1000000000, Some(3600)), 1000003600);
    assert_eq!(expiry_epoch(1000000000, None), 1000003599);

    let mut t = empty_token();
    t.refresh_token = Some(b("rt"));
    apply_refresh(&mut t, b("new-access"), 1000000000);
    assert_eq!(t.token, Some(b("new-access")));
    assert_eq!(t.expiry, Some(b("2001-09-09T01:46:40.000000Z")));
    assert_eq!(t.refresh_token, Some(b("rt")));

    let rec = exchange_token_record(
        b("acc"),
        Some(b("ref")),
        b("https://oauth2.googleapis.com/token"),
        b("id"),
        b("secret"),
        Some(b("scope-text")),
        1000000000,
    );
    assert_eq!(rec.token, Some(b("acc")));
    assert_eq!(rec.refresh_token, Some(b("ref")));
    assert_eq!(rec.client_id, Some(b("id")));
    assert_eq!(rec.expiry, Some(b("2001-09-09T01:46:40.000000Z")));
    assert_eq!(rec.universe_domain, Some(b("googleapis.com")));
    assert!(rec.account.is_none());

    let ps = refresh_params(&b("id"), &b("secret"), &b("rt"));
    assert_eq!(ps.len(), 4);
    assert_eq!(ps[3], (b("grant_type"), b("refresh_token")));

    let ps = exchange_params(&b("code"), &b("id"), &b("secret"), &b("http://localhost:1"));
    assert_eq!(ps.len(), 5);
    assert_eq!(ps[4], (b("grant_type"), b("authorization_code")));
}
