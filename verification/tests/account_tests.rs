use mail_oauth::client::{create_google_oauth_client, google_scopes};
use mail_oauth::config::Config;
use mail_oauth::ports::{first_port_probe, next_port_probe, PortProbe};
use mail_oauth::provider::OAuthEmailProvider;
use mail_oauth::signin::{
    after_callback, after_token_exchange, greet, profile_fetch_error, start_sign_in, userinfo_url,
    SignInAction, TokenGrant,
};
use mail_oauth::strmap::StrMap;
use mail_oauth::tokens::{build_token_state, google_token_data, OAuthTokenData};

#[test]
fn token_record_from_grant() {
    let d = google_token_data("acc".into(), Some("ref".into()), Some(3599));
    assert_eq!(d.identifier, "acc");
    assert_eq!(d.email, "test");
    assert_eq!(d.access_token, "acc");
    assert_eq!(d.refresh_token, "ref");
    assert_eq!(d.expires_at, 3599);
    assert_eq!(d.token_type, "Bearer");
    assert_eq!(d.email_provider, OAuthEmailProvider::Google);
}

#[test]
fn token_record_defaults() {
    let d = google_token_data("acc".into(), None, None);
    assert_eq!(d.refresh_token, "");
    assert_eq!(d.expires_at, 0);
    let w = google_token_data("acc".into(), None, Some(u64::MAX));
    assert_eq!(w.expires_at, -1);
}

fn row(id: &str, access: &str) -> OAuthTokenData {
    OAuthTokenData {
        identifier: id.into(),
        email: "e".into(),
        access_token: access.into(),
        refresh_token: "r".into(),
        expires_at: 5,
        token_type: "Bearer".into(),
        email_provider: OAuthEmailProvider::Microsoft,
    }
}

#[test]
fn token_state_keeps_last_row() {
    let m = build_token_state(vec![row("a", "1"), row("b", "2"), row("a", "3")]);
    let a = m.get("a").unwrap();
    assert_eq!(a.access_token, "3");
    assert_eq!(a.identifier, "a");
    assert_eq!(a.expires_at, 5);
    assert_eq!(a.email_provider, OAuthEmailProvider::Microsoft);
    assert_eq!(m.get("b").unwrap().access_token, "2");
    assert!(m.get("c").is_none());
}

#[test]
fn config_default_and_set() {
    let mut c = Config::default();
    assert!(!c.has_account);
    c.set_has_account();
    assert_eq!(c, Config { has_account: true });
    c.set_has_account();
    assert!(c.has_account);
}

#[test]
fn endpoints_ok() {
    let r = create_google_oauth_client(
        "https://accounts.google.com/o/oauth2/v2/auth".into(),
        "https://oauth2.googleapis.com/token".into(),
        "http://127.0.0.1:8000/oauth/callback/google",
    );
    let e = r.ok().unwrap();
    assert_eq!(e.auth_url.as_text(), "https://accounts.google.com/o/oauth2/v2/auth");
    assert_eq!(e.token_url.as_text(), "https://oauth2.googleapis.com/token");
    assert_eq!(e.redirect_url.as_text(), "http://127.0.0.1:8000/oauth/callback/google");
    assert_eq!(e.auth_url.into_url().as_str(), "https://accounts.google.com/o/oauth2/v2/auth");
    assert_eq!(e.token_url.into_url().url().as_str(), "https://oauth2.googleapis.com/token");
}

#[test]
fn endpoints_errors_in_order() {
    let e = create_google_oauth_client("not a url".into(), "also not".into(), "nope").err().unwrap();
    assert_eq!(e, "Invalid GOOGLE_AUTH_URL");
    let e = create_google_oauth_client("https://a.example/".into(), "also not".into(), "nope").err().unwrap();
    assert_eq!(e, "Invalid GOOGLE_TOKEN_URL");
    let e = create_google_oauth_client("https://a.example/".into(), "https://t.example/".into(), "nope").err().unwrap();
    assert_eq!(e, "Invalid redirect URL");
}

#[test]
fn scopes() {
    assert_eq!(
        google_scopes(),
        vec![
            "https://mail.google.com/",
            "https://www.googleapis.com/auth/userinfo.email",
            "https://www.googleapis.com/auth/userinfo.profile"
        ]
    );
}

#[test]
fn sign_in_start() {
    let auth = "https://accounts.google.com/o/oauth2/v2/auth".to_string();
    let token = "https://oauth2.googleapis.com/token".to_string();
    match start_sign_in(8001, auth.clone(), token.clone()) {
        Ok(SignInAction::Authorize { port, endpoints }) => {
            assert_eq!(port, 8001);
            assert_eq!(endpoints.auth_url.as_text(), auth);
            assert_eq!(endpoints.token_url.as_text(), token);
            assert_eq!(endpoints.redirect_url.as_text(), "http://127.0.0.1:8001/oauth/callback/google");
            assert_eq!(
                endpoints.redirect_url.into_url().as_str(),
                "http://127.0.0.1:8001/oauth/callback/google"
            );
        }
        other => panic!("unexpected {:?}", other),
    }
    assert_eq!(start_sign_in(8001, "bad".into(), token).err().unwrap(), "Invalid GOOGLE_AUTH_URL");
}

#[test]
fn sign_in_after_callback() {
    assert!(matches!(after_callback(Err("Invalid request".into())), SignInAction::Fail));
    let mut m = StrMap::new();
    for (k, v) in [("state", "s"), ("code", "the-code"), ("scope", "x"), ("authuser", "0")] {
        m.insert(k.to_string(), v.to_string());
    }
    assert!(matches!(after_callback(Ok(StrMap::from_pairs(vec![("code".to_string(), "c".to_string())]))), SignInAction::Fail));
    m.insert("prompt".into(), "consent".into());
    match after_callback(Ok(m)) {
        SignInAction::ExchangeCode { code } => assert_eq!(code, "the-code"),
        other => panic!("unexpected {:?}", other),
    }
}

#[test]
fn sign_in_after_exchange() {
    assert!(matches!(after_token_exchange(None), SignInAction::Fail));
    let g = TokenGrant { access_token: "at".into(), refresh_token: None, expires_in_secs: Some(10) };
    match after_token_exchange(Some(g)) {
        SignInAction::Finish { access_token, record } => {
            assert_eq!(access_token, "at");
            assert_eq!(record.identifier, "at");
            assert_eq!(record.expires_at, 10);
        }
        other => panic!("unexpected {:?}", other),
    }
}

#[test]
fn port_search_steps() {
    assert_eq!(first_port_probe(), PortProbe::Try(8000));
    assert_eq!(next_port_probe(8000, true), PortProbe::Found(8000));
    assert_eq!(next_port_probe(8000, false), PortProbe::Try(8001));
    assert_eq!(next_port_probe(8999, false), PortProbe::Exhausted);
}

#[test]
fn port_search_finds_lowest_free() {
    let mut probe = first_port_probe();
    let free = |p: u16| p >= 8003;
    let found = loop {
        match probe {
            PortProbe::Try(p) => probe = next_port_probe(p, free(p)),
            PortProbe::Found(p) => break Some(p),
            PortProbe::Exhausted => break None,
        }
    };
    assert_eq!(found, Some(8003));
}

#[test]
fn misc_texts() {
    assert_eq!(greet("Ann"), "Hello, Ann! You've been greeted from Rust!");
    assert_eq!(userinfo_url(), "https://www.googleapis.com/oauth2/v3/userinfo");
    assert_eq!(profile_fetch_error("404 Not Found"), "Failed to fetch user profile: 404 Not Found");
}

#[test]
fn provider_from_name_round_trip() {
    for p in [OAuthEmailProvider::Google, OAuthEmailProvider::Microsoft] {
        assert_eq!(OAuthEmailProvider::from_name(p.as_str()), Some(p));
    }
    assert_eq!(OAuthEmailProvider::from_name("yahoo"), None);
    assert_eq!(OAuthEmailProvider::from_name("Google"), None);
}
