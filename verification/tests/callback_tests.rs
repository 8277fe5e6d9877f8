use mail_oauth::callback::{
    callback_path, callback_server_address, decide_callback, get_oauth_redirect_url,
    handle_callback_request, is_callback_request, starts_with, CallbackReply,
};
use mail_oauth::provider::OAuthEmailProvider;
use mail_oauth::text::decimal_string;

fn pairs(items: &[(&str, &str)]) -> Vec<(String, String)> {
    items.iter().map(|(k, v)| (k.to_string(), v.to_string())).collect()
}

#[test]
fn provider_names() {
    assert_eq!(OAuthEmailProvider::Google.as_str(), "google");
    assert_eq!(OAuthEmailProvider::Microsoft.as_str(), "microsoft");
    assert_ne!(OAuthEmailProvider::Google.as_str(), OAuthEmailProvider::Microsoft.as_str());
}

#[test]
fn decimal_matches_format() {
    for n in [0u64, 7, 10, 99, 8000, 8999, 65535, u64::MAX] {
        assert_eq!(decimal_string(n), format!("{}", n));
    }
}

#[test]
fn redirect_url_google() {
    assert_eq!(
        get_oauth_redirect_url(8000, OAuthEmailProvider::Google),
        "http://127.0.0.1:8000/oauth/callback/google"
    );
}

#[test]
fn redirect_url_microsoft() {
    assert_eq!(
        get_oauth_redirect_url(8123, OAuthEmailProvider::Microsoft),
        "http://127.0.0.1:8123/oauth/callback/microsoft"
    );
}

#[test]
fn server_address_and_path() {
    assert_eq!(callback_server_address(8042), "127.0.0.1:8042");
    assert_eq!(callback_path(OAuthEmailProvider::Google), "/oauth/callback/google");
}

#[test]
fn redirect_url_is_address_plus_path() {
    let port = 8765;
    let p = OAuthEmailProvider::Google;
    assert_eq!(
        get_oauth_redirect_url(port, p),
        format!("http://{}{}", callback_server_address(port), callback_path(p))
    );
}

#[test]
fn prefix_check() {
    assert!(starts_with("/oauth/callback/google?code=1", "/oauth/callback/google"));
    assert!(starts_with("abc", ""));
    assert!(!starts_with("/oauth", "/oauth/callback"));
    assert!(!starts_with("/oauth/callback/microsoft", "/oauth/callback/google"));
}

#[test]
fn callback_request_needs_get_and_path() {
    let g = OAuthEmailProvider::Google;
    assert!(is_callback_request(true, "/oauth/callback/google?code=x", g));
    assert!(!is_callback_request(false, "/oauth/callback/google?code=x", g));
    assert!(!is_callback_request(true, "/favicon.ico", g));
    assert!(!is_callback_request(true, "/oauth/callback/google?code=x", OAuthEmailProvider::Microsoft));
}

#[test]
fn decide_with_code_succeeds() {
    let o = decide_callback(Some(pairs(&[("state", "s"), ("code", "c1")])));
    assert_eq!(o.reply, Some(CallbackReply::Success));
    let m = o.result.unwrap();
    assert_eq!(m.get("code").unwrap(), "c1");
    assert_eq!(m.get("state").unwrap(), "s");
}

#[test]
fn decide_without_code_rejects() {
    let o = decide_callback(Some(pairs(&[("state", "s")])));
    assert_eq!(o.reply, Some(CallbackReply::Rejected));
    assert_eq!(o.result.err().unwrap(), "Invalid OAuth callback request");
}

#[test]
fn decide_unparsed_is_invalid() {
    let o = decide_callback(None);
    assert_eq!(o.reply, None);
    assert_eq!(o.result.err().unwrap(), "Invalid request");
}

#[test]
fn decide_last_duplicate_wins() {
    let o = decide_callback(Some(pairs(&[("code", "first"), ("code", "second")])));
    assert_eq!(o.result.unwrap().get("code").unwrap(), "second");
}

#[test]
fn reply_pages() {
    assert_eq!(CallbackReply::Success.status_code(), 200);
    assert_eq!(CallbackReply::Rejected.status_code(), 400);
    assert_eq!(
        CallbackReply::Success.body(),
        "<h1>Authentication successful! You can close this window.</h1>"
    );
    assert_eq!(CallbackReply::Rejected.body(), "<h1>Invalid request</h1>");
    assert!(CallbackReply::Success.is_html());
    assert!(!CallbackReply::Rejected.is_html());
}

#[test]
fn handle_real_google_callback() {
    let o = handle_callback_request(
        true,
        "/oauth/callback/google?state=abc&code=4%2F0Ab%20x&scope=email+profile&authuser=0&prompt=consent",
        OAuthEmailProvider::Google,
    );
    assert_eq!(o.reply, Some(CallbackReply::Success));
    let m = o.result.unwrap();
    assert_eq!(m.get("code").unwrap(), "4/0Ab x");
    assert_eq!(m.get("scope").unwrap(), "email profile");
    assert_eq!(m.get("authuser").unwrap(), "0");
}

#[test]
fn handle_callback_without_code() {
    let o = handle_callback_request(true, "/oauth/callback/google?error=access_denied", OAuthEmailProvider::Google);
    assert_eq!(o.reply, Some(CallbackReply::Rejected));
    assert_eq!(o.result.err().unwrap(), "Invalid OAuth callback request");
}

#[test]
fn handle_other_path() {
    let o = handle_callback_request(true, "/other?code=1", OAuthEmailProvider::Google);
    assert_eq!(o.reply, None);
    assert_eq!(o.result.err().unwrap(), "Invalid request");
}

#[test]
fn handle_post_is_invalid() {
    let o = handle_callback_request(false, "/oauth/callback/google?code=1", OAuthEmailProvider::Google);
    assert_eq!(o.reply, None);
    assert_eq!(o.result.err().unwrap(), "Invalid request");
}

#[test]
fn redirect_target_is_accepted() {
    for p in [OAuthEmailProvider::Google, OAuthEmailProvider::Microsoft] {
        let url = get_oauth_redirect_url(8500, p);
        let path = url.strip_prefix(&format!("http://{}", callback_server_address(8500))).unwrap();
        assert!(is_callback_request(true, &format!("{}?code=z", path), p));
    }
}

#[test]
fn redirect_urls_differ_by_port_and_provider() {
    let g = OAuthEmailProvider::Google;
    let m = OAuthEmailProvider::Microsoft;
    assert_ne!(get_oauth_redirect_url(8001, g), get_oauth_redirect_url(8010, g));
    assert_ne!(get_oauth_redirect_url(8001, g), get_oauth_redirect_url(8001, m));
}
