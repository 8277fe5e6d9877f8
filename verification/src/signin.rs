use vstd::prelude::*;
use crate::provider::OAuthEmailProvider;
use crate::callback::{get_oauth_redirect_url, redirect_url_spec};
use crate::client::{GoogleOAuthEndpoints, create_google_oauth_client, endpoint_error};
use crate::params::{extract_google_oauth_params, extract_outcome};
use crate::strmap::StrMap;
use crate::tokens::{OAuthTokenData, google_token_data, google_token_spec, token_record};

verus! {

/// What the token endpoint granted, as plain values.
#[derive(Debug)]
pub struct TokenGrant {
    pub access_token: String,
    pub refresh_token: Option<String>,
    pub expires_in_secs: Option<u64>,
}

/// What the caller of the Google sign-in has to do next.
#[derive(Debug)]
pub enum SignInAction {
    /// Build the client from `endpoints`, open the authorization page in
    /// the browser and wait for the callback on `port`.
    Authorize { port: u16, endpoints: GoogleOAuthEndpoints },
    /// Exchange `code` for a token.
    ExchangeCode { code: String },
    /// Fetch the profile with `access_token`, store `record` and mark the
    /// account as set up; the sign-in then succeeds with the profile.
    Finish { access_token: String, record: OAuthTokenData },
    /// The sign-in has failed.
    Fail,
}

/// Starts a Google sign-in whose callback server listens on `port`, with the
/// configured authorization and token URLs: the client's redirect endpoint is
/// the redirect URL for that port. Fails with the message of the first
/// endpoint that is not a URL.
pub fn start_sign_in(port: u16, auth_url: String, token_url: String) -> (r: Result<SignInAction, String>)
    ensures
        match r {
            Ok(a) => {
                &&& endpoint_error(auth_url@, token_url@, redirect_url_spec(port, OAuthEmailProvider::Google)) is None
                &&& a matches SignInAction::Authorize { port: p, endpoints }
                && p == port
                && endpoints.auth_url.text() == auth_url@
                && endpoints.token_url.text() == token_url@
                && endpoints.redirect_url.text() == redirect_url_spec(port, OAuthEmailProvider::Google)
            },
            Err(e) => endpoint_error(auth_url@, token_url@, redirect_url_spec(port, OAuthEmailProvider::Google))
                == Some(e@),
        },
{
    let redirect_url = get_oauth_redirect_url(port, OAuthEmailProvider::Google);
    match create_google_oauth_client(auth_url, token_url, redirect_url.as_str()) {
        Ok(endpoints) => Ok(SignInAction::Authorize { port, endpoints }),
        Err(e) => Err(e),
    }
}

/// Goes on from what the wait for the callback ended with: a failed wait or
/// a callback that lacks one of the expected parameters fails the sign-in;
/// otherwise its code is exchanged.
pub fn after_callback(callback: Result<StrMap<String>, String>) -> (a: SignInAction)
    ensures
        match callback {
            Err(_) => a is Fail,
            Ok(m) => match extract_outcome(m@) {
                Ok(v) => a matches SignInAction::ExchangeCode { code } && code@ == v.1,
                Err(_) => a is Fail,
            },
        },
{
    match callback {
        Err(_) => SignInAction::Fail,
        Ok(params) => match extract_google_oauth_params(&params) {
            Ok(p) => SignInAction::ExchangeCode { code: p.code },
            Err(_) => SignInAction::Fail,
        },
    }
}

/// Goes on from the token exchange: a refused exchange fails the sign-in;
/// a granted token is stored as Google's token record.
pub fn after_token_exchange(grant: Option<TokenGrant>) -> (a: SignInAction)
    ensures
        match grant {
            None => a is Fail,
            Some(g) => a matches SignInAction::Finish { access_token, record }
                && access_token@ == g.access_token@
                && token_record(record) == google_token_spec(g.access_token, g.refresh_token, g.expires_in_secs),
        },
{
    match grant {
        None => SignInAction::Fail,
        Some(g) => {
            let access_token = g.access_token.clone();
            let record = google_token_data(g.access_token, g.refresh_token, g.expires_in_secs);
            SignInAction::Finish { access_token, record }
        },
    }
}

/// The endpoint that describes the signed-in user.
pub open spec fn userinfo_endpoint() -> Seq<char> {
    "https://www.googleapis.com/oauth2/v3/userinfo"@
}

/// The endpoint that describes the signed-in user.
pub fn userinfo_url() -> (s: &'static str)
    ensures
        s@ == userinfo_endpoint(),
{
    "https://www.googleapis.com/oauth2/v3/userinfo"
}

/// The error for a profile request that the server refused with `status`.
pub fn profile_fetch_error(status: &str) -> (s: String)
    ensures
        s@ == "Failed to fetch user profile: "@ + status@,
{
    let mut s = "Failed to fetch user profile: ".to_owned();
    s.append(status);
    s
}

/// The greeting for `name`.
pub fn greet(name: &str) -> (s: String)
    ensures
        s@ == "Hello, "@ + name@ + "! You've been greeted from Rust!"@,
{
    let mut s = "Hello, ".to_owned();
    s.append(name);
    s.append("! You've been greeted from Rust!");
    s
}

} // verus!
