use vstd::prelude::*;
use crate::callback::url_parses;

verus! {

#[verifier::external_type_specification]
#[verifier::external_body]
pub struct ExAuthUrl(oauth2::AuthUrl);

#[verifier::external_type_specification]
#[verifier::external_body]
pub struct ExTokenUrl(oauth2::TokenUrl);

#[verifier::external_type_specification]
#[verifier::external_body]
pub struct ExRedirectUrl(oauth2::RedirectUrl);

#[verifier::external_type_specification]
#[verifier::external_body]
pub struct ExUrlParseError(url::ParseError);

/// An authorization endpoint together with the text it was made from.
#[derive(Debug)]
pub struct CheckedAuthUrl {
    url: oauth2::AuthUrl,
    text: String,
}

/// A token endpoint together with the text it was made from.
#[derive(Debug)]
pub struct CheckedTokenUrl {
    url: oauth2::TokenUrl,
    text: String,
}

/// A redirect endpoint together with the text it was made from.
#[derive(Debug)]
pub struct CheckedRedirectUrl {
    url: oauth2::RedirectUrl,
    text: String,
}

impl CheckedAuthUrl {
    /// The text that the endpoint was made from.
    pub closed spec fn text(&self) -> Seq<char> {
        self.text@
    }

    /// The text that the endpoint was made from.
    pub fn as_text(&self) -> (s: &str)
        ensures
            s@ == self.text(),
    {
        self.text.as_str()
    }

    /// The endpoint, for building the client.
    pub fn into_url(self) -> oauth2::AuthUrl {
        self.url
    }
}

impl CheckedTokenUrl {
    /// The text that the endpoint was made from.
    pub closed spec fn text(&self) -> Seq<char> {
        self.text@
    }

    /// The text that the endpoint was made from.
    pub fn as_text(&self) -> (s: &str)
        ensures
            s@ == self.text(),
    {
        self.text.as_str()
    }

    /// The endpoint, for building the client.
    pub fn into_url(self) -> oauth2::TokenUrl {
        self.url
    }
}

impl CheckedRedirectUrl {
    /// The text that the endpoint was made from.
    pub closed spec fn text(&self) -> Seq<char> {
        self.text@
    }

    /// The text that the endpoint was made from.
    pub fn as_text(&self) -> (s: &str)
        ensures
            s@ == self.text(),
    {
        self.text.as_str()
    }

    /// The endpoint, for building the client.
    pub fn into_url(self) -> oauth2::RedirectUrl {
        self.url
    }
}

/// Calls `oauth2::AuthUrl::new`, which keeps the text together with what
/// `url::Url::parse` made of it and fails exactly when that parse fails; the
/// endpoint is kept together with the text it was made from.
#[verifier::external_body]
fn new_auth_url(url: String) -> (r: Result<CheckedAuthUrl, url::ParseError>)
    ensures
        r is Ok <==> url_parses(url@),
        r matches Ok(c) ==> c.text() == url@,
{
    match oauth2::AuthUrl::new(url.clone()) {
        Ok(u) => Ok(CheckedAuthUrl { url: u, text: url }),
        Err(e) => Err(e),
    }
}

/// Calls `oauth2::TokenUrl::new`, which keeps the text together with what
/// `url::Url::parse` made of it and fails exactly when that parse fails; the
/// endpoint is kept together with the text it was made from.
#[verifier::external_body]
fn new_token_url(url: String) -> (r: Result<CheckedTokenUrl, url::ParseError>)
    ensures
        r is Ok <==> url_parses(url@),
        r matches Ok(c) ==> c.text() == url@,
{
    match oauth2::TokenUrl::new(url.clone()) {
        Ok(u) => Ok(CheckedTokenUrl { url: u, text: url }),
        Err(e) => Err(e),
    }
}

/// Calls `oauth2::RedirectUrl::new`, which keeps the text together with what
/// `url::Url::parse` made of it and fails exactly when that parse fails; the
/// endpoint is kept together with the text it was made from.
#[verifier::external_body]
fn new_redirect_url(url: String) -> (r: Result<CheckedRedirectUrl, url::ParseError>)
    ensures
        r is Ok <==> url_parses(url@),
        r matches Ok(c) ==> c.text() == url@,
{
    match oauth2::RedirectUrl::new(url.clone()) {
        Ok(u) => Ok(CheckedRedirectUrl { url: u, text: url }),
        Err(e) => Err(e),
    }
}

/// The endpoints of a Google OAuth client, each checked to be a URL.
#[derive(Debug)]
pub struct GoogleOAuthEndpoints {
    pub auth_url: CheckedAuthUrl,
    pub token_url: CheckedTokenUrl,
    pub redirect_url: CheckedRedirectUrl,
}

/// Which endpoint is refused first, in the order authorization, token,
/// redirect; nothing when all three parse as URLs.
pub open spec fn endpoint_error(auth_url: Seq<char>, token_url: Seq<char>, redirect_url: Seq<char>) -> Option<Seq<char>> {
    if !url_parses(auth_url) {
        Some("Invalid GOOGLE_AUTH_URL"@)
    } else if !url_parses(token_url) {
        Some("Invalid GOOGLE_TOKEN_URL"@)
    } else if !url_parses(redirect_url) {
        Some("Invalid redirect URL"@)
    } else {
        None
    }
}

/// Checks the configured authorization and token URLs and the redirect URL
/// of the client, in that order, and keeps each, with its text, for building
/// the client.
pub fn create_google_oauth_client(
    auth_url: String,
    token_url: String,
    redirect_url: &str,
) -> (r: Result<GoogleOAuthEndpoints, String>)
    ensures
        match r {
            Ok(e) => endpoint_error(auth_url@, token_url@, redirect_url@) is None
                && e.auth_url.text() == auth_url@
                && e.token_url.text() == token_url@
                && e.redirect_url.text() == redirect_url@,
            Err(e) => endpoint_error(auth_url@, token_url@, redirect_url@) == Some(e@),
        },
{
    let auth = match new_auth_url(auth_url) {
        Ok(u) => u,
        Err(_) => return Err("Invalid GOOGLE_AUTH_URL".to_owned()),
    };
    let token = match new_token_url(token_url) {
        Ok(u) => u,
        Err(_) => return Err("Invalid GOOGLE_TOKEN_URL".to_owned()),
    };
    let redirect = match new_redirect_url(redirect_url.to_owned()) {
        Ok(u) => u,
        Err(_) => return Err("Invalid redirect URL".to_owned()),
    };
    Ok(GoogleOAuthEndpoints { auth_url: auth, token_url: token, redirect_url: redirect })
}

/// The scopes that the sign-in asks for: full mail access, the email
/// address and the basic profile.
pub open spec fn google_scopes_spec() -> Seq<Seq<char>> {
    seq![
        "https://mail.google.com/"@,
        "https://www.googleapis.com/auth/userinfo.email"@,
        "https://www.googleapis.com/auth/userinfo.profile"@,
    ]
}

/// The scopes that the sign-in asks for, in the order they are added.
pub fn google_scopes() -> (v: Vec<String>)
    ensures
        v@.map_values(|s: String| s@) == google_scopes_spec(),
{
    let mut v = Vec::new();
    v.push("https://mail.google.com/".to_owned());
    v.push("https://www.googleapis.com/auth/userinfo.email".to_owned());
    v.push("https://www.googleapis.com/auth/userinfo.profile".to_owned());
    assert(v@.map_values(|s: String| s@) =~= google_scopes_spec());
    v
}

} // verus!
