use vstd::prelude::*;
use crate::text::{decimal, decimal_string};
use crate::provider::{OAuthEmailProvider, provider_name};
use crate::strmap::{StrMap, entries_map, pairs_view, text_pairs_map, text_view, lemma_text_view_of_pairs,
    is_last_with_key, lemma_text_pairs_map_keys, lemma_text_pairs_map_last, lemma_entries_map_dom,
    lemma_entries_map_last};

verus! {

/// The address on which the sign-in callback server listens.
pub open spec fn server_ip() -> Seq<char> {
    "127.0.0.1"@
}

/// `host:port` of the callback server.
pub open spec fn server_address(port: u16) -> Seq<char> {
    server_ip() + ":"@ + decimal(port as nat)
}

/// The path under which the callback of a provider arrives.
pub open spec fn callback_path_spec(p: OAuthEmailProvider) -> Seq<char> {
    "/oauth/callback/"@ + provider_name(p)
}

/// The URL that the provider is told to redirect the browser to.
pub open spec fn redirect_url_spec(port: u16, p: OAuthEmailProvider) -> Seq<char> {
    "http://"@ + server_address(port) + callback_path_spec(p)
}

/// Whether `prefix` starts `s`.
pub open spec fn is_prefix_of(prefix: Seq<char>, s: Seq<char>) -> bool {
    prefix.len() <= s.len() && s.subrange(0, prefix.len() as int) == prefix
}

/// Whether the server takes a request as the provider's callback: a GET
/// whose URL starts with the callback path.
pub open spec fn accepts_request(is_get: bool, request_url: Seq<char>, p: OAuthEmailProvider) -> bool {
    is_get && is_prefix_of(callback_path_spec(p), request_url)
}

/// The absolute URL that a request's path is read as.
pub open spec fn absolute_request_url(request_url: Seq<char>) -> Seq<char> {
    "http://localhost"@ + request_url
}

/// Whether `url::Url::parse` accepts a text as an absolute URL.
pub uninterp spec fn url_parses(input: Seq<char>) -> bool;

/// The decoded query pairs, in order, of the URL that `url::Url::parse`
/// reads from a text.
pub uninterp spec fn url_query_pairs(input: Seq<char>) -> Seq<(Seq<char>, Seq<char>)>;

/// Parses `input` with `url::Url::parse` and, when that succeeds, collects
/// the pairs of `Url::query_pairs().into_owned()`. The contract says that the
/// result is present exactly when the parse succeeds, and that the pairs are
/// those that the parse and the query decoding give for `input`; which text
/// parses and how the query is decoded is left to the `url` crate.
#[verifier::external_body]
fn parse_query_pairs(input: &str) -> (r: Option<Vec<(String, String)>>)
    ensures
        r is Some <==> url_parses(input@),
        r matches Some(v) ==> pairs_view(v@) == url_query_pairs(input@),
{
    match url::Url::parse(input) {
        Ok(url) => Some(url.query_pairs().into_owned().collect()),
        Err(_) => None,
    }
}

fn oauth_server_ip() -> (s: &'static str)
    ensures
        s@ == server_ip(),
{
    "127.0.0.1"
}

/// `host:port` on which the callback server listens.
pub fn callback_server_address(port: u16) -> (s: String)
    ensures
        s@ == server_address(port),
{
    let mut s = oauth_server_ip().to_owned();
    s.append(":");
    let digits = decimal_string(port as u64);
    s.append(digits.as_str());
    s
}

/// The path under which the provider's callback arrives,
/// `/oauth/callback/<provider>`.
pub fn callback_path(oauth_email_provider: OAuthEmailProvider) -> (s: String)
    ensures
        s@ == callback_path_spec(oauth_email_provider),
{
    let mut s = "/oauth/callback/".to_owned();
    s.append(oauth_email_provider.as_str());
    s
}

/// The redirect URL, `http://127.0.0.1:<port>/oauth/callback/<provider>`.
pub fn get_oauth_redirect_url(port: u16, oauth_email_provider: OAuthEmailProvider) -> (s: String)
    ensures
        s@ == redirect_url_spec(port, oauth_email_provider),
{
    let mut s = "http://".to_owned();
    let address = callback_server_address(port);
    s.append(address.as_str());
    let path = callback_path(oauth_email_provider);
    s.append(path.as_str());
    s
}

/// Whether `prefix` starts `s`, as `str::starts_with` says.
pub fn starts_with(s: &str, prefix: &str) -> (b: bool)
    ensures
        b == is_prefix_of(prefix@, s@),
{
    let n = prefix.unicode_len();
    let m = s.unicode_len();
    if n > m {
        return false;
    }
    let mut i: usize = 0;
    while i < n
        invariant
            n == prefix@.len(),
            m == s@.len(),
            n <= m,
            i <= n,
            forall|j: int| 0 <= j < i ==> s@[j] == prefix@[j],
        decreases n - i,
    {
        if s.get_char(i) != prefix.get_char(i) {
            assert(s@.subrange(0, n as int)[i as int] != prefix@[i as int]);
            return false;
        }
        i = i + 1;
    }
    assert(s@.subrange(0, n as int) =~= prefix@);
    true
}

/// Whether the server takes a request as the provider's callback.
pub fn is_callback_request(is_get: bool, request_url: &str, oauth_email_provider: OAuthEmailProvider) -> (b: bool)
    ensures
        b == accepts_request(is_get, request_url@, oauth_email_provider),
{
    if !is_get {
        return false;
    }
    let path = callback_path(oauth_email_provider);
    starts_with(request_url, path.as_str())
}

/// The page that the server answers a callback with.
#[derive(Clone, Copy, Debug, PartialEq, Eq, Structural)]
pub enum CallbackReply {
    /// The callback carried a code: status 200, an HTML page.
    Success,
    /// The callback carried no code: status 400.
    Rejected,
}

impl CallbackReply {
    /// The status code of the answer.
    pub fn status_code(&self) -> (s: u16)
        ensures
            s == (match *self {
                CallbackReply::Success => 200u16,
                CallbackReply::Rejected => 400u16,
            }),
    {
        match self {
            CallbackReply::Success => 200,
            CallbackReply::Rejected => 400,
        }
    }

    /// The body of the answer.
    pub fn body(&self) -> (s: &'static str)
        ensures
            s@ == (match *self {
                CallbackReply::Success => "<h1>Authentication successful! You can close this window.</h1>"@,
                CallbackReply::Rejected => "<h1>Invalid request</h1>"@,
            }),
    {
        match self {
            CallbackReply::Success => "<h1>Authentication successful! You can close this window.</h1>",
            CallbackReply::Rejected => "<h1>Invalid request</h1>",
        }
    }

    /// Whether the answer is sent with `Content-Type: text/html`.
    pub fn is_html(&self) -> (b: bool)
        ensures
            b == (*self == CallbackReply::Success),
    {
        match self {
            CallbackReply::Success => true,
            CallbackReply::Rejected => false,
        }
    }
}

/// What the server does with one request: the answer it sends, if any, and
/// what the wait for the callback ends with.
pub struct CallbackOutcome {
    pub reply: Option<CallbackReply>,
    pub result: Result<StrMap<String>, String>,
}

/// The outcome as plain values: the answer, and the callback's parameters
/// as texts or the error message.
pub open spec fn outcome_view(o: CallbackOutcome) -> (Option<CallbackReply>, Result<Map<Seq<char>, Seq<char>>, Seq<char>>) {
    (o.reply, match o.result {
        Ok(m) => Ok(text_view(m@)),
        Err(e) => Err(e@),
    })
}

/// What a request leads to, given whether it is taken as the callback and,
/// if so, the query pairs that its URL parses to (nothing if it does not
/// parse): a request that is not taken, or does not parse, gets no answer
/// and fails with "Invalid request"; one whose parameters hold a code is
/// answered with the success page and gives the parameters; one without a
/// code is answered with status 400 and fails.
pub open spec fn callback_verdict(
    accepted: bool,
    parsed: Option<Seq<(Seq<char>, Seq<char>)>>,
) -> (Option<CallbackReply>, Result<Map<Seq<char>, Seq<char>>, Seq<char>>) {
    if !accepted {
        (None, Err("Invalid request"@))
    } else {
        match parsed {
            None => (None, Err("Invalid request"@)),
            Some(pairs) => {
                let m = text_pairs_map(pairs);
                if m.contains_key("code"@) {
                    (Some(CallbackReply::Success), Ok(m))
                } else {
                    (Some(CallbackReply::Rejected), Err("Invalid OAuth callback request"@))
                }
            },
        }
    }
}

/// A callback that is answered with success hands back every parsed query
/// pair: a key is in the parameters exactly when some pair has it, with the
/// value of the last pair that has it; and the callback succeeds exactly when
/// some pair is named "code".
pub proof fn lemma_callback_keeps_every_pair(pairs: Seq<(Seq<char>, Seq<char>)>)
    ensures
        callback_verdict(true, Some(pairs)).1 is Ok <==> exists|i: int|
            0 <= i < pairs.len() && (#[trigger] pairs[i]).0 == "code"@,
        callback_verdict(true, Some(pairs)).1 matches Ok(m) ==> {
            &&& forall|k: Seq<char>| #[trigger] m.contains_key(k) <==> exists|i: int|
                0 <= i < pairs.len() && (#[trigger] pairs[i]).0 == k
            &&& forall|i: int| 0 <= i < pairs.len() && is_last_with_key(pairs, i) ==>
                m.contains_key((#[trigger] pairs[i]).0) && m[pairs[i].0] == pairs[i].1
        },
{
    lemma_text_pairs_map_keys(pairs, "code"@);
    assert forall|k: Seq<char>| #[trigger] text_pairs_map(pairs).contains_key(k) <==> exists|i: int|
        0 <= i < pairs.len() && (#[trigger] pairs[i]).0 == k by {
        lemma_text_pairs_map_keys(pairs, k);
    }
    assert forall|i: int| 0 <= i < pairs.len() && is_last_with_key(pairs, i) implies
        text_pairs_map(pairs).contains_key((#[trigger] pairs[i]).0) && text_pairs_map(pairs)[pairs[i].0] == pairs[i].1 by {
        lemma_text_pairs_map_last(pairs, i);
    }
}

/// Decides on a request taken as the callback, from the query pairs that its
/// URL parsed to (`None` when it did not parse).
pub fn decide_callback(parsed: Option<Vec<(String, String)>>) -> (o: CallbackOutcome)
    ensures
        outcome_view(o) == callback_verdict(true, match parsed {
            Some(v) => Some(pairs_view(v@)),
            None => None,
        }),
        parsed is None ==> o.reply is None && o.result is Err,
        parsed matches Some(v) ==> {
            &&& o.result is Ok <==> exists|i: int| 0 <= i < v@.len() && (#[trigger] v@[i]).0@ == "code"@
            &&& o.result matches Ok(m) ==> {
                &&& o.reply == Some(CallbackReply::Success)
                &&& forall|k: Seq<char>| #[trigger] m@.contains_key(k) <==> exists|i: int|
                    0 <= i < v@.len() && (#[trigger] v@[i]).0@ == k
                &&& forall|i: int| 0 <= i < v@.len() && is_last_with_key(pairs_view(v@), i) ==>
                    m@.contains_key((#[trigger] v@[i]).0@) && m@[v@[i].0@]@ == v@[i].1@
            }
        },
{
    let ghost gp = parsed;
    proof {
        match gp {
            Some(v) => {
                let ps = pairs_view(v@);
                lemma_callback_keeps_every_pair(ps);
                lemma_text_view_of_pairs(v@);
                let code = "code"@;
                if exists|i: int| 0 <= i < ps.len() && (#[trigger] ps[i]).0 == code {
                    let i = choose|i: int| 0 <= i < ps.len() && (#[trigger] ps[i]).0 == code;
                    assert(v@[i].0@ == code);
                }
                if exists|i: int| 0 <= i < v@.len() && (#[trigger] v@[i]).0@ == code {
                    let i = choose|i: int| 0 <= i < v@.len() && (#[trigger] v@[i]).0@ == code;
                    assert(ps[i].0 == code);
                }
                assert forall|k: Seq<char>| #[trigger] entries_map(v@).contains_key(k) <==> exists|i: int|
                    0 <= i < v@.len() && (#[trigger] v@[i]).0@ == k by {
                    lemma_entries_map_dom(v@, k);
                }
                assert forall|i: int| 0 <= i < v@.len() && is_last_with_key(pairs_view(v@), i) implies
                    entries_map(v@).contains_key((#[trigger] v@[i]).0@) && entries_map(v@)[v@[i].0@]@ == v@[i].1@ by {
                    assert forall|j: int| i < j < v@.len() implies (#[trigger] v@[j]).0@ != v@[i].0@ by {
                        assert(ps[j].0 == v@[j].0@);
                        assert(ps[i].0 == v@[i].0@);
                    }
                    lemma_entries_map_last(v@, i);
                }
            },
            None => {},
        }
    }
    match parsed {
        None => CallbackOutcome { reply: None, result: Err("Invalid request".to_owned()) },
        Some(pairs) => {
            let ghost ps = pairs@;
            let params = StrMap::from_pairs(pairs);
            proof {
                lemma_text_view_of_pairs(ps);
            }
            if params.contains_key("code") {
                CallbackOutcome { reply: Some(CallbackReply::Success), result: Ok(params) }
            } else {
                CallbackOutcome {
                    reply: Some(CallbackReply::Rejected),
                    result: Err("Invalid OAuth callback request".to_owned()),
                }
            }
        },
    }
}

/// Handles one request that reached the callback server: a GET under the
/// provider's callback path has its URL parsed, on `http://localhost`, and
/// its query decided on; any other request fails.
pub fn handle_callback_request(
    is_get: bool,
    request_url: &str,
    oauth_email_provider: OAuthEmailProvider,
) -> (o: CallbackOutcome)
    ensures
        outcome_view(o) == callback_verdict(
            accepts_request(is_get, request_url@, oauth_email_provider),
            if url_parses(absolute_request_url(request_url@)) {
                Some(url_query_pairs(absolute_request_url(request_url@)))
            } else {
                None
            },
        ),
{
    if !is_callback_request(is_get, request_url, oauth_email_provider) {
        return CallbackOutcome { reply: None, result: Err("Invalid request".to_owned()) };
    }
    let mut absolute = "http://localhost".to_owned();
    absolute.append(request_url);
    let parsed = parse_query_pairs(absolute.as_str());
    decide_callback(parsed)
}

/// The redirect URL that the provider is sent points at the address the
/// callback server listens on, under the path that the server takes as the
/// callback; and the browser's request to it, with any query, is taken.
pub proof fn lemma_redirect_reaches_callback(port: u16, p: OAuthEmailProvider, query: Seq<char>)
    ensures
        redirect_url_spec(port, p) == "http://"@ + server_address(port) + callback_path_spec(p),
        accepts_request(true, callback_path_spec(p) + query, p),
{
    assert((callback_path_spec(p) + query).subrange(0, callback_path_spec(p).len() as int)
        =~= callback_path_spec(p));
}

/// A callback that the server answers with success always hands back
/// parameters that hold a code, and every failure is answered with no page
/// or with status 400.
pub proof fn lemma_success_carries_code(
    accepted: bool,
    parsed: Option<Seq<(Seq<char>, Seq<char>)>>,
)
    ensures
        callback_verdict(accepted, parsed).1 matches Ok(m) ==> m.contains_key("code"@),
        callback_verdict(accepted, parsed).1 is Ok <==> callback_verdict(accepted, parsed).0 == Some(CallbackReply::Success),
{
}

/// Every character of a decimal notation is a digit.
proof fn lemma_decimal_digits(n: nat)
    ensures
        forall|i: int| 0 <= i < decimal(n).len() ==> '0' <= #[trigger] decimal(n)[i] <= '9',
        decimal(n).len() >= 1,
    decreases n,
{
    if n >= 10 {
        lemma_decimal_digits(n / 10);
    }
}

proof fn lemma_digit_injective(a: nat, b: nat)
    requires
        a < 10,
        b < 10,
        crate::text::digit_char(a) == crate::text::digit_char(b),
    ensures
        a == b,
{
}

/// Different numbers have different decimal notations.
proof fn lemma_decimal_injective(n: nat, m: nat)
    requires
        decimal(n) == decimal(m),
    ensures
        n == m,
    decreases n,
{
    lemma_decimal_digits(n / 10);
    lemma_decimal_digits(m / 10);
    if n >= 10 && m >= 10 {
        assert(decimal(n).drop_last() == decimal(n / 10));
        assert(decimal(m).drop_last() == decimal(m / 10));
        lemma_decimal_injective(n / 10, m / 10);
        assert(decimal(n) == decimal(n / 10).push(crate::text::digit_char(n % 10)));
        assert(decimal(m) == decimal(m / 10).push(crate::text::digit_char(m % 10)));
        assert(decimal(n).last() == crate::text::digit_char(n % 10));
        assert(decimal(m).last() == crate::text::digit_char(m % 10));
        lemma_digit_injective(n % 10, m % 10);
    } else if n >= 10 {
        assert(decimal(n).len() >= 2);
    } else if m >= 10 {
        assert(decimal(m).len() >= 2);
    } else {
        assert(decimal(n) == seq![crate::text::digit_char(n)]);
        assert(decimal(m) == seq![crate::text::digit_char(m)]);
        assert(decimal(n)[0] == crate::text::digit_char(n));
        assert(decimal(m)[0] == crate::text::digit_char(m));
        lemma_digit_injective(n, m);
    }
}

/// A text made of a head, a run of digits and a tail that starts with '/'
/// splits back into the same run and tail.
proof fn lemma_split_digits(a: Seq<char>, d1: Seq<char>, c1: Seq<char>, d2: Seq<char>, c2: Seq<char>)
    requires
        a + d1 + c1 == a + d2 + c2,
        forall|i: int| 0 <= i < d1.len() ==> '0' <= #[trigger] d1[i] <= '9',
        forall|i: int| 0 <= i < d2.len() ==> '0' <= #[trigger] d2[i] <= '9',
        c1.len() > 0 && c1[0] == '/',
        c2.len() > 0 && c2[0] == '/',
    ensures
        d1 == d2,
        c1 == c2,
{
    let u = a + d1 + c1;
    let v = a + d2 + c2;
    let k = a.len() as int;
    if d1.len() < d2.len() {
        assert(u[k + d1.len()] == c1[0]);
        assert(v[k + d1.len()] == d2[d1.len() as int]);
    } else if d2.len() < d1.len() {
        assert(v[k + d2.len()] == c2[0]);
        assert(u[k + d2.len()] == d1[d2.len() as int]);
    } else {
        assert(d1 =~= u.subrange(k, k + d1.len()));
        assert(d2 =~= v.subrange(k, k + d2.len()));
        assert(c1 =~= u.subrange(k + d1.len(), u.len() as int));
        assert(c2 =~= v.subrange(k + d2.len(), v.len() as int));
    }
}

/// Different ports or different providers give different redirect URLs, so
/// the redirect URL tells both back.
pub proof fn lemma_redirect_urls_distinct(port1: u16, p1: OAuthEmailProvider, port2: u16, p2: OAuthEmailProvider)
    requires
        port1 != port2 || p1 != p2,
    ensures
        redirect_url_spec(port1, p1) != redirect_url_spec(port2, p2),
{
    let a = "http://"@ + server_ip() + ":"@;
    let d1 = decimal(port1 as nat);
    let d2 = decimal(port2 as nat);
    let c1 = callback_path_spec(p1);
    let c2 = callback_path_spec(p2);
    assert(redirect_url_spec(port1, p1) =~= a + d1 + c1);
    assert(redirect_url_spec(port2, p2) =~= a + d2 + c2);
    if redirect_url_spec(port1, p1) == redirect_url_spec(port2, p2) {
        lemma_decimal_digits(port1 as nat);
        lemma_decimal_digits(port2 as nat);
        reveal_strlit("/oauth/callback/");
        assert(c1[0] == '/');
        assert(c2[0] == '/');
        lemma_split_digits(a, d1, c1, d2, c2);
        lemma_decimal_injective(port1 as nat, port2 as nat);
        assert(provider_name(p1) =~= c1.subrange(16, c1.len() as int));
        assert(provider_name(p2) =~= c2.subrange(16, c2.len() as int));
        if p1 != p2 {
            crate::provider::lemma_provider_names_distinct(p1, p2);
        }
    }
}

} // verus!
