use vstd::prelude::*;
use crate::provider::OAuthEmailProvider;
use crate::strmap::{StrMap, entries_map, lemma_entries_map_dom, lemma_entries_map_last};

verus! {

/// The statement that creates the token table when it is missing.
pub const CREATE_TOKEN_TABLE_SQL: &'static str = "CREATE TABLE IF NOT EXISTS oauth_tokens (
            IDENTIFIER TEXT PRIMARY KEY,
            email TEXT,
            access_token TEXT NOT NULL,
            refresh_token TEXT NOT NULL,
            expires_at INTEGER NOT NULL,
            token_type TEXT NOT NULL,
            email_provider TEXT NOT NULL
            )";

/// The statement that stores a token row, replacing the row with the same
/// identifier.
pub const UPSERT_TOKEN_SQL: &'static str = "INSERT OR REPLACE INTO oauth_tokens (IDENTIFIER, email, access_token, refresh_token, expires_at, token_type, email_provider) VALUES (?, ?, ?, ?, ?, ?, ?)";

/// One stored OAuth token, as a row of the token table holds it.
#[derive(Debug)]
pub struct OAuthTokenData {
    pub identifier: String,
    pub email: String,
    pub access_token: String,
    pub refresh_token: String,
    pub expires_at: i64,
    pub token_type: String,
    pub email_provider: OAuthEmailProvider,
}

/// The token of an account that the running application keeps at hand.
#[derive(Debug)]
pub struct stateTokenData {
    pub identifier: String,
    pub access_token: String,
    pub refresh_token: String,
    pub expires_at: i64,
    pub email_provider: OAuthEmailProvider,
}

/// The record that Google's token response is stored as: it is keyed by the
/// access token, has the placeholder email "test", an empty refresh token
/// when none came, the lifetime in seconds (0 when none came, the cast to
/// `i64` wrapping as `as` does) and the token type "Bearer".
pub open spec fn google_token_spec(
    access_token: String,
    refresh_token: Option<String>,
    expires_in_secs: Option<u64>,
) -> (Seq<char>, Seq<char>, Seq<char>, Seq<char>, i64, Seq<char>, OAuthEmailProvider) {
    (
        access_token@,
        "test"@,
        access_token@,
        match refresh_token {
            Some(r) => r@,
            None => Seq::empty(),
        },
        match expires_in_secs {
            Some(s) => s as i64,
            None => 0i64,
        },
        "Bearer"@,
        OAuthEmailProvider::Google,
    )
}

/// A token record as plain values, in the order of its fields.
pub open spec fn token_record(d: OAuthTokenData) -> (Seq<char>, Seq<char>, Seq<char>, Seq<char>, i64, Seq<char>, OAuthEmailProvider) {
    (d.identifier@, d.email@, d.access_token@, d.refresh_token@, d.expires_at, d.token_type@, d.email_provider)
}

/// The record to store for a token that Google handed out, from its access
/// token, its refresh token and its lifetime in seconds.
pub fn google_token_data(
    access_token: String,
    refresh_token: Option<String>,
    expires_in_secs: Option<u64>,
) -> (d: OAuthTokenData)
    ensures
        token_record(d) == google_token_spec(access_token, refresh_token, expires_in_secs),
        d.identifier@ == access_token@,
        d.access_token@ == access_token@,
        d.refresh_token@ == (match refresh_token {
            Some(r) => r@,
            None => Seq::<char>::empty(),
        }),
        expires_in_secs matches Some(secs) ==> d.expires_at == secs as i64,
        expires_in_secs is None ==> d.expires_at == 0,
        d.email_provider == OAuthEmailProvider::Google,
{
    let identifier = access_token.clone();
    let refresh_token = match refresh_token {
        Some(r) => r,
        None => String::new(),
    };
    let expires_at: i64 = match expires_in_secs {
        Some(s) => s as i64,
        None => 0,
    };
    OAuthTokenData {
        identifier,
        email: "test".to_owned(),
        access_token,
        refresh_token,
        expires_at,
        token_type: "Bearer".to_owned(),
        email_provider: OAuthEmailProvider::Google,
    }
}

/// The kept token of a stored one, under its identifier.
pub open spec fn token_entry(d: OAuthTokenData) -> (String, stateTokenData) {
    (
        d.identifier,
        stateTokenData {
            identifier: d.identifier,
            access_token: d.access_token,
            refresh_token: d.refresh_token,
            expires_at: d.expires_at,
            email_provider: d.email_provider,
        },
    )
}

/// The kept tokens of the stored ones, in order.
pub open spec fn token_entries(rows: Seq<OAuthTokenData>) -> Seq<(String, stateTokenData)> {
    rows.map_values(|d: OAuthTokenData| token_entry(d))
}

/// The tokens that the application keeps, by identifier, from the stored
/// ones: a later row with the same identifier replaces an earlier one.
pub fn build_token_state(rows: Vec<OAuthTokenData>) -> (m: StrMap<stateTokenData>)
    ensures
        m@ == entries_map(token_entries(rows@)),
        forall|i: int|
            0 <= i < rows@.len() && is_last_with_identifier(rows@, i) ==> {
                &&& m@.contains_key((#[trigger] rows@[i]).identifier@)
                &&& m@[rows@[i].identifier@].identifier == rows@[i].identifier
                &&& m@[rows@[i].identifier@].access_token == rows@[i].access_token
                &&& m@[rows@[i].identifier@].refresh_token == rows@[i].refresh_token
                &&& m@[rows@[i].identifier@].expires_at == rows@[i].expires_at
                &&& m@[rows@[i].identifier@].email_provider == rows@[i].email_provider
            },
        forall|k: Seq<char>| #[trigger] m@.contains_key(k) <==> exists|i: int|
            0 <= i < rows@.len() && (#[trigger] rows@[i]).identifier@ == k,
{
    let entries = kept_entries(&rows);
    proof {
        lemma_token_state_fields(rows@);
    }
    StrMap::from_pairs(entries)
}

fn kept_entries(rows: &Vec<OAuthTokenData>) -> (entries: Vec<(String, stateTokenData)>)
    ensures
        entries@ == token_entries(rows@),
{
    let mut entries: Vec<(String, stateTokenData)> = Vec::new();
    let mut i: usize = 0;
    while i < rows.len()
        invariant
            i <= rows@.len(),
            entries@ == token_entries(rows@.take(i as int)),
        decreases rows@.len() - i,
    {
        let r = &rows[i];
        let entry = (
            r.identifier.clone(),
            stateTokenData {
                identifier: r.identifier.clone(),
                access_token: r.access_token.clone(),
                refresh_token: r.refresh_token.clone(),
                expires_at: r.expires_at,
                email_provider: r.email_provider,
            },
        );
        entries.push(entry);
        proof {
            assert(entries@ =~= token_entries(rows@.take(i + 1)));
        }
        i = i + 1;
    }
    assert(rows@.take(rows@.len() as int) =~= rows@);
    entries
}

/// Whether no row after row `i` has its identifier.
pub open spec fn is_last_with_identifier(rows: Seq<OAuthTokenData>, i: int) -> bool {
    forall|j: int| i < j < rows.len() ==> (#[trigger] rows[j]).identifier@ != rows[i].identifier@
}

/// Every stored identifier is kept, and it is kept with the fields of the
/// last row that has it; no other identifier is kept.
pub proof fn lemma_token_state_keeps_last(rows: Seq<OAuthTokenData>, i: int)
    requires
        0 <= i < rows.len(),
        forall|j: int| i < j < rows.len() ==> (#[trigger] rows[j]).identifier@ != rows[i].identifier@,
    ensures
        entries_map(token_entries(rows)).contains_key(rows[i].identifier@),
        entries_map(token_entries(rows))[rows[i].identifier@] == token_entry(rows[i]).1,
        entries_map(token_entries(rows))[rows[i].identifier@].identifier == rows[i].identifier,
        entries_map(token_entries(rows))[rows[i].identifier@].access_token == rows[i].access_token,
        entries_map(token_entries(rows))[rows[i].identifier@].refresh_token == rows[i].refresh_token,
        entries_map(token_entries(rows))[rows[i].identifier@].expires_at == rows[i].expires_at,
        entries_map(token_entries(rows))[rows[i].identifier@].email_provider == rows[i].email_provider,
{
    let es = token_entries(rows);
    assert forall|j: int| i < j < es.len() implies (#[trigger] es[j]).0@ != es[i].0@ by {
        assert(es[j] == token_entry(rows[j]));
    }
    lemma_entries_map_last(es, i);
}

/// Every row whose identifier no later row repeats is kept under that
/// identifier with its own identifier, access token, refresh token, expiry
/// and provider; and an identifier is kept exactly when some row has it.
pub proof fn lemma_token_state_fields(rows: Seq<OAuthTokenData>)
    ensures
        forall|i: int|
            0 <= i < rows.len() && is_last_with_identifier(rows, i) ==> {
                &&& entries_map(token_entries(rows)).contains_key((#[trigger] rows[i]).identifier@)
                &&& entries_map(token_entries(rows))[rows[i].identifier@].identifier == rows[i].identifier
                &&& entries_map(token_entries(rows))[rows[i].identifier@].access_token == rows[i].access_token
                &&& entries_map(token_entries(rows))[rows[i].identifier@].refresh_token == rows[i].refresh_token
                &&& entries_map(token_entries(rows))[rows[i].identifier@].expires_at == rows[i].expires_at
                &&& entries_map(token_entries(rows))[rows[i].identifier@].email_provider == rows[i].email_provider
            },
        forall|k: Seq<char>| #[trigger] entries_map(token_entries(rows)).contains_key(k) <==> exists|i: int|
            0 <= i < rows.len() && (#[trigger] rows[i]).identifier@ == k,
{
    assert forall|i: int| 0 <= i < rows.len() && is_last_with_identifier(rows, i) implies {
        &&& entries_map(token_entries(rows)).contains_key((#[trigger] rows[i]).identifier@)
        &&& entries_map(token_entries(rows))[rows[i].identifier@].identifier == rows[i].identifier
        &&& entries_map(token_entries(rows))[rows[i].identifier@].access_token == rows[i].access_token
        &&& entries_map(token_entries(rows))[rows[i].identifier@].refresh_token == rows[i].refresh_token
        &&& entries_map(token_entries(rows))[rows[i].identifier@].expires_at == rows[i].expires_at
        &&& entries_map(token_entries(rows))[rows[i].identifier@].email_provider == rows[i].email_provider
    } by {
        lemma_token_state_keeps_last(rows, i);
    }
    assert forall|k: Seq<char>| #[trigger] entries_map(token_entries(rows)).contains_key(k) <==> exists|i: int|
        0 <= i < rows.len() && (#[trigger] rows[i]).identifier@ == k by {
        lemma_token_state_domain(rows, k);
    }
}

/// An identifier is kept exactly when some stored row has it.
pub proof fn lemma_token_state_domain(rows: Seq<OAuthTokenData>, k: Seq<char>)
    ensures
        entries_map(token_entries(rows)).contains_key(k) <==> exists|i: int|
            0 <= i < rows.len() && (#[trigger] rows[i]).identifier@ == k,
{
    let es = token_entries(rows);
    lemma_entries_map_dom(es, k);
    if entries_map(es).contains_key(k) {
        let i = choose|i: int| 0 <= i < es.len() && (#[trigger] es[i]).0@ == k;
        assert(rows[i].identifier@ == k);
    }
    if exists|i: int| 0 <= i < rows.len() && (#[trigger] rows[i]).identifier@ == k {
        let i = choose|i: int| 0 <= i < rows.len() && (#[trigger] rows[i]).identifier@ == k;
        assert(es[i].0@ == k);
    }
}

/// Google's token is stored under its whole access token: the record's
/// identifier and access token both equal the access token that was granted,
/// whatever its length, and its refresh token is the granted one (empty when
/// none came).
pub proof fn lemma_google_token_keyed_by_access_token(
    access_token: String,
    refresh_token: Option<String>,
    expires_in_secs: Option<u64>,
)
    ensures
        google_token_spec(access_token, refresh_token, expires_in_secs).0 == access_token@,
        google_token_spec(access_token, refresh_token, expires_in_secs).2 == access_token@,
        google_token_spec(access_token, refresh_token, expires_in_secs).0.len() == access_token@.len(),
        refresh_token matches Some(r) ==> google_token_spec(access_token, refresh_token, expires_in_secs).3 == r@,
        refresh_token is None ==> google_token_spec(access_token, refresh_token, expires_in_secs).3.len() == 0,
{
}

} // verus!
