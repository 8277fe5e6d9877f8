use vstd::prelude::*;
use crate::text::{decimal, decimal_string};
use crate::google_types::{GoogleEmailList, GoogleEmailListMail};
use vstd::utf8::encode_utf8;

verus! {

/// The texts of an optional string.
pub open spec fn opt_text(s: Option<String>) -> Option<Seq<char>> {
    match s {
        Some(t) => Some(t@),
        None => None,
    }
}

/// The endpoint that lists the signed-in user's messages.
pub open spec fn messages_endpoint() -> Seq<char> {
    "https://gmail.googleapis.com/gmail/v1/users/me/messages"@
}

/// The URL of a page of the message list: the first page has no token, a
/// later one carries the token that the page before it handed out.
pub open spec fn email_list_url_spec(page_token: Option<Seq<char>>) -> Seq<char> {
    match page_token {
        Some(t) => messages_endpoint() + "?pageToken="@ + t,
        None => messages_endpoint(),
    }
}

fn messages_endpoint_str() -> (s: &'static str)
    ensures
        s@ == messages_endpoint(),
{
    "https://gmail.googleapis.com/gmail/v1/users/me/messages"
}

/// The URL of the page of the message list that `page_token` names.
pub fn email_list_url(page_token: Option<&str>) -> (u: String)
    ensures
        u@ == email_list_url_spec(match page_token {
            Some(t) => Some(t@),
            None => None,
        }),
        match page_token {
            Some(t) => {
                &&& u@ == messages_endpoint() + "?pageToken="@ + t@
                &&& u@.len() == messages_endpoint().len() + 11 + t@.len()
                &&& u@.subrange(u@.len() - t@.len(), u@.len() as int) == t@
            },
            None => u@ == messages_endpoint(),
        },
{
    proof {
        match page_token {
            Some(t) => lemma_page_url_carries_whole_token(t@),
            None => {},
        }
    }
    let mut u = messages_endpoint_str().to_owned();
    match page_token {
        Some(t) => {
            u.append("?pageToken=");
            u.append(t);
        },
        None => {},
    }
    u
}

/// The URL of the page named by token `t` is the messages endpoint, then
/// `?pageToken=`, then the whole of `t`: it ends with `t`, and its length is
/// the endpoint's plus 11 plus that of `t`.
pub proof fn lemma_page_url_carries_whole_token(t: Seq<char>)
    ensures
        email_list_url_spec(Some(t)) == messages_endpoint() + "?pageToken="@ + t,
        email_list_url_spec(Some(t)).len() == messages_endpoint().len() + 11 + t.len(),
        email_list_url_spec(Some(t)).subrange(
            email_list_url_spec(Some(t)).len() - t.len(),
            email_list_url_spec(Some(t)).len() as int,
        ) == t,
        email_list_url_spec(None) == messages_endpoint(),
{
    reveal_strlit("?pageToken=");
    let u = messages_endpoint() + "?pageToken="@ + t;
    assert(u.subrange(u.len() - t.len(), u.len() as int) =~= t);
}

/// Where the walk through the message list stands: the messages gathered,
/// the token of the next page, and whether the last page has come.
pub type ListingView = (Seq<GoogleEmailListMail>, Option<Seq<char>>, bool);

/// The walk before any page has come.
pub open spec fn listing_start() -> ListingView {
    (Seq::empty(), None, false)
}

/// The walk after one more page: its messages are added at the end, its
/// next-page token is kept, and the walk ends when it has none.
pub open spec fn listing_step(v: ListingView, page: GoogleEmailList) -> ListingView {
    (v.0 + page.messages@, opt_text(page.nextPageToken), page.nextPageToken is None)
}

/// The walk after the given pages, in order.
pub open spec fn listing_after(pages: Seq<GoogleEmailList>) -> ListingView
    decreases pages.len(),
{
    if pages.len() == 0 {
        listing_start()
    } else {
        listing_step(listing_after(pages.drop_last()), pages.last())
    }
}

/// All messages of the given pages, in order.
pub open spec fn all_messages(pages: Seq<GoogleEmailList>) -> Seq<GoogleEmailListMail>
    decreases pages.len(),
{
    if pages.len() == 0 {
        Seq::empty()
    } else {
        all_messages(pages.drop_last()) + pages.last().messages@
    }
}

/// The walk through the pages of the message list, which the caller drives:
/// it asks for the next URL, fetches it, and hands the page back.
pub struct EmailListing {
    messages: Vec<GoogleEmailListMail>,
    page_token: Option<String>,
    is_last_page: bool,
}

impl View for EmailListing {
    type V = ListingView;

    closed spec fn view(&self) -> ListingView {
        (self.messages@, opt_text(self.page_token), self.is_last_page)
    }
}

impl EmailListing {
    /// A walk that has fetched nothing yet.
    pub fn new() -> (l: Self)
        ensures
            l@ == listing_start(),
    {
        EmailListing { messages: Vec::new(), page_token: None, is_last_page: false }
    }

    /// The URL to fetch next, or nothing once the last page has come.
    pub fn next_page_url(&self) -> (u: Option<String>)
        ensures
            match u {
                Some(url) => !self@.2 && url@ == email_list_url_spec(self@.1),
                None => self@.2,
            },
            u matches Some(url) ==> match self@.1 {
                Some(t) => url@ == messages_endpoint() + "?pageToken="@ + t,
                None => url@ == messages_endpoint(),
            },
    {
        if self.is_last_page {
            None
        } else {
            match &self.page_token {
                Some(t) => Some(email_list_url(Some(t.as_str()))),
                None => Some(email_list_url(None)),
            }
        }
    }

    /// Takes in a fetched page.
    pub fn receive_page(&mut self, page: GoogleEmailList)
        ensures
            final(self)@ == listing_step(old(self)@, page),
            final(self)@.0 == old(self)@.0 + page.messages@,
            final(self)@.1 == (match page.nextPageToken {
                Some(t) => Some(t@),
                None => None,
            }),
            final(self)@.2 == page.nextPageToken is None,
    {
        let GoogleEmailList { messages, nextPageToken, resultSizeEstimate: _ } = page;
        let mut messages = messages;
        self.messages.append(&mut messages);
        self.is_last_page = nextPageToken.is_none();
        self.page_token = nextPageToken;
    }

    /// Whether the last page has come.
    pub fn is_done(&self) -> (b: bool)
        ensures
            b == self@.2,
    {
        self.is_last_page
    }

    /// The messages gathered so far.
    pub fn into_messages(self) -> (v: Vec<GoogleEmailListMail>)
        ensures
            v@ == self@.0,
    {
        self.messages
    }
}

/// Walking through pages gathers exactly their messages, in order, and
/// ends exactly when the last page handed in has no next-page token.
pub proof fn lemma_listing_gathers_all(pages: Seq<GoogleEmailList>)
    ensures
        listing_after(pages).0 == all_messages(pages),
        listing_after(pages).2 == (pages.len() > 0 && pages.last().nextPageToken is None),
        pages.len() > 0 ==> listing_after(pages).1 == opt_text(pages.last().nextPageToken),
    decreases pages.len(),
{
    if pages.len() > 0 {
        lemma_listing_gathers_all(pages.drop_last());
    }
}

/// The boundary between the parts of a batch request.
pub open spec fn batch_boundary() -> Seq<char> {
    "BATCH_BOUNDARY_STRING"@
}

/// The part of a batch request that fetches one message.
pub open spec fn batch_part(id: Seq<char>) -> Seq<char> {
    "--"@ + batch_boundary() + "\n"@
        + "Content-Type: application/http"@ + "\n"@
        + "Content-ID: <"@ + id + ">"@ + "\n"@
        + "\n"@
        + "GET /gmail/v1/users/me/messages/"@ + id + "\n"@
        + "Host: www.googleapis.com"@ + "\n"@
        + "\n"@
}

/// The parts for the given messages, in order.
pub open spec fn batch_parts(mails: Seq<GoogleEmailListMail>) -> Seq<char>
    decreases mails.len(),
{
    if mails.len() == 0 {
        Seq::empty()
    } else {
        batch_parts(mails.drop_last()) + batch_part(mails.last().id@)
    }
}

/// The body of a batch request: one part per message, then the closing
/// boundary.
pub open spec fn batch_body_spec(mails: Seq<GoogleEmailListMail>) -> Seq<char> {
    batch_parts(mails) + "--"@ + batch_boundary() + "--"@ + "\n"@
}

/// Where the part for message `i` starts in a batch body: after the parts of
/// the messages before it.
pub open spec fn part_offset(mails: Seq<GoogleEmailListMail>, i: int) -> int
    decreases i,
{
    if i <= 0 {
        0
    } else {
        part_offset(mails, i - 1) + batch_part(mails[i - 1].id@).len()
    }
}

/// The closing boundary of a batch body.
pub open spec fn batch_closing() -> Seq<char> {
    "--"@ + batch_boundary() + "--"@ + "\n"@
}

proof fn lemma_parts_len(mails: Seq<GoogleEmailListMail>, i: int)
    requires
        0 <= i <= mails.len(),
    ensures
        batch_parts(mails.take(i)).len() == part_offset(mails, i),
    decreases i,
{
    if i > 0 {
        lemma_parts_len(mails, i - 1);
        assert(mails.take(i).drop_last() =~= mails.take(i - 1));
    }
}

proof fn lemma_parts_prefix(mails: Seq<GoogleEmailListMail>, i: int)
    requires
        0 <= i <= mails.len(),
    ensures
        batch_parts(mails.take(i)).len() <= batch_parts(mails).len(),
        batch_parts(mails).subrange(0, batch_parts(mails.take(i)).len() as int) == batch_parts(mails.take(i)),
    decreases mails.len(),
{
    if i == mails.len() {
        assert(mails.take(i) =~= mails);
        assert(batch_parts(mails).subrange(0, batch_parts(mails).len() as int) =~= batch_parts(mails));
    } else {
        let rest = mails.drop_last();
        lemma_parts_prefix(rest, i);
        assert(rest.take(i) =~= mails.take(i));
        let p = batch_parts(mails.take(i));
        assert(batch_parts(mails) == batch_parts(rest) + batch_part(mails.last().id@));
        assert(batch_parts(mails).subrange(0, p.len() as int) =~= batch_parts(rest).subrange(0, p.len() as int));
    }
}

/// A batch body is laid out as one part per message, in the order of the
/// list, each starting where the one before it ends, and then the closing
/// boundary: the part for message `i` names its id, and nothing else is in
/// the body.
pub proof fn lemma_batch_body_layout(mails: Seq<GoogleEmailListMail>)
    ensures
        part_offset(mails, 0) == 0,
        forall|i: int| #![trigger mails[i]] 0 <= i < mails.len() ==>
            batch_body_spec(mails).subrange(part_offset(mails, i), part_offset(mails, i + 1))
                == batch_part(mails[i].id@),
        batch_body_spec(mails).len() == part_offset(mails, mails.len() as int) + batch_closing().len(),
        batch_body_spec(mails).subrange(part_offset(mails, mails.len() as int), batch_body_spec(mails).len() as int)
            == batch_closing(),
{
    let body = batch_body_spec(mails);
    let all = batch_parts(mails);
    assert(body =~= all + batch_closing());
    assert forall|i: int| #![trigger mails[i]] 0 <= i < mails.len() implies
        body.subrange(part_offset(mails, i), part_offset(mails, i + 1)) == batch_part(mails[i].id@) by {
        lemma_parts_len(mails, i);
        lemma_parts_len(mails, i + 1);
        lemma_parts_prefix(mails, i + 1);
        assert(mails.take(i + 1).drop_last() =~= mails.take(i));
        let q = batch_parts(mails.take(i + 1));
        assert(q == batch_parts(mails.take(i)) + batch_part(mails[i].id@));
        assert(all.subrange(0, q.len() as int) == q);
        let a = part_offset(mails, i);
        let b = part_offset(mails, i + 1);
        assert(b == q.len());
        assert(body.subrange(a, b) =~= all.subrange(a, b));
        assert(all.subrange(a, b) =~= all.subrange(0, q.len() as int).subrange(a, b));
        assert(body.subrange(a, b) =~= q.subrange(a, b));
        assert(q.subrange(part_offset(mails, i), part_offset(mails, i + 1)) =~= batch_part(mails[i].id@));
    }
    lemma_parts_len(mails, mails.len() as int);
    assert(mails.take(mails.len() as int) =~= mails);
    assert(body.subrange(part_offset(mails, mails.len() as int), body.len() as int) =~= batch_closing());
}

/// A batch request that fetches several messages in one call.
pub struct BatchRequest {
    pub body: String,
    pub content_type: String,
    pub authorization: String,
    pub content_length: String,
}

fn batch_boundary_str() -> (s: &'static str)
    ensures
        s@ == batch_boundary(),
{
    "BATCH_BOUNDARY_STRING"
}

fn batch_body_text(email_list: &Vec<GoogleEmailListMail>) -> (body: String)
    ensures
        body@ == batch_body_spec(email_list@),
{
    let mut body = String::new();
    let mut i: usize = 0;
    while i < email_list.len()
        invariant
            i <= email_list@.len(),
            body@ == batch_parts(email_list@.take(i as int)),
        decreases email_list@.len() - i,
    {
        let id = email_list[i].id.as_str();
        let ghost before = body@;
        body.append("--");
        body.append(batch_boundary_str());
        body.append("\n");
        body.append("Content-Type: application/http");
        body.append("\n");
        body.append("Content-ID: <");
        body.append(id);
        body.append(">");
        body.append("\n");
        body.append("\n");
        body.append("GET /gmail/v1/users/me/messages/");
        body.append(id);
        body.append("\n");
        body.append("Host: www.googleapis.com");
        body.append("\n");
        body.append("\n");
        proof {
            assert(email_list@.take(i + 1).drop_last() =~= email_list@.take(i as int));
            assert(body@ =~= before + batch_part(email_list@[i as int].id@));
        }
        i = i + 1;
    }
    assert(email_list@.take(email_list@.len() as int) =~= email_list@);
    body.append("--");
    body.append(batch_boundary_str());
    body.append("--");
    body.append("\n");
    body
}

/// The body of the batch request for the given messages: one part per
/// message, in order, then the closing boundary.
pub fn build_batch_body(email_list: &Vec<GoogleEmailListMail>) -> (body: String)
    ensures
        body@ == batch_body_spec(email_list@),
        forall|i: int| #![trigger email_list@[i]] 0 <= i < email_list@.len() ==>
            body@.subrange(part_offset(email_list@, i), part_offset(email_list@, i + 1))
                == batch_part(email_list@[i].id@),
        body@.len() == part_offset(email_list@, email_list@.len() as int) + batch_closing().len(),
        body@.subrange(part_offset(email_list@, email_list@.len() as int), body@.len() as int)
            == batch_closing(),
{
    let body = batch_body_text(email_list);
    proof {
        lemma_batch_body_layout(email_list@);
    }
    body
}

/// The value of the `Content-Type` header of a batch request.
pub open spec fn batch_content_type_spec() -> Seq<char> {
    "multipart/mixed; boundary="@ + batch_boundary()
}

/// The value of an `Authorization` header that carries a bearer token.
pub open spec fn bearer_spec(token: Seq<char>) -> Seq<char> {
    "Bearer "@ + token
}

/// The value of an `Authorization` header that carries `token`.
pub fn bearer_authorization(token: &str) -> (s: String)
    ensures
        s@ == bearer_spec(token@),
{
    let mut s = "Bearer ".to_owned();
    s.append(token);
    s
}

/// The batch request that fetches the given messages with `access_token`:
/// its body, its content type, its authorization and, in decimal, the
/// length of its body in UTF-8 bytes.
pub fn build_batch_request(access_token: &str, email_list: &Vec<GoogleEmailListMail>) -> (r: BatchRequest)
    ensures
        r.body@ == batch_body_spec(email_list@),
        forall|i: int| #![trigger email_list@[i]] 0 <= i < email_list@.len() ==>
            r.body@.subrange(part_offset(email_list@, i), part_offset(email_list@, i + 1))
                == batch_part(email_list@[i].id@),
        r.body@.subrange(part_offset(email_list@, email_list@.len() as int), r.body@.len() as int)
            == batch_closing(),
        r.content_type@ == batch_content_type_spec(),
        r.authorization@ == bearer_spec(access_token@),
        r.content_length@ == decimal((encode_utf8(r.body@).len() as usize) as nat),
{
    let body = build_batch_body(email_list);
    let mut content_type = "multipart/mixed; boundary=".to_owned();
    content_type.append(batch_boundary_str());
    let authorization = bearer_authorization(access_token);
    let byte_len = body.as_str().len();
    let content_length = decimal_string(byte_len as u64);
    BatchRequest { body, content_type, authorization, content_length }
}


/// How many messages one batch request fetches at most.
pub const CALL_RATE_LIMIT: usize = 20;

/// The messages of the chunks, in order.
pub open spec fn flatten_chunks(chunks: Seq<Vec<GoogleEmailListMail>>) -> Seq<GoogleEmailListMail>
    decreases chunks.len(),
{
    if chunks.len() == 0 {
        Seq::empty()
    } else {
        flatten_chunks(chunks.drop_last()) + chunks.last()@
    }
}

/// Whether `chunks` cut a list as `slice::chunks(size)` does: no chunk is
/// empty or longer than `size`, and all but the last are exactly `size` long.
pub open spec fn is_chunking(chunks: Seq<Vec<GoogleEmailListMail>>, size: nat) -> bool {
    &&& forall|i: int| 0 <= i < chunks.len() ==> 1 <= (#[trigger] chunks[i])@.len() <= size
    &&& forall|i: int| 0 <= i < chunks.len() - 1 ==> (#[trigger] chunks[i])@.len() == size
}

proof fn lemma_flatten_len_full(chunks: Seq<Vec<GoogleEmailListMail>>, size: nat)
    requires
        forall|i: int| 0 <= i < chunks.len() ==> (#[trigger] chunks[i])@.len() == size,
    ensures
        flatten_chunks(chunks).len() == chunks.len() * size,
    decreases chunks.len(),
{
    if chunks.len() > 0 {
        let rest = chunks.drop_last();
        assert forall|i: int| 0 <= i < rest.len() implies (#[trigger] rest[i])@.len() == size by {
            assert(rest[i] == chunks[i]);
        }
        lemma_flatten_len_full(rest, size);
        assert(chunks[chunks.len() - 1]@.len() == size);
        assert(chunks.len() * size == (chunks.len() - 1) * size + size) by (nonlinear_arith);
    }
}

/// Cutting `n` messages into chunks of `size` gives `n / size` chunks,
/// rounded up: as many batch requests as that.
pub proof fn lemma_chunk_count(chunks: Seq<Vec<GoogleEmailListMail>>, size: nat)
    requires
        size > 0,
        is_chunking(chunks, size),
    ensures
        chunks.len() == (flatten_chunks(chunks).len() + size - 1) / size as int,
{
    let k = chunks.len();
    if k > 0 {
        let rest = chunks.drop_last();
        assert forall|i: int| 0 <= i < rest.len() implies (#[trigger] rest[i])@.len() == size by {
            assert(rest[i] == chunks[i]);
        }
        lemma_flatten_len_full(rest, size);
        let l = chunks[k - 1]@.len();
        assert(1 <= l <= size);
        let n = flatten_chunks(chunks).len();
        assert(n == (k - 1) * size + l);
        assert((n + size - 1) / size as int == k) by (nonlinear_arith)
            requires
                n == (k - 1) * size + l,
                1 <= l <= size,
                size > 0,
                k > 0,
        {
            assert(n + size - 1 == k * size + (l - 1));
            assert(0 <= l - 1 < size);
        }
    } else {
        assert(flatten_chunks(chunks).len() == 0);
        assert((size - 1) / size as int == 0) by (nonlinear_arith)
            requires
                size > 0,
        {}
    }
}

/// Cuts the list into consecutive chunks of `size` messages, the last one
/// possibly shorter.
pub fn chunk_emails(emails: Vec<GoogleEmailListMail>, size: usize) -> (chunks: Vec<Vec<GoogleEmailListMail>>)
    requires
        size > 0,
    ensures
        flatten_chunks(chunks@) == emails@,
        is_chunking(chunks@, size as nat),
{
    let ghost all = emails@;
    let mut rest = emails;
    let mut chunks: Vec<Vec<GoogleEmailListMail>> = Vec::new();
    while rest.len() > 0
        invariant
            size > 0,
            flatten_chunks(chunks@) + rest@ == all,
            is_chunking(chunks@, size as nat),
            rest@.len() > 0 ==> forall|i: int| 0 <= i < chunks@.len() ==> (#[trigger] chunks@[i])@.len() == size,
        decreases rest@.len(),
    {
        let take = if rest.len() < size { rest.len() } else { size };
        let tail = rest.split_off(take);
        let ghost chunk = rest@;
        let ghost before = chunks@;
        chunks.push(rest);
        rest = tail;
        proof {
            assert(chunks@.drop_last() == before);
            assert(flatten_chunks(chunks@) + rest@ =~= flatten_chunks(before) + (chunk + rest@));
        }
    }
    assert(rest@ =~= Seq::<GoogleEmailListMail>::empty());
    assert(flatten_chunks(chunks@) + rest@ =~= flatten_chunks(chunks@));
    chunks
}

/// The chunks in which a new account's messages are fetched, at most
/// `CALL_RATE_LIMIT` to a request.
pub fn rate_limited_chunks(emails: Vec<GoogleEmailListMail>) -> (chunks: Vec<Vec<GoogleEmailListMail>>)
    ensures
        flatten_chunks(chunks@) == emails@,
        is_chunking(chunks@, CALL_RATE_LIMIT as nat),
{
    chunk_emails(emails, CALL_RATE_LIMIT)
}

/// Whether to pause before the next batch request after the request for
/// chunk number `chunk_count` (counted from 1) of `total_chunks`: after
/// every chunk but the last.
pub fn should_pause_after(chunk_count: usize, total_chunks: usize) -> (b: bool)
    ensures
        b == (chunk_count < total_chunks),
{
    chunk_count < total_chunks
}

} // verus!
