use mail_oauth::gmail::{
    bearer_authorization, build_batch_body, build_batch_request, chunk_emails, email_list_url,
    rate_limited_chunks, should_pause_after, EmailListing, CALL_RATE_LIMIT,
};
use mail_oauth::google_types::{GoogleEmailList, GoogleEmailListMail};

fn mail(id: &str) -> GoogleEmailListMail {
    GoogleEmailListMail { id: id.to_string(), threadId: format!("t{}", id) }
}

fn mails(n: usize) -> Vec<GoogleEmailListMail> {
    (0..n).map(|i| mail(&i.to_string())).collect()
}

#[test]
fn list_urls() {
    assert_eq!(email_list_url(None), "https://gmail.googleapis.com/gmail/v1/users/me/messages");
    assert_eq!(
        email_list_url(Some("tok")),
        "https://gmail.googleapis.com/gmail/v1/users/me/messages?pageToken=tok"
    );
}

#[test]
fn listing_walks_pages() {
    let mut l = EmailListing::new();
    assert_eq!(l.next_page_url().unwrap(), email_list_url(None));
    l.receive_page(GoogleEmailList { messages: vec![mail("a"), mail("b")], nextPageToken: Some("p2".into()), resultSizeEstimate: Some(3) });
    assert!(!l.is_done());
    assert_eq!(l.next_page_url().unwrap(), email_list_url(Some("p2")));
    l.receive_page(GoogleEmailList { messages: vec![mail("c")], nextPageToken: None, resultSizeEstimate: None });
    assert!(l.is_done());
    assert!(l.next_page_url().is_none());
    let ids: Vec<String> = l.into_messages().into_iter().map(|m| m.id).collect();
    assert_eq!(ids, vec!["a", "b", "c"]);
}

#[test]
fn batch_body_exact() {
    let body = build_batch_body(&vec![mail("m1"), mail("m2")]);
    let mut expected = String::new();
    for id in ["m1", "m2"] {
        expected.push_str(&format!(
            "--BATCH_BOUNDARY_STRING\nContent-Type: application/http\nContent-ID: <{id}>\n\nGET /gmail/v1/users/me/messages/{id}\nHost: www.googleapis.com\n\n"
        ));
    }
    expected.push_str("--BATCH_BOUNDARY_STRING--\n");
    assert_eq!(body, expected);
}

#[test]
fn batch_body_empty() {
    assert_eq!(build_batch_body(&vec![]), "--BATCH_BOUNDARY_STRING--\n");
}

#[test]
fn batch_request_headers() {
    let r = build_batch_request("tok", &vec![mail("é1")]);
    assert_eq!(r.content_type, "multipart/mixed; boundary=BATCH_BOUNDARY_STRING");
    assert_eq!(r.authorization, "Bearer tok");
    assert_eq!(r.content_length, r.body.len().to_string());
    assert_ne!(r.body.len(), r.body.chars().count());
}

#[test]
fn bearer() {
    assert_eq!(bearer_authorization("abc"), "Bearer abc");
}

#[test]
fn chunks_of_twenty() {
    let c = rate_limited_chunks(mails(45));
    assert_eq!(CALL_RATE_LIMIT, 20);
    assert_eq!(c.iter().map(|x| x.len()).collect::<Vec<_>>(), vec![20, 20, 5]);
    let ids: Vec<String> = c.into_iter().flatten().map(|m| m.id).collect();
    let expected: Vec<String> = (0..45).map(|i| i.to_string()).collect();
    assert_eq!(ids, expected);
}

#[test]
fn chunks_exact_and_empty() {
    assert_eq!(chunk_emails(mails(40), 20).iter().map(|x| x.len()).collect::<Vec<_>>(), vec![20, 20]);
    assert!(chunk_emails(vec![], 20).is_empty());
    assert_eq!(chunk_emails(mails(3), 1).len(), 3);
}

#[test]
fn pause_between_chunks_only() {
    assert!(should_pause_after(1, 3));
    assert!(should_pause_after(2, 3));
    assert!(!should_pause_after(3, 3));
}

#[test]
fn chunk_count_rounds_up() {
    for (n, size, count) in [(0usize, 20usize, 0usize), (1, 20, 1), (20, 20, 1), (21, 20, 2), (45, 20, 3), (7, 3, 3)] {
        assert_eq!(chunk_emails(mails(n), size).len(), count);
    }
}
