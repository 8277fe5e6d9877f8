use vstd::prelude::*;

verus! {

/// The user profile that Google's userinfo endpoint describes.
#[derive(Debug, Clone)]
pub struct GoogleProfile {
    pub email: String,
    pub email_verified: bool,
    pub family_name: Option<String>,
    pub given_name: Option<String>,
    pub name: String,
    pub picture: Option<String>,
    pub sub: String,
}

/// One Gmail message.
#[derive(Debug)]
pub struct GoogleEmail {
    pub id: String,
    pub threadId: String,
    pub labelIds: Vec<String>,
    pub snippet: String,
    pub historyId: String,
    pub internalDate: Option<String>,
    pub payload: Option<GoogleEmailPayload>,
    pub sizeEstimate: Option<i64>,
    pub raw: Option<String>,
}

/// One MIME part of a Gmail message.
#[derive(Debug)]
pub struct GoogleEmailPayload {
    pub partId: String,
    pub mimeType: String,
    pub filename: String,
    pub headers: Option<Vec<GoogleEmailHeader>>,
    pub body: Option<GoogleEmailBody>,
    pub parts: Option<Vec<GoogleEmailPayload>>,
}

/// One header of a MIME part.
#[derive(Debug, Clone)]
pub struct GoogleEmailHeader {
    pub name: String,
    pub value: String,
}

/// The body of a MIME part.
#[derive(Debug, Clone)]
pub struct GoogleEmailBody {
    pub size: i64,
    pub data: Option<String>,
    pub attachmentId: Option<String>,
}

/// A message as the message list names it.
#[derive(Debug, Clone)]
pub struct GoogleEmailListMail {
    pub id: String,
    pub threadId: String,
}

/// One page of the message list.
#[derive(Debug, Clone)]
pub struct GoogleEmailList {
    pub messages: Vec<GoogleEmailListMail>,
    pub nextPageToken: Option<String>,
    pub resultSizeEstimate: Option<i64>,
}

} // verus!
