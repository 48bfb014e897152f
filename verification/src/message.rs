//! The values that travel in request and response bodies.

use vstd::prelude::*;

verus! {

/// A message. `id` is filled in on responses; on request bodies it is
/// ignored, the id of the path being the one that counts.
#[derive(Clone, Debug, PartialEq, Eq)]
pub struct Message {
    pub id: Option<usize>,
    pub contents: String,
}

/// What a `Message` is, mathematically.
pub struct MessageView {
    pub id: Option<usize>,
    pub contents: Seq<char>,
}

impl View for Message {
    type V = MessageView;

    open spec fn view(&self) -> MessageView {
        MessageView { id: self.id, contents: self.contents@ }
    }
}

/// A status body: `status` alone on success, `status` and `reason` on error.
#[derive(Clone, Debug, PartialEq, Eq)]
pub struct StatusReply {
    pub status: String,
    pub reason: Option<String>,
}

/// What a `StatusReply` is, mathematically.
pub struct StatusReplyView {
    pub status: Seq<char>,
    pub reason: Option<Seq<char>>,
}

impl View for StatusReply {
    type V = StatusReplyView;

    open spec fn view(&self) -> StatusReplyView {
        StatusReplyView {
            status: self.status@,
            reason: match self.reason {
                Some(r) => Some(r@),
                None => None,
            },
        }
    }
}

/// The body that reports success.
pub open spec fn ok_reply() -> StatusReplyView {
    StatusReplyView { status: "ok"@, reason: None }
}

/// The body that reports an error with the given reason.
pub open spec fn error_reply(reason: Seq<char>) -> StatusReplyView {
    StatusReplyView { status: "error"@, reason: Some(reason) }
}

/// The body returned when a message is created under an id already in use.
pub open spec fn id_exists_reply() -> StatusReplyView {
    error_reply("ID exists. Try put."@)
}

/// The body returned for a request that matches no route.
pub open spec fn not_found_reply() -> StatusReplyView {
    error_reply("Resource was not found."@)
}

impl Message {
    /// A request body: contents without an id.
    pub fn with_contents(contents: String) -> (m: Message)
        ensures
            m@ == (MessageView { id: None, contents: contents@ }),
    {
        Message { id: None, contents }
    }
}

impl StatusReply {
    /// The success body.
    pub fn ok() -> (r: StatusReply)
        ensures
            r@ == ok_reply(),
    {
        StatusReply { status: "ok".to_owned(), reason: None }
    }

    /// An error body with the given reason.
    pub fn error(reason: &str) -> (r: StatusReply)
        ensures
            r@ == error_reply(reason@),
    {
        StatusReply { status: "error".to_owned(), reason: Some(reason.to_owned()) }
    }

    /// Whether this body reports success.
    pub fn is_ok(&self) -> (b: bool)
        ensures
            b == (self@.status == "ok"@),
    {
        let ok = "ok".to_owned();
        self.status == ok
    }
}

/// The body for a request that matches no route; it goes out with a 404
/// status.
pub fn not_found() -> (r: StatusReply)
    ensures
        r@ == not_found_reply(),
{
    StatusReply::error("Resource was not found.")
}

} // verus!
