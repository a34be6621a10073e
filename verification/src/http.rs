//! What the library asks of the remote services, and what comes back.
//!
//! The library performs no request itself. It describes each one as a
//! [`RemoteCall`], bodies included, for the caller to send with the bearer
//! token, and reads the [`HttpReply`] that the caller hands back.

use crate::json::{Json, JsonModel};
use crate::text::opt_text;
use vstd::prelude::*;

verus! {

/// The status line and the body text of a reply.
#[derive(Debug, Clone, PartialEq, Eq)]
pub struct HttpReply {
    pub status: u16,
    pub body: String,
}

/// Whether an HTTP status code is in the success class, 200 to 299.
pub open spec fn status_is_success(status: u16) -> bool {
    200 <= status < 300
}

impl HttpReply {
    /// Whether the status is in the success class.
    pub fn is_success(&self) -> (r: bool)
        ensures
            r == status_is_success(self.status),
    {
        200 <= self.status && self.status < 300
    }
}

/// One part of a multipart form: a JSON document under a name.
#[derive(Debug, Clone, PartialEq, Eq)]
pub struct FormPart {
    pub name: String,
    pub mime_type: String,
    pub content: Json,
}

/// A [`FormPart`] with its strings as sequences of characters.
pub struct FormPartView {
    pub name: Seq<char>,
    pub mime_type: Seq<char>,
    pub content: JsonModel,
}

impl View for FormPart {
    type V = FormPartView;

    open spec fn view(&self) -> FormPartView {
        FormPartView {
            name: self.name@,
            mime_type: self.mime_type@,
            content: self.content.model(),
        }
    }
}

/// One request to a remote service. Every one is sent with the access token as
/// bearer authorization.
#[derive(Debug, Clone, PartialEq, Eq)]
pub enum RemoteCall {
    /// `GET url`.
    Get { url: String },
    /// `POST url` with `body` as its JSON body.
    PostJson { url: String, body: Json },
    /// `POST url` as a multipart form of two parts: what describes a file, then
    /// what the file holds.
    Upload { url: String, metadata: FormPart, media: FormPart },
}

/// A [`RemoteCall`] with its strings as sequences of characters.
pub enum RemoteCallView {
    Get { url: Seq<char> },
    PostJson { url: Seq<char>, body: JsonModel },
    Upload { url: Seq<char>, metadata: FormPartView, media: FormPartView },
}

impl View for RemoteCall {
    type V = RemoteCallView;

    open spec fn view(&self) -> RemoteCallView {
        match *self {
            RemoteCall::Get { url } => RemoteCallView::Get { url: url@ },
            RemoteCall::PostJson { url, body } => RemoteCallView::PostJson {
                url: url@,
                body: body.model(),
            },
            RemoteCall::Upload { url, metadata, media } => RemoteCallView::Upload {
                url: url@,
                metadata: metadata@,
                media: media@,
            },
        }
    }
}

/// A request that may be missing, with its strings as sequences.
pub open spec fn call_view(call: Option<RemoteCall>) -> Option<RemoteCallView> {
    match call {
        Some(c) => Some(c@),
        None => None,
    }
}

/// The body text of a reply that arrived, whatever its status.
pub open spec fn reply_text(reply: Option<HttpReply>) -> Option<Seq<char>> {
    match reply {
        Some(r) => Some(r.body@),
        None => None,
    }
}

/// What the service said in refusing: the body of a reply that arrived with a
/// status outside the success class.
pub open spec fn rejection_of(reply: Option<HttpReply>) -> Option<Seq<char>> {
    match reply {
        Some(r) => if status_is_success(r.status) {
            None
        } else {
            Some(r.body@)
        },
        None => None,
    }
}

/// Hands out what the service said in refusing, if `reply` is a refusal.
pub fn rejection(reply: &Option<HttpReply>) -> (r: Option<String>)
    ensures
        opt_text(r) == rejection_of(*reply),
{
    match reply {
        Some(r) => if r.is_success() {
            None
        } else {
            Some(r.body.clone())
        },
        None => None,
    }
}

} // verus!
