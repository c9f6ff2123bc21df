//! What a request leads to: a reply, and events for the live window.
use crate::json::{Node, Object, Tree, close, put, text_value, tree};
use vstd::prelude::*;

verus! {

/// HTTP 200.
pub const OK: u16 = 200;

/// HTTP 400.
pub const BAD_REQUEST: u16 = 400;

/// HTTP 500.
pub const INTERNAL_SERVER_ERROR: u16 = 500;

/// The content of a reply.
#[derive(Debug)]
pub enum Body {
    Json(serde_json::Value),
    /// JPEG bytes, sent as `image/jpeg`.
    Jpeg(Vec<u8>),
}

/// A reply to a request.
#[derive(Debug)]
pub struct Reply {
    pub status: u16,
    pub body: Body,
}

impl Reply {
    /// Whether this is the reply with `status` and the JSON `content`.
    pub open spec fn is_json(self, status: u16, content: Tree) -> bool {
        self.status == status && (self.body matches Body::Json(value) && tree(value) == content)
    }

    /// Whether this is the reply that refuses or fails with `status`, for the
    /// reason `message`.
    pub open spec fn is_error(self, status: u16, message: Seq<char>) -> bool {
        self.is_json(status, Tree::Object(map!["error"@ => Tree::Text(message)]))
    }

    /// Whether this is the good reply with the image `bytes`.
    pub open spec fn is_jpeg(self, bytes: Seq<u8>) -> bool {
        self.status == OK && (self.body matches Body::Jpeg(image) && image@ == bytes)
    }
}

/// An event for the live window.
#[derive(Debug)]
pub struct Event {
    pub name: String,
    pub payload: serde_json::Value,
}

impl Event {
    /// Whether this is the event `name` with `payload`.
    pub open spec fn is(self, name: Seq<char>, payload: Tree) -> bool {
        self.name@ == name && tree(self.payload) == payload
    }
}

/// The good reply with the JSON `content`.
pub(crate) fn ok_json(content: serde_json::Value) -> (reply: Reply)
    ensures
        reply.is_json(OK, tree(content)),
{
    Reply { status: OK, body: Body::Json(content) }
}

/// The good reply with the image `bytes`.
pub(crate) fn ok_jpeg(bytes: Vec<u8>) -> (reply: Reply)
    ensures
        reply.is_jpeg(bytes@),
{
    Reply { status: OK, body: Body::Jpeg(bytes) }
}

/// The reply that refuses or fails: `{ "error": message }`.
pub(crate) fn error_reply(status: u16, message: &str) -> (reply: Reply)
    ensures
        reply.is_error(status, message@),
{
    let mut map: Object = serde_json::Map::new();
    put(&mut map, "error", text_value(message));
    Reply { status, body: Body::Json(close(Node::Object(map))) }
}

/// An object with one member.
pub(crate) fn single(name: &str, value: serde_json::Value) -> (object: serde_json::Value)
    ensures
        tree(object) == Tree::Object(map![name@ => tree(value)]),
{
    let mut map: Object = serde_json::Map::new();
    put(&mut map, name, value);
    close(Node::Object(map))
}

/// Whether `reply` answers a request that ran `result`: with its JSON, or with the
/// reason of its failure.
pub open spec fn answers(result: Result<serde_json::Value, String>, reply: Reply) -> bool {
    match result {
        Ok(value) => reply.is_json(OK, tree(value)),
        Err(message) => reply.is_error(INTERNAL_SERVER_ERROR, message@),
    }
}

/// The reply to a request that ran `result`: its JSON, or the reason of its
/// failure.
pub fn json_result(result: Result<serde_json::Value, String>) -> (reply: Reply)
    ensures
        answers(result, reply),
{
    match result {
        Ok(value) => ok_json(value),
        Err(message) => error_reply(INTERNAL_SERVER_ERROR, &message),
    }
}

// ---- laws ----

/// The JSON that a reply carries, if it carries any.
pub open spec fn carried(reply: Reply) -> Tree {
    match reply.body {
        Body::Json(value) => tree(value),
        Body::Jpeg(_) => Tree::Null,
    }
}

/// A reply says what it is meant to: its status is the one that was picked, its
/// JSON or its bytes are those that were handed over, and a failure holds its
/// reason under `error` and nothing else.
pub proof fn replies_say_what_they_mean(
    reply: Reply,
    status: u16,
    content: Tree,
    message: Seq<char>,
    bytes: Seq<u8>,
    name: Seq<char>,
)
    ensures
        reply.is_json(status, content) ==> reply.body is Json && reply.status == status && carried(
            reply,
        ) == content,
        reply.is_error(status, message) ==> reply.body is Json && reply.status == status && carried(
            reply,
        ).member("error"@) == Tree::Text(message) && (name != "error"@
            ==> !carried(reply).members().contains_key(name)),
        reply.is_jpeg(bytes) ==> reply.status == 200 && (reply.body matches Body::Jpeg(image)
            && image@ == bytes),
{
}

/// An event says what it is meant to: its name and its payload are those that were
/// handed over.
pub proof fn events_say_what_they_mean(event: Event, name: Seq<char>, payload: Tree)
    requires
        event.is(name, payload),
    ensures
        event.name@ == name,
        tree(event.payload) == payload,
{
}

/// A request that worked is answered with what came of it, and one that failed
/// with its reason: a failure never looks like a success.
pub proof fn results_are_answered(result: Result<serde_json::Value, String>, reply: Reply)
    requires
        call_ensures(json_result, (result,), reply),
    ensures
        reply.body is Json,
        result matches Ok(value) ==> reply.status == 200 && carried(reply) == tree(value),
        result matches Err(message) ==> reply.status == 500 && carried(reply).member("error"@)
            == Tree::Text(message@),
{
}

} // verus!
