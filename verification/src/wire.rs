//! The answers that server and client share, as they stand on the wire.
use crate::json::{
    Node, Numeral, Object, Tree, bool_value, close, put, text_value, tree, unsigned_value,
};
use vstd::prelude::*;

verus! {

/// A sign of life: the answer to `GET /health`.
#[derive(Debug)]
pub struct Health {
    pub status: String,
    pub version: String,
}

impl Health {
    /// The answer as JSON.
    pub open spec fn tree(self) -> Tree {
        Tree::Object(
            map![
                "status"@ => Tree::Text(self.status@),
                "version"@ => Tree::Text(self.version@),
            ],
        )
    }

    /// Makes the answer a document.
    pub fn into_value(self) -> (value: serde_json::Value)
        ensures
            tree(value) == self.tree(),
    {
        let mut map: Object = serde_json::Map::new();
        put(&mut map, "status", text_value(&self.status));
        put(&mut map, "version", text_value(&self.version));
        close(Node::Object(map))
    }
}

/// An image that was loaded: the answer to `POST /load`.
#[derive(Debug)]
pub struct LoadResponse {
    pub path: String,
    pub width: u32,
    pub height: u32,
    pub is_raw: bool,
}

impl LoadResponse {
    /// The answer as JSON.
    pub open spec fn tree(self) -> Tree {
        Tree::Object(
            map![
                "path"@ => Tree::Text(self.path@),
                "width"@ => Tree::Number(Numeral::Unsigned(self.width as u64)),
                "height"@ => Tree::Number(Numeral::Unsigned(self.height as u64)),
                "isRaw"@ => Tree::Bool(self.is_raw),
            ],
        )
    }

    /// Makes the answer a document.
    pub fn into_value(self) -> (value: serde_json::Value)
        ensures
            tree(value) == self.tree(),
    {
        let mut map: Object = serde_json::Map::new();
        put(&mut map, "path", text_value(&self.path));
        put(&mut map, "width", unsigned_value(self.width as u64));
        put(&mut map, "height", unsigned_value(self.height as u64));
        put(&mut map, "isRaw", bool_value(self.is_raw));
        close(Node::Object(map))
    }
}

/// The answer to `POST /adjust`, with the adjustments after the patch.
#[derive(Debug)]
pub struct AdjustOk {
    pub ok: bool,
    pub adjustments: Option<serde_json::Value>,
}

impl AdjustOk {
    /// The answer as JSON.
    pub open spec fn tree(self) -> Tree {
        Tree::Object(
            map![
                "ok"@ => Tree::Bool(self.ok),
                "adjustments"@ => (match self.adjustments {
                    Some(adjustments) => tree(adjustments),
                    None => Tree::Null,
                }),
            ],
        )
    }

    /// Makes the answer a document.
    pub fn into_value(self) -> (value: serde_json::Value)
        ensures
            tree(value) == self.tree(),
    {
        let mut map: Object = serde_json::Map::new();
        put(&mut map, "ok", bool_value(self.ok));
        let adjustments = match self.adjustments {
            Some(adjustments) => adjustments,
            None => close(Node::Null),
        };
        put(&mut map, "adjustments", adjustments);
        close(Node::Object(map))
    }
}

/// The image that is open and the edits on it, the human's and the agent's
/// merged: the answer to `GET /state`.
#[derive(Debug)]
pub struct State {
    pub path: String,
    pub width: u32,
    pub height: u32,
    pub is_raw: bool,
    pub adjustments: serde_json::Value,
}

impl State {
    /// The answer as JSON.
    pub open spec fn tree(self) -> Tree {
        Tree::Object(
            map![
                "path"@ => Tree::Text(self.path@),
                "width"@ => Tree::Number(Numeral::Unsigned(self.width as u64)),
                "height"@ => Tree::Number(Numeral::Unsigned(self.height as u64)),
                "isRaw"@ => Tree::Bool(self.is_raw),
                "adjustments"@ => tree(self.adjustments),
            ],
        )
    }

    /// Makes the answer a document.
    pub fn into_value(self) -> (value: serde_json::Value)
        ensures
            tree(value) == self.tree(),
    {
        let mut map: Object = serde_json::Map::new();
        put(&mut map, "path", text_value(&self.path));
        put(&mut map, "width", unsigned_value(self.width as u64));
        put(&mut map, "height", unsigned_value(self.height as u64));
        put(&mut map, "isRaw", bool_value(self.is_raw));
        put(&mut map, "adjustments", self.adjustments);
        close(Node::Object(map))
    }
}

/// A mask that was added: the answer to `POST /mask/add`.
#[derive(Debug)]
pub struct MaskAddResponse {
    pub ok: bool,
    pub mask_id: String,
}

impl MaskAddResponse {
    /// The answer as JSON.
    pub open spec fn tree(self) -> Tree {
        Tree::Object(
            map![
                "maskId"@ => Tree::Text(self.mask_id@),
                "ok"@ => Tree::Bool(self.ok),
            ],
        )
    }

    /// Makes the answer a document.
    pub fn into_value(self) -> (value: serde_json::Value)
        ensures
            tree(value) == self.tree(),
    {
        let mut map: Object = serde_json::Map::new();
        put(&mut map, "maskId", text_value(&self.mask_id));
        put(&mut map, "ok", bool_value(self.ok));
        close(Node::Object(map))
    }
}

/// An answer that says only that all went well.
#[derive(Debug)]
pub struct OkResponse {
    pub ok: bool,
}

impl OkResponse {
    /// The answer as JSON.
    pub open spec fn tree(self) -> Tree {
        Tree::Object(map!["ok"@ => Tree::Bool(self.ok)])
    }

    /// Makes the answer a document.
    pub fn into_value(self) -> (value: serde_json::Value)
        ensures
            tree(value) == self.tree(),
    {
        let mut map: Object = serde_json::Map::new();
        put(&mut map, "ok", bool_value(self.ok));
        close(Node::Object(map))
    }
}

// ---- laws ----

proof fn lemma_names()
    ensures
        "status"@ != "version"@,
        "status"@ != "path"@,
        "status"@ != "width"@,
        "status"@ != "height"@,
        "status"@ != "isRaw"@,
        "status"@ != "adjustments"@,
        "status"@ != "maskId"@,
        "status"@ != "ok"@,
        "version"@ != "path"@,
        "version"@ != "width"@,
        "version"@ != "height"@,
        "version"@ != "isRaw"@,
        "version"@ != "adjustments"@,
        "version"@ != "maskId"@,
        "version"@ != "ok"@,
        "path"@ != "width"@,
        "path"@ != "height"@,
        "path"@ != "isRaw"@,
        "path"@ != "adjustments"@,
        "path"@ != "maskId"@,
        "path"@ != "ok"@,
        "width"@ != "height"@,
        "width"@ != "isRaw"@,
        "width"@ != "adjustments"@,
        "width"@ != "maskId"@,
        "width"@ != "ok"@,
        "height"@ != "isRaw"@,
        "height"@ != "adjustments"@,
        "height"@ != "maskId"@,
        "height"@ != "ok"@,
        "isRaw"@ != "adjustments"@,
        "isRaw"@ != "maskId"@,
        "isRaw"@ != "ok"@,
        "adjustments"@ != "maskId"@,
        "adjustments"@ != "ok"@,
        "maskId"@ != "ok"@,
{
    reveal_strlit("status");
    reveal_strlit("version");
    reveal_strlit("path");
    reveal_strlit("width");
    reveal_strlit("height");
    reveal_strlit("isRaw");
    reveal_strlit("adjustments");
    reveal_strlit("maskId");
    reveal_strlit("ok");
    assert("status"@.len() != "version"@.len());
    assert("status"@.len() != "path"@.len());
    assert("status"@.len() != "width"@.len());
    assert("status"@[0] != "height"@[0]);
    assert("status"@.len() != "isRaw"@.len());
    assert("status"@.len() != "adjustments"@.len());
    assert("status"@[0] != "maskId"@[0]);
    assert("status"@.len() != "ok"@.len());
    assert("version"@.len() != "path"@.len());
    assert("version"@.len() != "width"@.len());
    assert("version"@.len() != "height"@.len());
    assert("version"@.len() != "isRaw"@.len());
    assert("version"@.len() != "adjustments"@.len());
    assert("version"@.len() != "maskId"@.len());
    assert("version"@.len() != "ok"@.len());
    assert("path"@.len() != "width"@.len());
    assert("path"@.len() != "height"@.len());
    assert("path"@.len() != "isRaw"@.len());
    assert("path"@.len() != "adjustments"@.len());
    assert("path"@.len() != "maskId"@.len());
    assert("path"@.len() != "ok"@.len());
    assert("width"@.len() != "height"@.len());
    assert("width"@[0] != "isRaw"@[0]);
    assert("width"@.len() != "adjustments"@.len());
    assert("width"@.len() != "maskId"@.len());
    assert("width"@.len() != "ok"@.len());
    assert("height"@.len() != "isRaw"@.len());
    assert("height"@.len() != "adjustments"@.len());
    assert("height"@[0] != "maskId"@[0]);
    assert("height"@.len() != "ok"@.len());
    assert("isRaw"@.len() != "adjustments"@.len());
    assert("isRaw"@.len() != "maskId"@.len());
    assert("isRaw"@.len() != "ok"@.len());
    assert("adjustments"@.len() != "maskId"@.len());
    assert("adjustments"@.len() != "ok"@.len());
    assert("maskId"@.len() != "ok"@.len());
}

/// A number as an answer carries it.
pub open spec fn is_count(document: Tree, count: u32) -> bool {
    document matches Tree::Number(Numeral::Unsigned(number)) && number == count
}

/// Every answer carries each of its fields as it is, under the name that it has on
/// the wire, and nothing else.
pub proof fn answers_carry_their_fields(
    health: Health,
    loaded: LoadResponse,
    adjusted: AdjustOk,
    state: State,
    added: MaskAddResponse,
    done: OkResponse,
)
    ensures
        health.tree().member("status"@) == Tree::Text(health.status@),
        health.tree().member("version"@) == Tree::Text(health.version@),
        health.tree().members().dom() == set!["status"@, "version"@],
        loaded.tree().member("path"@) == Tree::Text(loaded.path@),
        is_count(loaded.tree().member("width"@), loaded.width),
        is_count(loaded.tree().member("height"@), loaded.height),
        loaded.tree().member("isRaw"@) == Tree::Bool(loaded.is_raw),
        loaded.tree().members().dom() == set!["path"@, "width"@, "height"@, "isRaw"@],
        adjusted.tree().member("ok"@) == Tree::Bool(adjusted.ok),
        adjusted.adjustments matches Some(held) ==> adjusted.tree().member("adjustments"@) == tree(
            held,
        ),
        adjusted.adjustments is None ==> adjusted.tree().member("adjustments"@) == Tree::Null,
        adjusted.tree().members().dom() == set!["ok"@, "adjustments"@],
        state.tree().member("path"@) == Tree::Text(state.path@),
        is_count(state.tree().member("width"@), state.width),
        is_count(state.tree().member("height"@), state.height),
        state.tree().member("isRaw"@) == Tree::Bool(state.is_raw),
        state.tree().member("adjustments"@) == tree(state.adjustments),
        state.tree().members().dom() == set![
            "path"@,
            "width"@,
            "height"@,
            "isRaw"@,
            "adjustments"@,
        ],
        added.tree().member("maskId"@) == Tree::Text(added.mask_id@),
        added.tree().member("ok"@) == Tree::Bool(added.ok),
        added.tree().members().dom() == set!["maskId"@, "ok"@],
        done.tree().member("ok"@) == Tree::Bool(done.ok),
        done.tree().members().dom() == set!["ok"@],
{
    lemma_names();
}

/// The documents that answers are made into carry the fields of the answers.
pub proof fn documents_carry_their_answers(
    health: (Health, serde_json::Value),
    loaded: (LoadResponse, serde_json::Value),
    adjusted: (AdjustOk, serde_json::Value),
    state: (State, serde_json::Value),
    added: (MaskAddResponse, serde_json::Value),
    done: (OkResponse, serde_json::Value),
)
    requires
        call_ensures(Health::into_value, (health.0,), health.1),
        call_ensures(LoadResponse::into_value, (loaded.0,), loaded.1),
        call_ensures(AdjustOk::into_value, (adjusted.0,), adjusted.1),
        call_ensures(State::into_value, (state.0,), state.1),
        call_ensures(MaskAddResponse::into_value, (added.0,), added.1),
        call_ensures(OkResponse::into_value, (done.0,), done.1),
    ensures
        tree(health.1).member("version"@) == Tree::Text(health.0.version@),
        tree(health.1).member("status"@) == Tree::Text(health.0.status@),
        tree(loaded.1).member("path"@) == Tree::Text(loaded.0.path@),
        is_count(tree(loaded.1).member("width"@), loaded.0.width),
        is_count(tree(loaded.1).member("height"@), loaded.0.height),
        tree(loaded.1).member("isRaw"@) == Tree::Bool(loaded.0.is_raw),
        tree(adjusted.1).member("ok"@) == Tree::Bool(adjusted.0.ok),
        adjusted.0.adjustments matches Some(held) ==> tree(adjusted.1).member("adjustments"@)
            == tree(held),
        tree(state.1).member("path"@) == Tree::Text(state.0.path@),
        is_count(tree(state.1).member("width"@), state.0.width),
        is_count(tree(state.1).member("height"@), state.0.height),
        tree(state.1).member("isRaw"@) == Tree::Bool(state.0.is_raw),
        tree(state.1).member("adjustments"@) == tree(state.0.adjustments),
        tree(added.1).member("maskId"@) == Tree::Text(added.0.mask_id@),
        tree(added.1).member("ok"@) == Tree::Bool(added.0.ok),
        tree(done.1).member("ok"@) == Tree::Bool(done.0.ok),
{
    lemma_names();
}

} // verus!
