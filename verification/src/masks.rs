//! Masks: regions of the image with adjustments of their own.
use crate::adjustments::Slider;
use crate::json::{
    Node, Numeral, Object, Tree, bool_value, close, float_in, put, read_float, text_value, tree,
    trees,
};
use crate::reply::{Event, OK, Reply, carried, ok_json, single};
use crate::text::concat;
use crate::wire::{MaskAddResponse, OkResponse};
use vstd::prelude::*;

verus! {

// ---- ids ----

/// Whether `c` is a hexadecimal digit, in lower case.
pub open spec fn is_hex(c: char) -> bool {
    '0' <= c <= '9' || 'a' <= c <= 'f'
}

/// Whether `text` is a random UUID in its hyphenated form.
pub open spec fn is_uuid(text: Seq<char>) -> bool {
    &&& text.len() == 36
    &&& forall|i: int|
        0 <= i < 36 ==> if i == 8 || i == 13 || i == 18 || i == 23 {
            #[trigger] text[i] == '-'
        } else {
            is_hex(text[i])
        }
    &&& text[14] == '4'
    &&& text[19] == '8' || text[19] == '9' || text[19] == 'a' || text[19] == 'b'
}

/// `Uuid::new_v4` makes a random UUID, whose text form is 36 characters: groups
/// of lower-case hexadecimal digits with hyphens between them, and with the marks
/// of version 4. Which one it is, is left to chance. On a system without a source
/// of randomness it panics, which no argument can rule out.
#[verifier::external_body]
pub(crate) fn new_uuid() -> (text: String)
    ensures
        is_uuid(text@),
{
    uuid::Uuid::new_v4().to_string()
}

/// The id of the mask with a given UUID.
pub open spec fn mask_id(uuid: Seq<char>) -> Seq<char> {
    "agent-mask-"@ + uuid
}

// ---- adding ----

/// The content of `POST /mask/add`. For the mask types that the application
/// computes (`ai-sky` and the like) the type is enough.
#[derive(Debug)]
pub struct MaskAddRequest {
    /// Shape or source, such as `ai-sky`, `radial` or `brush`.
    pub mask_type: String,
    /// Adjustments inside the mask.
    pub adjustments: serde_json::Value,
    pub name: Option<String>,
    pub opacity: Option<Slider>,
    pub invert: Option<bool>,
    /// Parts of the mask, for those that are drawn.
    pub sub_masks: Option<Vec<serde_json::Value>>,
}

/// Full opacity: the number that `1.0` is read as.
pub open spec fn full_opacity() -> Tree {
    Tree::Number(Numeral::Float(float_in("1.0"@)->Some_0->Some_0))
}

/// The one part of a mask whose request names none: it carries the type of the
/// mask, and is added to it whole.
pub open spec fn default_part(id: Seq<char>, mask_type: Seq<char>) -> Tree {
    Tree::Object(
        map![
            "id"@ => Tree::Text(id + "-0"@),
            "type"@ => Tree::Text(mask_type),
            "mode"@ => Tree::Text("additive"@),
            "visible"@ => Tree::Bool(true),
            "invert"@ => Tree::Bool(false),
            "opacity"@ => full_opacity(),
        ],
    )
}

/// The mask that a request asks for, under the id `id`.
pub open spec fn mask_tree(id: Seq<char>, request: MaskAddRequest) -> Tree {
    Tree::Object(
        map![
            "id"@ => Tree::Text(id),
            "type"@ => Tree::Text(request.mask_type@),
            "name"@ => Tree::Text(match request.name {
                Some(name) => name@,
                None => "Agent: "@ + request.mask_type@,
            }),
            "opacity"@ => (match request.opacity {
                Some(opacity) => opacity.tree(),
                None => full_opacity(),
            }),
            "invert"@ => Tree::Bool(match request.invert {
                Some(invert) => invert,
                None => false,
            }),
            "adjustments"@ => tree(request.adjustments),
            "subMasks"@ => Tree::Array(match request.sub_masks {
                Some(parts) => trees(parts@),
                None => seq![default_part(id, request.mask_type@)],
            }),
        ],
    )
}

fn full_opacity_value() -> (value: serde_json::Value)
    ensures
        tree(value) == full_opacity(),
{
    proof {
        reveal_strlit("1.0");
    }
    match read_float("1.0") {
        Some(Some(number)) => close(Node::Number(number)),
        _ => close(Node::Null),
    }
}

fn default_part_value(id: &str, mask_type: &str) -> (value: serde_json::Value)
    ensures
        tree(value) == default_part(id@, mask_type@),
{
    let mut part: Object = serde_json::Map::new();
    put(&mut part, "id", text_value(&concat(id, "-0")));
    put(&mut part, "type", text_value(mask_type));
    put(&mut part, "mode", text_value("additive"));
    put(&mut part, "visible", bool_value(true));
    put(&mut part, "invert", bool_value(false));
    put(&mut part, "opacity", full_opacity_value());
    close(Node::Object(part))
}

/// Whether `event` and `reply` are what adding a mask with the UUID `uuid` comes
/// to.
pub open spec fn adds(uuid: Seq<char>, request: MaskAddRequest, event: Event, reply: Reply) -> bool {
    &&& event.is("agent://mask-added"@, mask_tree(mask_id(uuid), request))
    &&& reply.is_json(
        OK,
        Tree::Object(map!["maskId"@ => Tree::Text(mask_id(uuid)), "ok"@ => Tree::Bool(true)]),
    )
}

/// Answers `POST /mask/add` for the mask with the UUID `uuid`: the live window
/// gets the mask, and the agent its id.
pub fn mask_added(uuid: &str, request: MaskAddRequest) -> (outcome: (Event, Reply))
    ensures
        adds(uuid@, request, outcome.0, outcome.1),
{
    let id = concat("agent-mask-", uuid);
    let mut mask: Object = serde_json::Map::new();
    put(&mut mask, "id", text_value(&id));
    put(&mut mask, "type", text_value(&request.mask_type));
    let name = match request.name {
        Some(name) => name,
        None => concat("Agent: ", &request.mask_type),
    };
    put(&mut mask, "name", text_value(&name));
    let opacity = match request.opacity {
        Some(opacity) => opacity.into_value(),
        None => full_opacity_value(),
    };
    put(&mut mask, "opacity", opacity);
    put(&mut mask, "invert", bool_value(request.invert.unwrap_or(false)));
    put(&mut mask, "adjustments", request.adjustments);
    let parts = match request.sub_masks {
        Some(parts) => parts,
        None => {
            let mut parts: Vec<serde_json::Value> = Vec::new();
            parts.push(default_part_value(&id, &request.mask_type));
            assert(trees(parts@) =~= seq![default_part(id@, request.mask_type@)]);
            parts
        },
    };
    put(&mut mask, "subMasks", close(Node::Array(parts)));
    let event = Event {
        name: "agent://mask-added".to_owned(),
        payload: close(Node::Object(mask)),
    };
    (event, ok_json(MaskAddResponse { ok: true, mask_id: id }.into_value()))
}

/// Answers `POST /mask/add` under the id of a UUID drawn for it. Which one is
/// drawn, and so that no earlier mask has it, is left to chance; masks with
/// different UUIDs have different ids ([`mask_ids_differ`]).
pub fn mask_add(request: MaskAddRequest) -> (outcome: (Event, Reply))
    ensures
        exists|uuid: Seq<char>| #[trigger]
            is_uuid(uuid) && adds(uuid, request, outcome.0, outcome.1),
{
    let uuid = new_uuid();
    mask_added(&uuid, request)
}

// ---- changing and removing ----

/// `{ "ok": true }`.
pub open spec fn ok_tree() -> Tree {
    Tree::Object(map!["ok"@ => Tree::Bool(true)])
}

/// Whether `event` and `reply` are what changing the mask `id` comes to.
pub open spec fn updates(id: Seq<char>, patch: Tree, event: Event, reply: Reply) -> bool {
    &&& event.is(
        "agent://mask-updated"@,
        Tree::Object(map!["id"@ => Tree::Text(id), "patch"@ => patch]),
    )
    &&& reply.is_json(OK, ok_tree())
}

/// Whether `event` and `reply` are what removing the mask `id` comes to.
pub open spec fn removes(id: Seq<char>, event: Event, reply: Reply) -> bool {
    &&& event.is("agent://mask-removed"@, Tree::Object(map!["id"@ => Tree::Text(id)]))
    &&& reply.is_json(OK, ok_tree())
}

/// Answers `POST /mask/:id`: the live window merges `patch` into that mask.
pub fn mask_update(id: &str, patch: serde_json::Value) -> (outcome: (Event, Reply))
    ensures
        updates(id@, tree(patch), outcome.0, outcome.1),
{
    let mut payload: Object = serde_json::Map::new();
    put(&mut payload, "id", text_value(id));
    put(&mut payload, "patch", patch);
    let event = Event {
        name: "agent://mask-updated".to_owned(),
        payload: close(Node::Object(payload)),
    };
    (event, ok_json(OkResponse { ok: true }.into_value()))
}

/// Answers `DELETE /mask/:id`: the live window removes that mask.
pub fn mask_remove(id: &str) -> (outcome: (Event, Reply))
    ensures
        removes(id@, outcome.0, outcome.1),
{
    let event = Event {
        name: "agent://mask-removed".to_owned(),
        payload: single("id", text_value(id)),
    };
    (event, ok_json(OkResponse { ok: true }.into_value()))
}

// ---- laws ----

/// Masks with different UUIDs have different ids.
pub proof fn mask_ids_differ(one: Seq<char>, other: Seq<char>)
    requires
        one != other,
    ensures
        mask_id(one) != mask_id(other),
{
    let prefix = "agent-mask-"@;
    assert(mask_id(one).skip(prefix.len() as int) =~= one);
    assert(mask_id(other).skip(prefix.len() as int) =~= other);
}

proof fn lemma_names()
    ensures
        "id"@ != "type"@,
        "id"@ != "name"@,
        "id"@ != "opacity"@,
        "id"@ != "invert"@,
        "id"@ != "adjustments"@,
        "id"@ != "subMasks"@,
        "id"@ != "mode"@,
        "id"@ != "visible"@,
        "id"@ != "maskId"@,
        "id"@ != "ok"@,
        "id"@ != "patch"@,
        "type"@ != "name"@,
        "type"@ != "opacity"@,
        "type"@ != "invert"@,
        "type"@ != "adjustments"@,
        "type"@ != "subMasks"@,
        "type"@ != "mode"@,
        "type"@ != "visible"@,
        "type"@ != "maskId"@,
        "type"@ != "ok"@,
        "type"@ != "patch"@,
        "name"@ != "opacity"@,
        "name"@ != "invert"@,
        "name"@ != "adjustments"@,
        "name"@ != "subMasks"@,
        "name"@ != "mode"@,
        "name"@ != "visible"@,
        "name"@ != "maskId"@,
        "name"@ != "ok"@,
        "name"@ != "patch"@,
        "opacity"@ != "invert"@,
        "opacity"@ != "adjustments"@,
        "opacity"@ != "subMasks"@,
        "opacity"@ != "mode"@,
        "opacity"@ != "visible"@,
        "opacity"@ != "maskId"@,
        "opacity"@ != "ok"@,
        "opacity"@ != "patch"@,
        "invert"@ != "adjustments"@,
        "invert"@ != "subMasks"@,
        "invert"@ != "mode"@,
        "invert"@ != "visible"@,
        "invert"@ != "maskId"@,
        "invert"@ != "ok"@,
        "invert"@ != "patch"@,
        "adjustments"@ != "subMasks"@,
        "adjustments"@ != "mode"@,
        "adjustments"@ != "visible"@,
        "adjustments"@ != "maskId"@,
        "adjustments"@ != "ok"@,
        "adjustments"@ != "patch"@,
        "subMasks"@ != "mode"@,
        "subMasks"@ != "visible"@,
        "subMasks"@ != "maskId"@,
        "subMasks"@ != "ok"@,
        "subMasks"@ != "patch"@,
        "mode"@ != "visible"@,
        "mode"@ != "maskId"@,
        "mode"@ != "ok"@,
        "mode"@ != "patch"@,
        "visible"@ != "maskId"@,
        "visible"@ != "ok"@,
        "visible"@ != "patch"@,
        "maskId"@ != "ok"@,
        "maskId"@ != "patch"@,
        "ok"@ != "patch"@,
{
    reveal_strlit("id");
    reveal_strlit("type");
    reveal_strlit("name");
    reveal_strlit("opacity");
    reveal_strlit("invert");
    reveal_strlit("adjustments");
    reveal_strlit("subMasks");
    reveal_strlit("mode");
    reveal_strlit("visible");
    reveal_strlit("maskId");
    reveal_strlit("ok");
    reveal_strlit("patch");
    assert("id"@.len() != "type"@.len());
    assert("id"@.len() != "name"@.len());
    assert("id"@.len() != "opacity"@.len());
    assert("id"@.len() != "invert"@.len());
    assert("id"@.len() != "adjustments"@.len());
    assert("id"@.len() != "subMasks"@.len());
    assert("id"@.len() != "mode"@.len());
    assert("id"@.len() != "visible"@.len());
    assert("id"@.len() != "maskId"@.len());
    assert("id"@[0] != "ok"@[0]);
    assert("id"@.len() != "patch"@.len());
    assert("type"@[0] != "name"@[0]);
    assert("type"@.len() != "opacity"@.len());
    assert("type"@.len() != "invert"@.len());
    assert("type"@.len() != "adjustments"@.len());
    assert("type"@.len() != "subMasks"@.len());
    assert("type"@[0] != "mode"@[0]);
    assert("type"@.len() != "visible"@.len());
    assert("type"@.len() != "maskId"@.len());
    assert("type"@.len() != "ok"@.len());
    assert("type"@.len() != "patch"@.len());
    assert("name"@.len() != "opacity"@.len());
    assert("name"@.len() != "invert"@.len());
    assert("name"@.len() != "adjustments"@.len());
    assert("name"@.len() != "subMasks"@.len());
    assert("name"@[0] != "mode"@[0]);
    assert("name"@.len() != "visible"@.len());
    assert("name"@.len() != "maskId"@.len());
    assert("name"@.len() != "ok"@.len());
    assert("name"@.len() != "patch"@.len());
    assert("opacity"@.len() != "invert"@.len());
    assert("opacity"@.len() != "adjustments"@.len());
    assert("opacity"@.len() != "subMasks"@.len());
    assert("opacity"@.len() != "mode"@.len());
    assert("opacity"@[0] != "visible"@[0]);
    assert("opacity"@.len() != "maskId"@.len());
    assert("opacity"@.len() != "ok"@.len());
    assert("opacity"@.len() != "patch"@.len());
    assert("invert"@.len() != "adjustments"@.len());
    assert("invert"@.len() != "subMasks"@.len());
    assert("invert"@.len() != "mode"@.len());
    assert("invert"@.len() != "visible"@.len());
    assert("invert"@[0] != "maskId"@[0]);
    assert("invert"@.len() != "ok"@.len());
    assert("invert"@.len() != "patch"@.len());
    assert("adjustments"@.len() != "subMasks"@.len());
    assert("adjustments"@.len() != "mode"@.len());
    assert("adjustments"@.len() != "visible"@.len());
    assert("adjustments"@.len() != "maskId"@.len());
    assert("adjustments"@.len() != "ok"@.len());
    assert("adjustments"@.len() != "patch"@.len());
    assert("subMasks"@.len() != "mode"@.len());
    assert("subMasks"@.len() != "visible"@.len());
    assert("subMasks"@.len() != "maskId"@.len());
    assert("subMasks"@.len() != "ok"@.len());
    assert("subMasks"@.len() != "patch"@.len());
    assert("mode"@.len() != "visible"@.len());
    assert("mode"@.len() != "maskId"@.len());
    assert("mode"@.len() != "ok"@.len());
    assert("mode"@.len() != "patch"@.len());
    assert("visible"@.len() != "maskId"@.len());
    assert("visible"@.len() != "ok"@.len());
    assert("visible"@.len() != "patch"@.len());
    assert("maskId"@.len() != "ok"@.len());
    assert("maskId"@.len() != "patch"@.len());
    assert("ok"@.len() != "patch"@.len());
}

/// A new mask holds what its request says of it: its type and adjustments, and its
/// name, opacity, inversion and parts, each as it was said.
pub proof fn mask_holds_what_was_asked_for(id: Seq<char>, request: MaskAddRequest)
    ensures
        mask_tree(id, request).member("id"@) == Tree::Text(id),
        mask_tree(id, request).member("type"@) == Tree::Text(request.mask_type@),
        mask_tree(id, request).member("adjustments"@) == tree(request.adjustments),
        request.name matches Some(name) ==> mask_tree(id, request).member("name"@) == Tree::Text(
            name@,
        ),
        request.opacity matches Some(opacity) ==> mask_tree(id, request).member("opacity"@)
            == opacity.tree(),
        request.invert matches Some(truth) ==> mask_tree(id, request).member("invert"@)
            == Tree::Bool(truth),
        request.sub_masks matches Some(parts) ==> (mask_tree(id, request).member("subMasks"@)
            matches Tree::Array(held) && held.len() == parts.len() && forall|i: int|
            0 <= i < parts.len() ==> #[trigger] held[i] == tree(parts[i])),
        mask_tree(id, request).members().dom() == set![
            "id"@,
            "type"@,
            "name"@,
            "opacity"@,
            "invert"@,
            "adjustments"@,
            "subMasks"@,
        ],
{
    lemma_names();
}

/// A mask is inverted only if its request asks for it.
pub proof fn mask_is_inverted_only_on_request(id: Seq<char>, request: MaskAddRequest)
    ensures
        mask_tree(id, request).member("invert"@) == Tree::Bool(true) <==> request.invert == Some(
            true,
        ),
        mask_tree(id, request).member("invert"@) is Bool,
{
    lemma_names();
}

/// What a request leaves open is filled in: a name that tells who added the mask
/// and of what type it is, full opacity, and one part of the type of the mask,
/// visible, whole, added and not inverted, whose id goes on from that of the mask.
pub proof fn mask_is_filled_in(id: Seq<char>, request: MaskAddRequest)
    ensures
        request.name is None ==> mask_tree(id, request).member("name"@) == Tree::Text(
            "Agent: "@ + request.mask_type@,
        ),
        request.opacity is None ==> mask_tree(id, request).member("opacity"@) == full_opacity(),
        request.sub_masks is None ==> (mask_tree(id, request).member("subMasks"@) matches Tree::Array(
            parts,
        ) && parts.len() == 1 && {
            &&& parts[0].member("id"@) == Tree::Text(id + "-0"@)
            &&& parts[0].member("type"@) == Tree::Text(request.mask_type@)
            &&& parts[0].member("mode"@) == Tree::Text("additive"@)
            &&& parts[0].member("visible"@) == Tree::Bool(true)
            &&& parts[0].member("invert"@) == Tree::Bool(false)
            &&& parts[0].member("opacity"@) == full_opacity()
            &&& parts[0].members().dom() == set![
                "id"@,
                "type"@,
                "mode"@,
                "visible"@,
                "invert"@,
                "opacity"@,
            ]
        }),
        float_in("1.0"@) matches Some(Some(bits)) ==> full_opacity() == Tree::Number(
            Numeral::Float(bits),
        ),
{
    lemma_names();
}

/// The agent gets the id under which the live window gets the mask: that of the
/// UUID, behind a mark that an agent added it.
pub proof fn agent_and_window_get_the_same_id(
    uuid: &str,
    request: MaskAddRequest,
    event: Event,
    reply: Reply,
)
    requires
        call_ensures(mask_added, (uuid, request), (event, reply)),
    ensures
        event.name@ == "agent://mask-added"@,
        tree(event.payload) == mask_tree("agent-mask-"@ + uuid@, request),
        reply.status == 200,
        reply.body is Json,
        carried(reply).member("ok"@) == Tree::Bool(true),
        carried(reply).member("maskId"@) == tree(event.payload).member("id"@),
        carried(reply).member("maskId"@) == Tree::Text("agent-mask-"@ + uuid@),
        carried(reply).members().dom() == set!["maskId"@, "ok"@],
{
    lemma_names();
}

/// A change to a mask reaches the live window as it came, for the mask that it was
/// meant for.
pub proof fn change_reaches_its_mask(id: &str, patch: serde_json::Value, event: Event, reply: Reply)
    requires
        call_ensures(mask_update, (id, patch), (event, reply)),
    ensures
        event.name@ == "agent://mask-updated"@,
        tree(event.payload).member("id"@) == Tree::Text(id@),
        tree(event.payload).member("patch"@) == tree(patch),
        tree(event.payload).members().dom() == set!["id"@, "patch"@],
        reply.status == 200,
        reply.body is Json,
        carried(reply).member("ok"@) == Tree::Bool(true),
        carried(reply).members().dom() == set!["ok"@],
{
    lemma_names();
}

/// A removal reaches the live window for the mask that it was meant for.
pub proof fn removal_reaches_its_mask(id: &str, event: Event, reply: Reply)
    requires
        call_ensures(mask_remove, (id,), (event, reply)),
    ensures
        event.name@ == "agent://mask-removed"@,
        tree(event.payload).member("id"@) == Tree::Text(id@),
        tree(event.payload).members().dom() == set!["id"@],
        reply.status == 200,
        reply.body is Json,
        carried(reply).member("ok"@) == Tree::Bool(true),
        carried(reply).members().dom() == set!["ok"@],
{
}

/// A mask added under a fresh id is the mask of its request, whatever id is drawn,
/// and the id is one that an agent's mask has, drawn at random.
pub proof fn added_mask_is_the_one_asked_for(
    request: MaskAddRequest,
    event: Event,
    reply: Reply,
) -> (uuid: Seq<char>)
    requires
        call_ensures(mask_add, (request,), (event, reply)),
    ensures
        is_uuid(uuid),
        event.name@ == "agent://mask-added"@,
        tree(event.payload) == mask_tree("agent-mask-"@ + uuid, request),
        reply.status == 200,
        reply.body is Json,
        carried(reply).member("maskId"@) == Tree::Text("agent-mask-"@ + uuid),
        carried(reply).member("ok"@) == Tree::Bool(true),
{
    lemma_names();
    choose|uuid: Seq<char>| #[trigger] is_uuid(uuid) && adds(uuid, request, event, reply)
}

} // verus!
