//! The image that is open, and the edits on it.
//!
//! The live window owns the edits. The server keeps a mirror of them, which the
//! window refreshes whenever they change, so that an agent can read what human
//! and agent have made together.
use crate::json::{Node, Numeral, Tree, close, no_members, text_value, tree};
use crate::merge::{
    at, lemma_untouched_is_absent, merge_json, merge_keeps_other_paths, merge_makes_objects,
    merge_sets_values, merged, touches,
};
use crate::reply::{
    Event, INTERNAL_SERVER_ERROR, OK, Reply, carried, error_reply, ok_json, single,
};
use crate::wire::{AdjustOk, Health, LoadResponse, State, is_count};
use vstd::prelude::*;

verus! {

// ---- health ----

/// `{ "status": "ok", "version": version }`.
pub open spec fn health_tree(version: Seq<char>) -> Tree {
    Tree::Object(map!["status"@ => Tree::Text("ok"@), "version"@ => Tree::Text(version)])
}

/// The content of the answer to `GET /health`.
pub fn health_body(version: &str) -> (body: serde_json::Value)
    ensures
        tree(body) == health_tree(version@),
{
    Health { status: "ok".to_owned(), version: version.to_owned() }.into_value()
}

/// Whether `reply` answers `GET /health`.
pub open spec fn health_answered(version: Seq<char>, reply: Reply) -> bool {
    reply.is_json(OK, health_tree(version))
}

/// Answers `GET /health`.
pub fn health(version: &str) -> (reply: Reply)
    ensures
        health_answered(version@, reply),
{
    ok_json(health_body(version))
}

// ---- loading ----

/// The content of `POST /load`.
#[derive(Debug)]
pub struct LoadRequest {
    pub path: String,
    /// Whether the live window goes to the image too, so that human and agent
    /// work on the same image.
    pub navigate: bool,
}

/// What `navigate` is where a request does not say.
pub fn default_navigate() -> (navigate: bool)
    ensures
        navigate,
{
    true
}

/// What decoding an image found out about it.
#[derive(Debug)]
pub struct ImageInfo {
    pub width: u32,
    pub height: u32,
    pub is_raw: bool,
}

/// An image and what is known about it, as JSON.
pub open spec fn image_tree(path: Seq<char>, info: ImageInfo) -> Tree {
    Tree::Object(
        map![
            "path"@ => Tree::Text(path),
            "width"@ => Tree::Number(Numeral::Unsigned(info.width as u64)),
            "height"@ => Tree::Number(Numeral::Unsigned(info.height as u64)),
            "isRaw"@ => Tree::Bool(info.is_raw),
        ],
    )
}

/// Whether `events` and `reply` are what a load comes to, once the image was
/// decoded or failed to.
pub open spec fn loads(
    request: LoadRequest,
    decoded: Result<ImageInfo, String>,
    events: Seq<Event>,
    reply: Reply,
) -> bool {
    match decoded {
        Ok(info) => {
            &&& events.len() == (if request.navigate { 2int } else { 1int })
            &&& request.navigate ==> events.first().is(
                "agent://navigate-to-image"@,
                Tree::Object(map!["path"@ => Tree::Text(request.path@)]),
            )
            &&& events.last().is("agent://image-loaded"@, image_tree(request.path@, info))
            &&& reply.is_json(OK, image_tree(request.path@, info))
        },
        Err(message) => events.len() == 0 && reply.is_error(INTERNAL_SERVER_ERROR, message@),
    }
}

/// Answers `POST /load`, once the image was decoded or failed to. A good load
/// takes the live window to the image, unless the request says not to, and then
/// tells it that the image is there.
pub fn load(request: LoadRequest, decoded: Result<ImageInfo, String>) -> (outcome: (
    Vec<Event>,
    Reply,
))
    ensures
        loads(request, decoded, outcome.0@, outcome.1),
{
    let mut events: Vec<Event> = Vec::new();
    match decoded {
        Ok(info) => {
            if request.navigate {
                events.push(
                    Event {
                        name: "agent://navigate-to-image".to_owned(),
                        payload: single("path", text_value(&request.path)),
                    },
                );
            }
            let answer = LoadResponse {
                path: request.path,
                width: info.width,
                height: info.height,
                is_raw: info.is_raw,
            }.into_value();
            events.push(
                Event { name: "agent://image-loaded".to_owned(), payload: answer.clone() },
            );
            (events, ok_json(answer))
        },
        Err(message) => (events, error_reply(INTERNAL_SERVER_ERROR, &message)),
    }
}

// ---- the mirror of the live edits ----

/// The server's copy of the live window's adjustments, once it has any.
#[derive(Debug)]
pub struct AgentStateMirror(pub Option<serde_json::Value>);

/// What a mirror holds once the live window reported its adjustments: those, and
/// nothing of what it held `before`.
pub open spec fn reported(before: Option<Tree>, adjustments: Tree) -> Option<Tree> {
    Some(adjustments)
}

impl AgentStateMirror {
    /// What the mirror holds.
    pub open spec fn content(self) -> Option<Tree> {
        match self.0 {
            Some(adjustments) => Some(tree(adjustments)),
            None => None,
        }
    }

    /// A copy of what the mirror holds.
    pub fn mirror(&self) -> (adjustments: Option<serde_json::Value>)
        ensures
            AgentStateMirror(adjustments).content() == self.content(),
    {
        match &self.0 {
            Some(adjustments) => Some(adjustments.clone()),
            None => None,
        }
    }

    /// Replaces what the mirror holds.
    pub fn set_mirror(&mut self, adjustments: serde_json::Value)
        ensures
            final(self).content() == reported(old(self).content(), tree(adjustments)),
    {
        self.0 = Some(adjustments);
    }
}

impl Default for AgentStateMirror {
    /// A mirror that holds nothing yet.
    fn default() -> (mirror: Self)
        ensures
            mirror.content() is None,
    {
        AgentStateMirror(None)
    }
}

/// Takes over the live window's adjustments, whenever they change.
pub fn update_state_mirror(mirror: &mut AgentStateMirror, adjustments: serde_json::Value)
    ensures
        final(mirror).content() == reported(old(mirror).content(), tree(adjustments)),
{
    mirror.set_mirror(adjustments);
}

// ---- adjusting ----

/// The adjustments after a patch: merged onto those that the mirror holds, or the
/// patch as it is where it holds none.
pub open spec fn adjusted(mirror: Option<Tree>, patch: Tree) -> Tree {
    match mirror {
        Some(existing) => merged(existing, patch),
        None => patch,
    }
}

/// Whether `after`, `event` and `reply` are what a patch comes to, on a mirror that
/// held `before`.
pub open spec fn adjusts(
    before: Option<Tree>,
    patch: Tree,
    after: Option<Tree>,
    event: Event,
    reply: Reply,
) -> bool {
    &&& event.is("agent://adjustments-apply"@, patch)
    &&& after == Some(adjusted(before, patch))
    &&& reply.is_json(
        OK,
        Tree::Object(
            map!["ok"@ => Tree::Bool(true), "adjustments"@ => adjusted(before, patch)],
        ),
    )
}

/// Answers `POST /adjust`: hands the patch on to the live window, and merges it
/// into the mirror, so that a `GET /state` right after sees it.
pub fn adjust(mirror: &mut AgentStateMirror, patch: serde_json::Value) -> (outcome: (Event, Reply))
    ensures
        adjusts(
            old(mirror).content(),
            tree(patch),
            final(mirror).content(),
            outcome.0,
            outcome.1,
        ),
{
    let event = Event { name: "agent://adjustments-apply".to_owned(), payload: patch.clone() };
    let after = match mirror.mirror() {
        Some(existing) => merge_json(existing, patch),
        None => patch,
    };
    mirror.set_mirror(after.clone());
    let answer = AdjustOk { ok: true, adjustments: Some(after) };
    (event, ok_json(answer.into_value()))
}

// ---- reading the state ----

/// An image that is open.
#[derive(Debug)]
pub struct LoadedImage {
    pub path: String,
    pub width: u32,
    pub height: u32,
    pub is_raw: bool,
}

/// The state as JSON. No image reads as an empty path and no size, and a mirror
/// that holds nothing as no adjustments.
pub open spec fn state_tree(loaded: Option<LoadedImage>, mirror: Option<Tree>) -> Tree {
    let (path, width, height, is_raw) = match loaded {
        Some(image) => (image.path@, image.width, image.height, image.is_raw),
        None => (Seq::empty(), 0, 0, false),
    };
    Tree::Object(
        map![
            "path"@ => Tree::Text(path),
            "width"@ => Tree::Number(Numeral::Unsigned(width as u64)),
            "height"@ => Tree::Number(Numeral::Unsigned(height as u64)),
            "isRaw"@ => Tree::Bool(is_raw),
            "adjustments"@ => (match mirror {
                Some(adjustments) => adjustments,
                None => Tree::Object(no_members()),
            }),
        ],
    )
}

/// Whether `reply` answers `GET /state`.
pub open spec fn state_answered(
    loaded: Option<LoadedImage>,
    mirror: Option<Tree>,
    reply: Reply,
) -> bool {
    reply.is_json(OK, state_tree(loaded, mirror))
}

/// Answers `GET /state`: the open image, and the edits of human and agent merged.
pub fn state(loaded: Option<LoadedImage>, mirror: &AgentStateMirror) -> (reply: Reply)
    ensures
        state_answered(loaded, mirror.content(), reply),
{
    let image = match loaded {
        Some(image) => image,
        None => LoadedImage { path: String::new(), width: 0, height: 0, is_raw: false },
    };
    let adjustments = match mirror.mirror() {
        Some(adjustments) => adjustments,
        None => close(Node::Object(serde_json::Map::new())),
    };
    let answer = State {
        path: image.path,
        width: image.width,
        height: image.height,
        is_raw: image.is_raw,
        adjustments,
    };
    ok_json(answer.into_value())
}

// ---- laws ----

/// What the mirror holds is what `GET /state` shows: after the live window
/// reported its adjustments, those, and right after `POST /adjust`, the merged
/// ones.
pub proof fn state_shows_mirror(loaded: Option<LoadedImage>, adjustments: Tree)
    ensures
        state_tree(loaded, Some(adjustments)).member("adjustments"@) == adjustments,
{
}

/// An edit that a patch says nothing about shows in `GET /state` after
/// `POST /adjust` as it did before: the agent does not undo the human's work.
pub proof fn adjust_keeps_other_edits(
    loaded: Option<LoadedImage>,
    adjustments: Tree,
    patch: Tree,
    path: Seq<Seq<char>>,
)
    requires
        !touches(patch, path),
    ensures
        at(
            state_tree(loaded, Some(adjusted(Some(adjustments), patch))).member("adjustments"@),
            path,
        ) == at(state_tree(loaded, Some(adjustments)).member("adjustments"@), path),
{
    merge_keeps_other_paths(adjustments, patch, path);
}

/// A value that a patch sets shows in `GET /state` right after `POST /adjust`,
/// whatever the mirror held.
pub proof fn adjust_shows_patch(
    loaded: Option<LoadedImage>,
    mirror: Option<Tree>,
    patch: Tree,
    path: Seq<Seq<char>>,
)
    requires
        at(patch, path) matches Some(value) && !(value is Object),
    ensures
        at(state_tree(loaded, Some(adjusted(mirror, patch))).member("adjustments"@), path) == at(
            patch,
            path,
        ),
{
    if let Some(existing) = mirror {
        merge_sets_values(existing, patch, path);
    }
}

proof fn lemma_names()
    ensures
        "path"@ != "width"@,
        "path"@ != "height"@,
        "path"@ != "isRaw"@,
        "path"@ != "adjustments"@,
        "path"@ != "ok"@,
        "path"@ != "status"@,
        "path"@ != "version"@,
        "width"@ != "height"@,
        "width"@ != "isRaw"@,
        "width"@ != "adjustments"@,
        "width"@ != "ok"@,
        "width"@ != "status"@,
        "width"@ != "version"@,
        "height"@ != "isRaw"@,
        "height"@ != "adjustments"@,
        "height"@ != "ok"@,
        "height"@ != "status"@,
        "height"@ != "version"@,
        "isRaw"@ != "adjustments"@,
        "isRaw"@ != "ok"@,
        "isRaw"@ != "status"@,
        "isRaw"@ != "version"@,
        "adjustments"@ != "ok"@,
        "adjustments"@ != "status"@,
        "adjustments"@ != "version"@,
        "ok"@ != "status"@,
        "ok"@ != "version"@,
        "status"@ != "version"@,
{
    reveal_strlit("path");
    reveal_strlit("width");
    reveal_strlit("height");
    reveal_strlit("isRaw");
    reveal_strlit("adjustments");
    reveal_strlit("ok");
    reveal_strlit("status");
    reveal_strlit("version");
    assert("path"@.len() != "width"@.len());
    assert("path"@.len() != "height"@.len());
    assert("path"@.len() != "isRaw"@.len());
    assert("path"@.len() != "adjustments"@.len());
    assert("path"@.len() != "ok"@.len());
    assert("path"@.len() != "status"@.len());
    assert("path"@.len() != "version"@.len());
    assert("width"@.len() != "height"@.len());
    assert("width"@[0] != "isRaw"@[0]);
    assert("width"@.len() != "adjustments"@.len());
    assert("width"@.len() != "ok"@.len());
    assert("width"@.len() != "status"@.len());
    assert("width"@.len() != "version"@.len());
    assert("height"@.len() != "isRaw"@.len());
    assert("height"@.len() != "adjustments"@.len());
    assert("height"@.len() != "ok"@.len());
    assert("height"@[0] != "status"@[0]);
    assert("height"@.len() != "version"@.len());
    assert("isRaw"@.len() != "adjustments"@.len());
    assert("isRaw"@.len() != "ok"@.len());
    assert("isRaw"@.len() != "status"@.len());
    assert("isRaw"@.len() != "version"@.len());
    assert("adjustments"@.len() != "ok"@.len());
    assert("adjustments"@.len() != "status"@.len());
    assert("adjustments"@.len() != "version"@.len());
    assert("ok"@.len() != "status"@.len());
    assert("ok"@.len() != "version"@.len());
    assert("status"@.len() != "version"@.len());
}

/// A sign of life says that all is well, and gives the version as it is.
pub proof fn health_gives_the_version(version: Seq<char>)
    ensures
        health_tree(version).member("status"@) == Tree::Text("ok"@),
        health_tree(version).member("version"@) == Tree::Text(version),
        health_tree(version).members().dom() == set!["status"@, "version"@],
{
    lemma_names();
}

/// A mirror holds just what it was last given, and nothing until then.
pub proof fn mirror_holds_what_it_was_given(adjustments: serde_json::Value)
    ensures
        AgentStateMirror(Some(adjustments)).content() == Some(tree(adjustments)),
        AgentStateMirror(None).content() is None,
{
}

/// The first patch on a mirror that holds nothing is taken as it is: every path
/// leads to the same thing in the adjustments after it as in the patch, and where
/// the patch has nothing there is nothing.
pub proof fn first_patch_is_taken_as_it_is(patch: Tree, path: Seq<Seq<char>>)
    ensures
        at(adjusted(None, patch), path) == at(patch, path),
{
}

/// What stands at a path among the edits, where there are any.
pub open spec fn edit_at(edits: Option<Tree>, path: Seq<Seq<char>>) -> Option<Tree> {
    match edits {
        Some(adjustments) => at(adjustments, path),
        None => None,
    }
}

/// A patch leaves alone what it says nothing about, on any mirror: where nothing
/// stood before, on a mirror that holds nothing above all, nothing stands after.
pub proof fn adjust_keeps_what_it_does_not_name(
    before: Option<Tree>,
    patch: Tree,
    path: Seq<Seq<char>>,
)
    requires
        !touches(patch, path),
    ensures
        edit_at(Some(adjusted(before, patch)), path) == edit_at(before, path),
{
    match before {
        Some(existing) => merge_keeps_other_paths(existing, patch, path),
        None => lemma_untouched_is_absent(patch, path),
    }
}

/// A patch sets the values that it names, on any mirror.
pub proof fn adjust_sets_what_it_names(before: Option<Tree>, patch: Tree, path: Seq<Seq<char>>)
    requires
        at(patch, path) matches Some(value) && !(value is Object),
    ensures
        edit_at(Some(adjusted(before, patch)), path) == at(patch, path),
{
    if let Some(existing) = before {
        merge_sets_values(existing, patch, path);
    }
}

/// The window gets the patch as it came; the agent is told that all is well, and
/// gets the adjustments that `GET /state` shows right after, with whatever image
/// is open.
pub proof fn adjust_answers_with_the_state(
    mirror: &mut AgentStateMirror,
    patch: serde_json::Value,
    event: Event,
    reply: Reply,
    loaded: Option<LoadedImage>,
    after: AgentStateMirror,
    shown: Reply,
)
    requires
        call_ensures(adjust, (mirror, patch), (event, reply)),
        after == *final(mirror),
        call_ensures(state, (loaded, &after), shown),
    ensures
        event.name@ == "agent://adjustments-apply"@,
        tree(event.payload) == tree(patch),
        after.content() is Some,
        reply.status == 200,
        reply.body is Json,
        carried(reply).member("ok"@) == Tree::Bool(true),
        carried(reply).member("adjustments"@) == carried(shown).member("adjustments"@),
        carried(reply).member("adjustments"@) == after.content()->Some_0,
        carried(reply).members().dom() == set!["ok"@, "adjustments"@],
{
    lemma_names();
}

/// The state shows the open image as it is: its path, its size, and whether it is
/// raw; the adjustments have no part in that.
pub proof fn state_shows_the_open_image(image: LoadedImage, mirror: Option<Tree>)
    ensures
        state_tree(Some(image), mirror).member("path"@) == Tree::Text(image.path@),
        is_count(state_tree(Some(image), mirror).member("width"@), image.width),
        is_count(state_tree(Some(image), mirror).member("height"@), image.height),
        state_tree(Some(image), mirror).member("isRaw"@) == Tree::Bool(image.is_raw),
        state_tree(Some(image), mirror).members().dom() == set![
            "path"@,
            "width"@,
            "height"@,
            "isRaw"@,
            "adjustments"@,
        ],
{
    lemma_names();
}

/// With no image open, the state has an empty path and no size; with nothing in
/// the mirror, it has no adjustments.
pub proof fn state_of_nothing_is_empty(mirror: Option<Tree>, loaded: Option<LoadedImage>)
    ensures
        state_tree(None, mirror).member("path"@) == Tree::Text(Seq::empty()),
        is_count(state_tree(None, mirror).member("width"@), 0),
        is_count(state_tree(None, mirror).member("height"@), 0),
        state_tree(None, mirror).member("isRaw"@) == Tree::Bool(false),
        state_tree(loaded, None).member("adjustments"@) is Object,
        forall|name: Seq<char>|
            !(#[trigger] state_tree(loaded, None).member("adjustments"@).members().contains_key(
                name,
            )),
{
    lemma_names();
}

/// The edits show in the state whatever image is open.
pub proof fn edits_show_with_any_image(
    one: Option<LoadedImage>,
    other: Option<LoadedImage>,
    mirror: Option<Tree>,
)
    ensures
        state_tree(one, mirror).member("adjustments"@) == state_tree(other, mirror).member(
            "adjustments"@,
        ),
        mirror matches Some(edits) ==> state_tree(one, mirror).member("adjustments"@) == edits,
{
}

/// A good load reports the image as it was asked for and found: the agent and the
/// live window get the same report, and once the image is open the state agrees
/// with it. The window is taken to the image just when the request says so, before
/// it gets the report.
pub proof fn load_reports_the_image(
    request: LoadRequest,
    info: ImageInfo,
    events: Vec<Event>,
    reply: Reply,
    opened: LoadedImage,
    mirror: Option<Tree>,
)
    requires
        call_ensures(load, (request, Ok::<ImageInfo, String>(info)), (events, reply)),
        opened.path@ == request.path@,
        opened.width == info.width,
        opened.height == info.height,
        opened.is_raw == info.is_raw,
    ensures
        reply.status == 200,
        reply.body is Json,
        carried(reply).member("path"@) == Tree::Text(request.path@),
        is_count(carried(reply).member("width"@), info.width),
        is_count(carried(reply).member("height"@), info.height),
        carried(reply).member("isRaw"@) == Tree::Bool(info.is_raw),
        carried(reply).members().dom() == set!["path"@, "width"@, "height"@, "isRaw"@],
        forall|name: Seq<char>| #[trigger]
            carried(reply).members().contains_key(name) ==> carried(reply).member(name)
                == state_tree(Some(opened), mirror).member(name),
        events.len() == if request.navigate { 2int } else { 1int },
        events@.last().name@ == "agent://image-loaded"@,
        tree(events@.last().payload) == carried(reply),
        request.navigate ==> events@[0].name@ == "agent://navigate-to-image"@,
        request.navigate ==> tree(events@[0].payload).member("path"@) == Tree::Text(request.path@),
        request.navigate ==> tree(events@[0].payload).members().dom() == set!["path"@],
{
    lemma_names();
}

/// A load that failed tells the agent why, and the live window nothing.
pub proof fn failed_load_is_told_to_the_agent_alone(
    request: LoadRequest,
    message: String,
    events: Vec<Event>,
    reply: Reply,
)
    requires
        call_ensures(load, (request, Err::<ImageInfo, String>(message)), (events, reply)),
    ensures
        events.len() == 0,
        reply.status == 500,
        reply.body is Json,
        carried(reply).member("error"@) == Tree::Text(message@),
{
}

/// A server that is asked for a sign of life gives one, with its version.
pub proof fn health_is_answered_with_the_version(version: &str, reply: Reply)
    requires
        call_ensures(health, (version,), reply),
    ensures
        reply.status == 200,
        reply.body is Json,
        carried(reply).member("status"@) == Tree::Text("ok"@),
        carried(reply).member("version"@) == Tree::Text(version@),
{
    lemma_names();
}

/// What the live window reports takes the place of all that the mirror held, and is
/// what the state then shows, with whatever image is open.
pub proof fn window_has_the_last_word(
    mirror: &mut AgentStateMirror,
    adjustments: serde_json::Value,
    after: AgentStateMirror,
    loaded: Option<LoadedImage>,
    reply: Reply,
)
    requires
        call_ensures(update_state_mirror, (mirror, adjustments), ()) || call_ensures(
            AgentStateMirror::set_mirror,
            (mirror, adjustments),
            (),
        ),
        after == *final(mirror),
        call_ensures(state, (loaded, &after), reply),
    ensures
        final(mirror).content() == Some(tree(adjustments)),
        carried(reply).member("adjustments"@) == tree(adjustments),
{
}

/// The answer to `GET /state` gives the open image as it is, and the edits as the
/// mirror holds them.
pub proof fn state_is_answered_as_it_is(image: LoadedImage, edits: serde_json::Value, reply: Reply)
    requires
        call_ensures(state, (Some(image), &AgentStateMirror(Some(edits))), reply),
    ensures
        reply.status == 200,
        reply.body is Json,
        carried(reply).member("path"@) == Tree::Text(image.path@),
        is_count(carried(reply).member("width"@), image.width),
        is_count(carried(reply).member("height"@), image.height),
        carried(reply).member("isRaw"@) == Tree::Bool(image.is_raw),
        carried(reply).member("adjustments"@) == tree(edits),
{
    lemma_names();
}

/// The answer to `GET /state` gives nothing for what there is not.
pub proof fn state_is_answered_with_nothing(
    loaded: Option<LoadedImage>,
    mirror: AgentStateMirror,
    reply: Reply,
)
    requires
        call_ensures(state, (loaded, &mirror), reply),
    ensures
        reply.status == 200,
        reply.body is Json,
        loaded is None ==> carried(reply).member("path"@) == Tree::Text(Seq::empty())
            && is_count(carried(reply).member("width"@), 0) && is_count(
            carried(reply).member("height"@),
            0,
        ) && carried(reply).member("isRaw"@) == Tree::Bool(false),
        mirror.0 is None ==> carried(reply).member("adjustments"@) == Tree::Object(no_members()),
        carried(reply).members().dom() == set![
            "path"@,
            "width"@,
            "height"@,
            "isRaw"@,
            "adjustments"@,
        ],
{
    lemma_names();
}

/// Where a patch has an object, so have the edits after it.
pub proof fn adjust_makes_objects(before: Option<Tree>, patch: Tree, path: Seq<Seq<char>>)
    requires
        at(patch, path) matches Some(value) && value is Object,
    ensures
        edit_at(Some(adjusted(before, patch)), path) matches Some(value) && value is Object,
{
    if let Some(existing) = before {
        merge_makes_objects(existing, patch, path);
    }
}

/// `POST /adjust` does to the mirror what a patch should do, whatever it held: what
/// the patch says nothing about stays, or stays missing; the values that it names
/// are set; where it has an object there is one; and the first patch on a mirror
/// that holds nothing is taken as it is.
pub proof fn adjust_changes_what_it_names_alone(
    mirror: &mut AgentStateMirror,
    patch: serde_json::Value,
    outcome: (Event, Reply),
    path: Seq<Seq<char>>,
)
    requires
        call_ensures(adjust, (mirror, patch), outcome),
    ensures
        !touches(tree(patch), path) ==> edit_at(final(mirror).content(), path) == edit_at(
            old(mirror).content(),
            path,
        ),
        at(tree(patch), path) matches Some(value) ==> !(value is Object) ==> edit_at(
            final(mirror).content(),
            path,
        ) == Some(value),
        at(tree(patch), path) matches Some(value) ==> value is Object ==> (edit_at(
            final(mirror).content(),
            path,
        ) matches Some(after) && after is Object),
        old(mirror).content() is None ==> edit_at(final(mirror).content(), path) == at(
            tree(patch),
            path,
        ),
{
    let before = old(mirror).content();
    if !touches(tree(patch), path) {
        adjust_keeps_what_it_does_not_name(before, tree(patch), path);
    }
    if let Some(value) = at(tree(patch), path) {
        if value is Object {
            adjust_makes_objects(before, tree(patch), path);
        } else {
            adjust_sets_what_it_names(before, tree(patch), path);
        }
    }
}

/// A copy of the mirror holds what the mirror holds, and the content of a sign of
/// life gives the version as it is.
pub proof fn copies_hold_the_same(
    mirror: AgentStateMirror,
    copy: Option<serde_json::Value>,
    version: &str,
    body: serde_json::Value,
)
    requires
        call_ensures(AgentStateMirror::mirror, (&mirror,), copy),
        call_ensures(health_body, (version,), body),
    ensures
        copy is Some <==> mirror.0 is Some,
        mirror.0 matches Some(held) ==> (copy matches Some(same) && tree(same) == tree(held)),
        tree(body).member("status"@) == Tree::Text("ok"@),
        tree(body).member("version"@) == Tree::Text(version@),
{
    lemma_names();
}

} // verus!
