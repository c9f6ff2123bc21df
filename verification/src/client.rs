//! The client's side: which request each call makes, and what a failure reads
//! like.
use crate::adjustments::{AdjustmentsPatch, Slider};
use crate::json::{
    Node, Numeral, Object, Tree, bool_value, close, entries, no_members, put, strings_value,
    text_array, text_value, tree, trees, unsigned_value,
};
use crate::masks::{is_uuid, mask_id};
use crate::pipeline::texts_of;
use crate::reply::{Body, Reply};
use crate::routes::{
    Endpoint, Method, is_segment, is_unreserved, lemma_mask_reached, lemma_reaches, reaches,
};
use crate::text::{concat, concat3, decimal, decimal_reads_back, decimal_text};
use crate::wire::Health;
use vstd::prelude::*;
use vstd::string::*;

verus! {

/// Seconds that a client waits for the port to be published.
pub const DISCOVERY_SECS: u64 = 10;

/// Seconds that a client waits for an answer.
pub const ANSWER_SECS: u64 = 120;

// ---- requests ----

/// A request to the server.
#[derive(Debug)]
pub struct Request {
    pub method: Method,
    pub path: String,
    pub body: Option<serde_json::Value>,
}

impl Request {
    /// The content as JSON, if there is one.
    pub open spec fn content(self) -> Option<Tree> {
        match self.body {
            Some(body) => Some(tree(body)),
            None => None,
        }
    }

    /// Whether this is the request `method` `path` with `content`.
    pub open spec fn is(self, method: Method, path: Seq<char>, content: Option<Tree>) -> bool {
        self.method == method && self.path@ == path && self.content() == content
    }

    /// Whether the server has a route that leads this request to `endpoint`.
    pub open spec fn reaches(self, endpoint: Endpoint) -> bool {
        reaches(self.method, self.path@, endpoint)
    }
}

fn get(path: &str) -> (request: Request)
    ensures
        request.is(Method::Get, path@, None),
{
    Request { method: Method::Get, path: path.to_owned(), body: None }
}

fn post(path: &str, body: serde_json::Value) -> (request: Request)
    ensures
        request.is(Method::Post, path@, Some(tree(body))),
{
    Request { method: Method::Post, path: path.to_owned(), body: Some(body) }
}

// ---- the client ----

/// A client of the server at one address.
#[derive(Debug)]
pub struct Client {
    base: String,
}

/// The address of the server on a port of this machine.
pub open spec fn address(port: u16) -> Seq<char> {
    "http://127.0.0.1:"@ + decimal(port as nat)
}

/// What came of the first request to a server.
#[derive(Debug)]
pub enum HealthCheck {
    /// No answer came.
    Silent,
    /// An answer came, with this status and, where it could be read as one, this
    /// sign of life.
    Answered { status: u16, health: Option<Health> },
}

impl HealthCheck {
    /// Whether the server is alive: it answered well, with a sign of life.
    pub open spec fn is_alive(self) -> bool {
        self matches HealthCheck::Answered { status, health } && succeeds(status) && health is Some
    }
}

/// A region of the image: left, top, width and height, as parts of the whole.
pub type Roi = (Slider, Slider, Slider, Slider);

/// `members` with a whole number under `name`, if there is one.
pub open spec fn with_unsigned(
    members: Map<Seq<char>, Tree>,
    name: Seq<char>,
    number: Option<u32>,
) -> Map<Seq<char>, Tree> {
    match number {
        Some(value) => members.insert(name, Tree::Number(Numeral::Unsigned(value as u64))),
        None => members,
    }
}

/// A region as JSON.
pub open spec fn roi_tree(roi: Roi) -> Tree {
    Tree::Array(seq![roi.0.tree(), roi.1.tree(), roi.2.tree(), roi.3.tree()])
}

fn roi_value(roi: Roi) -> (value: serde_json::Value)
    ensures
        tree(value) == roi_tree(roi),
{
    let items: Vec<serde_json::Value> = vec![
        roi.0.into_value(),
        roi.1.into_value(),
        roi.2.into_value(),
        roi.3.into_value(),
    ];
    assert(trees(items@) =~= seq![roi.0.tree(), roi.1.tree(), roi.2.tree(), roi.3.tree()]);
    close(Node::Array(items))
}

fn put_unsigned(map: &mut Object, name: &str, number: Option<u32>)
    ensures
        entries(*final(map)) == with_unsigned(entries(*old(map)), name@, number),
{
    if let Some(value) = number {
        put(map, name, unsigned_value(value as u64));
    }
}

/// The content of a request to render the committed look: a size and a region, and
/// no adjustments.
pub open spec fn preview_tree(resolution: Option<u32>, roi: Option<Roi>) -> Tree {
    let members = with_unsigned(no_members(), "target_resolution"@, resolution);
    Tree::Object(
        match roi {
            Some(region) => members.insert("roi"@, roi_tree(region)),
            None => members,
        },
    )
}

/// The content of a request to export the committed look: a size and a file, and no
/// adjustments.
pub open spec fn export_tree(resolution: Option<u32>, path: Option<Seq<char>>) -> Tree {
    let members = with_unsigned(no_members(), "target_resolution"@, resolution);
    Tree::Object(
        match path {
            Some(target) => members.insert("path"@, Tree::Text(target)),
            None => members,
        },
    )
}

/// The content of a request to add a mask: what was left open is left out.
pub open spec fn mask_add_tree(
    mask_type: Seq<char>,
    adjustments: AdjustmentsPatch,
    name: Option<Seq<char>>,
    opacity: Option<Slider>,
    invert: Option<bool>,
) -> Tree {
    let members = map![
        "type"@ => Tree::Text(mask_type),
        "adjustments"@ => adjustments.tree(),
    ];
    let members = match name {
        Some(text) => members.insert("name"@, Tree::Text(text)),
        None => members,
    };
    let members = match opacity {
        Some(slider) => members.insert("opacity"@, slider.tree()),
        None => members,
    };
    let members = match invert {
        Some(truth) => members.insert("invert"@, Tree::Bool(truth)),
        None => members,
    };
    Tree::Object(members)
}

/// A text that may be missing.
pub open spec fn text_of(text: Option<&str>) -> Option<Seq<char>> {
    match text {
        Some(inner) => Some(inner@),
        None => None,
    }
}

/// `{ "paths": paths }`.
pub open spec fn paths_tree(paths: Seq<String>) -> Tree {
    Tree::Object(map!["paths"@ => text_array(texts_of(paths))])
}

/// Whether `request` asks for a preview.
pub open spec fn asks_preview(request: Request, resolution: Option<u32>, roi: Option<Roi>) -> bool {
    request.is(Method::Post, "/preview"@, Some(preview_tree(resolution, roi)))
}

/// Whether `request` asks for an export.
pub open spec fn asks_export(
    request: Request,
    resolution: Option<u32>,
    path: Option<Seq<char>>,
) -> bool {
    request.is(Method::Post, "/export"@, Some(export_tree(resolution, path)))
}

/// Whether `request` asks for a mask.
pub open spec fn asks_mask(
    request: Request,
    mask_type: Seq<char>,
    adjustments: AdjustmentsPatch,
    name: Option<Seq<char>>,
    opacity: Option<Slider>,
    invert: Option<bool>,
) -> bool {
    request.is(
        Method::Post,
        "/mask/add"@,
        Some(mask_add_tree(mask_type, adjustments, name, opacity, invert)),
    )
}

/// Where a path is, behind an address.
pub open spec fn location(base: Seq<char>, path: Seq<char>) -> Seq<char> {
    base + path
}

/// Whether `client` is for the server whose port was found, or says that none was.
pub open spec fn discovered(port: Option<u16>, client: Result<Client, String>) -> bool {
    match (port, client) {
        (Some(found), Ok(client)) => client.base() == address(found),
        (None, Err(message)) => message@
            == "Could not find RapidRAW agent port. Is RapidRAW running?"@,
        _ => false,
    }
}

/// Whether `confirmed` is how the discovery of a server ends.
pub open spec fn confirms(
    client: Client,
    check: HealthCheck,
    confirmed: Result<Client, String>,
) -> bool {
    match confirmed {
        Ok(same) => check.is_alive() && same == client,
        Err(message) => !check.is_alive() && message@
            == "RapidRAW server not responding at /health"@,
    }
}

impl Client {
    /// The address that every path goes behind.
    pub closed spec fn base(self) -> Seq<char> {
        self.base@
    }

    /// A client for the server on `port` of this machine.
    pub fn with_port(port: u16) -> (client: Self)
        ensures
            client.base() == address(port),
    {
        Client { base: concat("http://127.0.0.1:", &decimal_text(port as u64)) }
    }

    /// A client for the server whose port was found, if one was. It is ready for
    /// use once [`Client::confirm`] has seen the answer to [`Client::health`].
    pub fn discover(port: Option<u16>) -> (client: Result<Self, String>)
        ensures
            discovered(port, client),
    {
        match port {
            Some(found) => Ok(Client::with_port(found)),
            None => Err("Could not find RapidRAW agent port. Is RapidRAW running?".to_owned()),
        }
    }

    /// Ends the discovery of a server, once it was asked whether it is alive: with
    /// the client if it is, and with an error if it is not.
    pub fn confirm(self, check: HealthCheck) -> (confirmed: Result<Self, String>)
        ensures
            confirms(self, check, confirmed),
    {
        if let HealthCheck::Answered { status, health } = check {
            if is_success(status) && health.is_some() {
                return Ok(self);
            }
        }
        Err("RapidRAW server not responding at /health".to_owned())
    }

    /// Where a request goes.
    pub fn url(&self, request: &Request) -> (url: String)
        ensures
            url@ == location(self.base(), request.path@),
    {
        concat(&self.base, &request.path)
    }

    // ---- the image and its edits ----

    /// Asks whether the server is alive.
    pub fn health(&self) -> (request: Request)
        ensures
            request.is(Method::Get, "/health"@, None),
            request.reaches(Endpoint::Health),
    {
        proof {
            lemma_reaches(0);
        }
        get("/health")
    }

    /// Loads an image, in the live window too if `navigate` is set.
    pub fn load(&self, path: &str, navigate: bool) -> (request: Request)
        ensures
            request.is(
                Method::Post,
                "/load"@,
                Some(
                    Tree::Object(
                        map!["path"@ => Tree::Text(path@), "navigate"@ => Tree::Bool(navigate)],
                    ),
                ),
            ),
            request.reaches(Endpoint::Load),
    {
        proof {
            lemma_reaches(1);
        }
        let mut body: Object = serde_json::Map::new();
        put(&mut body, "path", text_value(path));
        put(&mut body, "navigate", bool_value(navigate));
        post("/load", close(Node::Object(body)))
    }

    /// Renders the committed look.
    pub fn preview(&self, resolution: Option<u32>, roi: Option<Roi>) -> (request: Request)
        ensures
            asks_preview(request, resolution, roi),
            request.reaches(Endpoint::Preview),
    {
        proof {
            lemma_reaches(2);
        }
        let mut body: Object = serde_json::Map::new();
        put_unsigned(&mut body, "target_resolution", resolution);
        if let Some(region) = roi {
            put(&mut body, "roi", roi_value(region));
        }
        post("/preview", close(Node::Object(body)))
    }

    /// Merges a patch onto the edits.
    pub fn adjust(&self, adjustments: AdjustmentsPatch) -> (request: Request)
        ensures
            request.is(
                Method::Post,
                "/adjust"@,
                Some(Tree::Object(map!["adjustments"@ => adjustments.tree()])),
            ),
            request.reaches(Endpoint::Adjust),
    {
        proof {
            lemma_reaches(3);
        }
        let mut body: Object = serde_json::Map::new();
        put(&mut body, "adjustments", adjustments.into_value());
        post("/adjust", close(Node::Object(body)))
    }

    /// Reads the image and its edits.
    pub fn state(&self) -> (request: Request)
        ensures
            request.is(Method::Get, "/state"@, None),
            request.reaches(Endpoint::State),
    {
        proof {
            lemma_reaches(4);
        }
        get("/state")
    }

    /// Reads the schema.
    pub fn schema(&self) -> (request: Request)
        ensures
            request.is(Method::Get, "/schema"@, None),
            request.reaches(Endpoint::Schema),
    {
        proof {
            lemma_reaches(5);
        }
        get("/schema")
    }

    /// Exports the committed look.
    pub fn export(&self, resolution: Option<u32>, out_path: Option<&str>) -> (request: Request)
        ensures
            asks_export(request, resolution, text_of(out_path)),
            request.reaches(Endpoint::Export),
    {
        proof {
            lemma_reaches(6);
        }
        let mut body: Object = serde_json::Map::new();
        put_unsigned(&mut body, "target_resolution", resolution);
        if let Some(path) = out_path {
            put(&mut body, "path", text_value(path));
        }
        post("/export", close(Node::Object(body)))
    }

    // ---- masks ----

    /// Adds a mask.
    pub fn mask_add(
        &self,
        mask_type: &str,
        adjustments: AdjustmentsPatch,
        name: Option<&str>,
        opacity: Option<Slider>,
        invert: Option<bool>,
    ) -> (request: Request)
        ensures
            asks_mask(request, mask_type@, adjustments, text_of(name), opacity, invert),
            request.reaches(Endpoint::MaskAdd),
    {
        let mut body: Object = serde_json::Map::new();
        put(&mut body, "type", text_value(mask_type));
        put(&mut body, "adjustments", adjustments.into_value());
        if let Some(text) = name {
            put(&mut body, "name", text_value(text));
        }
        if let Some(slider) = opacity {
            put(&mut body, "opacity", slider.into_value());
        }
        if let Some(truth) = invert {
            put(&mut body, "invert", bool_value(truth));
        }
        self.mask_add_full(close(Node::Object(body)))
    }

    /// Adds the mask that `body` describes.
    pub fn mask_add_full(&self, body: serde_json::Value) -> (request: Request)
        ensures
            request.is(Method::Post, "/mask/add"@, Some(tree(body))),
            request.reaches(Endpoint::MaskAdd),
    {
        proof {
            lemma_reaches(7);
        }
        post("/mask/add", body)
    }

    /// Merges a patch into the mask `id`.
    pub fn mask_update(&self, id: &str, patch: serde_json::Value) -> (request: Request)
        ensures
            request.is(Method::Post, "/mask/"@ + id@, Some(tree(patch))),
            is_segment(id@) && id@ != "add"@ ==> request.reaches(Endpoint::MaskUpdate),
    {
        proof {
            if is_segment(id@) && id@ != "add"@ {
                lemma_mask_reached(id@);
            }
        }
        post(&concat("/mask/", id), patch)
    }

    /// Removes the mask `id`.
    pub fn mask_remove(&self, id: &str) -> (request: Request)
        ensures
            request.is(Method::Delete, "/mask/"@ + id@, None),
            is_segment(id@) && id@ != "add"@ ==> request.reaches(Endpoint::MaskRemove),
    {
        proof {
            if is_segment(id@) && id@ != "add"@ {
                lemma_mask_reached(id@);
            }
        }
        Request { method: Method::Delete, path: concat("/mask/", id), body: None }
    }

    // ---- pipeline tools ----

    /// Denoises an image.
    pub fn denoise(&self, path: &str, intensity: Slider, method: &str) -> (request: Request)
        ensures
            request.is(
                Method::Post,
                "/denoise"@,
                Some(
                    Tree::Object(
                        map![
                            "path"@ => Tree::Text(path@),
                            "intensity"@ => intensity.tree(),
                            "method"@ => Tree::Text(method@),
                        ],
                    ),
                ),
            ),
            request.reaches(Endpoint::Denoise),
    {
        proof {
            lemma_reaches(10);
        }
        let mut body: Object = serde_json::Map::new();
        put(&mut body, "path", text_value(path));
        put(&mut body, "intensity", intensity.into_value());
        put(&mut body, "method", text_value(method));
        post("/denoise", close(Node::Object(body)))
    }

    /// Merges bracketed exposures.
    pub fn hdr_merge(&self, paths: &Vec<String>) -> (request: Request)
        ensures
            request.is(Method::Post, "/hdr/merge"@, Some(paths_tree(paths@))),
            request.reaches(Endpoint::HdrMerge),
    {
        proof {
            lemma_reaches(11);
        }
        let mut body: Object = serde_json::Map::new();
        put(&mut body, "paths", strings_value(paths));
        post("/hdr/merge", close(Node::Object(body)))
    }

    /// Stitches overlapping images.
    pub fn panorama_stitch(&self, paths: &Vec<String>) -> (request: Request)
        ensures
            request.is(Method::Post, "/panorama/stitch"@, Some(paths_tree(paths@))),
            request.reaches(Endpoint::PanoramaStitch),
    {
        proof {
            lemma_reaches(12);
        }
        let mut body: Object = serde_json::Map::new();
        put(&mut body, "paths", strings_value(paths));
        post("/panorama/stitch", close(Node::Object(body)))
    }

    /// Inverts film scans.
    pub fn negative_convert(
        &self,
        paths: &Vec<String>,
        red_weight: Slider,
        green_weight: Slider,
        blue_weight: Slider,
        exposure: Slider,
        contrast: Slider,
    ) -> (request: Request)
        ensures
            request.is(
                Method::Post,
                "/negative/convert"@,
                Some(
                    Tree::Object(
                        map![
                            "paths"@ => text_array(texts_of(paths@)),
                            "redWeight"@ => red_weight.tree(),
                            "greenWeight"@ => green_weight.tree(),
                            "blueWeight"@ => blue_weight.tree(),
                            "exposure"@ => exposure.tree(),
                            "contrast"@ => contrast.tree(),
                        ],
                    ),
                ),
            ),
            request.reaches(Endpoint::NegativeConvert),
    {
        proof {
            lemma_reaches(13);
        }
        let mut body: Object = serde_json::Map::new();
        put(&mut body, "paths", strings_value(paths));
        put(&mut body, "redWeight", red_weight.into_value());
        put(&mut body, "greenWeight", green_weight.into_value());
        put(&mut body, "blueWeight", blue_weight.into_value());
        put(&mut body, "exposure", exposure.into_value());
        put(&mut body, "contrast", contrast.into_value());
        post("/negative/convert", close(Node::Object(body)))
    }

    /// Looks for blurry and similar images.
    pub fn cull(
        &self,
        paths: &Vec<String>,
        similarity_threshold: u32,
        blur_threshold: Slider,
        group_similar: bool,
        filter_blurry: bool,
    ) -> (request: Request)
        ensures
            request.is(
                Method::Post,
                "/cull"@,
                Some(
                    Tree::Object(
                        map![
                            "paths"@ => text_array(texts_of(paths@)),
                            "similarityThreshold"@ => Tree::Number(
                                Numeral::Unsigned(similarity_threshold as u64),
                            ),
                            "blurThreshold"@ => blur_threshold.tree(),
                            "groupSimilar"@ => Tree::Bool(group_similar),
                            "filterBlurry"@ => Tree::Bool(filter_blurry),
                        ],
                    ),
                ),
            ),
            request.reaches(Endpoint::Cull),
    {
        proof {
            lemma_reaches(14);
        }
        let mut body: Object = serde_json::Map::new();
        put(&mut body, "paths", strings_value(paths));
        put(&mut body, "similarityThreshold", unsigned_value(similarity_threshold as u64));
        put(&mut body, "blurThreshold", blur_threshold.into_value());
        put(&mut body, "groupSimilar", bool_value(group_similar));
        put(&mut body, "filterBlurry", bool_value(filter_blurry));
        post("/cull", close(Node::Object(body)))
    }

    /// Fills a masked region.
    pub fn inpaint(
        &self,
        path: &str,
        patch_definition: serde_json::Value,
        current_adjustments: serde_json::Value,
        use_fast_inpaint: bool,
    ) -> (request: Request)
        ensures
            request.is(
                Method::Post,
                "/inpaint"@,
                Some(
                    Tree::Object(
                        map![
                            "path"@ => Tree::Text(path@),
                            "patch_definition"@ => tree(patch_definition),
                            "current_adjustments"@ => tree(current_adjustments),
                            "use_fast_inpaint"@ => Tree::Bool(use_fast_inpaint),
                        ],
                    ),
                ),
            ),
            request.reaches(Endpoint::Inpaint),
    {
        proof {
            lemma_reaches(15);
        }
        let mut body: Object = serde_json::Map::new();
        put(&mut body, "path", text_value(path));
        put(&mut body, "patch_definition", patch_definition);
        put(&mut body, "current_adjustments", current_adjustments);
        put(&mut body, "use_fast_inpaint", bool_value(use_fast_inpaint));
        post("/inpaint", close(Node::Object(body)))
    }

    // ---- lookups ----

    /// Asks for suggested adjustments.
    pub fn auto_adjust(&self) -> (request: Request)
        ensures
            request.is(Method::Get, "/auto-adjust"@, None),
            request.reaches(Endpoint::AutoAdjust),
    {
        proof {
            lemma_reaches(16);
        }
        get("/auto-adjust")
    }

    /// Lists the lens makers.
    pub fn lens_makers(&self) -> (request: Request)
        ensures
            request.is(Method::Get, "/lens/makers"@, None),
            request.reaches(Endpoint::LensMakers),
    {
        proof {
            lemma_reaches(17);
        }
        get("/lens/makers")
    }

    /// Looks for the lens that fits best.
    pub fn lens_autodetect(&self, maker: &str, model: &str) -> (request: Request)
        ensures
            request.is(
                Method::Post,
                "/lens/autodetect"@,
                Some(
                    Tree::Object(
                        map!["maker"@ => Tree::Text(maker@), "model"@ => Tree::Text(model@)],
                    ),
                ),
            ),
            request.reaches(Endpoint::LensAutodetect),
    {
        proof {
            lemma_reaches(18);
        }
        let mut body: Object = serde_json::Map::new();
        put(&mut body, "maker", text_value(maker));
        put(&mut body, "model", text_value(model));
        post("/lens/autodetect", close(Node::Object(body)))
    }

    /// Lists the LUTs.
    pub fn luts(&self) -> (request: Request)
        ensures
            request.is(Method::Get, "/luts"@, None),
            request.reaches(Endpoint::Luts),
    {
        proof {
            lemma_reaches(19);
        }
        get("/luts")
    }

    /// Lists the presets.
    pub fn presets(&self) -> (request: Request)
        ensures
            request.is(Method::Get, "/presets"@, None),
            request.reaches(Endpoint::Presets),
    {
        proof {
            lemma_reaches(20);
        }
        get("/presets")
    }
}

// ---- answers ----

/// Whether an HTTP status says that all went well.
pub open spec fn succeeds(status: u16) -> bool {
    200 <= status < 300
}

/// Tells whether an HTTP status says that all went well.
pub fn is_success(status: u16) -> (success: bool)
    ensures
        success == succeeds(status),
{
    200 <= status && status < 300
}

/// A status code with its name, as in `404 Not Found`.
pub uninterp spec fn status_text(status: u16) -> Seq<char>;

/// Prints a `reqwest::StatusCode`: the code, a space, and the name that HTTP has
/// for it, or a remark where it has none. The contract gives the outcome a name,
/// and says that it starts with the code.
#[verifier::external_body]
fn show_status(status: u16) -> (text: String)
    requires
        100 <= status <= 999,
    ensures
        text@ == status_text(status),
        (decimal(status as nat) + seq![' ']).is_prefix_of(text@),
{
    reqwest::StatusCode::from_u16(status).as_ref().map(ToString::to_string).unwrap_or_default()
}

/// What a failure reads like.
pub open spec fn failure_text(status: u16, error: Option<Seq<char>>, body: Seq<char>) -> Seq<char> {
    "HTTP "@ + status_text(status) + ": "@ + (match error {
        Some(reason) => reason,
        None => body,
    })
}

/// What a failure reads like: the status, and the reason that the server gave, or
/// else the content as it came.
pub fn decode_error(status: u16, error: Option<&str>, body: &str) -> (message: String)
    requires
        100 <= status <= 999,
    ensures
        message@ == failure_text(status, text_of(error), body@),
{
    let reason = match error {
        Some(reason) => reason,
        None => body,
    };
    concat(&concat3("HTTP ", &show_status(status), ": "), reason)
}

// ---- laws ----

/// A request for a preview or an export brings no adjustments, so that the server
/// renders the committed look.
pub proof fn look_is_left_to_the_server(
    resolution: Option<u32>,
    roi: Option<Roi>,
    path: Option<Seq<char>>,
)
    ensures
        !preview_tree(resolution, roi).members().contains_key("adjustments"@),
        !export_tree(resolution, path).members().contains_key("adjustments"@),
{
    reveal_strlit("adjustments");
    reveal_strlit("target_resolution");
    reveal_strlit("roi");
    reveal_strlit("path");
    assert("adjustments"@.len() == 11 && "target_resolution"@.len() == 17 && "roi"@.len() == 3
        && "path"@.len() == 4);
}

/// The id that adding a mask gives back leads to that mask: updating and removing
/// it by that id reach the server's routes for masks, with the id as the segment
/// that the routes leave open.
pub proof fn mask_id_leads_back(uuid: Seq<char>)
    requires
        is_uuid(uuid),
    ensures
        is_segment(mask_id(uuid)),
        reaches(Method::Post, "/mask/"@ + mask_id(uuid), Endpoint::MaskUpdate),
        reaches(Method::Delete, "/mask/"@ + mask_id(uuid), Endpoint::MaskRemove),
{
    let id = mask_id(uuid);
    reveal_strlit("agent-mask-");
    reveal_strlit("add");
    assert forall|i: int| 0 <= i < id.len() implies is_unreserved(#[trigger] id[i]) by {
        if i >= 11 {
            assert(id[i] == uuid[i - 11]);
        }
    }
    lemma_mask_reached(id);
}

/// What the server refuses or fails with is what the agent reads: the reason is
/// the text under `error`, where [`decode_error`] is given it from.
pub proof fn refusal_carries_reason(reply: Reply, status: u16, reason: Seq<char>)
    requires
        reply.is_error(status, reason),
    ensures
        reply.status == status,
        reply.body matches Body::Json(value) && tree(value).member("error"@).as_text() == Some(
            reason,
        ),
{
}

/// Answers go well just when their status is one of the two hundreds.
pub proof fn two_hundreds_go_well(status: u16)
    ensures
        succeeds(status) <==> status / 100 == 2,
{
}

/// A server counts as alive just when it answered well and with a sign of life.
pub proof fn only_a_good_answer_is_life(check: HealthCheck)
    ensures
        check is Silent ==> !check.is_alive(),
        check matches HealthCheck::Answered { status, health } ==> (check.is_alive() <==> status
            / 100 == 2 && health is Some),
{
}

/// A client speaks to this machine alone, and clients of different ports to
/// different servers.
pub proof fn ports_have_their_own_address(one: u16, other: u16)
    ensures
        "http://127.0.0.1:"@.is_prefix_of(address(one)),
        address(one).skip("http://127.0.0.1:"@.len() as int) == decimal(one as nat),
        one != other ==> address(one) != address(other),
{
    let prefix = "http://127.0.0.1:"@;
    assert(address(one).take(prefix.len() as int) =~= prefix);
    assert(address(one).skip(prefix.len() as int) =~= decimal(one as nat));
    assert(address(other).skip(prefix.len() as int) =~= decimal(other as nat));
    decimal_reads_back(one as nat);
    decimal_reads_back(other as nat);
}

/// A failure names its status, and then the reason that the server gave, and the
/// content as it came only where there is no reason.
pub proof fn failures_give_the_reason(
    status: u16,
    error: Option<Seq<char>>,
    body: Seq<char>,
    other: Seq<char>,
)
    ensures
        ("HTTP "@ + status_text(status) + ": "@).is_prefix_of(failure_text(status, error, body)),
        error matches Some(reason) ==> failure_text(status, error, body).skip(
            ("HTTP "@ + status_text(status) + ": "@).len() as int,
        ) == reason && failure_text(status, error, body) == failure_text(status, error, other),
        error is None ==> failure_text(status, error, body).skip(
            ("HTTP "@ + status_text(status) + ": "@).len() as int,
        ) == body,
{
    let head = "HTTP "@ + status_text(status) + ": "@;
    let text = failure_text(status, error, body);
    assert(text.take(head.len() as int) =~= head);
    match error {
        Some(reason) => {
            assert(text.skip(head.len() as int) =~= reason);
        },
        None => {
            assert(text.skip(head.len() as int) =~= body);
        },
    }
}

proof fn lemma_names()
    ensures
        "target_resolution"@ != "roi"@,
        "target_resolution"@ != "path"@,
        "target_resolution"@ != "type"@,
        "target_resolution"@ != "adjustments"@,
        "target_resolution"@ != "name"@,
        "target_resolution"@ != "opacity"@,
        "target_resolution"@ != "invert"@,
        "roi"@ != "path"@,
        "roi"@ != "type"@,
        "roi"@ != "adjustments"@,
        "roi"@ != "name"@,
        "roi"@ != "opacity"@,
        "roi"@ != "invert"@,
        "path"@ != "type"@,
        "path"@ != "adjustments"@,
        "path"@ != "name"@,
        "path"@ != "opacity"@,
        "path"@ != "invert"@,
        "type"@ != "adjustments"@,
        "type"@ != "name"@,
        "type"@ != "opacity"@,
        "type"@ != "invert"@,
        "adjustments"@ != "name"@,
        "adjustments"@ != "opacity"@,
        "adjustments"@ != "invert"@,
        "name"@ != "opacity"@,
        "name"@ != "invert"@,
        "opacity"@ != "invert"@,
{
    reveal_strlit("target_resolution");
    reveal_strlit("roi");
    reveal_strlit("path");
    reveal_strlit("type");
    reveal_strlit("adjustments");
    reveal_strlit("name");
    reveal_strlit("opacity");
    reveal_strlit("invert");
    assert("target_resolution"@.len() != "roi"@.len());
    assert("target_resolution"@.len() != "path"@.len());
    assert("target_resolution"@.len() != "type"@.len());
    assert("target_resolution"@.len() != "adjustments"@.len());
    assert("target_resolution"@.len() != "name"@.len());
    assert("target_resolution"@.len() != "opacity"@.len());
    assert("target_resolution"@.len() != "invert"@.len());
    assert("roi"@.len() != "path"@.len());
    assert("roi"@.len() != "type"@.len());
    assert("roi"@.len() != "adjustments"@.len());
    assert("roi"@.len() != "name"@.len());
    assert("roi"@.len() != "opacity"@.len());
    assert("roi"@.len() != "invert"@.len());
    assert("path"@[0] != "type"@[0]);
    assert("path"@.len() != "adjustments"@.len());
    assert("path"@[0] != "name"@[0]);
    assert("path"@.len() != "opacity"@.len());
    assert("path"@.len() != "invert"@.len());
    assert("type"@.len() != "adjustments"@.len());
    assert("type"@[0] != "name"@[0]);
    assert("type"@.len() != "opacity"@.len());
    assert("type"@.len() != "invert"@.len());
    assert("adjustments"@.len() != "name"@.len());
    assert("adjustments"@.len() != "opacity"@.len());
    assert("adjustments"@.len() != "invert"@.len());
    assert("name"@.len() != "opacity"@.len());
    assert("name"@.len() != "invert"@.len());
    assert("opacity"@.len() != "invert"@.len());
}

/// A resolution, a region and a file reach the server as they are, and what is left
/// open is left out; preview and export give the resolution alike.
pub proof fn sizes_and_places_reach_the_server(
    resolution: Option<u32>,
    roi: Option<Roi>,
    path: Option<Seq<char>>,
)
    ensures
        resolution matches Some(size) ==> {
            &&& preview_tree(resolution, roi).member("target_resolution"@) == Tree::Number(
                Numeral::Unsigned(size as u64),
            )
            &&& export_tree(resolution, path).member("target_resolution"@) == Tree::Number(
                Numeral::Unsigned(size as u64),
            )
        },
        resolution is None ==> {
            &&& !preview_tree(resolution, roi).members().contains_key("target_resolution"@)
            &&& !export_tree(resolution, path).members().contains_key("target_resolution"@)
        },
        roi matches Some(region) ==> (preview_tree(resolution, roi).member("roi"@) matches Tree::Array(
            sides,
        ) && sides.len() == 4 && sides[0] == region.0.tree() && sides[1] == region.1.tree()
            && sides[2] == region.2.tree() && sides[3] == region.3.tree()),
        roi is None ==> !preview_tree(resolution, roi).members().contains_key("roi"@),
        path matches Some(target) ==> export_tree(resolution, path).member("path"@) == Tree::Text(
            target,
        ),
        path is None ==> !export_tree(resolution, path).members().contains_key("path"@),
        preview_tree(resolution, roi).members().dom().subset_of(
            set!["target_resolution"@, "roi"@],
        ),
        export_tree(resolution, path).members().dom().subset_of(
            set!["target_resolution"@, "path"@],
        ),
{
    lemma_names();
}

/// What is said of a new mask reaches the server as it is, and what is left open is
/// left out.
pub proof fn mask_reaches_the_server(
    mask_type: Seq<char>,
    adjustments: AdjustmentsPatch,
    name: Option<Seq<char>>,
    opacity: Option<Slider>,
    invert: Option<bool>,
)
    ensures
        ({
            let content = mask_add_tree(mask_type, adjustments, name, opacity, invert);
            let sent = |key: Seq<char>| content.members().contains_key(key);
            &&& content.member("type"@) == Tree::Text(mask_type)
            &&& content.member("adjustments"@) == Tree::Object(entries(adjustments.fields))
            &&& name matches Some(text) ==> content.member("name"@) == Tree::Text(text)
            &&& name is None ==> !sent("name"@)
            &&& opacity matches Some(setting) ==> content.member("opacity"@) == setting.tree()
            &&& opacity is None ==> !sent("opacity"@)
            &&& invert matches Some(truth) ==> content.member("invert"@) == Tree::Bool(truth)
            &&& invert is None ==> !sent("invert"@)
            &&& content.members().dom().subset_of(
                set!["type"@, "adjustments"@, "name"@, "opacity"@, "invert"@],
            )
        }),
{
    lemma_names();
}

/// A list of images reaches the server whole and in order.
pub proof fn paths_reach_the_server(paths: Seq<String>)
    ensures
        paths_tree(paths).member("paths"@) matches Tree::Array(sent) && sent.len() == paths.len()
            && forall|i: int| 0 <= i < paths.len() ==> #[trigger] sent[i] == Tree::Text(paths[i]@),
        paths_tree(paths).members().dom() == set!["paths"@],
{
}

/// A request is what it is said to be: its method, its path and its content.
pub proof fn requests_are_what_they_are_said_to_be(
    request: Request,
    method: Method,
    path: Seq<char>,
    content: Option<Tree>,
)
    requires
        request.is(method, path, content),
    ensures
        request.method == method,
        request.path@ == path,
        content is None <==> request.body is None,
        request.body matches Some(body) ==> content == Some(tree(body)),
{
}

/// A text that is there is handed on as it is.
pub proof fn texts_are_handed_on(text: &str)
    ensures
        text_of(Some(text)) == Some(text@),
        text_of(None) is None,
{
}

/// The content of a request.
pub open spec fn content_of(request: Request) -> Tree {
    match request.body {
        Some(body) => tree(body),
        None => Tree::Null,
    }
}

/// A request for a preview goes to the server's preview, with the resolution and the
/// region that were given, each whether or not the other was.
pub proof fn preview_request_says_what_was_given(
    client: Client,
    request: Request,
    resolution: Option<u32>,
    roi: Option<Roi>,
)
    requires
        call_ensures(Client::preview, (&client, resolution, roi), request),
    ensures
        request.method == Method::Post && request.path@ == "/preview"@,
        resolution matches Some(size) ==> content_of(request).member("target_resolution"@)
            == Tree::Number(Numeral::Unsigned(size as u64)),
        resolution is None ==> !content_of(request).members().contains_key("target_resolution"@),
        roi matches Some(region) ==> (content_of(request).member("roi"@) matches Tree::Array(sides)
            && sides == seq![
            region.0.tree(),
            region.1.tree(),
            region.2.tree(),
            region.3.tree(),
        ]),
        roi is None ==> !content_of(request).members().contains_key("roi"@),
        !content_of(request).members().contains_key("adjustments"@),
{
    lemma_names();
}

/// A request for an export goes to the server's export, with the resolution and the
/// file that were given, each whether or not the other was.
pub proof fn export_request_says_what_was_given(
    client: Client,
    request: Request,
    resolution: Option<u32>,
    path: Option<&str>,
)
    requires
        call_ensures(Client::export, (&client, resolution, path), request),
    ensures
        request.method == Method::Post && request.path@ == "/export"@,
        resolution matches Some(size) ==> content_of(request).member("target_resolution"@)
            == Tree::Number(Numeral::Unsigned(size as u64)),
        resolution is None ==> !content_of(request).members().contains_key("target_resolution"@),
        path matches Some(file) ==> content_of(request).member("path"@) == Tree::Text(file@),
        path is None ==> !content_of(request).members().contains_key("path"@),
        !content_of(request).members().contains_key("adjustments"@),
{
    lemma_names();
}

/// A request for a mask goes where masks are added, with all that was said of the
/// mask.
pub proof fn mask_request_says_what_was_given(
    client: Client,
    request: Request,
    mask_type: &str,
    adjustments: AdjustmentsPatch,
    name: Option<&str>,
    opacity: Option<Slider>,
    invert: Option<bool>,
)
    requires
        call_ensures(
            Client::mask_add,
            (&client, mask_type, adjustments, name, opacity, invert),
            request,
        ),
    ensures
        request.method == Method::Post && request.path@ == "/mask/add"@,
        content_of(request).member("type"@) == Tree::Text(mask_type@),
        content_of(request).member("adjustments"@) == Tree::Object(entries(adjustments.fields)),
        name matches Some(text) ==> content_of(request).member("name"@) == Tree::Text(text@),
        name is None ==> !content_of(request).members().contains_key("name"@),
        opacity matches Some(setting) ==> content_of(request).member("opacity"@) == setting.tree(),
        opacity is None ==> !content_of(request).members().contains_key("opacity"@),
        invert matches Some(truth) ==> content_of(request).member("invert"@) == Tree::Bool(truth),
        invert is None ==> !content_of(request).members().contains_key("invert"@),
{
    lemma_names();
}

/// A path is looked for behind the address and nowhere else.
pub proof fn paths_stand_behind_the_address(base: Seq<char>, path: Seq<char>)
    ensures
        base.is_prefix_of(location(base, path)),
        location(base, path).skip(base.len() as int) == path,
{
    assert(location(base, path).take(base.len() as int) =~= base);
    assert(location(base, path).skip(base.len() as int) =~= path);
}

/// Discovery gives a client for the port that was found, and fails just when none
/// was; it ends well just when the server on that port answers well with a sign of
/// life, and then with that very client.
pub proof fn discovery_ends_with_a_live_server(
    port: Option<u16>,
    client: Result<Client, String>,
    check: HealthCheck,
    confirmed: Result<Client, String>,
)
    requires
        call_ensures(Client::discover, (port,), client),
        client matches Ok(found) ==> call_ensures(
            Client::confirm,
            (found, check),
            confirmed,
        ),
    ensures
        client is Ok <==> port is Some,
        client matches Ok(found) ==> found.base() == "http://127.0.0.1:"@ + decimal(
            port->Some_0 as nat,
        ),
        client matches Err(message) ==> message@
            == "Could not find RapidRAW agent port. Is RapidRAW running?"@,
        client matches Ok(found) ==> (confirmed is Ok <==> (check matches HealthCheck::Answered {
            status,
            health,
        } && status / 100 == 2 && health is Some)),
        client matches Ok(found) ==> (confirmed matches Ok(same) ==> same == found),
        client matches Ok(found) ==> (confirmed matches Err(message) ==> message@
            == "RapidRAW server not responding at /health"@),
{
}

/// A client for a port speaks to that port of this machine, and its requests go
/// there and to their own path.
pub proof fn requests_go_to_the_port(
    port: u16,
    client: Client,
    request: Request,
    url: String,
)
    requires
        call_ensures(Client::with_port, (port,), client),
        call_ensures(Client::url, (&client, &request), url),
    ensures
        client.base() == "http://127.0.0.1:"@ + decimal(port as nat),
        url@ == "http://127.0.0.1:"@ + decimal(port as nat) + request.path@,
{
}

/// What an answer that failed reads like: its status, and the reason that the server
/// gave, or else its content.
pub proof fn failed_answers_give_the_reason(
    status: u16,
    error: Option<&str>,
    body: &str,
    message: String,
    success: bool,
)
    requires
        call_ensures(decode_error, (status, error, body), message),
        call_ensures(is_success, (status,), success),
    ensures
        error matches Some(reason) ==> message@ == "HTTP "@ + status_text(status) + ": "@
            + reason@,
        error is None ==> message@ == "HTTP "@ + status_text(status) + ": "@ + body@,
        success <==> status / 100 == 2,
{
}

} // verus!
