//! The routes of the server.
use vstd::prelude::*;

verus! {

/// The method of a request.
#[derive(Debug, PartialEq, Eq, Structural, Clone, Copy)]
pub enum Method {
    Get,
    Post,
    Delete,
}

/// What a route leads to.
#[derive(Debug, PartialEq, Eq, Structural, Clone, Copy)]
pub enum Endpoint {
    Health,
    Load,
    Preview,
    Adjust,
    State,
    Schema,
    Export,
    MaskAdd,
    MaskUpdate,
    MaskRemove,
    Denoise,
    HdrMerge,
    PanoramaStitch,
    NegativeConvert,
    Cull,
    Inpaint,
    AutoAdjust,
    LensMakers,
    LensAutodetect,
    Luts,
    Presets,
}

/// A route. In its path, `:id` stands for any one segment.
#[derive(Debug)]
pub struct Route {
    pub method: Method,
    pub path: &'static str,
    pub endpoint: Endpoint,
}

/// A route as a value.
pub type RouteView = (Method, Seq<char>, Endpoint);

impl Route {
    /// The route as a value.
    pub open spec fn entry(self) -> RouteView {
        (self.method, self.path@, self.endpoint)
    }
}

/// All routes.
pub open spec fn route_table() -> Seq<RouteView> {
    seq![
        (Method::Get, "/health"@, Endpoint::Health),
        (Method::Post, "/load"@, Endpoint::Load),
        (Method::Post, "/preview"@, Endpoint::Preview),
        (Method::Post, "/adjust"@, Endpoint::Adjust),
        (Method::Get, "/state"@, Endpoint::State),
        (Method::Get, "/schema"@, Endpoint::Schema),
        (Method::Post, "/export"@, Endpoint::Export),
        (Method::Post, "/mask/add"@, Endpoint::MaskAdd),
        (Method::Post, "/mask/:id"@, Endpoint::MaskUpdate),
        (Method::Delete, "/mask/:id"@, Endpoint::MaskRemove),
        (Method::Post, "/denoise"@, Endpoint::Denoise),
        (Method::Post, "/hdr/merge"@, Endpoint::HdrMerge),
        (Method::Post, "/panorama/stitch"@, Endpoint::PanoramaStitch),
        (Method::Post, "/negative/convert"@, Endpoint::NegativeConvert),
        (Method::Post, "/cull"@, Endpoint::Cull),
        (Method::Post, "/inpaint"@, Endpoint::Inpaint),
        (Method::Get, "/auto-adjust"@, Endpoint::AutoAdjust),
        (Method::Get, "/lens/makers"@, Endpoint::LensMakers),
        (Method::Post, "/lens/autodetect"@, Endpoint::LensAutodetect),
        (Method::Get, "/luts"@, Endpoint::Luts),
        (Method::Get, "/presets"@, Endpoint::Presets),
    ]
}

fn route(method: Method, path: &'static str, endpoint: Endpoint) -> (route: Route)
    ensures
        route.entry() == (method, path@, endpoint),
{
    Route { method, path, endpoint }
}

/// All routes, for a router to be built from.
pub fn router() -> (routes: Vec<Route>)
    ensures
        routes@.map_values(|route: Route| route.entry()) == route_table(),
{
    let routes: Vec<Route> = vec![
        route(Method::Get, "/health", Endpoint::Health),
        route(Method::Post, "/load", Endpoint::Load),
        route(Method::Post, "/preview", Endpoint::Preview),
        route(Method::Post, "/adjust", Endpoint::Adjust),
        route(Method::Get, "/state", Endpoint::State),
        route(Method::Get, "/schema", Endpoint::Schema),
        route(Method::Post, "/export", Endpoint::Export),
        route(Method::Post, "/mask/add", Endpoint::MaskAdd),
        route(Method::Post, "/mask/:id", Endpoint::MaskUpdate),
        route(Method::Delete, "/mask/:id", Endpoint::MaskRemove),
        route(Method::Post, "/denoise", Endpoint::Denoise),
        route(Method::Post, "/hdr/merge", Endpoint::HdrMerge),
        route(Method::Post, "/panorama/stitch", Endpoint::PanoramaStitch),
        route(Method::Post, "/negative/convert", Endpoint::NegativeConvert),
        route(Method::Post, "/cull", Endpoint::Cull),
        route(Method::Post, "/inpaint", Endpoint::Inpaint),
        route(Method::Get, "/auto-adjust", Endpoint::AutoAdjust),
        route(Method::Get, "/lens/makers", Endpoint::LensMakers),
        route(Method::Post, "/lens/autodetect", Endpoint::LensAutodetect),
        route(Method::Get, "/luts", Endpoint::Luts),
        route(Method::Get, "/presets", Endpoint::Presets),
    ];
    assert(routes@.map_values(|route: Route| route.entry()) =~= route_table());
    routes
}

// ---- which route a request takes ----

/// Whether `c` stands for itself in a URL wherever it is: a letter, a digit, a
/// hyphen, a full stop, an underscore or a tilde.
pub open spec fn is_unreserved(c: char) -> bool {
    'a' <= c <= 'z' || 'A' <= c <= 'Z' || '0' <= c <= '9' || c == '-' || c == '.' || c == '_' || c
        == '~'
}

/// Whether `text` is one segment of a path that a URL carries as it is.
pub open spec fn is_segment(text: Seq<char>) -> bool {
    &&& text.len() > 0
    &&& forall|i: int| 0 <= i < text.len() ==> is_unreserved(#[trigger] text[i])
    &&& text.len() == 1 ==> text[0] != '.'
    &&& text.len() == 2 ==> !(text[0] == '.' && text[1] == '.')
}

/// Whether a route has the very path of a request.
pub open spec fn is_fixed(path: Seq<char>) -> bool {
    exists|i: int| 0 <= i < route_table().len() && (#[trigger] route_table()[i]).1 == path
}

/// Whether a request with `method` and `path` reaches `endpoint`. A route with the
/// very path goes before one with an id in it.
///
/// This covers the ids that a URL carries as they are. A request whose id is
/// escaped in the URL reaches a route too, and nothing is said of it here.
pub open spec fn reaches(method: Method, path: Seq<char>, endpoint: Endpoint) -> bool {
    if is_fixed(path) {
        route_table().contains((method, path, endpoint))
    } else {
        exists|id: Seq<char>, prefix: Seq<char>| #[trigger]
            is_segment(id) && path == #[trigger] (prefix + id) && route_table().contains(
                (method, prefix + ":id"@, endpoint),
            )
    }
}

/// No route but those for masks has a path that starts as theirs do.
proof fn lemma_mask_paths(i: int)
    requires
        0 <= i < route_table().len(),
        route_table()[i].1.len() > 1,
        route_table()[i].1[1] == 'm',
    ensures
        route_table()[i].1 == "/mask/add"@ || route_table()[i].1 == "/mask/:id"@,
{
    reveal_strlit("/health");
    reveal_strlit("/load");
    reveal_strlit("/preview");
    reveal_strlit("/adjust");
    reveal_strlit("/state");
    reveal_strlit("/schema");
    reveal_strlit("/export");
    reveal_strlit("/denoise");
    reveal_strlit("/hdr/merge");
    reveal_strlit("/panorama/stitch");
    reveal_strlit("/negative/convert");
    reveal_strlit("/cull");
    reveal_strlit("/inpaint");
    reveal_strlit("/auto-adjust");
    reveal_strlit("/lens/makers");
    reveal_strlit("/lens/autodetect");
    reveal_strlit("/luts");
    reveal_strlit("/presets");
}

/// A request for the mask `id` reaches the routes for masks, unless `id` is the
/// word that the route for adding a mask ends in.
pub(crate) proof fn lemma_mask_reached(id: Seq<char>)
    requires
        is_segment(id),
        id != "add"@,
    ensures
        reaches(Method::Post, "/mask/"@ + id, Endpoint::MaskUpdate),
        reaches(Method::Delete, "/mask/"@ + id, Endpoint::MaskRemove),
{
    let path = "/mask/"@ + id;
    reveal_strlit("/mask/");
    reveal_strlit("/mask/add");
    reveal_strlit("add");
    reveal_strlit("/mask/:id");
    reveal_strlit(":id");
    assert("/mask/"@ + ":id"@ =~= "/mask/:id"@);
    assert(path.subrange(6, path.len() as int) =~= id);
    assert("/mask/add"@.subrange(6, 9) =~= "add"@);
    assert(path != "/mask/:id"@) by {
        assert(path[6] == id[0]);
    }
    assert(!is_fixed(path)) by {
        if is_fixed(path) {
            let i = choose|i: int|
                0 <= i < route_table().len() && (#[trigger] route_table()[i]).1 == path;
            lemma_mask_paths(i);
        }
    }
    assert(route_table()[8] == (Method::Post, "/mask/"@ + ":id"@, Endpoint::MaskUpdate));
    assert(route_table()[9] == (Method::Delete, "/mask/"@ + ":id"@, Endpoint::MaskRemove));
}

/// A request with the path of a route reaches that route.
pub(crate) proof fn lemma_reaches(i: int)
    requires
        0 <= i < route_table().len(),
    ensures
        reaches(route_table()[i].0, route_table()[i].1, route_table()[i].2),
{
    assert(is_fixed(route_table()[i].1));
    assert(route_table().contains(route_table()[i]));
}

// ---- laws ----

/// Each path leads where it says, with the method that is documented for it.
pub proof fn paths_lead_where_they_say()
    ensures
        reaches(Method::Get, "/health"@, Endpoint::Health),
        reaches(Method::Post, "/load"@, Endpoint::Load),
        reaches(Method::Post, "/preview"@, Endpoint::Preview),
        reaches(Method::Post, "/adjust"@, Endpoint::Adjust),
        reaches(Method::Get, "/state"@, Endpoint::State),
        reaches(Method::Get, "/schema"@, Endpoint::Schema),
        reaches(Method::Post, "/export"@, Endpoint::Export),
        reaches(Method::Post, "/mask/add"@, Endpoint::MaskAdd),
        reaches(Method::Post, "/denoise"@, Endpoint::Denoise),
        reaches(Method::Post, "/hdr/merge"@, Endpoint::HdrMerge),
        reaches(Method::Post, "/panorama/stitch"@, Endpoint::PanoramaStitch),
        reaches(Method::Post, "/negative/convert"@, Endpoint::NegativeConvert),
        reaches(Method::Post, "/cull"@, Endpoint::Cull),
        reaches(Method::Post, "/inpaint"@, Endpoint::Inpaint),
        reaches(Method::Get, "/auto-adjust"@, Endpoint::AutoAdjust),
        reaches(Method::Get, "/lens/makers"@, Endpoint::LensMakers),
        reaches(Method::Post, "/lens/autodetect"@, Endpoint::LensAutodetect),
        reaches(Method::Get, "/luts"@, Endpoint::Luts),
        reaches(Method::Get, "/presets"@, Endpoint::Presets),
{
    lemma_reaches(0);
    lemma_reaches(1);
    lemma_reaches(2);
    lemma_reaches(3);
    lemma_reaches(4);
    lemma_reaches(5);
    lemma_reaches(6);
    lemma_reaches(7);
    lemma_reaches(10);
    lemma_reaches(11);
    lemma_reaches(12);
    lemma_reaches(13);
    lemma_reaches(14);
    lemma_reaches(15);
    lemma_reaches(16);
    lemma_reaches(17);
    lemma_reaches(18);
    lemma_reaches(19);
    lemma_reaches(20);
}

/// A mask is changed by `POST` and removed by `DELETE` under its own path, for
/// every id but the word that the path for adding a mask ends in.
pub proof fn masks_are_reached_by_id(id: Seq<char>)
    requires
        is_segment(id),
        id != "add"@,
    ensures
        reaches(Method::Post, "/mask/"@ + id, Endpoint::MaskUpdate),
        reaches(Method::Delete, "/mask/"@ + id, Endpoint::MaskRemove),
{
    lemma_mask_reached(id);
}

proof fn lemma_paths_differ()
    ensures
        "/health"@ != "/load"@,
        "/health"@ != "/preview"@,
        "/health"@ != "/adjust"@,
        "/health"@ != "/state"@,
        "/health"@ != "/schema"@,
        "/health"@ != "/export"@,
        "/health"@ != "/mask/add"@,
        "/health"@ != "/denoise"@,
        "/health"@ != "/hdr/merge"@,
        "/health"@ != "/panorama/stitch"@,
        "/health"@ != "/negative/convert"@,
        "/health"@ != "/cull"@,
        "/health"@ != "/inpaint"@,
        "/health"@ != "/auto-adjust"@,
        "/health"@ != "/lens/makers"@,
        "/health"@ != "/lens/autodetect"@,
        "/health"@ != "/luts"@,
        "/health"@ != "/presets"@,
        "/health"@ != "/mask/:id"@,
        "/load"@ != "/preview"@,
        "/load"@ != "/adjust"@,
        "/load"@ != "/state"@,
        "/load"@ != "/schema"@,
        "/load"@ != "/export"@,
        "/load"@ != "/mask/add"@,
        "/load"@ != "/denoise"@,
        "/load"@ != "/hdr/merge"@,
        "/load"@ != "/panorama/stitch"@,
        "/load"@ != "/negative/convert"@,
        "/load"@ != "/cull"@,
        "/load"@ != "/inpaint"@,
        "/load"@ != "/auto-adjust"@,
        "/load"@ != "/lens/makers"@,
        "/load"@ != "/lens/autodetect"@,
        "/load"@ != "/luts"@,
        "/load"@ != "/presets"@,
        "/load"@ != "/mask/:id"@,
        "/preview"@ != "/adjust"@,
        "/preview"@ != "/state"@,
        "/preview"@ != "/schema"@,
        "/preview"@ != "/export"@,
        "/preview"@ != "/mask/add"@,
        "/preview"@ != "/denoise"@,
        "/preview"@ != "/hdr/merge"@,
        "/preview"@ != "/panorama/stitch"@,
        "/preview"@ != "/negative/convert"@,
        "/preview"@ != "/cull"@,
        "/preview"@ != "/inpaint"@,
        "/preview"@ != "/auto-adjust"@,
        "/preview"@ != "/lens/makers"@,
        "/preview"@ != "/lens/autodetect"@,
        "/preview"@ != "/luts"@,
        "/preview"@ != "/presets"@,
        "/preview"@ != "/mask/:id"@,
        "/adjust"@ != "/state"@,
        "/adjust"@ != "/schema"@,
        "/adjust"@ != "/export"@,
        "/adjust"@ != "/mask/add"@,
        "/adjust"@ != "/denoise"@,
        "/adjust"@ != "/hdr/merge"@,
        "/adjust"@ != "/panorama/stitch"@,
        "/adjust"@ != "/negative/convert"@,
        "/adjust"@ != "/cull"@,
        "/adjust"@ != "/inpaint"@,
        "/adjust"@ != "/auto-adjust"@,
        "/adjust"@ != "/lens/makers"@,
        "/adjust"@ != "/lens/autodetect"@,
        "/adjust"@ != "/luts"@,
        "/adjust"@ != "/presets"@,
        "/adjust"@ != "/mask/:id"@,
        "/state"@ != "/schema"@,
        "/state"@ != "/export"@,
        "/state"@ != "/mask/add"@,
        "/state"@ != "/denoise"@,
        "/state"@ != "/hdr/merge"@,
        "/state"@ != "/panorama/stitch"@,
        "/state"@ != "/negative/convert"@,
        "/state"@ != "/cull"@,
        "/state"@ != "/inpaint"@,
        "/state"@ != "/auto-adjust"@,
        "/state"@ != "/lens/makers"@,
        "/state"@ != "/lens/autodetect"@,
        "/state"@ != "/luts"@,
        "/state"@ != "/presets"@,
        "/state"@ != "/mask/:id"@,
        "/schema"@ != "/export"@,
        "/schema"@ != "/mask/add"@,
        "/schema"@ != "/denoise"@,
        "/schema"@ != "/hdr/merge"@,
        "/schema"@ != "/panorama/stitch"@,
        "/schema"@ != "/negative/convert"@,
        "/schema"@ != "/cull"@,
        "/schema"@ != "/inpaint"@,
        "/schema"@ != "/auto-adjust"@,
        "/schema"@ != "/lens/makers"@,
        "/schema"@ != "/lens/autodetect"@,
        "/schema"@ != "/luts"@,
        "/schema"@ != "/presets"@,
        "/schema"@ != "/mask/:id"@,
        "/export"@ != "/mask/add"@,
        "/export"@ != "/denoise"@,
        "/export"@ != "/hdr/merge"@,
        "/export"@ != "/panorama/stitch"@,
        "/export"@ != "/negative/convert"@,
        "/export"@ != "/cull"@,
        "/export"@ != "/inpaint"@,
        "/export"@ != "/auto-adjust"@,
        "/export"@ != "/lens/makers"@,
        "/export"@ != "/lens/autodetect"@,
        "/export"@ != "/luts"@,
        "/export"@ != "/presets"@,
        "/export"@ != "/mask/:id"@,
        "/mask/add"@ != "/denoise"@,
        "/mask/add"@ != "/hdr/merge"@,
        "/mask/add"@ != "/panorama/stitch"@,
        "/mask/add"@ != "/negative/convert"@,
        "/mask/add"@ != "/cull"@,
        "/mask/add"@ != "/inpaint"@,
        "/mask/add"@ != "/auto-adjust"@,
        "/mask/add"@ != "/lens/makers"@,
        "/mask/add"@ != "/lens/autodetect"@,
        "/mask/add"@ != "/luts"@,
        "/mask/add"@ != "/presets"@,
        "/mask/add"@ != "/mask/:id"@,
        "/denoise"@ != "/hdr/merge"@,
        "/denoise"@ != "/panorama/stitch"@,
        "/denoise"@ != "/negative/convert"@,
        "/denoise"@ != "/cull"@,
        "/denoise"@ != "/inpaint"@,
        "/denoise"@ != "/auto-adjust"@,
        "/denoise"@ != "/lens/makers"@,
        "/denoise"@ != "/lens/autodetect"@,
        "/denoise"@ != "/luts"@,
        "/denoise"@ != "/presets"@,
        "/denoise"@ != "/mask/:id"@,
        "/hdr/merge"@ != "/panorama/stitch"@,
        "/hdr/merge"@ != "/negative/convert"@,
        "/hdr/merge"@ != "/cull"@,
        "/hdr/merge"@ != "/inpaint"@,
        "/hdr/merge"@ != "/auto-adjust"@,
        "/hdr/merge"@ != "/lens/makers"@,
        "/hdr/merge"@ != "/lens/autodetect"@,
        "/hdr/merge"@ != "/luts"@,
        "/hdr/merge"@ != "/presets"@,
        "/hdr/merge"@ != "/mask/:id"@,
        "/panorama/stitch"@ != "/negative/convert"@,
        "/panorama/stitch"@ != "/cull"@,
        "/panorama/stitch"@ != "/inpaint"@,
        "/panorama/stitch"@ != "/auto-adjust"@,
        "/panorama/stitch"@ != "/lens/makers"@,
        "/panorama/stitch"@ != "/lens/autodetect"@,
        "/panorama/stitch"@ != "/luts"@,
        "/panorama/stitch"@ != "/presets"@,
        "/panorama/stitch"@ != "/mask/:id"@,
        "/negative/convert"@ != "/cull"@,
        "/negative/convert"@ != "/inpaint"@,
        "/negative/convert"@ != "/auto-adjust"@,
        "/negative/convert"@ != "/lens/makers"@,
        "/negative/convert"@ != "/lens/autodetect"@,
        "/negative/convert"@ != "/luts"@,
        "/negative/convert"@ != "/presets"@,
        "/negative/convert"@ != "/mask/:id"@,
        "/cull"@ != "/inpaint"@,
        "/cull"@ != "/auto-adjust"@,
        "/cull"@ != "/lens/makers"@,
        "/cull"@ != "/lens/autodetect"@,
        "/cull"@ != "/luts"@,
        "/cull"@ != "/presets"@,
        "/cull"@ != "/mask/:id"@,
        "/inpaint"@ != "/auto-adjust"@,
        "/inpaint"@ != "/lens/makers"@,
        "/inpaint"@ != "/lens/autodetect"@,
        "/inpaint"@ != "/luts"@,
        "/inpaint"@ != "/presets"@,
        "/inpaint"@ != "/mask/:id"@,
        "/auto-adjust"@ != "/lens/makers"@,
        "/auto-adjust"@ != "/lens/autodetect"@,
        "/auto-adjust"@ != "/luts"@,
        "/auto-adjust"@ != "/presets"@,
        "/auto-adjust"@ != "/mask/:id"@,
        "/lens/makers"@ != "/lens/autodetect"@,
        "/lens/makers"@ != "/luts"@,
        "/lens/makers"@ != "/presets"@,
        "/lens/makers"@ != "/mask/:id"@,
        "/lens/autodetect"@ != "/luts"@,
        "/lens/autodetect"@ != "/presets"@,
        "/lens/autodetect"@ != "/mask/:id"@,
        "/luts"@ != "/presets"@,
        "/luts"@ != "/mask/:id"@,
        "/presets"@ != "/mask/:id"@,
{
    reveal_strlit("/health");
    reveal_strlit("/load");
    reveal_strlit("/preview");
    reveal_strlit("/adjust");
    reveal_strlit("/state");
    reveal_strlit("/schema");
    reveal_strlit("/export");
    reveal_strlit("/mask/add");
    reveal_strlit("/denoise");
    reveal_strlit("/hdr/merge");
    reveal_strlit("/panorama/stitch");
    reveal_strlit("/negative/convert");
    reveal_strlit("/cull");
    reveal_strlit("/inpaint");
    reveal_strlit("/auto-adjust");
    reveal_strlit("/lens/makers");
    reveal_strlit("/lens/autodetect");
    reveal_strlit("/luts");
    reveal_strlit("/presets");
    reveal_strlit("/mask/:id");
    assert("/health"@.len() != "/load"@.len());
    assert("/health"@.len() != "/preview"@.len());
    assert("/health"@[1] != "/adjust"@[1]);
    assert("/health"@.len() != "/state"@.len());
    assert("/health"@[1] != "/schema"@[1]);
    assert("/health"@[1] != "/export"@[1]);
    assert("/health"@.len() != "/mask/add"@.len());
    assert("/health"@.len() != "/denoise"@.len());
    assert("/health"@.len() != "/hdr/merge"@.len());
    assert("/health"@.len() != "/panorama/stitch"@.len());
    assert("/health"@.len() != "/negative/convert"@.len());
    assert("/health"@.len() != "/cull"@.len());
    assert("/health"@.len() != "/inpaint"@.len());
    assert("/health"@.len() != "/auto-adjust"@.len());
    assert("/health"@.len() != "/lens/makers"@.len());
    assert("/health"@.len() != "/lens/autodetect"@.len());
    assert("/health"@.len() != "/luts"@.len());
    assert("/health"@.len() != "/presets"@.len());
    assert("/health"@.len() != "/mask/:id"@.len());
    assert("/load"@.len() != "/preview"@.len());
    assert("/load"@.len() != "/adjust"@.len());
    assert("/load"@.len() != "/state"@.len());
    assert("/load"@.len() != "/schema"@.len());
    assert("/load"@.len() != "/export"@.len());
    assert("/load"@.len() != "/mask/add"@.len());
    assert("/load"@.len() != "/denoise"@.len());
    assert("/load"@.len() != "/hdr/merge"@.len());
    assert("/load"@.len() != "/panorama/stitch"@.len());
    assert("/load"@.len() != "/negative/convert"@.len());
    assert("/load"@[1] != "/cull"@[1]);
    assert("/load"@.len() != "/inpaint"@.len());
    assert("/load"@.len() != "/auto-adjust"@.len());
    assert("/load"@.len() != "/lens/makers"@.len());
    assert("/load"@.len() != "/lens/autodetect"@.len());
    assert("/load"@[2] != "/luts"@[2]);
    assert("/load"@.len() != "/presets"@.len());
    assert("/load"@.len() != "/mask/:id"@.len());
    assert("/preview"@.len() != "/adjust"@.len());
    assert("/preview"@.len() != "/state"@.len());
    assert("/preview"@.len() != "/schema"@.len());
    assert("/preview"@.len() != "/export"@.len());
    assert("/preview"@.len() != "/mask/add"@.len());
    assert("/preview"@[1] != "/denoise"@[1]);
    assert("/preview"@.len() != "/hdr/merge"@.len());
    assert("/preview"@.len() != "/panorama/stitch"@.len());
    assert("/preview"@.len() != "/negative/convert"@.len());
    assert("/preview"@.len() != "/cull"@.len());
    assert("/preview"@[1] != "/inpaint"@[1]);
    assert("/preview"@.len() != "/auto-adjust"@.len());
    assert("/preview"@.len() != "/lens/makers"@.len());
    assert("/preview"@.len() != "/lens/autodetect"@.len());
    assert("/preview"@.len() != "/luts"@.len());
    assert("/preview"@[4] != "/presets"@[4]);
    assert("/preview"@.len() != "/mask/:id"@.len());
    assert("/adjust"@.len() != "/state"@.len());
    assert("/adjust"@[1] != "/schema"@[1]);
    assert("/adjust"@[1] != "/export"@[1]);
    assert("/adjust"@.len() != "/mask/add"@.len());
    assert("/adjust"@.len() != "/denoise"@.len());
    assert("/adjust"@.len() != "/hdr/merge"@.len());
    assert("/adjust"@.len() != "/panorama/stitch"@.len());
    assert("/adjust"@.len() != "/negative/convert"@.len());
    assert("/adjust"@.len() != "/cull"@.len());
    assert("/adjust"@.len() != "/inpaint"@.len());
    assert("/adjust"@.len() != "/auto-adjust"@.len());
    assert("/adjust"@.len() != "/lens/makers"@.len());
    assert("/adjust"@.len() != "/lens/autodetect"@.len());
    assert("/adjust"@.len() != "/luts"@.len());
    assert("/adjust"@.len() != "/presets"@.len());
    assert("/adjust"@.len() != "/mask/:id"@.len());
    assert("/state"@.len() != "/schema"@.len());
    assert("/state"@.len() != "/export"@.len());
    assert("/state"@.len() != "/mask/add"@.len());
    assert("/state"@.len() != "/denoise"@.len());
    assert("/state"@.len() != "/hdr/merge"@.len());
    assert("/state"@.len() != "/panorama/stitch"@.len());
    assert("/state"@.len() != "/negative/convert"@.len());
    assert("/state"@.len() != "/cull"@.len());
    assert("/state"@.len() != "/inpaint"@.len());
    assert("/state"@.len() != "/auto-adjust"@.len());
    assert("/state"@.len() != "/lens/makers"@.len());
    assert("/state"@.len() != "/lens/autodetect"@.len());
    assert("/state"@.len() != "/luts"@.len());
    assert("/state"@.len() != "/presets"@.len());
    assert("/state"@.len() != "/mask/:id"@.len());
    assert("/schema"@[1] != "/export"@[1]);
    assert("/schema"@.len() != "/mask/add"@.len());
    assert("/schema"@.len() != "/denoise"@.len());
    assert("/schema"@.len() != "/hdr/merge"@.len());
    assert("/schema"@.len() != "/panorama/stitch"@.len());
    assert("/schema"@.len() != "/negative/convert"@.len());
    assert("/schema"@.len() != "/cull"@.len());
    assert("/schema"@.len() != "/inpaint"@.len());
    assert("/schema"@.len() != "/auto-adjust"@.len());
    assert("/schema"@.len() != "/lens/makers"@.len());
    assert("/schema"@.len() != "/lens/autodetect"@.len());
    assert("/schema"@.len() != "/luts"@.len());
    assert("/schema"@.len() != "/presets"@.len());
    assert("/schema"@.len() != "/mask/:id"@.len());
    assert("/export"@.len() != "/mask/add"@.len());
    assert("/export"@.len() != "/denoise"@.len());
    assert("/export"@.len() != "/hdr/merge"@.len());
    assert("/export"@.len() != "/panorama/stitch"@.len());
    assert("/export"@.len() != "/negative/convert"@.len());
    assert("/export"@.len() != "/cull"@.len());
    assert("/export"@.len() != "/inpaint"@.len());
    assert("/export"@.len() != "/auto-adjust"@.len());
    assert("/export"@.len() != "/lens/makers"@.len());
    assert("/export"@.len() != "/lens/autodetect"@.len());
    assert("/export"@.len() != "/luts"@.len());
    assert("/export"@.len() != "/presets"@.len());
    assert("/export"@.len() != "/mask/:id"@.len());
    assert("/mask/add"@.len() != "/denoise"@.len());
    assert("/mask/add"@.len() != "/hdr/merge"@.len());
    assert("/mask/add"@.len() != "/panorama/stitch"@.len());
    assert("/mask/add"@.len() != "/negative/convert"@.len());
    assert("/mask/add"@.len() != "/cull"@.len());
    assert("/mask/add"@.len() != "/inpaint"@.len());
    assert("/mask/add"@.len() != "/auto-adjust"@.len());
    assert("/mask/add"@.len() != "/lens/makers"@.len());
    assert("/mask/add"@.len() != "/lens/autodetect"@.len());
    assert("/mask/add"@.len() != "/luts"@.len());
    assert("/mask/add"@.len() != "/presets"@.len());
    assert("/mask/add"@[6] != "/mask/:id"@[6]);
    assert("/denoise"@.len() != "/hdr/merge"@.len());
    assert("/denoise"@.len() != "/panorama/stitch"@.len());
    assert("/denoise"@.len() != "/negative/convert"@.len());
    assert("/denoise"@.len() != "/cull"@.len());
    assert("/denoise"@[1] != "/inpaint"@[1]);
    assert("/denoise"@.len() != "/auto-adjust"@.len());
    assert("/denoise"@.len() != "/lens/makers"@.len());
    assert("/denoise"@.len() != "/lens/autodetect"@.len());
    assert("/denoise"@.len() != "/luts"@.len());
    assert("/denoise"@[1] != "/presets"@[1]);
    assert("/denoise"@.len() != "/mask/:id"@.len());
    assert("/hdr/merge"@.len() != "/panorama/stitch"@.len());
    assert("/hdr/merge"@.len() != "/negative/convert"@.len());
    assert("/hdr/merge"@.len() != "/cull"@.len());
    assert("/hdr/merge"@.len() != "/inpaint"@.len());
    assert("/hdr/merge"@.len() != "/auto-adjust"@.len());
    assert("/hdr/merge"@.len() != "/lens/makers"@.len());
    assert("/hdr/merge"@.len() != "/lens/autodetect"@.len());
    assert("/hdr/merge"@.len() != "/luts"@.len());
    assert("/hdr/merge"@.len() != "/presets"@.len());
    assert("/hdr/merge"@.len() != "/mask/:id"@.len());
    assert("/panorama/stitch"@.len() != "/negative/convert"@.len());
    assert("/panorama/stitch"@.len() != "/cull"@.len());
    assert("/panorama/stitch"@.len() != "/inpaint"@.len());
    assert("/panorama/stitch"@.len() != "/auto-adjust"@.len());
    assert("/panorama/stitch"@.len() != "/lens/makers"@.len());
    assert("/panorama/stitch"@[1] != "/lens/autodetect"@[1]);
    assert("/panorama/stitch"@.len() != "/luts"@.len());
    assert("/panorama/stitch"@.len() != "/presets"@.len());
    assert("/panorama/stitch"@.len() != "/mask/:id"@.len());
    assert("/negative/convert"@.len() != "/cull"@.len());
    assert("/negative/convert"@.len() != "/inpaint"@.len());
    assert("/negative/convert"@.len() != "/auto-adjust"@.len());
    assert("/negative/convert"@.len() != "/lens/makers"@.len());
    assert("/negative/convert"@.len() != "/lens/autodetect"@.len());
    assert("/negative/convert"@.len() != "/luts"@.len());
    assert("/negative/convert"@.len() != "/presets"@.len());
    assert("/negative/convert"@.len() != "/mask/:id"@.len());
    assert("/cull"@.len() != "/inpaint"@.len());
    assert("/cull"@.len() != "/auto-adjust"@.len());
    assert("/cull"@.len() != "/lens/makers"@.len());
    assert("/cull"@.len() != "/lens/autodetect"@.len());
    assert("/cull"@[1] != "/luts"@[1]);
    assert("/cull"@.len() != "/presets"@.len());
    assert("/cull"@.len() != "/mask/:id"@.len());
    assert("/inpaint"@.len() != "/auto-adjust"@.len());
    assert("/inpaint"@.len() != "/lens/makers"@.len());
    assert("/inpaint"@.len() != "/lens/autodetect"@.len());
    assert("/inpaint"@.len() != "/luts"@.len());
    assert("/inpaint"@[1] != "/presets"@[1]);
    assert("/inpaint"@.len() != "/mask/:id"@.len());
    assert("/auto-adjust"@[1] != "/lens/makers"@[1]);
    assert("/auto-adjust"@.len() != "/lens/autodetect"@.len());
    assert("/auto-adjust"@.len() != "/luts"@.len());
    assert("/auto-adjust"@.len() != "/presets"@.len());
    assert("/auto-adjust"@.len() != "/mask/:id"@.len());
    assert("/lens/makers"@.len() != "/lens/autodetect"@.len());
    assert("/lens/makers"@.len() != "/luts"@.len());
    assert("/lens/makers"@.len() != "/presets"@.len());
    assert("/lens/makers"@.len() != "/mask/:id"@.len());
    assert("/lens/autodetect"@.len() != "/luts"@.len());
    assert("/lens/autodetect"@.len() != "/presets"@.len());
    assert("/lens/autodetect"@.len() != "/mask/:id"@.len());
    assert("/luts"@.len() != "/presets"@.len());
    assert("/luts"@.len() != "/mask/:id"@.len());
    assert("/presets"@.len() != "/mask/:id"@.len());
}

/// No two routes share a method and a path.
proof fn lemma_rows_differ(i: int, j: int)
    requires
        0 <= i < j < route_table().len(),
    ensures
        route_table()[i].0 != route_table()[j].0 || route_table()[i].1 != route_table()[j].1,
{
    lemma_paths_differ();
}

/// A request leads to one place only: the server never has to choose between two
/// routes.
pub proof fn requests_lead_to_one_place(
    method: Method,
    path: Seq<char>,
    one: Endpoint,
    other: Endpoint,
)
    requires
        reaches(method, path, one),
        reaches(method, path, other),
    ensures
        one == other,
{
    if is_fixed(path) {
        let i = choose|i: int|
            0 <= i < route_table().len() && route_table()[i] == (method, path, one);
        let j = choose|j: int|
            0 <= j < route_table().len() && route_table()[j] == (method, path, other);
        if i < j {
            lemma_rows_differ(i, j);
        } else if j < i {
            lemma_rows_differ(j, i);
        }
    } else {
        lemma_open_route(method, path, one);
        lemma_open_route(method, path, other);
    }
}

/// A request that takes a route with an id in it takes one of those for masks.
proof fn lemma_open_route(method: Method, path: Seq<char>, endpoint: Endpoint)
    requires
        !is_fixed(path),
        reaches(method, path, endpoint),
    ensures
        method == Method::Post && endpoint == Endpoint::MaskUpdate || method == Method::Delete
            && endpoint == Endpoint::MaskRemove,
{
    let (id, prefix) = choose|id: Seq<char>, prefix: Seq<char>| #[trigger]
        is_segment(id) && path == #[trigger] (prefix + id) && route_table().contains(
            (method, prefix + ":id"@, endpoint),
        );
    let row = prefix + ":id"@;
    let i = choose|i: int| 0 <= i < route_table().len() && route_table()[i] == (method, row, endpoint);
    reveal_strlit(":id");
    assert(row[row.len() - 3] == ':');
    lemma_colon(i);
}

/// Only the routes for masks have a colon three characters before their end.
proof fn lemma_colon(i: int)
    requires
        0 <= i < route_table().len(),
        route_table()[i].1.len() >= 3,
        route_table()[i].1[route_table()[i].1.len() - 3] == ':',
    ensures
        i == 8 || i == 9,
{
    reveal_strlit("/health");
    reveal_strlit("/load");
    reveal_strlit("/preview");
    reveal_strlit("/adjust");
    reveal_strlit("/state");
    reveal_strlit("/schema");
    reveal_strlit("/export");
    reveal_strlit("/mask/add");
    reveal_strlit("/denoise");
    reveal_strlit("/hdr/merge");
    reveal_strlit("/panorama/stitch");
    reveal_strlit("/negative/convert");
    reveal_strlit("/cull");
    reveal_strlit("/inpaint");
    reveal_strlit("/auto-adjust");
    reveal_strlit("/lens/makers");
    reveal_strlit("/lens/autodetect");
    reveal_strlit("/luts");
    reveal_strlit("/presets");
    reveal_strlit("/mask/:id");
}

/// The router is built from all routes, each with the method, the path and the
/// destination that the table gives it.
pub proof fn router_has_all_routes(routes: Vec<Route>, i: int)
    requires
        call_ensures(router, (), routes),
    ensures
        routes.len() == route_table().len(),
        0 <= i < routes.len() ==> routes@[i].method == route_table()[i].0 && routes@[i].path@
            == route_table()[i].1 && routes@[i].endpoint == route_table()[i].2,
{
    let table = routes@.map_values(|route: Route| route.entry());
    assert(table.len() == routes.len());
    if 0 <= i < routes.len() {
        assert(table[i] == routes@[i].entry());
    }
}

} // verus!
