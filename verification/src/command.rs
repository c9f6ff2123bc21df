//! The commands of the command line, and what each of them asks of the server.
use crate::adjustments::{
    AdjustmentsFlags, Slider, flagged, only_set_flags_are_sent, set_flag_is_sent,
};
use crate::cli::{
    CliError, MAX_RATING, box_coordinates, build_patch, color_label, color_of, parse_box,
    patch_is_empty, patch_members,
};
use crate::client::{Client, Request, export_tree, paths_tree, preview_tree};
use crate::json::{
    Node, Numeral, Object, Tree, bool_value, close, document_in, no_members, object_in, put,
    read_document, show_error, text_array, text_value, tree,
};
use crate::merge::{at, touches};
use crate::pipeline::texts_of;
use crate::preview::{committed_look_is_the_state, look};
use crate::routes::{Endpoint, Method, is_segment};
use crate::session::{
    LoadedImage, adjust_keeps_other_edits, adjust_shows_patch, adjusted, state_tree,
};
use crate::text::{
    decimal, decimal_reads_back, decimal_text, is_numeral, lowercased, numeral_value, to_lowercase,
};
use vstd::prelude::*;

verus! {

// ---- commands ----

/// A command.
#[derive(Debug)]
pub enum Command {
    /// Check that the server is up.
    Health,
    /// Print the port that the server listens on.
    Port,
    /// Load an image.
    Load { path: String, no_navigate: bool },
    /// Render the committed look.
    Preview { resolution: Option<u32>, out: Option<String> },
    /// Commit adjustments.
    Adjust { flags: AdjustmentsFlags, json: Option<String> },
    /// Print the image and its edits, or the edits alone.
    State { adjustments_only: bool },
    /// Print the schema.
    Schema,
    /// Export the committed look.
    Export { resolution: Option<u32>, out: String },
    /// Work on masks.
    Mask(MaskCmd),
    /// Denoise an image.
    Denoise { path: String, intensity: Slider, method: String },
    /// Merge bracketed exposures.
    Hdr { paths: Vec<String> },
    /// Stitch overlapping images.
    Panorama { paths: Vec<String> },
    /// Invert film scans.
    Negative {
        paths: Vec<String>,
        red_weight: Slider,
        green_weight: Slider,
        blue_weight: Slider,
        exposure: Slider,
        contrast: Slider,
    },
    /// Look for blurry and similar images.
    Cull {
        paths: Vec<String>,
        similarity_threshold: u32,
        blur_threshold: Slider,
        group_similar: bool,
        filter_blurry: bool,
    },
    /// Fill a masked region.
    Inpaint { path: String, patch: String, adjustments: Option<String>, fast: bool },
    /// Suggest adjustments.
    AutoAdjust,
    /// Look up lenses.
    Lens(LensCmd),
    /// List the LUTs.
    Luts,
    /// List the presets.
    Presets,
    /// List the images of a directory.
    Ls { dir: Option<String>, json: bool },
    /// Open the next image.
    Next { wrap: bool },
    /// Open the previous image.
    Prev { wrap: bool },
    /// Set the stars of an image.
    Rate { rating: u8, path: Option<String> },
    /// Set or clear the color label of an image.
    Label { color: String, path: Option<String> },
}

/// A command on masks.
#[derive(Debug)]
pub enum MaskCmd {
    /// Add a mask.
    Add {
        mask_type: String,
        flags: AdjustmentsFlags,
        json: Option<String>,
        name: Option<String>,
        opacity: Option<Slider>,
        invert: bool,
        mode: String,
        bounds: Option<String>,
        skip_generate: bool,
    },
    /// Change a mask.
    Update { id: String, json: String },
    /// Remove a mask.
    Remove { id: String },
    /// List the masks.
    List,
}

/// A command on lenses.
#[derive(Debug)]
pub enum LensCmd {
    /// List the makers.
    Makers,
    /// Look for the lens that fits best.
    Autodetect { maker: String, model: String },
}

// ---- actions ----

/// What kind of answer is expected.
#[derive(Debug, PartialEq, Eq, Structural, Clone, Copy)]
pub enum Answer {
    /// A [`crate::wire::Health`].
    Health,
    /// A [`crate::wire::LoadResponse`].
    Load,
    /// An [`crate::wire::AdjustOk`].
    Adjust,
    /// A [`crate::wire::State`].
    State,
    /// A [`crate::wire::MaskAddResponse`].
    MaskAdd,
    /// An [`crate::wire::OkResponse`].
    Done,
    /// Any document.
    Document,
}

/// What to do with an answer.
#[derive(Debug)]
pub enum Show {
    /// Print it.
    Answer(Answer),
    /// Print the adjustments in it.
    Adjustments,
    /// List the masks in it.
    Masks,
    /// Write the image in it to a file, or print it.
    Image { out: Option<String> },
    /// Say that the server wrote the image in it.
    Exported { out: String },
}

/// Which way to go along the images.
#[derive(Debug, PartialEq, Eq, Structural, Clone, Copy)]
pub enum Direction {
    Next,
    Prev,
}

/// What a command comes down to.
#[derive(Debug)]
pub enum Action {
    /// Print the port.
    ShowPort,
    /// Send a request, and show the answer.
    Send { request: Request, show: Show },
    /// List the images of a directory: of the open image, if none is given.
    ListImages { dir: Option<String>, json: bool },
    /// Open a neighbour of the open image.
    Navigate { direction: Direction, wrap: bool },
    /// Set the stars: of the open image, if no paths are given.
    SetRating { rating: u8, paths: Option<Vec<String>> },
    /// Set or clear the color label: of the open image, if no paths are given.
    SetColorLabel { color: Option<String>, paths: Option<Vec<String>> },
}

/// Whether a command comes down to one request to `endpoint`, with its answer
/// shown as `show` says.
pub open spec fn sends(
    outcome: Result<Action, CliError>,
    endpoint: Endpoint,
    method: Method,
    path: Seq<char>,
    content: Option<Tree>,
    show: Show,
) -> bool {
    outcome matches Ok(Action::Send { request, show: shown }) && request.is(method, path, content)
        && request.reaches(endpoint) && shown == show
}

/// Whether a command fails for what is wrong with a text that should be JSON.
pub open spec fn refuses(outcome: Result<Action, CliError>, cause: Seq<char>) -> bool {
    outcome matches Err(error) && error.cause_text() == Some(cause)
}

fn send(request: Request, show: Show) -> (outcome: Result<Action, CliError>)
    ensures
        outcome == Ok::<Action, CliError>(Action::Send { request, show }),
{
    Ok(Action::Send { request, show })
}

/// The one path of a command, if it has one, as the paths of an action.
pub open spec fn paths_of(path: Option<String>) -> Option<Seq<String>> {
    match path {
        Some(one) => Some(seq![one]),
        None => None,
    }
}

fn one_path(path: Option<String>) -> (paths: Option<Vec<String>>)
    ensures
        match paths {
            Some(list) => paths_of(path) == Some(list@),
            None => path is None,
        },
{
    match path {
        Some(one) => {
            let mut list: Vec<String> = Vec::new();
            list.push(one);
            assert(list@ =~= seq![list@[0]]);
            Some(list)
        },
        None => None,
    }
}

// ---- before a server is looked for ----

/// Whether `needed` is what is found out about a command before a server is looked
/// for.
pub open spec fn first_checked(command: Command, needed: Result<bool, CliError>) -> bool {
    match command {
        Command::Port => needed == Ok::<bool, CliError>(false),
        Command::Rate { rating, .. } => if rating > MAX_RATING {
            needed matches Err(error) && error is BadRating
        } else {
            needed == Ok::<bool, CliError>(true)
        },
        _ => needed == Ok::<bool, CliError>(true),
    }
}

/// Tells whether a command needs the server. One that asks for more stars than
/// there are is refused before a server is looked for.
pub fn needs_server(command: &Command) -> (needed: Result<bool, CliError>)
    ensures
        first_checked(*command, needed),
{
    match command {
        Command::Port => Ok(false),
        Command::Rate { rating, .. } => if *rating > MAX_RATING {
            Err(CliError::BadRating)
        } else {
            Ok(true)
        },
        _ => Ok(true),
    }
}

/// Whether `line` shows the port, or says that none was found.
pub open spec fn port_shown(port: Option<u16>, line: Result<String, CliError>) -> bool {
    match (port, line) {
        (Some(found), Ok(line)) => line@ == decimal(found as nat),
        (None, Err(error)) => error is NoPort,
        _ => false,
    }
}

/// The line that shows the port, if one was found.
pub fn show_port(port: Option<u16>) -> (line: Result<String, CliError>)
    ensures
        port_shown(port, line),
{
    match port {
        Some(found) => Ok(decimal_text(found as u64)),
        None => Err(CliError::NoPort),
    }
}

// ---- masks ----

/// The content of a request that adds a mask, but for what is optional in it.
pub open spec fn mask_base(
    mask_type: Seq<char>,
    patch: Map<Seq<char>, Tree>,
    mode: Seq<char>,
    invert: bool,
    skip_generate: bool,
) -> Map<Seq<char>, Tree> {
    map![
        "type"@ => Tree::Text(mask_type),
        "adjustments"@ => Tree::Object(patch),
        "mode"@ => Tree::Text(mode),
        "invert"@ => Tree::Bool(invert),
        "skipGenerate"@ => Tree::Bool(skip_generate),
    ]
}

/// `base` with the optional parts of a mask.
pub open spec fn mask_body(
    base: Map<Seq<char>, Tree>,
    name: Option<String>,
    opacity: Option<Slider>,
    bounds: Option<String>,
) -> Tree {
    let members = match name {
        Some(text) => base.insert("name"@, Tree::Text(text@)),
        None => base,
    };
    let members = match opacity {
        Some(slider) => members.insert("opacity"@, slider.tree()),
        None => members,
    };
    let members = match bounds {
        Some(text) => members.insert("box"@, Tree::Array(box_coordinates(text@))),
        None => members,
    };
    Tree::Object(members)
}

/// What a command on masks comes down to.
pub open spec fn mask_plan(command: MaskCmd, outcome: Result<Action, CliError>) -> bool {
    match command {
        MaskCmd::Add {
            mask_type,
            flags,
            json,
            name,
            opacity,
            invert,
            mode,
            bounds,
            skip_generate,
        } => match patch_members(flags, json) {
            Err(cause) => refuses(outcome, cause) && outcome->Err_0 is BadAdjustments,
            Ok(patch) => if bounds matches Some(text) && box_coordinates(text@).len() != 4 {
                outcome matches Err(error) && error is BadBox
            } else {
                sends(
                    outcome,
                    Endpoint::MaskAdd,
                    Method::Post,
                    "/mask/add"@,
                    Some(
                        mask_body(
                            mask_base(mask_type@, patch, mode@, invert, skip_generate),
                            name,
                            opacity,
                            bounds,
                        ),
                    ),
                    Show::Answer(Answer::MaskAdd),
                )
            },
        },
        MaskCmd::Update { id, json } => match document_in(json@) {
            Err(cause) => refuses(outcome, cause) && outcome->Err_0 is BadMaskPatch,
            Ok(patch) => outcome matches Ok(Action::Send { request, show }) && request.is(
                Method::Post,
                "/mask/"@ + id@,
                Some(patch),
            ) && (is_segment(id@) && id@ != "add"@ ==> request.reaches(Endpoint::MaskUpdate))
                && show == Show::Answer(Answer::Done),
        },
        MaskCmd::Remove { id } => outcome matches Ok(Action::Send { request, show })
            && request.is(Method::Delete, "/mask/"@ + id@, None) && (is_segment(id@) && id@
            != "add"@ ==> request.reaches(Endpoint::MaskRemove)) && show == Show::Answer(
            Answer::Done,
        ),
        MaskCmd::List => sends(
            outcome,
            Endpoint::State,
            Method::Get,
            "/state"@,
            None,
            Show::Masks,
        ),
    }
}

/// Works out what a command on masks asks of the server.
pub fn plan_mask(command: MaskCmd, client: &Client) -> (outcome: Result<Action, CliError>)
    ensures
        mask_plan(command, outcome),
{
    match command {
        MaskCmd::Add {
            mask_type,
            flags,
            json,
            name,
            opacity,
            invert,
            mode,
            bounds,
            skip_generate,
        } => {
            let patch = match build_patch(flags, json) {
                Ok(patch) => patch,
                Err(error) => return Err(error),
            };
            let mut body: Object = serde_json::Map::new();
            put(&mut body, "type", text_value(&mask_type));
            put(&mut body, "adjustments", patch.into_value());
            put(&mut body, "mode", text_value(&mode));
            put(&mut body, "invert", bool_value(invert));
            put(&mut body, "skipGenerate", bool_value(skip_generate));
            if let Some(text) = name {
                put(&mut body, "name", text_value(&text));
            }
            if let Some(slider) = opacity {
                put(&mut body, "opacity", slider.into_value());
            }
            if let Some(text) = bounds {
                match parse_box(&text) {
                    Ok(value) => put(&mut body, "box", value),
                    Err(error) => return Err(error),
                }
            }
            send(client.mask_add_full(close(Node::Object(body))), Show::Answer(Answer::MaskAdd))
        },
        MaskCmd::Update { id, json } => match read_document(&json) {
            Ok(patch) => send(client.mask_update(&id, patch), Show::Answer(Answer::Done)),
            Err(error) => Err(CliError::BadMaskPatch(show_error(&error))),
        },
        MaskCmd::Remove { id } => send(client.mask_remove(&id), Show::Answer(Answer::Done)),
        MaskCmd::List => send(client.state(), Show::Masks),
    }
}

// ---- the whole ----

/// What a command comes down to.
pub open spec fn planned(command: Command, outcome: Result<Action, CliError>) -> bool {
    match command {
        Command::Health => sends(
            outcome,
            Endpoint::Health,
            Method::Get,
            "/health"@,
            None,
            Show::Answer(Answer::Health),
        ),
        Command::Port => outcome == Ok::<Action, CliError>(Action::ShowPort),
        Command::Load { path, no_navigate } => sends(
            outcome,
            Endpoint::Load,
            Method::Post,
            "/load"@,
            Some(
                Tree::Object(
                    map!["path"@ => Tree::Text(path@), "navigate"@ => Tree::Bool(!no_navigate)],
                ),
            ),
            Show::Answer(Answer::Load),
        ),
        Command::Preview { resolution, out } => sends(
            outcome,
            Endpoint::Preview,
            Method::Post,
            "/preview"@,
            Some(preview_tree(resolution, None)),
            Show::Image { out },
        ),
        Command::Adjust { flags, json } => match patch_members(flags, json) {
            Err(cause) => refuses(outcome, cause) && outcome->Err_0 is BadAdjustments,
            Ok(patch) => if patch == no_members() {
                outcome matches Err(error) && error is NoAdjustments
            } else {
                sends(
                    outcome,
                    Endpoint::Adjust,
                    Method::Post,
                    "/adjust"@,
                    Some(Tree::Object(map!["adjustments"@ => Tree::Object(patch)])),
                    Show::Answer(Answer::Adjust),
                )
            },
        },
        Command::State { adjustments_only } => sends(
            outcome,
            Endpoint::State,
            Method::Get,
            "/state"@,
            None,
            if adjustments_only {
                Show::Adjustments
            } else {
                Show::Answer(Answer::State)
            },
        ),
        Command::Schema => sends(
            outcome,
            Endpoint::Schema,
            Method::Get,
            "/schema"@,
            None,
            Show::Answer(Answer::Document),
        ),
        Command::Export { resolution, out } => sends(
            outcome,
            Endpoint::Export,
            Method::Post,
            "/export"@,
            Some(export_tree(resolution, Some(out@))),
            Show::Exported { out },
        ),
        Command::Mask(inner) => mask_plan(inner, outcome),
        Command::Denoise { path, intensity, method } => sends(
            outcome,
            Endpoint::Denoise,
            Method::Post,
            "/denoise"@,
            Some(
                Tree::Object(
                    map![
                        "path"@ => Tree::Text(path@),
                        "intensity"@ => intensity.tree(),
                        "method"@ => Tree::Text(method@),
                    ],
                ),
            ),
            Show::Answer(Answer::Document),
        ),
        Command::Hdr { paths } => sends(
            outcome,
            Endpoint::HdrMerge,
            Method::Post,
            "/hdr/merge"@,
            Some(paths_tree(paths@)),
            Show::Answer(Answer::Document),
        ),
        Command::Panorama { paths } => sends(
            outcome,
            Endpoint::PanoramaStitch,
            Method::Post,
            "/panorama/stitch"@,
            Some(paths_tree(paths@)),
            Show::Answer(Answer::Document),
        ),
        Command::Negative {
            paths,
            red_weight,
            green_weight,
            blue_weight,
            exposure,
            contrast,
        } => sends(
            outcome,
            Endpoint::NegativeConvert,
            Method::Post,
            "/negative/convert"@,
            Some(
                Tree::Object(
                    map![
                        "paths"@ => text_array(texts_of(paths@)),
                        "redWeight"@ => red_weight.tree(),
                        "greenWeight"@ => green_weight.tree(),
                        "blueWeight"@ => blue_weight.tree(),
                        "exposure"@ => exposure.tree(),
                        "contrast"@ => contrast.tree(),
                    ],
                ),
            ),
            Show::Answer(Answer::Document),
        ),
        Command::Cull {
            paths,
            similarity_threshold,
            blur_threshold,
            group_similar,
            filter_blurry,
        } => sends(
            outcome,
            Endpoint::Cull,
            Method::Post,
            "/cull"@,
            Some(
                Tree::Object(
                    map![
                        "paths"@ => text_array(texts_of(paths@)),
                        "similarityThreshold"@ => Tree::Number(
                            Numeral::Unsigned(similarity_threshold as u64),
                        ),
                        "blurThreshold"@ => blur_threshold.tree(),
                        "groupSimilar"@ => Tree::Bool(group_similar),
                        "filterBlurry"@ => Tree::Bool(filter_blurry),
                    ],
                ),
            ),
            Show::Answer(Answer::Document),
        ),
        Command::Inpaint { path, patch, adjustments, fast } => match document_in(patch@) {
            Err(cause) => refuses(outcome, cause) && outcome->Err_0 is BadPatchDefinition,
            Ok(definition) => match current_adjustments(adjustments) {
                Err(cause) => refuses(outcome, cause) && outcome->Err_0 is BadCurrentAdjustments,
                Ok(current) => sends(
                    outcome,
                    Endpoint::Inpaint,
                    Method::Post,
                    "/inpaint"@,
                    Some(
                        Tree::Object(
                            map![
                                "path"@ => Tree::Text(path@),
                                "patch_definition"@ => definition,
                                "current_adjustments"@ => current,
                                "use_fast_inpaint"@ => Tree::Bool(fast),
                            ],
                        ),
                    ),
                    Show::Answer(Answer::Document),
                ),
            },
        },
        Command::AutoAdjust => sends(
            outcome,
            Endpoint::AutoAdjust,
            Method::Get,
            "/auto-adjust"@,
            None,
            Show::Answer(Answer::Document),
        ),
        Command::Lens(LensCmd::Makers) => sends(
            outcome,
            Endpoint::LensMakers,
            Method::Get,
            "/lens/makers"@,
            None,
            Show::Answer(Answer::Document),
        ),
        Command::Lens(LensCmd::Autodetect { maker, model }) => sends(
            outcome,
            Endpoint::LensAutodetect,
            Method::Post,
            "/lens/autodetect"@,
            Some(
                Tree::Object(map!["maker"@ => Tree::Text(maker@), "model"@ => Tree::Text(model@)]),
            ),
            Show::Answer(Answer::Document),
        ),
        Command::Luts => sends(
            outcome,
            Endpoint::Luts,
            Method::Get,
            "/luts"@,
            None,
            Show::Answer(Answer::Document),
        ),
        Command::Presets => sends(
            outcome,
            Endpoint::Presets,
            Method::Get,
            "/presets"@,
            None,
            Show::Answer(Answer::Document),
        ),
        Command::Ls { dir, json } => outcome == Ok::<Action, CliError>(
            Action::ListImages { dir, json },
        ),
        Command::Next { wrap } => outcome == Ok::<Action, CliError>(
            Action::Navigate { direction: Direction::Next, wrap },
        ),
        Command::Prev { wrap } => outcome == Ok::<Action, CliError>(
            Action::Navigate { direction: Direction::Prev, wrap },
        ),
        Command::Rate { rating, path } => if rating > MAX_RATING {
            outcome matches Err(error) && error is BadRating
        } else {
            outcome matches Ok(Action::SetRating { rating: stars, paths }) && stars == rating
                && lists(paths, path)
        },
        Command::Label { color, path } => {
            outcome matches Ok(Action::SetColorLabel { color: label, paths }) && (match label {
                Some(text) => color_of(lowercased(color@)) == Some(text@),
                None => color_of(lowercased(color@)) is None,
            }) && lists(paths, path)
        },
    }
}

/// Whether `paths` is the one path of a command, or none where it has none.
pub open spec fn lists(paths: Option<Vec<String>>, path: Option<String>) -> bool {
    match paths {
        Some(list) => paths_of(path) == Some(list@),
        None => path is None,
    }
}

/// The current adjustments of an inpainting command: no members where it gives
/// none, and what is wrong with what it gives where that is not JSON.
pub open spec fn current_adjustments(adjustments: Option<String>) -> Result<Tree, Seq<char>> {
    match adjustments {
        Some(text) => document_in(text@),
        None => Ok(Tree::Object(no_members())),
    }
}

/// Works out what a command asks of the server.
pub fn plan(command: Command, client: &Client) -> (outcome: Result<Action, CliError>)
    ensures
        planned(command, outcome),
{
    match command {
        Command::Health => send(client.health(), Show::Answer(Answer::Health)),
        Command::Port => Ok(Action::ShowPort),
        Command::Load { path, no_navigate } => send(
            client.load(&path, !no_navigate),
            Show::Answer(Answer::Load),
        ),
        Command::Preview { resolution, out } => send(
            client.preview(resolution, None),
            Show::Image { out },
        ),
        Command::Adjust { flags, json } => {
            let patch = match build_patch(flags, json) {
                Ok(patch) => patch,
                Err(error) => return Err(error),
            };
            if patch_is_empty(&patch) {
                return Err(CliError::NoAdjustments);
            }
            send(client.adjust(patch), Show::Answer(Answer::Adjust))
        },
        Command::State { adjustments_only } => {
            let show = if adjustments_only {
                Show::Adjustments
            } else {
                Show::Answer(Answer::State)
            };
            send(client.state(), show)
        },
        Command::Schema => send(client.schema(), Show::Answer(Answer::Document)),
        Command::Export { resolution, out } => send(
            client.export(resolution, Some(out.as_str())),
            Show::Exported { out },
        ),
        Command::Mask(inner) => plan_mask(inner, client),
        Command::Denoise { path, intensity, method } => send(
            client.denoise(&path, intensity, &method),
            Show::Answer(Answer::Document),
        ),
        Command::Hdr { paths } => send(client.hdr_merge(&paths), Show::Answer(Answer::Document)),
        Command::Panorama { paths } => send(
            client.panorama_stitch(&paths),
            Show::Answer(Answer::Document),
        ),
        Command::Negative {
            paths,
            red_weight,
            green_weight,
            blue_weight,
            exposure,
            contrast,
        } => send(
            client.negative_convert(
                &paths,
                red_weight,
                green_weight,
                blue_weight,
                exposure,
                contrast,
            ),
            Show::Answer(Answer::Document),
        ),
        Command::Cull {
            paths,
            similarity_threshold,
            blur_threshold,
            group_similar,
            filter_blurry,
        } => send(
            client.cull(
                &paths,
                similarity_threshold,
                blur_threshold,
                group_similar,
                filter_blurry,
            ),
            Show::Answer(Answer::Document),
        ),
        Command::Inpaint { path, patch, adjustments, fast } => {
            let definition = match read_document(&patch) {
                Ok(definition) => definition,
                Err(error) => return Err(CliError::BadPatchDefinition(show_error(&error))),
            };
            let current = match adjustments {
                Some(text) => match read_document(&text) {
                    Ok(current) => current,
                    Err(error) => return Err(CliError::BadCurrentAdjustments(show_error(&error))),
                },
                None => close(Node::Object(serde_json::Map::new())),
            };
            send(client.inpaint(&path, definition, current, fast), Show::Answer(Answer::Document))
        },
        Command::AutoAdjust => send(client.auto_adjust(), Show::Answer(Answer::Document)),
        Command::Lens(LensCmd::Makers) => send(
            client.lens_makers(),
            Show::Answer(Answer::Document),
        ),
        Command::Lens(LensCmd::Autodetect { maker, model }) => send(
            client.lens_autodetect(&maker, &model),
            Show::Answer(Answer::Document),
        ),
        Command::Luts => send(client.luts(), Show::Answer(Answer::Document)),
        Command::Presets => send(client.presets(), Show::Answer(Answer::Document)),
        Command::Ls { dir, json } => Ok(Action::ListImages { dir, json }),
        Command::Next { wrap } => Ok(Action::Navigate { direction: Direction::Next, wrap }),
        Command::Prev { wrap } => Ok(Action::Navigate { direction: Direction::Prev, wrap }),
        Command::Rate { rating, path } => {
            if rating > MAX_RATING {
                return Err(CliError::BadRating);
            }
            Ok(Action::SetRating { rating, paths: one_path(path) })
        },
        Command::Label { color, path } => {
            let label = color_label(to_lowercase(&color));
            Ok(Action::SetColorLabel { color: label, paths: one_path(path) })
        },
    }
}

// ---- laws ----

/// The adjustments that the state shows, with what the server's mirror holds.
pub open spec fn shown(loaded: Option<LoadedImage>, mirror: Option<Tree>) -> Tree {
    state_tree(loaded, mirror).member("adjustments"@)
}

/// What `adjust` sends for flags alone.
pub open spec fn flag_patch(flags: AdjustmentsFlags) -> Tree {
    Tree::Object(flagged(no_members(), flags.flags()))
}

/// A slider that `adjust` sets by a flag shows in the state right after, with the
/// value that it was set to.
pub proof fn adjusted_flag_shows(
    flags: AdjustmentsFlags,
    i: int,
    loaded: Option<LoadedImage>,
    mirror: Option<Tree>,
)
    requires
        0 <= i < flags.flags().len(),
        flags.flags()[i].1 is Some,
    ensures
        at(shown(loaded, Some(adjusted(mirror, flag_patch(flags)))), seq![flags.flags()[i].0])
            == flags.flags()[i].1,
{
    let patch = flag_patch(flags);
    let path = seq![flags.flags()[i].0];
    set_flag_is_sent(flags, no_members(), i);
    assert(path.drop_first() =~= Seq::empty());
    assert(at(patch, path) == flags.flags()[i].1) by {
        assert(at(patch.members()[path.first()], path.drop_first()) == flags.flags()[i].1);
    }
    adjust_shows_patch(loaded, mirror, patch, path);
}

/// A slider that `adjust` sets by a flag is in the look that `preview` and `export`
/// get right after.
pub proof fn adjusted_flag_is_rendered(flags: AdjustmentsFlags, i: int, mirror: Option<Tree>)
    requires
        0 <= i < flags.flags().len(),
        flags.flags()[i].1 is Some,
    ensures
        at(look(None, Some(adjusted(mirror, flag_patch(flags)))), seq![flags.flags()[i].0])
            == flags.flags()[i].1,
{
    adjusted_flag_shows(flags, i, None, mirror);
    committed_look_is_the_state(None, Some(adjusted(mirror, flag_patch(flags))));
}

/// `adjust` with flags leaves alone every edit that none of them names.
pub proof fn unset_flags_keep_edits(
    flags: AdjustmentsFlags,
    loaded: Option<LoadedImage>,
    adjustments: Tree,
    path: Seq<Seq<char>>,
)
    requires
        path.len() > 0,
        forall|i: int|
            0 <= i < flags.flags().len() && (#[trigger] flags.flags()[i]).0 == path.first()
                ==> flags.flags()[i].1 is None,
    ensures
        at(shown(loaded, Some(adjusted(Some(adjustments), flag_patch(flags)))), path) == at(
            shown(loaded, Some(adjustments)),
            path,
        ),
{
    only_set_flags_are_sent(no_members(), flags.flags(), path.first());
    assert(!touches(flag_patch(flags), path));
    adjust_keeps_other_edits(loaded, adjustments, flag_patch(flags), path);
}

// ---- what each command asks for ----

/// Whether a command comes down to a request with this method and path.
pub open spec fn asks(
    outcome: Result<Action, CliError>,
    method: Method,
    path: Seq<char>,
) -> bool {
    outcome matches Ok(Action::Send { request, .. }) && request.method == method && request.path@
        == path
}

/// The content that a command sends.
pub open spec fn sent(outcome: Result<Action, CliError>) -> Tree {
    match outcome {
        Ok(Action::Send { request, .. }) => match request.body {
            Some(body) => tree(body),
            None => Tree::Null,
        },
        _ => Tree::Null,
    }
}

/// Whether a command comes down to a request without content.
pub open spec fn sends_no_content(outcome: Result<Action, CliError>) -> bool {
    outcome matches Ok(Action::Send { request, .. }) && request.body is None
}

/// What a command does with the answer.
pub open spec fn display(outcome: Result<Action, CliError>) -> Option<Show> {
    match outcome {
        Ok(Action::Send { show, .. }) => Some(show),
        _ => None,
    }
}

/// `health` asks for a sign of life.
pub proof fn health_asks_for_health(client: Client, outcome: Result<Action, CliError>)
    requires
        call_ensures(plan, (Command::Health, &client), outcome),
    ensures
        asks(outcome, Method::Get, "/health"@),
        sends_no_content(outcome),
        display(outcome) == Some(Show::Answer(Answer::Health)),
{
}

/// `schema` asks for the schema.
pub proof fn schema_asks_for_the_schema(client: Client, outcome: Result<Action, CliError>)
    requires
        call_ensures(plan, (Command::Schema, &client), outcome),
    ensures
        asks(outcome, Method::Get, "/schema"@),
        sends_no_content(outcome),
        display(outcome) == Some(Show::Answer(Answer::Document)),
{
}

/// `auto-adjust` asks for suggestions.
pub proof fn auto_adjust_asks_for_suggestions(client: Client, outcome: Result<Action, CliError>)
    requires
        call_ensures(plan, (Command::AutoAdjust, &client), outcome),
    ensures
        asks(outcome, Method::Get, "/auto-adjust"@),
        sends_no_content(outcome),
        display(outcome) == Some(Show::Answer(Answer::Document)),
{
}

/// `luts` asks for the LUTs.
pub proof fn luts_asks_for_luts(client: Client, outcome: Result<Action, CliError>)
    requires
        call_ensures(plan, (Command::Luts, &client), outcome),
    ensures
        asks(outcome, Method::Get, "/luts"@),
        sends_no_content(outcome),
        display(outcome) == Some(Show::Answer(Answer::Document)),
{
}

/// `presets` asks for the presets.
pub proof fn presets_asks_for_presets(client: Client, outcome: Result<Action, CliError>)
    requires
        call_ensures(plan, (Command::Presets, &client), outcome),
    ensures
        asks(outcome, Method::Get, "/presets"@),
        sends_no_content(outcome),
        display(outcome) == Some(Show::Answer(Answer::Document)),
{
}

/// `lens makers` asks for the makers.
pub proof fn lens_makers_asks_for_makers(client: Client, outcome: Result<Action, CliError>)
    requires
        call_ensures(plan, (Command::Lens(LensCmd::Makers), &client), outcome),
    ensures
        asks(outcome, Method::Get, "/lens/makers"@),
        sends_no_content(outcome),
        display(outcome) == Some(Show::Answer(Answer::Document)),
{
}

proof fn lemma_load_sends_its_path()
    ensures
        "path"@ != "navigate"@,
{
    reveal_strlit("path");
    reveal_strlit("navigate");
    assert("path"@.len() != "navigate"@.len());
}

/// `load` sends the path that it was given, and says whether the window is to go along:
/// it is, unless the command says not to.
pub proof fn load_sends_its_path(
    client: Client,
    path: String,
    no_navigate: bool,
    outcome: Result<Action, CliError>,
)
    requires
        call_ensures(plan, (Command::Load { path, no_navigate }, &client), outcome),
    ensures
        asks(outcome, Method::Post, "/load"@),
        sent(outcome).member("path"@) == Tree::Text(path@),
        sent(outcome).member("navigate"@) == Tree::Bool(!no_navigate),
        sent(outcome).members().dom() == set!["path"@, "navigate"@],
        display(outcome) == Some(Show::Answer(Answer::Load)),
{
    lemma_load_sends_its_path();
}

proof fn lemma_denoise_sends_its_settings()
    ensures
        "path"@ != "intensity"@,
        "path"@ != "method"@,
        "intensity"@ != "method"@,
{
    reveal_strlit("path");
    reveal_strlit("intensity");
    reveal_strlit("method");
    assert("path"@.len() != "intensity"@.len());
    assert("path"@.len() != "method"@.len());
    assert("intensity"@.len() != "method"@.len());
}

/// `denoise` sends the path, the intensity and the method that it was given.
pub proof fn denoise_sends_its_settings(
    client: Client,
    path: String,
    intensity: Slider,
    method: String,
    outcome: Result<Action, CliError>,
)
    requires
        call_ensures(plan, (Command::Denoise { path, intensity, method }, &client), outcome),
    ensures
        asks(outcome, Method::Post, "/denoise"@),
        sent(outcome).member("path"@) == Tree::Text(path@),
        sent(outcome).member("intensity"@) == intensity.tree(),
        sent(outcome).member("method"@) == Tree::Text(method@),
        sent(outcome).members().dom() == set!["path"@, "intensity"@, "method"@],
        display(outcome) == Some(Show::Answer(Answer::Document)),
{
    lemma_denoise_sends_its_settings();
}

/// `hdr` sends all its images, in order.
pub proof fn hdr_sends_its_images(
    client: Client,
    paths: Vec<String>,
    outcome: Result<Action, CliError>,
)
    requires
        call_ensures(plan, (Command::Hdr { paths }, &client), outcome),
    ensures
        asks(outcome, Method::Post, "/hdr/merge"@),
        sent(outcome).member("paths"@) == text_array(texts_of(paths@)),
        sent(outcome).members().dom() == set!["paths"@],
        display(outcome) == Some(Show::Answer(Answer::Document)),
{
}

/// `panorama` sends all its images, in order.
pub proof fn panorama_sends_its_images(
    client: Client,
    paths: Vec<String>,
    outcome: Result<Action, CliError>,
)
    requires
        call_ensures(plan, (Command::Panorama { paths }, &client), outcome),
    ensures
        asks(outcome, Method::Post, "/panorama/stitch"@),
        sent(outcome).member("paths"@) == text_array(texts_of(paths@)),
        sent(outcome).members().dom() == set!["paths"@],
        display(outcome) == Some(Show::Answer(Answer::Document)),
{
}

proof fn lemma_negative_sends_its_settings()
    ensures
        "paths"@ != "redWeight"@,
        "paths"@ != "greenWeight"@,
        "paths"@ != "blueWeight"@,
        "paths"@ != "exposure"@,
        "paths"@ != "contrast"@,
        "redWeight"@ != "greenWeight"@,
        "redWeight"@ != "blueWeight"@,
        "redWeight"@ != "exposure"@,
        "redWeight"@ != "contrast"@,
        "greenWeight"@ != "blueWeight"@,
        "greenWeight"@ != "exposure"@,
        "greenWeight"@ != "contrast"@,
        "blueWeight"@ != "exposure"@,
        "blueWeight"@ != "contrast"@,
        "exposure"@ != "contrast"@,
{
    reveal_strlit("paths");
    reveal_strlit("redWeight");
    reveal_strlit("greenWeight");
    reveal_strlit("blueWeight");
    reveal_strlit("exposure");
    reveal_strlit("contrast");
    assert("paths"@.len() != "redWeight"@.len());
    assert("paths"@.len() != "greenWeight"@.len());
    assert("paths"@.len() != "blueWeight"@.len());
    assert("paths"@.len() != "exposure"@.len());
    assert("paths"@.len() != "contrast"@.len());
    assert("redWeight"@.len() != "greenWeight"@.len());
    assert("redWeight"@.len() != "blueWeight"@.len());
    assert("redWeight"@.len() != "exposure"@.len());
    assert("redWeight"@.len() != "contrast"@.len());
    assert("greenWeight"@.len() != "blueWeight"@.len());
    assert("greenWeight"@.len() != "exposure"@.len());
    assert("greenWeight"@.len() != "contrast"@.len());
    assert("blueWeight"@.len() != "exposure"@.len());
    assert("blueWeight"@.len() != "contrast"@.len());
    assert("exposure"@[0] != "contrast"@[0]);
}

/// `negative` sends all its images, and each setting under its own name.
pub proof fn negative_sends_its_settings(
    client: Client,
    paths: Vec<String>,
    red_weight: Slider,
    green_weight: Slider,
    blue_weight: Slider,
    exposure: Slider,
    contrast: Slider,
    outcome: Result<Action, CliError>,
)
    requires
        call_ensures(
            plan,
            (
                Command::Negative {
                    paths,
                    red_weight,
                    green_weight,
                    blue_weight,
                    exposure,
                    contrast,
                },
                &client,
            ),
            outcome,
        ),
    ensures
        asks(outcome, Method::Post, "/negative/convert"@),
        sent(outcome).member("paths"@) == text_array(texts_of(paths@)),
        sent(outcome).member("redWeight"@) == red_weight.tree(),
        sent(outcome).member("greenWeight"@) == green_weight.tree(),
        sent(outcome).member("blueWeight"@) == blue_weight.tree(),
        sent(outcome).member("exposure"@) == exposure.tree(),
        sent(outcome).member("contrast"@) == contrast.tree(),
        sent(outcome).members().dom() == set![
            "paths"@,
            "redWeight"@,
            "greenWeight"@,
            "blueWeight"@,
            "exposure"@,
            "contrast"@,
        ],
        display(outcome) == Some(Show::Answer(Answer::Document)),
{
    lemma_negative_sends_its_settings();
}

proof fn lemma_cull_sends_its_settings()
    ensures
        "paths"@ != "similarityThreshold"@,
        "paths"@ != "blurThreshold"@,
        "paths"@ != "groupSimilar"@,
        "paths"@ != "filterBlurry"@,
        "similarityThreshold"@ != "blurThreshold"@,
        "similarityThreshold"@ != "groupSimilar"@,
        "similarityThreshold"@ != "filterBlurry"@,
        "blurThreshold"@ != "groupSimilar"@,
        "blurThreshold"@ != "filterBlurry"@,
        "groupSimilar"@ != "filterBlurry"@,
{
    reveal_strlit("paths");
    reveal_strlit("similarityThreshold");
    reveal_strlit("blurThreshold");
    reveal_strlit("groupSimilar");
    reveal_strlit("filterBlurry");
    assert("paths"@.len() != "similarityThreshold"@.len());
    assert("paths"@.len() != "blurThreshold"@.len());
    assert("paths"@.len() != "groupSimilar"@.len());
    assert("paths"@.len() != "filterBlurry"@.len());
    assert("similarityThreshold"@.len() != "blurThreshold"@.len());
    assert("similarityThreshold"@.len() != "groupSimilar"@.len());
    assert("similarityThreshold"@.len() != "filterBlurry"@.len());
    assert("blurThreshold"@.len() != "groupSimilar"@.len());
    assert("blurThreshold"@.len() != "filterBlurry"@.len());
    assert("groupSimilar"@[0] != "filterBlurry"@[0]);
}

/// `cull` sends all its images, and each threshold and switch under its own name.
pub proof fn cull_sends_its_settings(
    client: Client,
    paths: Vec<String>,
    similarity_threshold: u32,
    blur_threshold: Slider,
    group_similar: bool,
    filter_blurry: bool,
    outcome: Result<Action, CliError>,
)
    requires
        call_ensures(
            plan,
            (
                Command::Cull {
                    paths,
                    similarity_threshold,
                    blur_threshold,
                    group_similar,
                    filter_blurry,
                },
                &client,
            ),
            outcome,
        ),
    ensures
        asks(outcome, Method::Post, "/cull"@),
        sent(outcome).member("paths"@) == text_array(texts_of(paths@)),
        sent(outcome).member("similarityThreshold"@) == Tree::Number(Numeral::Unsigned(similarity_threshold as u64)),
        sent(outcome).member("blurThreshold"@) == blur_threshold.tree(),
        sent(outcome).member("groupSimilar"@) == Tree::Bool(group_similar),
        sent(outcome).member("filterBlurry"@) == Tree::Bool(filter_blurry),
        sent(outcome).members().dom() == set![
            "paths"@,
            "similarityThreshold"@,
            "blurThreshold"@,
            "groupSimilar"@,
            "filterBlurry"@,
        ],
        display(outcome) == Some(Show::Answer(Answer::Document)),
{
    lemma_cull_sends_its_settings();
}

proof fn lemma_lens_autodetect_sends_the_lens()
    ensures
        "maker"@ != "model"@,
{
    reveal_strlit("maker");
    reveal_strlit("model");
    assert("maker"@[1] != "model"@[1]);
}

/// `lens autodetect` sends the maker and the model that it was given.
pub proof fn lens_autodetect_sends_the_lens(
    client: Client,
    maker: String,
    model: String,
    outcome: Result<Action, CliError>,
)
    requires
        call_ensures(plan, (Command::Lens(LensCmd::Autodetect { maker, model }), &client), outcome),
    ensures
        asks(outcome, Method::Post, "/lens/autodetect"@),
        sent(outcome).member("maker"@) == Tree::Text(maker@),
        sent(outcome).member("model"@) == Tree::Text(model@),
        sent(outcome).members().dom() == set!["maker"@, "model"@],
        display(outcome) == Some(Show::Answer(Answer::Document)),
{
    lemma_lens_autodetect_sends_the_lens();
}

proof fn lemma_export_names()
    ensures
        "target_resolution"@ != "path"@,
        "target_resolution"@ != "roi"@,
        "target_resolution"@ != "adjustments"@,
        "path"@ != "roi"@,
        "path"@ != "adjustments"@,
        "roi"@ != "adjustments"@,
{
    reveal_strlit("target_resolution");
    reveal_strlit("path");
    reveal_strlit("roi");
    reveal_strlit("adjustments");
    assert("target_resolution"@.len() != "path"@.len());
    assert("target_resolution"@.len() != "roi"@.len());
    assert("target_resolution"@.len() != "adjustments"@.len());
    assert("path"@.len() != "roi"@.len());
    assert("path"@.len() != "adjustments"@.len());
    assert("roi"@.len() != "adjustments"@.len());
}

/// The resolution and the file given to `export` reach the server; with no
/// resolution none is sent. What is said afterwards names the same file.
pub proof fn export_sends_its_size_and_file(
    client: Client,
    resolution: Option<u32>,
    out: String,
    outcome: Result<Action, CliError>,
)
    requires
        call_ensures(plan, (Command::Export { resolution, out }, &client), outcome),
    ensures
        asks(outcome, Method::Post, "/export"@),
        resolution matches Some(size) ==> sent(outcome).member("target_resolution"@)
            == Tree::Number(Numeral::Unsigned(size as u64)),
        resolution is None ==> !sent(outcome).members().contains_key("target_resolution"@),
        sent(outcome).member("path"@) == Tree::Text(out@),
        sent(outcome).members().dom().subset_of(set!["target_resolution"@, "path"@]),
        display(outcome) matches Some(Show::Exported { out: named }) && named == out,
{
    lemma_export_names();
}

/// The resolution given to `preview` reaches the server; with none, none is sent.
/// The image goes to the file that was given, or out where there is none.
pub proof fn preview_sends_its_size(
    client: Client,
    resolution: Option<u32>,
    out: Option<String>,
    outcome: Result<Action, CliError>,
)
    requires
        call_ensures(plan, (Command::Preview { resolution, out }, &client), outcome),
    ensures
        asks(outcome, Method::Post, "/preview"@),
        resolution matches Some(size) ==> sent(outcome).member("target_resolution"@)
            == Tree::Number(Numeral::Unsigned(size as u64)),
        resolution is None ==> !sent(outcome).members().contains_key("target_resolution"@),
        sent(outcome) is Object,
        sent(outcome).members().dom().subset_of(set!["target_resolution"@]),
        display(outcome) matches Some(Show::Image { out: target }) && target == out,
{
    lemma_export_names();
}

/// `preview` and `export` at the same resolution ask for the same size.
pub proof fn preview_and_export_agree_on_size(
    client: Client,
    resolution: Option<u32>,
    out: Option<String>,
    file: String,
    previewed: Result<Action, CliError>,
    exported: Result<Action, CliError>,
)
    requires
        call_ensures(plan, (Command::Preview { resolution, out }, &client), previewed),
        call_ensures(plan, (Command::Export { resolution, out: file }, &client), exported),
    ensures
        sent(previewed).member("target_resolution"@) == sent(exported).member(
            "target_resolution"@,
        ),
{
    preview_sends_its_size(client, resolution, out, previewed);
    export_sends_its_size_and_file(client, resolution, file, exported);
}

/// `state` asks for the state, and prints the whole of it or the adjustments alone,
/// as it was told.
pub proof fn state_asks_for_the_state(
    client: Client,
    adjustments_only: bool,
    outcome: Result<Action, CliError>,
)
    requires
        call_ensures(plan, (Command::State { adjustments_only }, &client), outcome),
    ensures
        asks(outcome, Method::Get, "/state"@),
        sends_no_content(outcome),
        adjustments_only ==> display(outcome) == Some(Show::Adjustments),
        !adjustments_only ==> display(outcome) == Some(Show::Answer(Answer::State)),
{
}

/// What the JSON beside the flags adds, or what is wrong with it.
pub open spec fn extra_in(json: Option<String>) -> Result<Map<Seq<char>, Tree>, Seq<char>> {
    match json {
        Some(text) => object_in(text@),
        None => Ok(no_members()),
    }
}

/// `adjust` sends its flags over its JSON, and nothing else. It is refused just when
/// the JSON is not an object, with what is wrong with it, and when there is nothing
/// to send.
pub proof fn adjust_sends_flags_over_json(
    client: Client,
    flags: AdjustmentsFlags,
    json: Option<String>,
    outcome: Result<Action, CliError>,
)
    requires
        call_ensures(plan, (Command::Adjust { flags, json }, &client), outcome),
    ensures
        match extra_in(json) {
            Err(cause) => outcome matches Err(error) && error is BadAdjustments
                && error.cause_text() == Some(cause),
            Ok(extra) => {
                let patch = flagged(extra, flags.flags());
                &&& patch == no_members() ==> (outcome matches Err(error) && error is NoAdjustments)
                &&& patch != no_members() ==> {
                    &&& asks(outcome, Method::Post, "/adjust"@)
                    &&& sent(outcome).member("adjustments"@) == Tree::Object(patch)
                    &&& sent(outcome).members().dom() == set!["adjustments"@]
                    &&& display(outcome) == Some(Show::Answer(Answer::Adjust))
                }
            },
        },
{
}

proof fn lemma_mask_names()
    ensures
        "type"@ != "adjustments"@,
        "type"@ != "mode"@,
        "type"@ != "invert"@,
        "type"@ != "skipGenerate"@,
        "type"@ != "name"@,
        "type"@ != "opacity"@,
        "type"@ != "box"@,
        "adjustments"@ != "mode"@,
        "adjustments"@ != "invert"@,
        "adjustments"@ != "skipGenerate"@,
        "adjustments"@ != "name"@,
        "adjustments"@ != "opacity"@,
        "adjustments"@ != "box"@,
        "mode"@ != "invert"@,
        "mode"@ != "skipGenerate"@,
        "mode"@ != "name"@,
        "mode"@ != "opacity"@,
        "mode"@ != "box"@,
        "invert"@ != "skipGenerate"@,
        "invert"@ != "name"@,
        "invert"@ != "opacity"@,
        "invert"@ != "box"@,
        "skipGenerate"@ != "name"@,
        "skipGenerate"@ != "opacity"@,
        "skipGenerate"@ != "box"@,
        "name"@ != "opacity"@,
        "name"@ != "box"@,
        "opacity"@ != "box"@,
{
    reveal_strlit("type");
    reveal_strlit("adjustments");
    reveal_strlit("mode");
    reveal_strlit("invert");
    reveal_strlit("skipGenerate");
    reveal_strlit("name");
    reveal_strlit("opacity");
    reveal_strlit("box");
    assert("type"@.len() != "adjustments"@.len());
    assert("type"@[0] != "mode"@[0]);
    assert("type"@.len() != "invert"@.len());
    assert("type"@.len() != "skipGenerate"@.len());
    assert("type"@[0] != "name"@[0]);
    assert("type"@.len() != "opacity"@.len());
    assert("type"@.len() != "box"@.len());
    assert("adjustments"@.len() != "mode"@.len());
    assert("adjustments"@.len() != "invert"@.len());
    assert("adjustments"@.len() != "skipGenerate"@.len());
    assert("adjustments"@.len() != "name"@.len());
    assert("adjustments"@.len() != "opacity"@.len());
    assert("adjustments"@.len() != "box"@.len());
    assert("mode"@.len() != "invert"@.len());
    assert("mode"@.len() != "skipGenerate"@.len());
    assert("mode"@[0] != "name"@[0]);
    assert("mode"@.len() != "opacity"@.len());
    assert("mode"@.len() != "box"@.len());
    assert("invert"@.len() != "skipGenerate"@.len());
    assert("invert"@.len() != "name"@.len());
    assert("invert"@.len() != "opacity"@.len());
    assert("invert"@.len() != "box"@.len());
    assert("skipGenerate"@.len() != "name"@.len());
    assert("skipGenerate"@.len() != "opacity"@.len());
    assert("skipGenerate"@.len() != "box"@.len());
    assert("name"@.len() != "opacity"@.len());
    assert("name"@.len() != "box"@.len());
    assert("opacity"@.len() != "box"@.len());
}

/// `mask add` sends what it was given: its type, mode and switches, its flags over
/// its JSON, and its name, opacity and box where there are any. It is refused just
/// when the JSON is not an object, or else when the box is not four numbers.
pub proof fn mask_add_sends_the_mask(
    client: Client,
    mask_type: String,
    flags: AdjustmentsFlags,
    json: Option<String>,
    name: Option<String>,
    opacity: Option<Slider>,
    invert: bool,
    mode: String,
    bounds: Option<String>,
    skip_generate: bool,
    outcome: Result<Action, CliError>,
)
    requires
        call_ensures(plan, (Command::Mask(
                MaskCmd::Add {
                    mask_type,
                    flags,
                    json,
                    name,
                    opacity,
                    invert,
                    mode,
                    bounds,
                    skip_generate,
                },
            ), &client), outcome),
    ensures
        match extra_in(json) {
            Err(cause) => outcome matches Err(error) && error is BadAdjustments
                && error.cause_text() == Some(cause),
            Ok(extra) => if bounds is Some && box_coordinates(bounds->Some_0@).len() != 4 {
                outcome matches Err(error) && error is BadBox
            } else {
                &&& asks(outcome, Method::Post, "/mask/add"@)
                &&& display(outcome) == Some(Show::Answer(Answer::MaskAdd))
                &&& sent(outcome).member("type"@) == Tree::Text(mask_type@)
                &&& sent(outcome).member("adjustments"@) == Tree::Object(
                    flagged(extra, flags.flags()),
                )
                &&& sent(outcome).member("mode"@) == Tree::Text(mode@)
                &&& sent(outcome).member("invert"@) == Tree::Bool(invert)
                &&& sent(outcome).member("skipGenerate"@) == Tree::Bool(skip_generate)
                &&& name matches Some(text) ==> sent(outcome).member("name"@) == Tree::Text(text@)
                &&& name is None ==> !sent(outcome).members().contains_key("name"@)
                &&& opacity matches Some(setting) ==> sent(outcome).member("opacity"@)
                    == setting.tree()
                &&& opacity is None ==> !sent(outcome).members().contains_key("opacity"@)
                &&& bounds matches Some(text) ==> sent(outcome).member("box"@) == Tree::Array(
                    box_coordinates(text@),
                )
                &&& bounds is None ==> !sent(outcome).members().contains_key("box"@)
                &&& sent(outcome).members().dom().subset_of(
                    set![
                        "type"@,
                        "adjustments"@,
                        "mode"@,
                        "invert"@,
                        "skipGenerate"@,
                        "name"@,
                        "opacity"@,
                        "box"@,
                    ],
                )
            },
        },
{
    lemma_mask_names();
}

/// `mask update` sends its JSON as it is, for the mask that it was given; it is
/// refused just when that is not JSON, with what is wrong with it.
pub proof fn mask_update_sends_its_patch(
    client: Client,
    id: String,
    json: String,
    outcome: Result<Action, CliError>,
)
    requires
        call_ensures(plan, (Command::Mask(MaskCmd::Update { id, json }), &client), outcome),
    ensures
        match document_in(json@) {
            Err(cause) => outcome matches Err(error) && error is BadMaskPatch && error.cause_text()
                == Some(cause),
            Ok(patch) => asks(outcome, Method::Post, "/mask/"@ + id@) && sent(outcome) == patch
                && display(outcome) == Some(Show::Answer(Answer::Done)),
        },
{
}

/// `mask remove` removes the mask that it was given.
pub proof fn mask_remove_names_its_mask(
    client: Client,
    id: String,
    outcome: Result<Action, CliError>,
)
    requires
        call_ensures(plan, (Command::Mask(MaskCmd::Remove { id }), &client), outcome),
    ensures
        asks(outcome, Method::Delete, "/mask/"@ + id@),
        sends_no_content(outcome),
        display(outcome) == Some(Show::Answer(Answer::Done)),
{
}

/// `mask list` reads the state and lists the masks in it.
pub proof fn mask_list_reads_the_state(client: Client, outcome: Result<Action, CliError>)
    requires
        call_ensures(plan, (Command::Mask(MaskCmd::List), &client), outcome),
    ensures
        asks(outcome, Method::Get, "/state"@),
        sends_no_content(outcome),
        display(outcome) == Some(Show::Masks),
{
}

proof fn lemma_inpaint_names()
    ensures
        "path"@ != "patch_definition"@,
        "path"@ != "current_adjustments"@,
        "path"@ != "use_fast_inpaint"@,
        "patch_definition"@ != "current_adjustments"@,
        "patch_definition"@ != "use_fast_inpaint"@,
        "current_adjustments"@ != "use_fast_inpaint"@,
{
    reveal_strlit("path");
    reveal_strlit("patch_definition");
    reveal_strlit("current_adjustments");
    reveal_strlit("use_fast_inpaint");
    assert("path"@.len() != "patch_definition"@.len());
    assert("path"@.len() != "current_adjustments"@.len());
    assert("path"@.len() != "use_fast_inpaint"@.len());
    assert("patch_definition"@.len() != "current_adjustments"@.len());
    assert("patch_definition"@[0] != "use_fast_inpaint"@[0]);
    assert("current_adjustments"@.len() != "use_fast_inpaint"@.len());
}

/// `inpaint` sends the path and the switch that it was given, its patch definition
/// as it is, and the adjustments as they are, or none where none are given. It is
/// refused just when the one or else the other is not JSON.
pub proof fn inpaint_sends_what_it_was_given(
    client: Client,
    path: String,
    patch: String,
    adjustments: Option<String>,
    fast: bool,
    outcome: Result<Action, CliError>,
)
    requires
        call_ensures(plan, (Command::Inpaint { path, patch, adjustments, fast }, &client), outcome),
    ensures
        document_in(patch@) matches Err(cause) ==> (outcome matches Err(error)
            && error is BadPatchDefinition && error.cause_text() == Some(cause)),
        document_in(patch@) is Ok && (adjustments matches Some(text) && document_in(text@) is Err)
            ==> (outcome matches Err(error) && error is BadCurrentAdjustments
            && error.cause_text() == Some(document_in(adjustments->Some_0@)->Err_0)),
        document_in(patch@) is Ok && !(adjustments matches Some(text) && document_in(text@) is Err)
            ==> {
            &&& asks(outcome, Method::Post, "/inpaint"@)
            &&& sent(outcome).member("path"@) == Tree::Text(path@)
            &&& sent(outcome).member("patch_definition"@) == document_in(patch@)->Ok_0
            &&& adjustments matches Some(text) ==> sent(outcome).member("current_adjustments"@)
                == document_in(text@)->Ok_0
            &&& adjustments is None ==> sent(outcome).member("current_adjustments"@)
                == Tree::Object(no_members())
            &&& sent(outcome).member("use_fast_inpaint"@) == Tree::Bool(fast)
            &&& sent(outcome).members().dom() == set![
                "path"@,
                "patch_definition"@,
                "current_adjustments"@,
                "use_fast_inpaint"@,
            ]
            &&& display(outcome) == Some(Show::Answer(Answer::Document))
        },
{
    lemma_inpaint_names();
}

/// Browsing does what it says: `ls` lists the directory that it was given, in the
/// form that it was asked for, `next` goes on, `prev` goes back, and either goes
/// round the end just when it was told to.
pub proof fn browsing_does_what_it_says(
    client: Client,
    dir: Option<String>,
    json: bool,
    wrap: bool,
    listed: Result<Action, CliError>,
    next: Result<Action, CliError>,
    prev: Result<Action, CliError>,
    port: Result<Action, CliError>,
)
    requires
        call_ensures(plan, (Command::Ls { dir, json }, &client), listed),
        call_ensures(plan, (Command::Next { wrap }, &client), next),
        call_ensures(plan, (Command::Prev { wrap }, &client), prev),
        call_ensures(plan, (Command::Port, &client), port),
    ensures
        listed matches Ok(Action::ListImages { dir: shown_dir, json: as_json }) && shown_dir == dir
            && as_json == json,
        next matches Ok(Action::Navigate { direction, wrap: round }) && direction == Direction::Next
            && round == wrap,
        prev matches Ok(Action::Navigate { direction, wrap: round }) && direction == Direction::Prev
            && round == wrap,
        port matches Ok(action) && action is ShowPort,
{
}

/// Whether an action is for the image that a command names: that one alone, or the
/// open image where it names none.
pub open spec fn is_for(paths: Option<Vec<String>>, path: Option<String>) -> bool {
    match path {
        Some(one) => paths matches Some(list) && list.len() == 1 && list@[0] == one,
        None => paths is None,
    }
}

/// `rate` sets the very number of stars on the image that it names; it is refused
/// just when there are more than five.
pub proof fn rate_sets_its_stars(
    client: Client,
    rating: u8,
    path: Option<String>,
    outcome: Result<Action, CliError>,
    needed: Result<bool, CliError>,
)
    requires
        call_ensures(plan, (Command::Rate { rating, path }, &client), outcome),
        call_ensures(needs_server, (&Command::Rate { rating, path },), needed),
    ensures
        rating > 5 <==> outcome is Err,
        rating > 5 <==> needed is Err,
        outcome matches Err(error) ==> error is BadRating,
        needed matches Err(error) ==> error is BadRating,
        outcome matches Ok(action) ==> (action matches Action::SetRating { rating: stars, paths }
            && stars == rating && is_for(paths, path)),
{
}

/// `label` sets the color that it names, in lower case, on the image that it names,
/// or clears the label where it is told to.
pub proof fn label_sets_its_color(
    client: Client,
    color: String,
    path: Option<String>,
    outcome: Result<Action, CliError>,
)
    requires
        call_ensures(plan, (Command::Label { color, path }, &client), outcome),
    ensures
        outcome matches Ok(Action::SetColorLabel { color: label, paths }) && is_for(paths, path)
            && (label is None <==> lowercased(color@) == "clear"@ || lowercased(color@) == "none"@
            || lowercased(color@) == Seq::<char>::empty()) && (label matches Some(set) ==> set@
            == lowercased(color@)),
{
    if lowercased(color@).len() == 0 {
        assert(lowercased(color@) =~= Seq::<char>::empty());
    }
}

/// Every command but `port` needs the server, and is let through before one is
/// looked for, unless it asks for too many stars.
pub proof fn only_the_port_needs_no_server(command: Command, needed: Result<bool, CliError>)
    requires
        call_ensures(needs_server, (&command,), needed),
    ensures
        needed == Ok::<bool, CliError>(false) <==> command is Port,
        needed is Err <==> (command matches Command::Rate { rating, .. } && rating > 5),
{
}

/// The line with the port gives the very port; with none, that is said.
pub proof fn port_line_gives_the_port(port: Option<u16>, line: Result<String, CliError>)
    requires
        call_ensures(show_port, (port,), line),
    ensures
        port matches Some(found) ==> (line matches Ok(text) && is_numeral(text@) && numeral_value(
            text@,
        ) == found && text@ == decimal(found as nat)),
        port is None ==> (line matches Err(error) && error is NoPort),
{
    if let Some(found) = port {
        decimal_reads_back(found as nat);
    }
}

} // verus!
