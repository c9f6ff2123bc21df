//! Pipeline tools and lookups: what they are given, and how they are answered.
use crate::json::{Tree, strings_value, text_array, text_value, tree};
use crate::reply::{
    BAD_REQUEST, INTERNAL_SERVER_ERROR, OK, Reply, answers, carried, error_reply, json_result,
    ok_json, single,
};
use crate::text::concat;
use vstd::prelude::*;

verus! {

/// The texts in a row of strings.
pub open spec fn texts_of(strings: Seq<String>) -> Seq<Seq<char>> {
    strings.map_values(|text: String| text@)
}

// ---- tools that write files ----

/// The content of `POST /denoise`. `F` is a floating-point number.
#[derive(Debug)]
pub struct DenoiseRequest<F> {
    pub path: String,
    pub intensity: F,
    /// `ai` or `bm3d`.
    pub method: String,
}

/// What the denoiser is given.
#[derive(Debug)]
pub struct DenoiseJob<F> {
    pub paths: Vec<String>,
    pub intensity: F,
    pub method: String,
}

/// Whether `job` is the one that `POST /denoise` asks for.
pub open spec fn denoises<F>(request: DenoiseRequest<F>, job: DenoiseJob<F>) -> bool {
    &&& job.paths@ == seq![request.path]
    &&& job.intensity == request.intensity
    &&& job.method == request.method
}

/// The job that `POST /denoise` asks for: a batch of one image.
pub fn denoise_job<F>(request: DenoiseRequest<F>) -> (job: DenoiseJob<F>)
    ensures
        denoises(request, job),
{
    let mut paths: Vec<String> = Vec::new();
    paths.push(request.path);
    assert(paths@ =~= seq![request.path]);
    DenoiseJob { paths, intensity: request.intensity, method: request.method }
}

/// The content of `POST /negative/convert`. `F` is a floating-point number.
#[derive(Debug)]
pub struct NegativeConvertRequest<F> {
    pub paths: Vec<String>,
    pub red_weight: F,
    pub green_weight: F,
    pub blue_weight: F,
    pub exposure: F,
    pub contrast: F,
}

/// How film scans are inverted.
#[derive(Debug)]
pub struct NegativeConversionParams<F> {
    pub red_weight: F,
    pub green_weight: F,
    pub blue_weight: F,
    pub exposure: F,
    pub contrast: F,
}

/// Whether `paths` and `params` are what `POST /negative/convert` asks for.
pub open spec fn converts<F>(
    request: NegativeConvertRequest<F>,
    paths: Vec<String>,
    params: NegativeConversionParams<F>,
) -> bool {
    &&& paths == request.paths
    &&& params == (NegativeConversionParams {
        red_weight: request.red_weight,
        green_weight: request.green_weight,
        blue_weight: request.blue_weight,
        exposure: request.exposure,
        contrast: request.contrast,
    })
}

/// The scans that `POST /negative/convert` asks to invert, and how.
pub fn negative_job<F>(request: NegativeConvertRequest<F>) -> (job: (
    Vec<String>,
    NegativeConversionParams<F>,
))
    ensures
        converts(request, job.0, job.1),
{
    let params = NegativeConversionParams {
        red_weight: request.red_weight,
        green_weight: request.green_weight,
        blue_weight: request.blue_weight,
        exposure: request.exposure,
        contrast: request.contrast,
    };
    (request.paths, params)
}

/// Whether `reply` answers a tool that wrote files: with where they are, or why
/// there are none.
pub open spec fn outputs_answered(written: Result<Vec<String>, String>, reply: Reply) -> bool {
    match written {
        Ok(paths) => reply.is_json(
            OK,
            Tree::Object(map!["outputs"@ => text_array(texts_of(paths@))]),
        ),
        Err(message) => reply.is_error(INTERNAL_SERVER_ERROR, message@),
    }
}

/// The reply to a tool that wrote files: where they are, or why there are none.
fn outputs_reply(written: Result<Vec<String>, String>) -> (reply: Reply)
    ensures
        outputs_answered(written, reply),
{
    match written {
        Ok(paths) => ok_json(single("outputs", strings_value(&paths))),
        Err(message) => error_reply(INTERNAL_SERVER_ERROR, &message),
    }
}

/// Answers `POST /denoise` with the files that the denoiser wrote.
pub fn denoise(written: Result<Vec<String>, String>) -> (reply: Reply)
    ensures
        outputs_answered(written, reply),
{
    outputs_reply(written)
}

/// Answers `POST /negative/convert` with the files that the conversion wrote.
pub fn negative_convert(written: Result<Vec<String>, String>) -> (reply: Reply)
    ensures
        outputs_answered(written, reply),
{
    outputs_reply(written)
}

/// Whether `reply` answers a tool that gave a text: with the text, under `name`, or
/// why there is none.
pub open spec fn text_answered(
    name: Seq<char>,
    given: Result<String, String>,
    reply: Reply,
) -> bool {
    match given {
        Ok(text) => reply.is_json(OK, Tree::Object(map![name => Tree::Text(text@)])),
        Err(message) => reply.is_error(INTERNAL_SERVER_ERROR, message@),
    }
}

// ---- merging several images into one ----

/// What a merge of several images does first.
#[derive(Debug)]
pub enum MergeStart {
    /// It refuses, with this answer.
    Refuse(Reply),
    /// It merges the images at `paths`; what comes out is saved next to `first`.
    Merge { paths: Vec<String>, first: String },
}

/// What a merge of several images does once they were merged.
#[derive(Debug)]
pub enum MergeEnd {
    /// It is over, with this answer.
    Done(Reply),
    /// It saves what came out, next to `first`.
    Save { first: String },
}

/// Whether `start` is how `POST /hdr/merge` starts on `paths`.
pub open spec fn hdr_starts(paths: Vec<String>, start: MergeStart) -> bool {
    if paths.len() == 0 {
        start matches MergeStart::Refuse(reply) && reply.is_error(
            BAD_REQUEST,
            "paths must be non-empty"@,
        )
    } else {
        start == (MergeStart::Merge { paths, first: paths[0] })
    }
}

/// Starts `POST /hdr/merge`. There must be an image to merge.
pub fn hdr_merge(paths: Vec<String>) -> (start: MergeStart)
    ensures
        hdr_starts(paths, start),
{
    if paths.len() == 0 {
        return MergeStart::Refuse(error_reply(BAD_REQUEST, "paths must be non-empty"));
    }
    let first = paths[0].clone();
    MergeStart::Merge { paths, first }
}

/// Whether `start` is how `POST /panorama/stitch` starts on `paths`.
pub open spec fn panorama_starts(paths: Vec<String>, start: MergeStart) -> bool {
    if paths.len() < 2 {
        start matches MergeStart::Refuse(reply) && reply.is_error(
            BAD_REQUEST,
            "panorama needs >= 2 paths"@,
        )
    } else {
        start == (MergeStart::Merge { paths, first: paths[0] })
    }
}

/// Starts `POST /panorama/stitch`. There must be two images at least.
pub fn panorama_stitch(paths: Vec<String>) -> (start: MergeStart)
    ensures
        panorama_starts(paths, start),
{
    if paths.len() < 2 {
        return MergeStart::Refuse(error_reply(BAD_REQUEST, "panorama needs >= 2 paths"));
    }
    let first = paths[0].clone();
    MergeStart::Merge { paths, first }
}

/// Whether `end` is how a merge goes on once its images were merged.
pub open spec fn merge_goes_on(first: String, outcome: Result<(), String>, end: MergeEnd) -> bool {
    match outcome {
        Ok(_) => end == (MergeEnd::Save { first }),
        Err(message) => end matches MergeEnd::Done(reply) && reply.is_error(
            INTERNAL_SERVER_ERROR,
            message@,
        ),
    }
}

/// Goes on once the images were merged: what came out is saved, and a merge that
/// failed is the end.
pub fn merge_done(first: String, outcome: Result<(), String>) -> (end: MergeEnd)
    ensures
        merge_goes_on(first, outcome, end),
{
    match outcome {
        Ok(_) => MergeEnd::Save { first },
        Err(message) => MergeEnd::Done(error_reply(INTERNAL_SERVER_ERROR, &message)),
    }
}

/// Answers a merge once what came out was saved or failed to be.
pub fn merge_saved(saved: Result<String, String>) -> (reply: Reply)
    ensures
        text_answered("output"@, saved, reply),
{
    match saved {
        Ok(path) => ok_json(single("output", text_value(&path))),
        Err(message) => error_reply(INTERNAL_SERVER_ERROR, &message),
    }
}

// ---- culling and inpainting ----

/// The content of `POST /cull`. `F` is a floating-point number.
#[derive(Debug)]
pub struct CullRequest<F> {
    pub paths: Vec<String>,
    pub similarity_threshold: u32,
    pub blur_threshold: F,
    pub group_similar: bool,
    pub filter_blurry: bool,
}

/// What counts as blurry or similar.
#[derive(Debug)]
pub struct CullingSettings<F> {
    pub similarity_threshold: u32,
    pub blur_threshold: F,
    pub group_similar: bool,
    pub filter_blurry: bool,
}

/// Whether `paths` and `settings` are what `POST /cull` asks for.
pub open spec fn culls<F>(
    request: CullRequest<F>,
    paths: Vec<String>,
    settings: CullingSettings<F>,
) -> bool {
    &&& paths == request.paths
    &&& settings == (CullingSettings {
        similarity_threshold: request.similarity_threshold,
        blur_threshold: request.blur_threshold,
        group_similar: request.group_similar,
        filter_blurry: request.filter_blurry,
    })
}

/// The images that `POST /cull` asks to look through, and for what.
pub fn cull_job<F>(request: CullRequest<F>) -> (job: (Vec<String>, CullingSettings<F>))
    ensures
        culls(request, job.0, job.1),
{
    let settings = CullingSettings {
        similarity_threshold: request.similarity_threshold,
        blur_threshold: request.blur_threshold,
        group_similar: request.group_similar,
        filter_blurry: request.filter_blurry,
    };
    (request.paths, settings)
}

/// Answers `POST /cull` with the suggestions.
pub fn cull(suggestions: Result<serde_json::Value, String>) -> (reply: Reply)
    ensures
        answers(suggestions, reply),
{
    json_result(suggestions)
}

/// The content of `POST /inpaint`.
#[derive(Debug)]
pub struct InpaintRequest {
    pub path: String,
    /// What to fill and how, for the editor to read.
    pub patch_definition: serde_json::Value,
    pub current_adjustments: serde_json::Value,
    pub use_fast_inpaint: bool,
}

/// What `POST /inpaint` does first. `D` is what the editor reads a patch
/// definition into.
#[derive(Debug)]
pub enum InpaintStart<D> {
    /// It refuses, with this answer.
    Refuse(Reply),
    /// It fills the region of the image at `path`.
    Run {
        path: String,
        definition: D,
        current_adjustments: serde_json::Value,
        use_fast_inpaint: bool,
    },
}

/// Whether `start` is how `POST /inpaint` starts, once its patch definition was
/// read as `parsed`.
pub open spec fn inpaint_starts<D>(
    request: InpaintRequest,
    parsed: Result<D, String>,
    start: InpaintStart<D>,
) -> bool {
    match parsed {
        Err(cause) => start matches InpaintStart::Refuse(reply) && reply.is_error(
            BAD_REQUEST,
            "invalid patch_definition: "@ + cause@,
        ),
        Ok(definition) => start == (InpaintStart::Run {
            path: request.path,
            definition,
            current_adjustments: request.current_adjustments,
            use_fast_inpaint: request.use_fast_inpaint,
        }),
    }
}

/// Starts `POST /inpaint`, once its patch definition was read as `parsed`. One
/// that cannot be read is refused, with the reason; any other is carried out.
pub fn inpaint_start<D>(request: InpaintRequest, parsed: Result<D, String>) -> (start: InpaintStart<
    D,
>)
    ensures
        inpaint_starts(request, parsed, start),
{
    match parsed {
        Err(cause) => {
            let message = concat("invalid patch_definition: ", &cause);
            InpaintStart::Refuse(error_reply(BAD_REQUEST, &message))
        },
        Ok(definition) => InpaintStart::Run {
            path: request.path,
            definition,
            current_adjustments: request.current_adjustments,
            use_fast_inpaint: request.use_fast_inpaint,
        },
    }
}

/// Answers `POST /inpaint`, once it was carried out, with the patch in Base64.
pub fn inpaint(patch: Result<String, String>) -> (reply: Reply)
    ensures
        text_answered("patch"@, patch, reply),
{
    match patch {
        Ok(data) => ok_json(single("patch", text_value(&data))),
        Err(message) => error_reply(INTERNAL_SERVER_ERROR, &message),
    }
}

// ---- lookups ----

/// Whether `reply` answers a lookup: with what was found, under `name`, or why it
/// failed.
pub open spec fn looked_up(
    name: Seq<char>,
    found: Result<serde_json::Value, String>,
    reply: Reply,
) -> bool {
    match found {
        Ok(value) => reply.is_json(OK, Tree::Object(map![name => tree(value)])),
        Err(message) => reply.is_error(INTERNAL_SERVER_ERROR, message@),
    }
}

/// The reply to a lookup: what was found, under `name`, or why it failed.
fn lookup_reply(name: &str, found: Result<serde_json::Value, String>) -> (reply: Reply)
    ensures
        looked_up(name@, found, reply),
{
    match found {
        Ok(value) => ok_json(single(name, value)),
        Err(message) => error_reply(INTERNAL_SERVER_ERROR, &message),
    }
}

/// Answers `GET /auto-adjust` with the suggested adjustments.
pub fn auto_adjust(suggested: Result<serde_json::Value, String>) -> (reply: Reply)
    ensures
        answers(suggested, reply),
{
    json_result(suggested)
}

/// Answers `GET /lens/makers`.
pub fn lens_makers(makers: Result<serde_json::Value, String>) -> (reply: Reply)
    ensures
        looked_up("makers"@, makers, reply),
{
    lookup_reply("makers", makers)
}

/// Answers `POST /lens/autodetect` with the best match.
pub fn lens_autodetect(best: Result<serde_json::Value, String>) -> (reply: Reply)
    ensures
        looked_up("match"@, best, reply),
{
    lookup_reply("match", best)
}

/// Answers `GET /luts`.
pub fn luts_list(luts: Result<serde_json::Value, String>) -> (reply: Reply)
    ensures
        looked_up("luts"@, luts, reply),
{
    lookup_reply("luts", luts)
}

/// Answers `GET /presets`.
pub fn presets_list(presets: Result<serde_json::Value, String>) -> (reply: Reply)
    ensures
        looked_up("presets"@, presets, reply),
{
    lookup_reply("presets", presets)
}

// ---- laws ----

/// A row of strings gives its texts one for one, in order.
pub proof fn texts_keep_order(strings: Seq<String>)
    ensures
        texts_of(strings).len() == strings.len(),
        forall|i: int| 0 <= i < strings.len() ==> #[trigger] texts_of(strings)[i] == strings[i]@,
{
}

/// The denoiser gets the one image of the request, with the intensity and the
/// method that the request gives.
pub proof fn denoiser_gets_the_request<F>(request: DenoiseRequest<F>, job: DenoiseJob<F>)
    requires
        call_ensures(denoise_job::<F>, (request,), job),
    ensures
        job.paths.len() == 1,
        job.paths@[0] == request.path,
        job.intensity == request.intensity,
        job.method == request.method,
{
}

/// Film scans are inverted with the weights, the exposure and the contrast of the
/// request, each in its own place, and all of them.
pub proof fn converter_gets_the_request<F>(
    request: NegativeConvertRequest<F>,
    paths: Vec<String>,
    params: NegativeConversionParams<F>,
)
    requires
        call_ensures(negative_job::<F>, (request,), (paths, params)),
    ensures
        paths@ == request.paths@,
        params.red_weight == request.red_weight,
        params.green_weight == request.green_weight,
        params.blue_weight == request.blue_weight,
        params.exposure == request.exposure,
        params.contrast == request.contrast,
{
}

/// Images are culled by the thresholds and switches of the request, each in its own
/// place, and all of them are looked at.
pub proof fn culler_gets_the_request<F>(
    request: CullRequest<F>,
    paths: Vec<String>,
    settings: CullingSettings<F>,
)
    requires
        call_ensures(cull_job::<F>, (request,), (paths, settings)),
    ensures
        paths@ == request.paths@,
        settings.similarity_threshold == request.similarity_threshold,
        settings.blur_threshold == request.blur_threshold,
        settings.group_similar == request.group_similar,
        settings.filter_blurry == request.filter_blurry,
{
}

/// A tool that wrote files is answered with all of them, in order; one that failed,
/// with its reason.
pub proof fn outputs_are_all_named(written: Result<Vec<String>, String>, reply: Reply)
    requires
        call_ensures(denoise, (written,), reply) || call_ensures(
            negative_convert,
            (written,),
            reply,
        ),
    ensures
        reply.body is Json,
        written matches Ok(paths) ==> reply.status == 200 && (carried(reply).member("outputs"@)
            matches Tree::Array(named) && named.len() == paths.len() && forall|i: int|
            0 <= i < paths.len() ==> #[trigger] named[i] == Tree::Text(paths@[i]@))
            && carried(reply).members().dom() == set!["outputs"@],
        written matches Err(message) ==> reply.status == 500 && carried(reply).member("error"@)
            == Tree::Text(message@),
{
}

/// A merge into an HDR image starts with all the images of the request, and is to
/// be saved next to the first of them; it is refused just when there is none.
pub proof fn hdr_takes_all_images(paths: Vec<String>, start: MergeStart)
    requires
        call_ensures(hdr_merge, (paths,), start),
    ensures
        start is Refuse <==> paths.len() == 0,
        start matches MergeStart::Merge { paths: taken, first } ==> taken@ == paths@ && first
            == paths@.first(),
        start matches MergeStart::Refuse(reply) ==> reply.status == 400 && reply.body is Json
            && carried(reply).member("error"@) == Tree::Text("paths must be non-empty"@),
{
}

/// A panorama starts with all the images of the request, and is to be saved next to
/// the first of them; it is refused just when there are fewer than two.
pub proof fn panorama_takes_all_images(paths: Vec<String>, start: MergeStart)
    requires
        call_ensures(panorama_stitch, (paths,), start),
    ensures
        start is Merge <==> paths.len() >= 2,
        start matches MergeStart::Merge { paths: taken, first } ==> taken@ == paths@ && first
            == paths@.first(),
        start matches MergeStart::Refuse(reply) ==> reply.status == 400 && reply.body is Json
            && carried(reply).member("error"@) == Tree::Text("panorama needs >= 2 paths"@),
{
}

/// What was merged is saved, next to the image that the merge started with; a merge
/// that failed is answered with its reason, and saves nothing.
pub proof fn merge_is_saved_or_explained(
    first: String,
    outcome: Result<(), String>,
    end: MergeEnd,
)
    requires
        call_ensures(merge_done, (first, outcome), end),
    ensures
        end is Save <==> outcome is Ok,
        end matches MergeEnd::Save { first: beside } ==> beside == first,
        end matches MergeEnd::Done(reply) ==> (outcome matches Err(message) && reply.status == 500
            && reply.body is Json && carried(reply).member("error"@) == Tree::Text(message@)),
{
}

/// A tool that gave a text is answered with that text, under one name alone; one
/// that failed, with its reason.
pub proof fn text_is_answered_as_it_is(
    name: Seq<char>,
    given: Result<String, String>,
    reply: Reply,
)
    requires
        text_answered(name, given, reply),
    ensures
        reply.body is Json,
        given matches Ok(text) ==> reply.status == 200 && carried(reply).member(name)
            == Tree::Text(text@) && carried(reply).members().dom() == set![name],
        given matches Err(message) ==> reply.status == 500 && carried(reply).member("error"@)
            == Tree::Text(message@),
{
}

/// What a lookup found is answered as it is, under one name alone; a lookup that
/// failed is answered with its reason.
pub proof fn lookup_is_answered_as_it_is(
    name: Seq<char>,
    found: Result<serde_json::Value, String>,
    reply: Reply,
)
    requires
        looked_up(name, found, reply),
    ensures
        reply.body is Json,
        found matches Ok(value) ==> reply.status == 200 && carried(reply).member(name) == tree(
            value,
        ) && carried(reply).members().dom() == set![name],
        found matches Err(message) ==> reply.status == 500 && carried(reply).member("error"@)
            == Tree::Text(message@),
{
}

/// Inpainting is carried out just when its patch definition could be read, with
/// that definition and all else as the request gives it; otherwise it is refused
/// with what is wrong with the definition.
pub proof fn inpainting_follows_its_request<D>(
    request: InpaintRequest,
    parsed: Result<D, String>,
    start: InpaintStart<D>,
)
    requires
        call_ensures(inpaint_start::<D>, (request, parsed), start),
    ensures
        start is Run <==> parsed is Ok,
        start matches InpaintStart::Run {
            path,
            definition,
            current_adjustments,
            use_fast_inpaint,
        } ==> {
            &&& path == request.path
            &&& parsed == Ok::<D, String>(definition)
            &&& current_adjustments == request.current_adjustments
            &&& use_fast_inpaint == request.use_fast_inpaint
        },
        start matches InpaintStart::Refuse(reply) ==> (parsed matches Err(cause) && reply.status
            == 400 && reply.body is Json && carried(reply).member("error"@) == Tree::Text(
            "invalid patch_definition: "@ + cause@,
        )),
{
}

/// A saved merge is answered with the file that it was saved to, and a filled region
/// with its patch; a failure, with its reason.
pub proof fn files_and_patches_are_answered(
    given: Result<String, String>,
    saved: Reply,
    filled: Reply,
)
    requires
        call_ensures(merge_saved, (given,), saved),
        call_ensures(inpaint, (given,), filled),
    ensures
        saved.body is Json && filled.body is Json,
        given matches Ok(text) ==> saved.status == 200 && carried(saved).member("output"@)
            == Tree::Text(text@) && filled.status == 200 && carried(filled).member("patch"@)
            == Tree::Text(text@),
        given matches Err(message) ==> saved.status == 500 && carried(saved).member("error"@)
            == Tree::Text(message@) && filled.status == 500 && carried(filled).member("error"@)
            == Tree::Text(message@),
{
}

/// Suggestions, for culling and for adjustments, are answered as they are; a failure,
/// with its reason.
pub proof fn suggestions_are_answered_as_they_are(
    found: Result<serde_json::Value, String>,
    reply: Reply,
)
    requires
        call_ensures(cull, (found,), reply) || call_ensures(auto_adjust, (found,), reply),
    ensures
        reply.body is Json,
        found matches Ok(value) ==> reply.status == 200 && carried(reply) == tree(value),
        found matches Err(message) ==> reply.status == 500 && carried(reply).member("error"@)
            == Tree::Text(message@),
{
}

/// Each lookup is answered with what it found, under the name of what was looked up;
/// a failure, with its reason.
pub proof fn lookups_are_answered_by_name(
    found: Result<serde_json::Value, String>,
    makers: Reply,
    best: Reply,
    luts: Reply,
    presets: Reply,
)
    requires
        call_ensures(lens_makers, (found,), makers),
        call_ensures(lens_autodetect, (found,), best),
        call_ensures(luts_list, (found,), luts),
        call_ensures(presets_list, (found,), presets),
    ensures
        found matches Ok(value) ==> {
            &&& makers.status == 200 && carried(makers).member("makers"@) == tree(value)
            &&& best.status == 200 && carried(best).member("match"@) == tree(value)
            &&& luts.status == 200 && carried(luts).member("luts"@) == tree(value)
            &&& presets.status == 200 && carried(presets).member("presets"@) == tree(value)
        },
        found matches Err(message) ==> {
            &&& makers.status == 500 && carried(makers).member("error"@) == Tree::Text(message@)
            &&& best.status == 500 && carried(best).member("error"@) == Tree::Text(message@)
            &&& luts.status == 500 && carried(luts).member("error"@) == Tree::Text(message@)
            &&& presets.status == 500 && carried(presets).member("error"@) == Tree::Text(message@)
        },
        makers.body is Json && best.body is Json && luts.body is Json && presets.body is Json,
{
}

} // verus!
