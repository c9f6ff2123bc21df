//! Rendering: the jobs for the preview worker, and what becomes of them.
//!
//! A request can bring the adjustments that it wants to see. One that brings none
//! gets the committed look: what the mirror of the live edits holds.
use crate::json::{Node, Tree, close, no_members, tree};
use crate::reply::{Body, Event, INTERNAL_SERVER_ERROR, Reply, carried, error_reply, ok_jpeg};
use crate::session::{AgentStateMirror, LoadedImage, adjust, adjusted, state_tree};
use crate::text::{concat, concat3};
use vstd::prelude::*;

verus! {

/// A job for the preview worker. `R` is a region of the image.
#[derive(Debug)]
pub struct PreviewJob<R> {
    pub adjustments: serde_json::Value,
    pub is_interactive: bool,
    pub target_resolution: Option<u32>,
    pub roi: Option<R>,
    pub compute_waveform: bool,
    pub active_waveform_channel: Option<String>,
    pub force_offscreen: bool,
}

/// What became of a job.
#[derive(Debug)]
pub enum WorkerOutcome {
    /// There was no worker to send it to.
    NotRunning,
    /// The worker did not take it, for this reason.
    NotSent(String),
    /// The worker dropped it: another job took its place, or the worker failed.
    Dropped,
    /// The worker rendered these bytes.
    Rendered(Vec<u8>),
}

/// The job that renders `adjustments` away from the screen, without a waveform.
pub open spec fn offscreen_job<R>(
    adjustments: serde_json::Value,
    is_interactive: bool,
    target_resolution: Option<u32>,
    roi: Option<R>,
) -> PreviewJob<R> {
    PreviewJob {
        adjustments,
        is_interactive,
        target_resolution,
        roi,
        compute_waveform: false,
        active_waveform_channel: None,
        force_offscreen: true,
    }
}

/// Makes the job that renders `adjustments` away from the screen.
pub fn preview_job<R>(
    adjustments: serde_json::Value,
    is_interactive: bool,
    target_resolution: Option<u32>,
    roi: Option<R>,
) -> (job: PreviewJob<R>)
    ensures
        job == offscreen_job(adjustments, is_interactive, target_resolution, roi),
{
    PreviewJob {
        adjustments,
        is_interactive,
        target_resolution,
        roi,
        compute_waveform: false,
        active_waveform_channel: None,
        force_offscreen: true,
    }
}

/// The reason why a job gave no image, if it gave none.
pub open spec fn failure(outcome: WorkerOutcome) -> Option<Seq<char>> {
    match outcome {
        WorkerOutcome::NotRunning => Some("Preview worker not running"@),
        WorkerOutcome::NotSent(cause) => Some("Failed to send to preview worker: "@ + cause@),
        WorkerOutcome::Dropped => Some("Superseded or worker failed"@),
        WorkerOutcome::Rendered(_) => None,
    }
}

/// Whether `image` is what came of a job: the image that it gave, or the reason
/// why it gave none.
pub open spec fn gives(outcome: WorkerOutcome, image: Result<Vec<u8>, String>) -> bool {
    &&& match image {
        Ok(bytes) => outcome == WorkerOutcome::Rendered(bytes),
        Err(message) => failure(outcome) == Some(message@),
    }
    &&& image is Ok <==> outcome is Rendered
}

/// The image that a job gave, or the reason why it gave none.
pub fn enqueue_preview(outcome: WorkerOutcome) -> (image: Result<Vec<u8>, String>)
    ensures
        gives(outcome, image),
{
    match outcome {
        WorkerOutcome::NotRunning => Err("Preview worker not running".to_owned()),
        WorkerOutcome::NotSent(cause) => Err(concat("Failed to send to preview worker: ", &cause)),
        WorkerOutcome::Dropped => Err("Superseded or worker failed".to_owned()),
        WorkerOutcome::Rendered(bytes) => Ok(bytes),
    }
}

// ---- which look is rendered ----

/// The adjustments that are rendered: those that a request brings, or else those
/// that the mirror holds, or else none.
pub open spec fn look(given: Option<serde_json::Value>, mirror: Option<Tree>) -> Tree {
    match given {
        Some(adjustments) => tree(adjustments),
        None => match mirror {
            Some(committed) => committed,
            None => Tree::Object(no_members()),
        },
    }
}

fn look_value(given: Option<serde_json::Value>, mirror: &AgentStateMirror) -> (adjustments:
    serde_json::Value)
    ensures
        tree(adjustments) == look(given, mirror.content()),
{
    match given {
        Some(adjustments) => adjustments,
        None => match mirror.mirror() {
            Some(committed) => committed,
            None => close(Node::Object(serde_json::Map::new())),
        },
    }
}

// ---- preview ----

/// The content of `POST /preview`. The region of interest constrains what is
/// rendered.
#[derive(Debug)]
pub struct PreviewRequest<R> {
    /// What to render; the committed look where it is not said.
    pub adjustments: Option<serde_json::Value>,
    pub target_resolution: Option<u32>,
    pub roi: Option<R>,
}

/// Whether `job` is the one that `POST /preview` asks for, with what the mirror
/// holds.
pub open spec fn previews<R>(
    request: PreviewRequest<R>,
    mirror: Option<Tree>,
    job: PreviewJob<R>,
) -> bool {
    &&& tree(job.adjustments) == look(request.adjustments, mirror)
    &&& job == offscreen_job(
        job.adjustments,
        false,
        request.target_resolution,
        request.roi,
    )
}

/// The job that `POST /preview` asks for. It is not interactive, so that the
/// answer is a clean JPEG; and nothing but the worker hears of it.
pub fn preview<R>(request: PreviewRequest<R>, mirror: &AgentStateMirror) -> (job: PreviewJob<R>)
    ensures
        previews(request, mirror.content(), job),
{
    let adjustments = look_value(request.adjustments, mirror);
    preview_job(adjustments, false, request.target_resolution, request.roi)
}

/// Whether `reply` answers `POST /preview` once the job is done.
pub open spec fn preview_answered(outcome: WorkerOutcome, reply: Reply) -> bool {
    match outcome {
        WorkerOutcome::Rendered(bytes) => reply.is_jpeg(bytes@),
        _ => failure(outcome) matches Some(message) && reply.is_error(
            INTERNAL_SERVER_ERROR,
            message,
        ),
    }
}

/// Answers `POST /preview` once the job is done.
pub fn preview_reply(outcome: WorkerOutcome) -> (reply: Reply)
    ensures
        preview_answered(outcome, reply),
{
    match enqueue_preview(outcome) {
        Ok(bytes) => ok_jpeg(bytes),
        Err(message) => error_reply(INTERNAL_SERVER_ERROR, &message),
    }
}

// ---- export ----

/// The content of `POST /export`.
#[derive(Debug)]
pub struct ExportRequest {
    /// What to render; the committed look where it is not said.
    pub adjustments: Option<serde_json::Value>,
    pub target_resolution: Option<u32>,
    /// Where to write the JPEG, besides returning it.
    pub path: Option<String>,
}

/// Whether `job` is the one that `POST /export` asks for, with what the mirror
/// holds: the whole image, rendered as for a preview.
pub open spec fn exports<R>(
    request: ExportRequest,
    mirror: Option<Tree>,
    job: PreviewJob<R>,
) -> bool {
    &&& tree(job.adjustments) == look(request.adjustments, mirror)
    &&& job == offscreen_job(job.adjustments, false, request.target_resolution, None::<R>)
}

/// Whether `path` is where the image of an export is to go.
pub open spec fn goes_to(request: ExportRequest, path: Option<String>) -> bool {
    path == request.path
}

/// The job that `POST /export` asks for, and where its image is to go.
pub fn export_image<R>(request: ExportRequest, mirror: &AgentStateMirror) -> (plan: (
    PreviewJob<R>,
    Option<String>,
))
    ensures
        exports(request, mirror.content(), plan.0),
        goes_to(request, plan.1),
{
    let adjustments = look_value(request.adjustments, mirror);
    (preview_job(adjustments, false, request.target_resolution, None), request.path)
}

/// What an export does next.
#[derive(Debug)]
pub enum ExportStep {
    /// It is done, and this is the answer.
    Done(Reply),
    /// It writes the image to a file.
    Write { path: String, bytes: Vec<u8> },
}

/// Whether `step` is how an export goes on once its job is done.
pub open spec fn export_goes_on(
    outcome: WorkerOutcome,
    path: Option<String>,
    step: ExportStep,
) -> bool {
    match (outcome, path) {
        (WorkerOutcome::Rendered(image), Some(target)) => step == (ExportStep::Write {
            path: target,
            bytes: image,
        }),
        (WorkerOutcome::Rendered(image), None) => step matches ExportStep::Done(reply)
            && reply.is_jpeg(image@),
        _ => failure(outcome) matches Some(message) && (step matches ExportStep::Done(reply)
            && reply.is_error(INTERNAL_SERVER_ERROR, message)),
    }
}

/// Goes on with an export once its job is done: an image that is to go to a file
/// is written, any other is the answer, and no image is a failure.
pub fn export_rendered(outcome: WorkerOutcome, path: Option<String>) -> (step: ExportStep)
    ensures
        export_goes_on(outcome, path, step),
{
    match enqueue_preview(outcome) {
        Ok(bytes) => match path {
            Some(path) => ExportStep::Write { path, bytes },
            None => ExportStep::Done(ok_jpeg(bytes)),
        },
        Err(message) => ExportStep::Done(error_reply(INTERNAL_SERVER_ERROR, &message)),
    }
}

/// Whether `reply` answers `POST /export` once its image was written or failed to
/// be.
pub open spec fn export_answered(
    path: Seq<char>,
    bytes: Seq<u8>,
    written: Result<(), String>,
    reply: Reply,
) -> bool {
    match written {
        Ok(_) => reply.is_jpeg(bytes),
        Err(cause) => reply.is_error(
            INTERNAL_SERVER_ERROR,
            "failed to write "@ + path + ": "@ + cause@,
        ),
    }
}

/// Answers `POST /export` once its image was written or failed to be.
pub fn export_written(path: &str, bytes: Vec<u8>, written: Result<(), String>) -> (reply: Reply)
    ensures
        export_answered(path@, bytes@, written, reply),
{
    match written {
        Ok(_) => ok_jpeg(bytes),
        Err(cause) => {
            let message = concat(&concat3("failed to write ", path, ": "), &cause);
            error_reply(INTERNAL_SERVER_ERROR, &message)
        },
    }
}

// ---- laws ----

/// Adjust first, and a preview that brings no adjustments shows the change: right
/// after `POST /adjust` it renders the merged adjustments, whatever the mirror
/// held before.
pub proof fn preview_shows_adjust<R>(
    mirror: &mut AgentStateMirror,
    patch: serde_json::Value,
    outcome: (Event, Reply),
    after: AgentStateMirror,
    request: PreviewRequest<R>,
    job: PreviewJob<R>,
)
    requires
        call_ensures(adjust, (mirror, patch), outcome),
        after == *final(mirror),
        request.adjustments is None,
        call_ensures(preview::<R>, (request, &after), job),
    ensures
        tree(job.adjustments) == adjusted(old(mirror).content(), tree(patch)),
{
}

/// Adjust first, and an export that brings no adjustments shows the change, as a
/// preview does.
pub proof fn export_shows_adjust<R>(
    mirror: &mut AgentStateMirror,
    patch: serde_json::Value,
    outcome: (Event, Reply),
    after: AgentStateMirror,
    request: ExportRequest,
    job: PreviewJob<R>,
    path: Option<String>,
)
    requires
        call_ensures(adjust, (mirror, patch), outcome),
        after == *final(mirror),
        request.adjustments is None,
        call_ensures(export_image::<R>, (request, &after), (job, path)),
    ensures
        tree(job.adjustments) == adjusted(old(mirror).content(), tree(patch)),
{
}

/// What is rendered for a request that brings no adjustments is what `GET /state`
/// shows.
pub proof fn committed_look_is_the_state(loaded: Option<LoadedImage>, mirror: Option<Tree>)
    ensures
        look(None, mirror) == state_tree(loaded, mirror).member("adjustments"@),
{
}

/// An export renders what a preview of the whole image renders.
pub proof fn export_renders_as_preview<R>(
    asked: PreviewRequest<R>,
    export: ExportRequest,
    mirror: AgentStateMirror,
    previewed: PreviewJob<R>,
    exported: PreviewJob<R>,
    path: Option<String>,
)
    requires
        asked.adjustments == export.adjustments,
        asked.target_resolution == export.target_resolution,
        asked.roi is None,
        call_ensures(preview::<R>, (asked, &mirror), previewed),
        call_ensures(export_image::<R>, (export, &mirror), (exported, path)),
    ensures
        tree(exported.adjustments) == tree(previewed.adjustments),
        exported == (PreviewJob { adjustments: exported.adjustments, ..previewed }),
{
}

/// A preview or an export that brings adjustments renders those and nothing else,
/// whatever the mirror holds: the live edits have no part in it.
pub proof fn given_look_is_rendered_alone<R>(
    given: serde_json::Value,
    mirror: AgentStateMirror,
    asked: PreviewRequest<R>,
    previewed: PreviewJob<R>,
    export: ExportRequest,
    exported: PreviewJob<R>,
    path: Option<String>,
)
    requires
        asked.adjustments == Some(given),
        call_ensures(preview::<R>, (asked, &mirror), previewed),
        export.adjustments == Some(given),
        call_ensures(export_image::<R>, (export, &mirror), (exported, path)),
    ensures
        tree(previewed.adjustments) == tree(given),
        tree(exported.adjustments) == tree(given),
{
}

/// A preview or an export that brings no adjustments renders what the mirror
/// holds, and bare defaults where it holds nothing.
pub proof fn committed_look_is_rendered<R>(
    mirror: AgentStateMirror,
    asked: PreviewRequest<R>,
    previewed: PreviewJob<R>,
    export: ExportRequest,
    exported: PreviewJob<R>,
    path: Option<String>,
)
    requires
        asked.adjustments is None,
        call_ensures(preview::<R>, (asked, &mirror), previewed),
        export.adjustments is None,
        call_ensures(export_image::<R>, (export, &mirror), (exported, path)),
    ensures
        tree(exported.adjustments) == tree(previewed.adjustments),
        mirror.content() matches Some(committed) ==> tree(previewed.adjustments) == committed,
        mirror.content() is None ==> tree(previewed.adjustments) == Tree::Object(no_members()),
{
}

/// A job renders what was asked for and no more: at the resolution and in the
/// region of the request, an export the whole image; away from the screen, as a
/// clean image, with nothing measured on the way.
pub proof fn jobs_render_what_was_asked_for<R>(
    mirror: AgentStateMirror,
    asked: PreviewRequest<R>,
    previewed: PreviewJob<R>,
    export: ExportRequest,
    exported: PreviewJob<R>,
    path: Option<String>,
)
    requires
        call_ensures(preview::<R>, (asked, &mirror), previewed),
        call_ensures(export_image::<R>, (export, &mirror), (exported, path)),
    ensures
        previewed.target_resolution == asked.target_resolution,
        previewed.roi == asked.roi,
        exported.target_resolution == export.target_resolution,
        exported.roi is None,
        !previewed.is_interactive && !exported.is_interactive,
        previewed.force_offscreen && exported.force_offscreen,
        !previewed.compute_waveform && !exported.compute_waveform,
        previewed.active_waveform_channel is None && exported.active_waveform_channel is None,
{
}

/// A job made for a caller holds all that the caller handed over.
pub proof fn jobs_keep_what_they_are_given<R>(
    adjustments: serde_json::Value,
    is_interactive: bool,
    target_resolution: Option<u32>,
    roi: Option<R>,
)
    ensures
        offscreen_job(adjustments, is_interactive, target_resolution, roi).adjustments
            == adjustments,
        offscreen_job(adjustments, is_interactive, target_resolution, roi).is_interactive
            == is_interactive,
        offscreen_job(adjustments, is_interactive, target_resolution, roi).target_resolution
            == target_resolution,
        offscreen_job(adjustments, is_interactive, target_resolution, roi).roi == roi,
        offscreen_job(adjustments, is_interactive, target_resolution, roi).force_offscreen,
        !offscreen_job(adjustments, is_interactive, target_resolution, roi).compute_waveform,
        offscreen_job(adjustments, is_interactive, target_resolution, roi).active_waveform_channel
            is None,
{
}

/// What came of a job is passed on as it is: the very bytes that the worker
/// rendered, or else a reason that tells the three failures apart and names the
/// cause where there is one.
pub proof fn outcomes_are_passed_on(outcome: WorkerOutcome, image: Result<Vec<u8>, String>)
    requires
        call_ensures(enqueue_preview, (outcome,), image),
    ensures
        outcome matches WorkerOutcome::Rendered(bytes) ==> image == Ok::<Vec<u8>, String>(bytes),
        outcome is NotRunning ==> (image matches Err(message) && message@
            == "Preview worker not running"@),
        outcome is Dropped ==> (image matches Err(message) && message@
            == "Superseded or worker failed"@),
        outcome matches WorkerOutcome::NotSent(cause) ==> (image matches Err(message) && message@
            == "Failed to send to preview worker: "@ + cause@),
{
}

/// A preview is answered with the bytes that the worker rendered, as an image; and
/// with no image, by an error that gives the very reason.
pub proof fn preview_gives_the_rendered_bytes(
    outcome: WorkerOutcome,
    reply: Reply,
    image: Result<Vec<u8>, String>,
)
    requires
        call_ensures(preview_reply, (outcome,), reply),
        call_ensures(enqueue_preview, (outcome,), image),
    ensures
        image matches Ok(bytes) ==> reply.status == 200 && (reply.body matches Body::Jpeg(sent)
            && sent@ == bytes@),
        image matches Err(message) ==> reply.status == 500 && reply.body is Json && carried(
            reply,
        ).member("error"@) == Tree::Text(message@),
{
}

/// An export goes where it was told: the rendered bytes to the file of the request,
/// to no other and only if there is one; else they are the answer. With no image,
/// it ends with the reason and writes nothing.
pub proof fn export_goes_where_it_was_told(
    outcome: WorkerOutcome,
    path: Option<String>,
    step: ExportStep,
    image: Result<Vec<u8>, String>,
)
    requires
        call_ensures(export_rendered, (outcome, path), step),
        call_ensures(enqueue_preview, (outcome,), image),
    ensures
        step is Write <==> image is Ok && path is Some,
        step matches ExportStep::Write { path: target, bytes } ==> Some(target) == path && Ok::<
            Vec<u8>,
            String,
        >(bytes) == image,
        step matches ExportStep::Done(reply) ==> {
            &&& image matches Ok(bytes) ==> reply.status == 200 && (reply.body matches Body::Jpeg(
                sent,
            ) && sent@ == bytes@)
            &&& image matches Err(message) ==> reply.status == 500 && reply.body is Json
                && carried(reply).member("error"@) == Tree::Text(message@)
        },
{
}

/// An export that was written is answered with the image that was written; one
/// that could not be, by an error that names the file and the cause.
pub proof fn export_answers_with_what_it_wrote(
    path: &str,
    bytes: Vec<u8>,
    written: Result<(), String>,
    reply: Reply,
)
    requires
        call_ensures(export_written, (path, bytes, written), reply),
    ensures
        written is Ok ==> reply.status == 200 && (reply.body matches Body::Jpeg(sent) && sent@
            == bytes@),
        written matches Err(cause) ==> reply.status == 500 && reply.body is Json && carried(
            reply,
        ).member("error"@) == Tree::Text("failed to write "@ + path@ + ": "@ + cause@),
{
}

/// An export that names a file ends up in that file, with the bytes that were
/// rendered; one that names none is not written anywhere.
pub proof fn export_ends_up_in_its_file<R>(
    mirror: AgentStateMirror,
    job: PreviewJob<R>,
    request: ExportRequest,
    path: Option<String>,
    bytes: Vec<u8>,
    step: ExportStep,
)
    requires
        call_ensures(export_image::<R>, (request, &mirror), (job, path)),
        call_ensures(export_rendered, (WorkerOutcome::Rendered(bytes), path), step),
    ensures
        request.path matches Some(file) ==> (step matches ExportStep::Write {
            path: target,
            bytes: image,
        } && target == file && image@ == bytes@),
        request.path is None ==> (step matches ExportStep::Done(reply) && reply.status == 200 && (
        reply.body matches Body::Jpeg(image) && image@ == bytes@)),
{
}

/// A job made by [`preview_job`] holds all that was handed over, and is rendered away
/// from the screen with nothing measured.
pub proof fn made_jobs_keep_what_they_are_given<R>(
    adjustments: serde_json::Value,
    is_interactive: bool,
    target_resolution: Option<u32>,
    roi: Option<R>,
    job: PreviewJob<R>,
)
    requires
        call_ensures(
            preview_job::<R>,
            (adjustments, is_interactive, target_resolution, roi),
            job,
        ),
    ensures
        job.adjustments == adjustments,
        job.is_interactive == is_interactive,
        job.target_resolution == target_resolution,
        job.roi == roi,
        job.force_offscreen && !job.compute_waveform && job.active_waveform_channel is None,
{
}

} // verus!
