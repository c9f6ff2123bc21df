use rapidraw_agent::adjustments::Slider;
use rapidraw_agent::masks::{MaskAddRequest, mask_add, mask_added, mask_remove, mask_update};
use rapidraw_agent::pipeline::{
    CullRequest, DenoiseRequest, InpaintRequest, InpaintStart, MergeEnd, MergeStart,
    NegativeConvertRequest, auto_adjust, cull, cull_job, denoise, denoise_job, hdr_merge, inpaint,
    inpaint_start, lens_autodetect, lens_makers, luts_list, merge_done, merge_saved,
    negative_convert, negative_job, panorama_stitch, presets_list,
};
use rapidraw_agent::preview::{
    ExportRequest, ExportStep, PreviewJob, PreviewRequest, WorkerOutcome, enqueue_preview, export_image,
    export_rendered, export_written, preview, preview_job, preview_reply,
};
use rapidraw_agent::reply::{Body, Event, Reply, json_result};
use rapidraw_agent::routes::{Endpoint, Method, router};
use rapidraw_agent::schema::{schema, schema_value};
use rapidraw_agent::session::{
    AgentStateMirror, ImageInfo, LoadRequest, LoadedImage, adjust, default_navigate, health, health_body,
    load, state, update_state_mirror,
};
use serde_json::Value;

fn parse(text: &str) -> Value {
    serde_json::from_str(text).unwrap()
}

fn assert_json(reply: Reply, status: u16, content: &str) {
    assert_eq!(reply.status, status);
    match reply.body {
        Body::Json(value) => assert_eq!(value, parse(content)),
        Body::Jpeg(_) => panic!("an image"),
    }
}

fn assert_jpeg(reply: Reply, bytes: &[u8]) {
    assert_eq!(reply.status, 200);
    match reply.body {
        Body::Json(_) => panic!("a document"),
        Body::Jpeg(image) => assert_eq!(image, bytes),
    }
}

fn assert_event(event: &Event, name: &str, payload: &str) {
    assert_eq!(event.name, name);
    assert_eq!(event.payload, parse(payload));
}

fn failed() -> String {
    "it broke".to_string()
}

fn strings(texts: &[&str]) -> Vec<String> {
    texts.iter().map(|text| text.to_string()).collect()
}

// ---- session ----

#[test]
fn health_payload_shape() {
    let value = health_body("9.9.9");
    assert_eq!(value["status"], "ok");
    assert_eq!(value["version"], "9.9.9");
}

#[test]
fn health_is_answered() {
    assert_json(health("1.5.9"), 200, r#"{"status": "ok", "version": "1.5.9"}"#);
}

#[test]
fn load_takes_the_window_along() {
    let request = LoadRequest { path: "/x.jpg".to_string(), navigate: default_navigate() };
    let (events, reply) = load(request, Ok(ImageInfo { width: 100, height: 200, is_raw: true }));
    let image = r#"{"path": "/x.jpg", "width": 100, "height": 200, "isRaw": true}"#;
    assert_eq!(events.len(), 2);
    assert_event(&events[0], "agent://navigate-to-image", r#"{"path": "/x.jpg"}"#);
    assert_event(&events[1], "agent://image-loaded", image);
    assert_json(reply, 200, image);
}

#[test]
fn silent_load_stays_where_it_is() {
    let request = LoadRequest { path: "/x.jpg".to_string(), navigate: false };
    let (events, reply) = load(request, Ok(ImageInfo { width: 1, height: 2, is_raw: false }));
    assert_eq!(events.len(), 1);
    assert_eq!(events[0].name, "agent://image-loaded");
    assert_eq!(reply.status, 200);
}

#[test]
fn failed_load_tells_no_one_but_the_agent() {
    let request = LoadRequest { path: "/x.jpg".to_string(), navigate: true };
    let (events, reply) = load(request, Err(failed()));
    assert!(events.is_empty());
    assert_json(reply, 500, r#"{"error": "it broke"}"#);
}

#[test]
fn adjust_seeds_an_empty_mirror() {
    let mut mirror = AgentStateMirror::default();
    assert_eq!(mirror.mirror(), None);
    let (event, reply) = adjust(&mut mirror, parse(r#"{"exposure": 0.5}"#));
    assert_event(&event, "agent://adjustments-apply", r#"{"exposure": 0.5}"#);
    assert_json(reply, 200, r#"{"ok": true, "adjustments": {"exposure": 0.5}}"#);
    assert_eq!(mirror.mirror(), Some(parse(r#"{"exposure": 0.5}"#)));
}

#[test]
fn adjust_merges_onto_the_window() {
    let mut mirror = AgentStateMirror::default();
    update_state_mirror(&mut mirror, parse(r#"{"tint": 3, "masks": [1], "hsl": {"reds": 1, "blues": 2}}"#));
    let (event, reply) = adjust(&mut mirror, parse(r#"{"hsl": {"reds": 9}, "exposure": -1}"#));
    assert_event(&event, "agent://adjustments-apply", r#"{"hsl": {"reds": 9}, "exposure": -1}"#);
    let after = r#"{"tint": 3, "masks": [1], "hsl": {"reds": 9, "blues": 2}, "exposure": -1}"#;
    assert_json(reply, 200, &format!(r#"{{"ok": true, "adjustments": {after}}}"#));
    assert_json(
        state(None, &mirror),
        200,
        &format!(
            r#"{{"path": "", "width": 0, "height": 0, "isRaw": false, "adjustments": {after}}}"#
        ),
    );
}

#[test]
fn window_overrides_the_mirror() {
    let mut mirror = AgentStateMirror::default();
    adjust(&mut mirror, parse(r#"{"exposure": 0.5}"#));
    mirror.set_mirror(parse(r#"{"tint": 1}"#));
    assert_eq!(mirror.mirror(), Some(parse(r#"{"tint": 1}"#)));
    update_state_mirror(&mut mirror, parse(r#"{"tint": 2}"#));
    assert_eq!(mirror.mirror(), Some(parse(r#"{"tint": 2}"#)));
}

#[test]
fn state_shows_image_and_edits() {
    let loaded = LoadedImage { path: "/a.cr3".to_string(), width: 6000, height: 4000, is_raw: true };
    assert_json(
        state(Some(loaded), &AgentStateMirror(Some(parse(r#"{"hue": 1}"#)))),
        200,
        r#"{"path": "/a.cr3", "width": 6000, "height": 4000, "isRaw": true, "adjustments": {"hue": 1}}"#,
    );
    assert_json(
        state(None, &AgentStateMirror::default()),
        200,
        r#"{"path": "", "width": 0, "height": 0, "isRaw": false, "adjustments": {}}"#,
    );
}

// ---- preview and export ----

fn assert_job(job: &PreviewJob<u8>, interactive: bool, resolution: Option<u32>, roi: Option<u8>) {
    assert_eq!(job.adjustments, parse(r#"{"exposure": 1}"#));
    assert_eq!(job.is_interactive, interactive);
    assert_eq!(job.target_resolution, resolution);
    assert_eq!(job.roi, roi);
    assert!(!job.compute_waveform);
    assert_eq!(job.active_waveform_channel, None);
    assert!(job.force_offscreen);
}

#[test]
fn preview_asks_for_a_clean_image() {
    let request = PreviewRequest {
        adjustments: Some(parse(r#"{"exposure": 1}"#)),
        target_resolution: Some(512),
        roi: Some(7u8),
    };
    let mirror = AgentStateMirror(Some(parse(r#"{"exposure": 9}"#)));
    assert_job(&preview(request, &mirror), false, Some(512), Some(7));
    assert_job(&preview_job(parse(r#"{"exposure": 1}"#), true, None, Some(3)), true, None, Some(3));
}

fn committed(mirror: &AgentStateMirror) -> (Value, Value) {
    let request = PreviewRequest { adjustments: None, target_resolution: None, roi: Some(1u8) };
    let previewed = preview(request, mirror);
    assert!(!previewed.is_interactive);
    assert_eq!(previewed.roi, Some(1));
    let request = ExportRequest { adjustments: None, target_resolution: None, path: None };
    let (exported, path) = export_image::<u8>(request, mirror);
    assert_eq!(path, None);
    (previewed.adjustments, exported.adjustments)
}

#[test]
fn committed_look_is_rendered() {
    let mut mirror = AgentStateMirror::default();
    assert_eq!(committed(&mirror), (parse("{}"), parse("{}")));
    update_state_mirror(&mut mirror, parse(r#"{"tint": 3, "exposure": 2.0}"#));
    adjust(&mut mirror, parse(r#"{"exposure": 0.5}"#));
    let look = parse(r#"{"tint": 3, "exposure": 0.5}"#);
    assert_eq!(committed(&mirror), (look.clone(), look.clone()));
    match state(None, &mirror).body {
        Body::Json(value) => assert_eq!(value["adjustments"], look),
        Body::Jpeg(_) => panic!("an image"),
    }
}

#[test]
fn given_null_is_not_the_committed_look() {
    let mirror = AgentStateMirror(Some(parse(r#"{"tint": 3}"#)));
    let request = PreviewRequest {
        adjustments: Some(Value::Null),
        target_resolution: None,
        roi: None::<u8>,
    };
    assert_eq!(preview(request, &mirror).adjustments, Value::Null);
}

#[test]
fn preview_answers_with_what_the_worker_made() {
    assert_jpeg(preview_reply(WorkerOutcome::Rendered(vec![1, 2, 3])), &[1, 2, 3]);
    assert_json(
        preview_reply(WorkerOutcome::NotRunning),
        500,
        r#"{"error": "Preview worker not running"}"#,
    );
    assert_json(
        preview_reply(WorkerOutcome::NotSent("closed".to_string())),
        500,
        r#"{"error": "Failed to send to preview worker: closed"}"#,
    );
    assert_json(
        preview_reply(WorkerOutcome::Dropped),
        500,
        r#"{"error": "Superseded or worker failed"}"#,
    );
}

#[test]
fn worker_outcome_is_an_image_or_a_reason() {
    assert_eq!(enqueue_preview(WorkerOutcome::Rendered(vec![9])), Ok(vec![9]));
    assert_eq!(
        enqueue_preview(WorkerOutcome::NotRunning),
        Err("Preview worker not running".to_string())
    );
    assert_eq!(
        enqueue_preview(WorkerOutcome::NotSent("x".to_string())),
        Err("Failed to send to preview worker: x".to_string())
    );
    assert_eq!(
        enqueue_preview(WorkerOutcome::Dropped),
        Err("Superseded or worker failed".to_string())
    );
}

#[test]
fn export_renders_the_whole_image() {
    let request = ExportRequest {
        adjustments: Some(parse(r#"{"exposure": 1}"#)),
        target_resolution: Some(1920),
        path: Some("/out.jpg".to_string()),
    };
    let (job, path) = export_image::<u8>(request, &AgentStateMirror::default());
    assert_job(&job, false, Some(1920), None);
    assert_eq!(path, Some("/out.jpg".to_string()));
}

#[test]
fn export_writes_where_it_was_told() {
    match export_rendered(WorkerOutcome::Rendered(vec![1]), Some("/out.jpg".to_string())) {
        ExportStep::Write { path, bytes } => {
            assert_eq!(path, "/out.jpg");
            assert_eq!(bytes, [1]);
        }
        ExportStep::Done(_) => panic!("not written"),
    }
    assert_jpeg(export_written("/out.jpg", vec![1], Ok(())), &[1]);
    assert_json(
        export_written("/out.jpg", vec![1], Err("disk full".to_string())),
        500,
        r#"{"error": "failed to write /out.jpg: disk full"}"#,
    );
}

#[test]
fn export_without_a_file_is_answered_at_once() {
    match export_rendered(WorkerOutcome::Rendered(vec![4]), None) {
        ExportStep::Done(reply) => assert_jpeg(reply, &[4]),
        ExportStep::Write { .. } => panic!("written"),
    }
    match export_rendered(WorkerOutcome::Dropped, Some("/out.jpg".to_string())) {
        ExportStep::Done(reply) => {
            assert_json(reply, 500, r#"{"error": "Superseded or worker failed"}"#)
        }
        ExportStep::Write { .. } => panic!("written"),
    }
}

// ---- masks ----

#[test]
fn mask_gets_defaults() {
    let request = MaskAddRequest {
        mask_type: "ai-sky".to_string(),
        adjustments: parse(r#"{"exposure": -1.0}"#),
        name: None,
        opacity: None,
        invert: None,
        sub_masks: None,
    };
    let (event, reply) = mask_added("u", request);
    assert_event(
        &event,
        "agent://mask-added",
        r#"{
            "id": "agent-mask-u", "type": "ai-sky", "name": "Agent: ai-sky", "opacity": 1.0,
            "invert": false, "adjustments": {"exposure": -1.0},
            "subMasks": [{"id": "agent-mask-u-0", "type": "ai-sky", "mode": "additive",
                          "visible": true, "invert": false, "opacity": 1.0}]
        }"#,
    );
    assert_json(reply, 200, r#"{"maskId": "agent-mask-u", "ok": true}"#);
}

#[test]
fn mask_keeps_what_was_asked_for() {
    let request = MaskAddRequest {
        mask_type: "radial".to_string(),
        adjustments: Value::Null,
        name: Some("Face".to_string()),
        opacity: Some(Slider::Finite(serde_json::Number::from_f64(0.25).unwrap())),
        invert: Some(true),
        sub_masks: Some(vec![parse(r#"{"type": "radial"}"#), parse("2")]),
    };
    let (event, _) = mask_added("u", request);
    assert_event(
        &event,
        "agent://mask-added",
        r#"{
            "id": "agent-mask-u", "type": "radial", "name": "Face", "opacity": 0.25,
            "invert": true, "adjustments": null, "subMasks": [{"type": "radial"}, 2]
        }"#,
    );
}

fn sky() -> MaskAddRequest {
    MaskAddRequest {
        mask_type: "ai-sky".to_string(),
        adjustments: Value::Null,
        name: None,
        opacity: None,
        invert: None,
        sub_masks: Some(Vec::new()),
    }
}

#[test]
fn each_mask_has_an_id_of_its_own() {
    let (event, reply) = mask_add(sky());
    let id = event.payload["id"].as_str().unwrap().to_string();
    match reply.body {
        Body::Json(value) => assert_eq!(value["maskId"], id.as_str()),
        Body::Jpeg(_) => panic!("an image"),
    }
    let uuid = id.strip_prefix("agent-mask-").unwrap();
    assert_eq!(uuid::Uuid::parse_str(uuid).unwrap().get_version_num(), 4);
    assert_eq!(uuid.len(), 36);
    let (other, _) = mask_add(sky());
    assert_ne!(other.payload["id"], id.as_str());
}

#[test]
fn mask_is_updated_and_removed_by_id() {
    let (event, reply) = mask_update("agent-mask-1", parse(r#"{"opacity": 0.5}"#));
    assert_event(
        &event,
        "agent://mask-updated",
        r#"{"id": "agent-mask-1", "patch": {"opacity": 0.5}}"#,
    );
    assert_json(reply, 200, r#"{"ok": true}"#);
    let (event, reply) = mask_remove("agent-mask-1");
    assert_event(&event, "agent://mask-removed", r#"{"id": "agent-mask-1"}"#);
    assert_json(reply, 200, r#"{"ok": true}"#);
}

// ---- pipeline tools ----

#[test]
fn denoise_runs_on_one_image() {
    let job = denoise_job(DenoiseRequest {
        path: "/a.cr3".to_string(),
        intensity: 0.5f32,
        method: "bm3d".to_string(),
    });
    assert_eq!(job.paths, ["/a.cr3"]);
    assert_eq!(job.intensity, 0.5);
    assert_eq!(job.method, "bm3d");
    assert_json(denoise(Ok(strings(&["/a_Denoised.tiff"]))), 200, r#"{"outputs": ["/a_Denoised.tiff"]}"#);
    assert_json(denoise(Err(failed())), 500, r#"{"error": "it broke"}"#);
}

#[test]
fn negatives_keep_their_weights() {
    let (paths, params) = negative_job(NegativeConvertRequest {
        paths: strings(&["/a", "/b"]),
        red_weight: 1u8,
        green_weight: 2,
        blue_weight: 3,
        exposure: 4,
        contrast: 5,
    });
    assert_eq!(paths, ["/a", "/b"]);
    assert_eq!(params.red_weight, 1);
    assert_eq!(params.green_weight, 2);
    assert_eq!(params.blue_weight, 3);
    assert_eq!(params.exposure, 4);
    assert_eq!(params.contrast, 5);
    assert_json(negative_convert(Ok(Vec::new())), 200, r#"{"outputs": []}"#);
    assert_json(negative_convert(Err(failed())), 500, r#"{"error": "it broke"}"#);
}

#[test]
fn cull_keeps_its_settings() {
    let (paths, settings) = cull_job(CullRequest {
        paths: strings(&["/a"]),
        similarity_threshold: 5,
        blur_threshold: 10.0f64,
        group_similar: true,
        filter_blurry: false,
    });
    assert_eq!(paths, ["/a"]);
    assert_eq!(settings.similarity_threshold, 5);
    assert_eq!(settings.blur_threshold, 10.0);
    assert!(settings.group_similar);
    assert!(!settings.filter_blurry);
    assert_json(cull(Ok(parse(r#"{"blurry": []}"#))), 200, r#"{"blurry": []}"#);
    assert_json(cull(Err(failed())), 500, r#"{"error": "it broke"}"#);
}

fn assert_merge(start: MergeStart, expected: &[&str]) {
    match start {
        MergeStart::Merge { paths, first } => {
            assert_eq!(paths, expected);
            assert_eq!(first, expected[0]);
        }
        MergeStart::Refuse(_) => panic!("refused"),
    }
}

fn assert_refused(start: MergeStart, content: &str) {
    match start {
        MergeStart::Merge { .. } => panic!("merged"),
        MergeStart::Refuse(reply) => assert_json(reply, 400, content),
    }
}

#[test]
fn hdr_needs_an_image() {
    assert_refused(hdr_merge(Vec::new()), r#"{"error": "paths must be non-empty"}"#);
    assert_merge(hdr_merge(strings(&["/a"])), &["/a"]);
    assert_merge(hdr_merge(strings(&["/a", "/b"])), &["/a", "/b"]);
}

#[test]
fn panorama_needs_two_images() {
    assert_refused(panorama_stitch(Vec::new()), r#"{"error": "panorama needs >= 2 paths"}"#);
    assert_refused(panorama_stitch(strings(&["/a"])), r#"{"error": "panorama needs >= 2 paths"}"#);
    assert_merge(panorama_stitch(strings(&["/a", "/b"])), &["/a", "/b"]);
}

#[test]
fn merge_is_saved_beside_its_first_image() {
    match merge_done("/a".to_string(), Ok(())) {
        MergeEnd::Save { first } => assert_eq!(first, "/a"),
        MergeEnd::Done(_) => panic!("done"),
    }
    match merge_done("/a".to_string(), Err(failed())) {
        MergeEnd::Done(reply) => assert_json(reply, 500, r#"{"error": "it broke"}"#),
        MergeEnd::Save { .. } => panic!("saved"),
    }
    assert_json(merge_saved(Ok("/a_HDR.tiff".to_string())), 200, r#"{"output": "/a_HDR.tiff"}"#);
    assert_json(merge_saved(Err(failed())), 500, r#"{"error": "it broke"}"#);
}

#[test]
fn inpaint_checks_its_patch_definition() {
    let request = || InpaintRequest {
        path: "/a".to_string(),
        patch_definition: parse(r#"{"id": 1}"#),
        current_adjustments: parse(r#"{"hue": 1}"#),
        use_fast_inpaint: true,
    };
    match inpaint_start::<u8>(request(), Err("missing field `name`".to_string())) {
        InpaintStart::Refuse(reply) => assert_json(
            reply,
            400,
            r#"{"error": "invalid patch_definition: missing field `name`"}"#,
        ),
        InpaintStart::Run { .. } => panic!("run"),
    }
    match inpaint_start(request(), Ok(7u8)) {
        InpaintStart::Run { path, definition, current_adjustments, use_fast_inpaint } => {
            assert_eq!(path, "/a");
            assert_eq!(definition, 7);
            assert_eq!(current_adjustments, parse(r#"{"hue": 1}"#));
            assert!(use_fast_inpaint);
        }
        InpaintStart::Refuse(_) => panic!("refused"),
    }
    assert_json(inpaint(Ok("QUJD".to_string())), 200, r#"{"patch": "QUJD"}"#);
    assert_json(inpaint(Err(failed())), 500, r#"{"error": "it broke"}"#);
}

#[test]
fn lookups_name_what_they_found() {
    let found = || Ok(parse(r#"["x"]"#));
    assert_json(auto_adjust(found()), 200, r#"["x"]"#);
    assert_json(lens_makers(found()), 200, r#"{"makers": ["x"]}"#);
    assert_json(lens_autodetect(found()), 200, r#"{"match": ["x"]}"#);
    assert_json(luts_list(found()), 200, r#"{"luts": ["x"]}"#);
    assert_json(presets_list(found()), 200, r#"{"presets": ["x"]}"#);
    for lookup in [auto_adjust, lens_makers, lens_autodetect, luts_list, presets_list] {
        assert_json(lookup(Err(failed())), 500, r#"{"error": "it broke"}"#);
    }
}

#[test]
fn result_is_json_or_an_error() {
    assert_json(json_result(Ok(parse("[1]"))), 200, "[1]");
    assert_json(json_result(Err(failed())), 500, r#"{"error": "it broke"}"#);
}

// ---- schema and routes ----

#[test]
fn schema_is_complete() {
    let expected = parse(
        r#"{
            "sliderGroups": {
                "basic": ["exposure", "brightness", "contrast", "highlights", "shadows",
                          "whites", "blacks", { "toneMapper": ["basic", "agx"] }],
                "color": ["temperature", "tint", "saturation", "vibrance", "hue"],
                "details": ["clarity", "dehaze", "structure", "centré", "sharpness",
                            "sharpnessThreshold", "lumaNoiseReduction", "colorNoiseReduction",
                            "chromaticAberrationRedCyan", "chromaticAberrationBlueYellow"],
                "effects": ["glowAmount", "halationAmount", "flareAmount",
                            "grainAmount", "grainRoughness", "grainSize",
                            "vignetteAmount", "vignetteFeather", "vignetteMidpoint",
                            "vignetteRoundness"],
                "geometry": ["rotation", "flipHorizontal", "flipVertical", "orientationSteps",
                             "transformDistortion", "transformVertical", "transformHorizontal",
                             "transformRotate", "transformAspect", "transformScale",
                             "transformXOffset", "transformYOffset"]
            },
            "curves": {
                "mode": ["point", "parametric"],
                "channels": ["luma", "red", "green", "blue"]
            },
            "maskTypes": ["linear", "radial", "brush", "color", "luminance", "flow",
                          "ai-sky", "ai-subject", "ai-foreground", "ai-depth", "clone", "heal"],
            "maskModes": ["additive", "subtractive", "intersect"],
            "notes": [
                "All fields are optional; the backend applies unwrap_or defaults.",
                "AI masks (ai-sky/ai-subject/ai-foreground/ai-depth) need only the 'type' — the backend computes the bitmap.",
                "POST /adjust takes a partial patch that is deep-merged onto the current edits.",
                "POST /preview is render-only (no GUI update, no sidecar). POST /adjust commits + syncs the live GUI."
            ]
        }"#,
    );
    assert_eq!(schema_value(), expected);
    match schema().body {
        Body::Json(value) => assert_eq!(value, expected),
        Body::Jpeg(_) => panic!("an image"),
    }
}

#[test]
fn routes_are_those_documented() {
    let routes = router();
    assert_eq!(routes.len(), 21);
    let has = |method: Method, path: &str, endpoint: Endpoint| {
        routes
            .iter()
            .any(|route| route.method == method && route.path == path && route.endpoint == endpoint)
    };
    assert!(has(Method::Get, "/health", Endpoint::Health));
    assert!(has(Method::Post, "/export", Endpoint::Export));
    assert!(has(Method::Post, "/mask/add", Endpoint::MaskAdd));
    assert!(has(Method::Post, "/mask/:id", Endpoint::MaskUpdate));
    assert!(has(Method::Delete, "/mask/:id", Endpoint::MaskRemove));
    assert!(has(Method::Post, "/hdr/merge", Endpoint::HdrMerge));
    assert!(has(Method::Post, "/lens/autodetect", Endpoint::LensAutodetect));
    assert!(has(Method::Get, "/presets", Endpoint::Presets));
}
