use rapidraw_agent::adjustments::{AdjustmentsFlags, Slider};
use rapidraw_agent::client::{
    ANSWER_SECS, Client, DISCOVERY_SECS, HealthCheck, Request, decode_error, is_success,
};
use rapidraw_agent::routes::{Method, router};
use rapidraw_agent::wire::{AdjustOk, Health, LoadResponse, MaskAddResponse, OkResponse, State};
use serde_json::Value;

fn parse(text: &str) -> Value {
    serde_json::from_str(text).unwrap()
}

fn slider(number: f64) -> Slider {
    Slider::Finite(serde_json::Number::from_f64(number).unwrap())
}

fn assert_get(request: Request, path: &str) {
    assert_eq!(request.method, Method::Get);
    assert_eq!(request.path, path);
    assert_eq!(request.body, None);
    assert_routed(Method::Get, path);
}

fn assert_post(request: Request, path: &str, body: &str) {
    assert_eq!(request.method, Method::Post);
    assert_eq!(request.path, path);
    assert_eq!(request.body, Some(parse(body)));
    assert_routed(Method::Post, path);
}

fn assert_routed(method: Method, path: &str) {
    assert!(router().iter().any(|route| route.method == method && route.path == path));
}

fn client() -> Client {
    Client::with_port(12345)
}

#[test]
fn with_port_builds_without_network() {
    let _c = Client::with_port(12345);
}

#[test]
fn url_is_on_this_machine() {
    let c = Client::with_port(12345);
    assert_eq!(c.url(&c.health()), "http://127.0.0.1:12345/health");
    let c = Client::with_port(0);
    assert_eq!(c.url(&c.mask_remove("agent-mask-1")), "http://127.0.0.1:0/mask/agent-mask-1");
}

#[test]
fn discovery_needs_a_port() {
    let c = Client::discover(Some(80)).unwrap();
    assert_eq!(c.url(&c.state()), "http://127.0.0.1:80/state");
    assert_eq!(
        Client::discover(None).unwrap_err(),
        "Could not find RapidRAW agent port. Is RapidRAW running?"
    );
    assert_eq!(DISCOVERY_SECS, 10);
    assert_eq!(ANSWER_SECS, 120);
}

#[test]
fn discovery_needs_a_server_that_answers() {
    let health = || Some(Health { status: "ok".to_string(), version: "1.5.9".to_string() });
    let confirm = |check: HealthCheck| {
        let c = Client::discover(Some(80)).unwrap();
        c.confirm(check).map(|c| c.url(&c.state()))
    };
    assert_eq!(
        confirm(HealthCheck::Answered { status: 200, health: health() }),
        Ok("http://127.0.0.1:80/state".to_string())
    );
    let refused = Err("RapidRAW server not responding at /health".to_string());
    assert_eq!(confirm(HealthCheck::Silent), refused);
    assert_eq!(confirm(HealthCheck::Answered { status: 200, health: None }), refused);
    assert_eq!(confirm(HealthCheck::Answered { status: 500, health: health() }), refused);
    assert_eq!(confirm(HealthCheck::Answered { status: 404, health: None }), refused);
}

#[test]
fn lookups_are_plain_gets() {
    assert_get(client().health(), "/health");
    assert_get(client().state(), "/state");
    assert_get(client().schema(), "/schema");
    assert_get(client().auto_adjust(), "/auto-adjust");
    assert_get(client().lens_makers(), "/lens/makers");
    assert_get(client().luts(), "/luts");
    assert_get(client().presets(), "/presets");
}

#[test]
fn load_says_whether_to_navigate() {
    assert_post(client().load("/x.jpg", true), "/load", r#"{"path": "/x.jpg", "navigate": true}"#);
    assert_post(client().load("/x.jpg", false), "/load", r#"{"path": "/x.jpg", "navigate": false}"#);
}

#[test]
fn preview_leaves_out_what_is_open() {
    assert_post(client().preview(None, None), "/preview", "{}");
    assert_post(client().preview(Some(512), None), "/preview", r#"{"target_resolution": 512}"#);
    let roi = (slider(0.0), slider(0.25), slider(0.5), Slider::NotFinite);
    assert_post(client().preview(None, Some(roi)), "/preview", r#"{"roi": [0.0, 0.25, 0.5, null]}"#);
}

#[test]
fn adjust_sends_the_patch() {
    let flags = AdjustmentsFlags { exposure: Some(slider(0.5)), ..Default::default() };
    assert_post(
        client().adjust(flags.into_patch()),
        "/adjust",
        r#"{"adjustments": {"exposure": 0.5}}"#,
    );
}

#[test]
fn export_names_its_file() {
    assert_post(client().export(None, None), "/export", "{}");
    assert_post(
        client().export(Some(1920), Some("/out.jpg")),
        "/export",
        r#"{"target_resolution": 1920, "path": "/out.jpg"}"#,
    );
}

#[test]
fn mask_add_leaves_out_what_is_open() {
    let patch = AdjustmentsFlags::default().into_patch();
    assert_post(
        client().mask_add("ai-sky", patch, None, None, None),
        "/mask/add",
        r#"{"type": "ai-sky", "adjustments": {}}"#,
    );
    let patch = AdjustmentsFlags { hue: Some(slider(2.0)), ..Default::default() }.into_patch();
    assert_post(
        client().mask_add("radial", patch, Some("Face"), Some(slider(0.5)), Some(true)),
        "/mask/add",
        r#"{"type": "radial", "adjustments": {"hue": 2.0}, "name": "Face", "opacity": 0.5,
            "invert": true}"#,
    );
    assert_post(client().mask_add_full(parse("[1]")), "/mask/add", "[1]");
}

#[test]
fn masks_are_reached_by_id() {
    let request = client().mask_update("agent-mask-1", parse(r#"{"opacity": 0.5}"#));
    assert_eq!(request.method, Method::Post);
    assert_eq!(request.path, "/mask/agent-mask-1");
    assert_eq!(request.body, Some(parse(r#"{"opacity": 0.5}"#)));
    let request = client().mask_remove("agent-mask-1");
    assert_eq!(request.method, Method::Delete);
    assert_eq!(request.path, "/mask/agent-mask-1");
    assert_eq!(request.body, None);
}

#[test]
fn tools_send_their_settings() {
    let paths = vec!["/a".to_string(), "/b".to_string()];
    assert_post(
        client().denoise("/a.cr3", slider(0.5), "ai"),
        "/denoise",
        r#"{"path": "/a.cr3", "intensity": 0.5, "method": "ai"}"#,
    );
    assert_post(client().hdr_merge(&paths), "/hdr/merge", r#"{"paths": ["/a", "/b"]}"#);
    assert_post(client().panorama_stitch(&paths), "/panorama/stitch", r#"{"paths": ["/a", "/b"]}"#);
    assert_post(
        client().negative_convert(
            &paths,
            slider(1.0),
            slider(2.0),
            slider(3.0),
            slider(0.0),
            slider(5.0),
        ),
        "/negative/convert",
        r#"{"paths": ["/a", "/b"], "redWeight": 1.0, "greenWeight": 2.0, "blueWeight": 3.0,
            "exposure": 0.0, "contrast": 5.0}"#,
    );
    assert_post(
        client().cull(&paths, 5, slider(10.0), true, false),
        "/cull",
        r#"{"paths": ["/a", "/b"], "similarityThreshold": 5, "blurThreshold": 10.0,
            "groupSimilar": true, "filterBlurry": false}"#,
    );
    assert_post(
        client().inpaint("/a", parse(r#"{"id": 1}"#), parse("{}"), true),
        "/inpaint",
        r#"{"path": "/a", "patch_definition": {"id": 1}, "current_adjustments": {},
            "use_fast_inpaint": true}"#,
    );
    assert_post(
        client().lens_autodetect("Canon", "RF 50"),
        "/lens/autodetect",
        r#"{"maker": "Canon", "model": "RF 50"}"#,
    );
}

#[test]
fn success_is_the_two_hundreds() {
    assert!(!is_success(199));
    assert!(is_success(200));
    assert!(is_success(299));
    assert!(!is_success(300));
    assert!(!is_success(500));
}

#[test]
fn error_names_status_and_reason() {
    assert_eq!(
        decode_error(500, Some("boom"), r#"{"error":"boom"}"#),
        "HTTP 500 Internal Server Error: boom"
    );
    assert_eq!(decode_error(404, None, "no such page"), "HTTP 404 Not Found: no such page");
    assert_eq!(decode_error(400, None, ""), "HTTP 400 Bad Request: ");
    assert_eq!(decode_error(999, Some("odd"), ""), "HTTP 999 <unknown status code>: odd");
}

#[test]
fn answers_are_camel_case_on_the_wire() {
    let health = Health { status: "ok".to_string(), version: "1".to_string() };
    assert_eq!(health.into_value(), parse(r#"{"status": "ok", "version": "1"}"#));
    let loaded =
        LoadResponse { path: "/x.jpg".to_string(), width: 100, height: 200, is_raw: true };
    assert_eq!(
        loaded.into_value(),
        parse(r#"{"path":"/x.jpg","width":100,"height":200,"isRaw":true}"#)
    );
    let state = State {
        path: "/x.jpg".to_string(),
        width: 100,
        height: 200,
        is_raw: false,
        adjustments: parse("{}"),
    };
    assert_eq!(
        state.into_value(),
        parse(r#"{"path":"/x.jpg","width":100,"height":200,"isRaw":false,"adjustments":{}}"#)
    );
    let added = MaskAddResponse { ok: true, mask_id: "m".to_string() };
    assert_eq!(added.into_value(), parse(r#"{"maskId": "m", "ok": true}"#));
    assert_eq!(OkResponse { ok: false }.into_value(), parse(r#"{"ok": false}"#));
    let adjusted = AdjustOk { ok: true, adjustments: None };
    assert_eq!(adjusted.into_value(), parse(r#"{"ok": true, "adjustments": null}"#));
}
