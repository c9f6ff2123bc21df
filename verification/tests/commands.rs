use rapidraw_agent::adjustments::{AdjustmentsFlags, Slider};
use rapidraw_agent::cli::{
    CliError, MAX_RATING, build_patch, color_label, make_box, parse_box, patch_is_empty,
};
use rapidraw_agent::client::Client;
use rapidraw_agent::command::{
    Action, Answer, Command, Direction, LensCmd, MaskCmd, Show, needs_server, plan, plan_mask, show_port,
};
use rapidraw_agent::routes::Method;
use rapidraw_agent::session::{AgentStateMirror, adjust};
use serde_json::Value;

fn parse(text: &str) -> Value {
    serde_json::from_str(text).unwrap()
}

fn slider(number: f64) -> Slider {
    Slider::Finite(serde_json::Number::from_f64(number).unwrap())
}

fn exposure() -> AdjustmentsFlags {
    AdjustmentsFlags { exposure: Some(slider(0.5)), ..Default::default() }
}

fn planned(command: Command) -> Result<Action, CliError> {
    plan(command, &Client::with_port(1))
}

fn assert_sends(command: Command, method: Method, path: &str, body: Option<&str>) -> Show {
    match planned(command) {
        Ok(Action::Send { request, show }) => {
            assert_eq!(request.method, method);
            assert_eq!(request.path, path);
            assert_eq!(request.body, body.map(parse));
            show
        }
        other => panic!("{other:?}"),
    }
}

fn assert_answer(show: Show, expected: Answer) {
    match show {
        Show::Answer(answer) => assert_eq!(answer, expected),
        other => panic!("{other:?}"),
    }
}

// ---- patches ----

#[test]
fn patch_is_built_from_flags_and_json() {
    let patch = build_patch(exposure(), None).unwrap();
    assert!(!patch_is_empty(&patch));
    assert_eq!(patch.into_value(), parse(r#"{"exposure": 0.5}"#));
    let patch = build_patch(exposure(), Some(r#"{"hsl": {"reds": 1}}"#.to_string())).unwrap();
    assert_eq!(patch.into_value(), parse(r#"{"exposure": 0.5, "hsl": {"reds": 1}}"#));
    let patch = build_patch(AdjustmentsFlags::default(), Some("{}".to_string())).unwrap();
    assert!(patch_is_empty(&patch));
}

#[test]
fn json_must_be_an_object() {
    for text in ["", "[1]", "3", "null", "{", r#"{"a": }"#] {
        let error = build_patch(exposure(), Some(text.to_string())).unwrap_err();
        assert!(matches!(error, CliError::BadAdjustments(_)), "{text}");
        assert_eq!(error.message(), "invalid --json (expected a JSON object)");
        let expected = serde_json::from_str::<serde_json::Map<String, Value>>(text).unwrap_err();
        assert_eq!(error.cause(), Some(&expected.to_string()), "{text}");
    }
}

#[test]
fn error_says_what_is_wrong_with_the_text() {
    let error = build_patch(exposure(), Some("[1]".to_string())).unwrap_err();
    assert_eq!(
        error.cause().unwrap(),
        "invalid type: sequence, expected a map at line 1 column 0"
    );
    assert_eq!(CliError::BadBox.cause(), None);
    assert_eq!(CliError::NoAdjustments.cause(), None);
}

// ---- boxes, labels, ratings ----

#[test]
fn box_is_four_numbers() {
    assert_eq!(parse_box("1,2.5, -3 ,4e2").unwrap(), parse("[1.0, 2.5, -3.0, 400.0]"));
    assert_eq!(parse_box("1,x,2,,3,4").unwrap(), parse("[1.0, 2.0, 3.0, 4.0]"));
    assert_eq!(parse_box("inf,NaN,0,-0.5").unwrap(), parse("[null, null, 0.0, -0.5]"));
    for text in ["", "1,2,3", "1,2,3,4,5", "1;2;3;4", "a,b,c,d"] {
        let error = parse_box(text).unwrap_err();
        assert!(matches!(error, CliError::BadBox), "{text}");
        assert_eq!(error.message(), "--box must be x1,y1,x2,y2");
    }
}

#[test]
fn box_is_made_of_four_coordinates() {
    let four = vec![parse("1"), parse("2"), parse("3"), parse("4")];
    assert_eq!(make_box(four).unwrap(), parse("[1, 2, 3, 4]"));
    assert!(matches!(make_box(Vec::new()), Err(CliError::BadBox)));
}

#[test]
fn label_can_be_cleared() {
    for text in ["clear", "none", ""] {
        assert_eq!(color_label(text.to_string()), None);
    }
    assert_eq!(color_label("red".to_string()), Some("red".to_string()));
    assert_eq!(color_label("Clear".to_string()), Some("Clear".to_string()));
}

fn label(color: &str, path: Option<&str>) -> (Option<String>, Option<Vec<String>>) {
    let command =
        Command::Label { color: color.to_string(), path: path.map(|path| path.to_string()) };
    match planned(command) {
        Ok(Action::SetColorLabel { color, paths }) => (color, paths),
        other => panic!("{other:?}"),
    }
}

#[test]
fn label_is_read_in_lower_case() {
    assert_eq!(label("RED", None), (Some("red".to_string()), None));
    assert_eq!(label("NoNe", None), (None, None));
    assert_eq!(label("CLEAR", Some("/a")), (None, Some(vec!["/a".to_string()])));
    assert_eq!(label("ÄPFEL", None), (Some("äpfel".to_string()), None));
}

#[test]
fn rating_has_five_stars_at_most() {
    assert_eq!(MAX_RATING, 5);
    let error = planned(Command::Rate { rating: 6, path: None }).unwrap_err();
    assert!(matches!(error, CliError::BadRating));
    assert_eq!(error.message(), "rating must be 0–5");
    match planned(Command::Rate { rating: 5, path: Some("/a".to_string()) }) {
        Ok(Action::SetRating { rating, paths }) => {
            assert_eq!(rating, 5);
            assert_eq!(paths, Some(vec!["/a".to_string()]));
        }
        other => panic!("{other:?}"),
    }
    match planned(Command::Rate { rating: 0, path: None }) {
        Ok(Action::SetRating { rating, paths }) => {
            assert_eq!(rating, 0);
            assert_eq!(paths, None);
        }
        other => panic!("{other:?}"),
    }
}

// ---- before a server is looked for ----

#[test]
fn port_needs_no_server() {
    assert!(!needs_server(&Command::Port).unwrap());
    assert!(matches!(planned(Command::Port), Ok(Action::ShowPort)));
    assert_eq!(show_port(Some(8080)).unwrap(), "8080");
    let error = show_port(None).unwrap_err();
    assert!(matches!(error, CliError::NoPort));
    assert_eq!(error.message(), "Port file not found. Is RapidRAW running?");
}

#[test]
fn bad_rating_is_refused_before_discovery() {
    assert!(needs_server(&Command::Health).unwrap());
    assert!(needs_server(&Command::Rate { rating: 5, path: None }).unwrap());
    assert!(matches!(
        needs_server(&Command::Rate { rating: 6, path: None }),
        Err(CliError::BadRating)
    ));
}

// ---- commands ----

#[test]
fn lookups_print_their_answer() {
    assert_answer(assert_sends(Command::Health, Method::Get, "/health", None), Answer::Health);
    assert_answer(assert_sends(Command::Schema, Method::Get, "/schema", None), Answer::Document);
    assert_answer(assert_sends(Command::AutoAdjust, Method::Get, "/auto-adjust", None), Answer::Document);
    assert_answer(assert_sends(Command::Luts, Method::Get, "/luts", None), Answer::Document);
    assert_answer(assert_sends(Command::Presets, Method::Get, "/presets", None), Answer::Document);
    assert_answer(assert_sends(Command::Lens(LensCmd::Makers), Method::Get, "/lens/makers", None), Answer::Document);
    let autodetect = LensCmd::Autodetect { maker: "Canon".to_string(), model: "RF".to_string() };
    assert_answer(assert_sends(
        Command::Lens(autodetect),
        Method::Post,
        "/lens/autodetect",
        Some(r#"{"maker": "Canon", "model": "RF"}"#),
    ), Answer::Document);
}

#[test]
fn load_navigates_unless_told_not_to() {
    let load = |no_navigate: bool| Command::Load { path: "/a".to_string(), no_navigate };
    assert_answer(assert_sends(
        load(false),
        Method::Post,
        "/load",
        Some(r#"{"path": "/a", "navigate": true}"#),
    ), Answer::Load);
    assert_answer(assert_sends(
        load(true),
        Method::Post,
        "/load",
        Some(r#"{"path": "/a", "navigate": false}"#),
    ), Answer::Load);
}

#[test]
fn preview_goes_to_a_file_or_out() {
    let command = Command::Preview { resolution: Some(512), out: Some("/o.jpg".to_string()) };
    match assert_sends(command, Method::Post, "/preview", Some(r#"{"target_resolution": 512}"#)) {
        Show::Image { out } => assert_eq!(out, Some("/o.jpg".to_string())),
        other => panic!("{other:?}"),
    }
    let command = Command::Preview { resolution: None, out: None };
    match assert_sends(command, Method::Post, "/preview", Some("{}")) {
        Show::Image { out } => assert_eq!(out, None),
        other => panic!("{other:?}"),
    }
}

#[test]
fn export_is_written_by_the_server() {
    let command = Command::Export { resolution: None, out: "/o.jpg".to_string() };
    match assert_sends(command, Method::Post, "/export", Some(r#"{"path": "/o.jpg"}"#)) {
        Show::Exported { out } => assert_eq!(out, "/o.jpg"),
        other => panic!("{other:?}"),
    }
}

#[test]
fn adjust_needs_something_to_adjust() {
    let command = Command::Adjust { flags: AdjustmentsFlags::default(), json: None };
    let error = planned(command).unwrap_err();
    assert!(matches!(error, CliError::NoAdjustments));
    assert_eq!(
        error.message(),
        "No adjustments given. Pass flags like --exposure 0.5 or --json '{...}'."
    );
    let command = Command::Adjust { flags: exposure(), json: Some("[]".to_string()) };
    assert!(matches!(planned(command), Err(CliError::BadAdjustments(_))));
    let command = Command::Adjust { flags: exposure(), json: Some(r#"{"a": 1}"#.to_string()) };
    assert_answer(assert_sends(
        command,
        Method::Post,
        "/adjust",
        Some(r#"{"adjustments": {"exposure": 0.5, "a": 1}}"#),
    ), Answer::Adjust);
}

#[test]
fn adjusted_flag_reaches_the_mirror() {
    let request = match planned(Command::Adjust { flags: exposure(), json: None }) {
        Ok(Action::Send { request, .. }) => request,
        other => panic!("{other:?}"),
    };
    let mut mirror = AgentStateMirror(Some(parse(r#"{"tint": 3, "exposure": 2.0}"#)));
    adjust(&mut mirror, request.body.unwrap()["adjustments"].clone());
    assert_eq!(mirror.mirror(), Some(parse(r#"{"tint": 3, "exposure": 0.5}"#)));
}

#[test]
fn state_can_be_cut_to_the_adjustments() {
    let whole = assert_sends(
        Command::State { adjustments_only: false },
        Method::Get,
        "/state",
        None,
    );
    assert_answer(whole, Answer::State);
    let part = assert_sends(Command::State { adjustments_only: true }, Method::Get, "/state", None);
    assert!(matches!(part, Show::Adjustments));
}

#[test]
fn tools_are_sent_as_given() {
    let paths = || vec!["/a".to_string(), "/b".to_string()];
    let denoise = Command::Denoise {
        path: "/a".to_string(),
        intensity: slider(0.5),
        method: "ai".to_string(),
    };
    assert_answer(assert_sends(
        denoise,
        Method::Post,
        "/denoise",
        Some(r#"{"path": "/a", "intensity": 0.5, "method": "ai"}"#),
    ), Answer::Document);
    let both = Some(r#"{"paths": ["/a", "/b"]}"#);
    assert_answer(assert_sends(Command::Hdr { paths: paths() }, Method::Post, "/hdr/merge", both), Answer::Document);
    let panorama = Command::Panorama { paths: paths() };
    assert_answer(assert_sends(panorama, Method::Post, "/panorama/stitch", both), Answer::Document);
    let negative = Command::Negative {
        paths: paths(),
        red_weight: slider(1.0),
        green_weight: slider(2.0),
        blue_weight: slider(3.0),
        exposure: slider(4.0),
        contrast: slider(5.0),
    };
    assert_answer(assert_sends(
        negative,
        Method::Post,
        "/negative/convert",
        Some(
            r#"{"paths": ["/a", "/b"], "redWeight": 1.0, "greenWeight": 2.0, "blueWeight": 3.0,
                "exposure": 4.0, "contrast": 5.0}"#,
        ),
    ), Answer::Document);
    let cull = Command::Cull {
        paths: paths(),
        similarity_threshold: 5,
        blur_threshold: slider(10.0),
        group_similar: true,
        filter_blurry: false,
    };
    assert_answer(assert_sends(
        cull,
        Method::Post,
        "/cull",
        Some(
            r#"{"paths": ["/a", "/b"], "similarityThreshold": 5, "blurThreshold": 10.0,
                "groupSimilar": true, "filterBlurry": false}"#,
        ),
    ), Answer::Document);
}

fn inpaint(patch: &str, adjustments: Option<&str>) -> Command {
    Command::Inpaint {
        path: "/a".to_string(),
        patch: patch.to_string(),
        adjustments: adjustments.map(|text| text.to_string()),
        fast: true,
    }
}

#[test]
fn inpaint_reads_its_json() {
    assert_answer(assert_sends(
        inpaint(r#"{"id": 1}"#, None),
        Method::Post,
        "/inpaint",
        Some(
            r#"{"path": "/a", "patch_definition": {"id": 1}, "current_adjustments": {},
                "use_fast_inpaint": true}"#,
        ),
    ), Answer::Document);
    assert_answer(assert_sends(
        inpaint("[]", Some(r#"{"hue": 1}"#)),
        Method::Post,
        "/inpaint",
        Some(
            r#"{"path": "/a", "patch_definition": [], "current_adjustments": {"hue": 1},
                "use_fast_inpaint": true}"#,
        ),
    ), Answer::Document);
    let error = planned(inpaint("{", Some("{"))).unwrap_err();
    assert!(matches!(error, CliError::BadPatchDefinition(_)));
    assert_eq!(error.message(), "invalid --patch JSON");
    assert_eq!(error.cause().unwrap(), "EOF while parsing an object at line 1 column 1");
    let error = planned(inpaint("{}", Some("[1,"))).unwrap_err();
    assert!(matches!(error, CliError::BadCurrentAdjustments(_)));
    assert_eq!(error.message(), "invalid --adjustments JSON");
    assert_eq!(error.cause().unwrap(), "EOF while parsing a value at line 1 column 3");
}

#[test]
fn browsing_is_left_to_the_window() {
    match planned(Command::Ls { dir: Some("/d".to_string()), json: true }) {
        Ok(Action::ListImages { dir, json }) => {
            assert_eq!(dir, Some("/d".to_string()));
            assert!(json);
        }
        other => panic!("{other:?}"),
    }
    match planned(Command::Next { wrap: true }) {
        Ok(Action::Navigate { direction, wrap }) => {
            assert_eq!(direction, Direction::Next);
            assert!(wrap);
        }
        other => panic!("{other:?}"),
    }
    match planned(Command::Prev { wrap: false }) {
        Ok(Action::Navigate { direction, wrap }) => {
            assert_eq!(direction, Direction::Prev);
            assert!(!wrap);
        }
        other => panic!("{other:?}"),
    }
}

// ---- masks ----

fn add(json: Option<&str>, name: Option<&str>, opacity: Option<f64>, bounds: Option<&str>) -> MaskCmd {
    MaskCmd::Add {
        mask_type: "ai-subject".to_string(),
        flags: exposure(),
        json: json.map(|text| text.to_string()),
        name: name.map(|text| text.to_string()),
        opacity: opacity.map(slider),
        invert: true,
        mode: "additive".to_string(),
        bounds: bounds.map(|text| text.to_string()),
        skip_generate: false,
    }
}

#[test]
fn mask_add_sends_what_was_given() {
    assert_answer(assert_sends(
        Command::Mask(add(None, None, None, None)),
        Method::Post,
        "/mask/add",
        Some(
            r#"{"type": "ai-subject", "adjustments": {"exposure": 0.5}, "mode": "additive",
                "invert": true, "skipGenerate": false}"#,
        ),
    ), Answer::MaskAdd);
    assert_answer(assert_sends(
        Command::Mask(add(Some(r#"{"a": 1}"#), Some("Ann"), Some(0.25), Some("1,2,3,4"))),
        Method::Post,
        "/mask/add",
        Some(
            r#"{"type": "ai-subject", "adjustments": {"exposure": 0.5, "a": 1},
                "mode": "additive", "invert": true, "skipGenerate": false, "name": "Ann",
                "opacity": 0.25, "box": [1.0, 2.0, 3.0, 4.0]}"#,
        ),
    ), Answer::MaskAdd);
}

#[test]
fn mask_add_checks_its_arguments() {
    let client = Client::with_port(1);
    let outcome = plan_mask(add(Some("[]"), None, None, Some("1")), &client);
    assert!(matches!(outcome, Err(CliError::BadAdjustments(_))));
    let outcome = plan_mask(add(None, None, None, Some("1,2,3")), &client);
    assert!(matches!(outcome, Err(CliError::BadBox)));
}

#[test]
fn masks_are_updated_removed_and_listed() {
    let update = |json: &str| {
        Command::Mask(MaskCmd::Update { id: "m".to_string(), json: json.to_string() })
    };
    assert_answer(assert_sends(
        update(r#"{"opacity": 0.5}"#),
        Method::Post,
        "/mask/m",
        Some(r#"{"opacity": 0.5}"#),
    ), Answer::Done);
    let error = planned(update("{")).unwrap_err();
    assert!(matches!(error, CliError::BadMaskPatch(_)));
    assert_eq!(error.message(), "invalid --json");
    assert_eq!(error.cause().unwrap(), "EOF while parsing an object at line 1 column 1");
    let remove = Command::Mask(MaskCmd::Remove { id: "m".to_string() });
    assert_answer(assert_sends(remove, Method::Delete, "/mask/m", None), Answer::Done);
    let list = assert_sends(Command::Mask(MaskCmd::List), Method::Get, "/state", None);
    assert!(matches!(list, Show::Masks));
}
