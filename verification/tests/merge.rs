use rapidraw_agent::merge::merge_json;
use serde_json::Value;

fn merged(base: &str, patch: &str) -> Value {
    merge_json(parse(base), parse(patch))
}

fn parse(text: &str) -> Value {
    serde_json::from_str(text).unwrap()
}

#[test]
fn other_edits_stay() {
    let after = merged(
        r#"{"exposure": 0.1, "masks": [{"id": "a"}], "hsl": {"reds": {"hue": 1, "saturation": 2}}}"#,
        r#"{"exposure": 0.5, "hsl": {"reds": {"saturation": 20}}}"#,
    );
    let expected = parse(
        r#"{"exposure": 0.5, "masks": [{"id": "a"}], "hsl": {"reds": {"hue": 1, "saturation": 20}}}"#,
    );
    assert_eq!(after, expected);
}

#[test]
fn arrays_are_replaced() {
    assert_eq!(merged(r#"{"a": [1, 2, 3]}"#, r#"{"a": [4]}"#), parse(r#"{"a": [4]}"#));
}

#[test]
fn null_replaces_a_value() {
    assert_eq!(merged(r#"{"a": {"b": 1}}"#, r#"{"a": null}"#), parse(r#"{"a": null}"#));
}

#[test]
fn object_replaces_a_scalar() {
    assert_eq!(merged(r#"{"a": 1}"#, r#"{"a": {"b": 2}}"#), parse(r#"{"a": {"b": 2}}"#));
}

#[test]
fn new_object_comes_whole() {
    assert_eq!(merged(r#"{}"#, r#"{"a": {"b": {"c": 1}}}"#), parse(r#"{"a": {"b": {"c": 1}}}"#));
}

#[test]
fn patch_that_is_no_object_replaces_all() {
    assert_eq!(merged(r#"{"a": 1}"#, "7"), parse("7"));
    assert_eq!(merged("[1]", r#"{"a": 1}"#), parse(r#"{"a": 1}"#));
}

#[test]
fn empty_patch_changes_nothing() {
    assert_eq!(merged(r#"{"a": {"b": 1}}"#, "{}"), parse(r#"{"a": {"b": 1}}"#));
}

#[test]
fn same_patch_twice_changes_nothing_more() {
    let base = r#"{"a": 1, "n": {"x": 1}}"#;
    let patch = r#"{"n": {"y": 2}, "b": {"z": 3}}"#;
    let once = merged(base, patch);
    assert_eq!(merge_json(once.clone(), parse(patch)), once);
}

#[test]
fn document_onto_itself_stays() {
    let text = r#"{"a": [1, {"b": 2}], "c": {"d": null, "e": {"f": 1.5}}}"#;
    assert_eq!(merged(text, text), parse(text));
}

#[test]
fn nothing_is_invented() {
    let after = merged(r#"{"a": 1}"#, r#"{"b": {"c": 2}}"#);
    let names: Vec<&String> = after.as_object().unwrap().keys().collect();
    assert_eq!(names, ["a", "b"]);
    assert_eq!(after["b"].as_object().unwrap().len(), 1);
}
