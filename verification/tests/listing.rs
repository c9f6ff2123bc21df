use rapidraw_agent::listing::{list_images, list_masks, pretty, wrote_message};
use serde_json::Value;

fn parse(text: &str) -> Value {
    serde_json::from_str(text).unwrap()
}

#[test]
fn document_is_indented() {
    assert_eq!(pretty(&parse(r#"{"b": [1], "a": null}"#)).unwrap(), "{\n  \"a\": null,\n  \"b\": [\n    1\n  ]\n}");
}

#[test]
fn bytes_are_counted() {
    assert_eq!(wrote_message(0, "/o.jpg"), "wrote 0 bytes to /o.jpg");
    assert_eq!(wrote_message(120345, "/o.jpg"), "wrote 120345 bytes to /o.jpg");
}

#[test]
fn no_masks_is_said() {
    for text in ["{}", r#"{"masks": []}"#, r#"{"masks": 3}"#, "[]", "null"] {
        assert_eq!(list_masks(&parse(text)), ["(no masks)"], "{text}");
    }
}

#[test]
fn masks_have_a_line_each() {
    let adjustments = parse(
        r#"{"masks": [
            {"id": "m1", "name": "Sky", "opacity": 0.5, "subMasks": [1, 2]},
            {"id": "m2", "opacity": 1},
            {"name": 3, "opacity": "x", "subMasks": {}},
            7
        ]}"#,
    );
    assert_eq!(
        list_masks(&adjustments),
        [
            "m1\tSky\topacity=0.5\tsubmasks=2",
            "m2\t?\topacity=1\tsubmasks=0",
            "?\t?\topacity=1\tsubmasks=0",
            "?\t?\topacity=1\tsubmasks=0",
        ]
    );
}

#[test]
fn opacity_is_shown_as_a_float() {
    let adjustments = parse(r#"{"masks": [{"opacity": 1e21}, {"opacity": -2}, {"opacity": 0.1}]}"#);
    let lines = list_masks(&adjustments);
    assert_eq!(lines[0], format!("?\t?\topacity={}\tsubmasks=0", 1e21f64));
    assert_eq!(lines[1], "?\t?\topacity=-2\tsubmasks=0");
    assert_eq!(lines[2], "?\t?\topacity=0.1\tsubmasks=0");
}

#[test]
fn images_are_listed() {
    let listing = parse(
        r#"{"dir": "/d", "count": 3, "currentIndex": 1, "images": [
            {"path": "/d/a.jpg", "rating": 5, "is_edited": true},
            {"path": "/d/b.jpg", "rating": -1, "is_edited": "yes"},
            {}
        ]}"#,
    );
    assert_eq!(
        list_images(&listing),
        [
            "# dir=/d  count=3  currentIndex=Some(1)",
            "    0  ★5 *  /d/a.jpg",
            ">   1  ★0    /d/b.jpg",
            "    2  ★0    ?",
        ]
    );
}

#[test]
fn listing_without_images_has_a_heading() {
    assert_eq!(list_images(&parse("{}")), ["# dir=?  count=0  currentIndex=None"]);
    assert_eq!(
        list_images(&parse(r#"{"dir": 1, "count": 2.5, "currentIndex": -1, "images": null}"#)),
        ["# dir=?  count=0  currentIndex=None"]
    );
}

#[test]
fn long_positions_are_not_cut() {
    let images: Vec<Value> = (0..10001).map(|_| parse(r#"{"path": "p"}"#)).collect();
    let mut map = serde_json::Map::new();
    map.insert("images".to_string(), Value::Array(images));
    let lines = list_images(&Value::Object(map));
    assert_eq!(lines.len(), 10002);
    assert_eq!(lines[11], "   10  ★0    p");
    assert_eq!(lines[10000], " 9999  ★0    p");
    assert_eq!(lines[10001], " 10000  ★0    p");
}
