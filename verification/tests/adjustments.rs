use rapidraw_agent::adjustments::{AdjustmentsFlags, AdjustmentsPatch, ExtraAdjustments, Slider};
use serde_json::Value;

fn slider(number: f64) -> Option<Slider> {
    Some(match serde_json::Number::from_f64(number) {
        Some(finite) => Slider::Finite(finite),
        None => Slider::NotFinite,
    })
}

fn parse(text: &str) -> Value {
    serde_json::from_str(text).unwrap()
}

fn object(text: &str) -> ExtraAdjustments {
    serde_json::from_str(text).unwrap()
}

#[test]
fn only_set_flags_are_emitted() {
    let f = AdjustmentsFlags {
        exposure: slider(0.5),
        temperature: slider(15.0),
        ..Default::default()
    };
    let v = f.into_patch().into_value();
    let obj = v.as_object().unwrap();
    assert_eq!(obj.len(), 2, "only 2 flags were set");
    assert_eq!(obj["exposure"], 0.5);
    assert_eq!(obj["temperature"], 15.0);
}

#[test]
fn camel_case_keys() {
    let f = AdjustmentsFlags {
        luma_noise_reduction: slider(10.0),
        sharpness_threshold: slider(20.0),
        ..Default::default()
    };
    let v = f.into_patch().into_value();
    let obj = v.as_object().unwrap();
    assert!(obj.contains_key("lumaNoiseReduction"));
    assert!(obj.contains_key("sharpnessThreshold"));
    assert!(!obj.contains_key("luma_noise_reduction"));
}

#[test]
fn accentuated_key_preserved() {
    let f = AdjustmentsFlags { centre: slider(5.0), ..Default::default() };
    let v = f.into_patch().into_value();
    assert_eq!(v["centré"], 5.0);
    assert!(v.get("centre").is_none());
}

#[test]
fn empty_flags_emit_empty_object() {
    let f = AdjustmentsFlags::default();
    let v = f.into_patch().into_value();
    assert!(v.as_object().unwrap().is_empty());
}

#[test]
fn merge_json_adds_keys() {
    let f = AdjustmentsFlags { exposure: slider(0.5), ..Default::default() };
    let mut extra = ExtraAdjustments::new();
    extra.insert("vibrance".into(), 10.0.into());
    extra.insert("hsl".into(), parse(r#"{ "reds": { "saturation": 20 } }"#));
    let merged = f.merge_json(extra).into_value();
    let obj = merged.as_object().unwrap();
    assert_eq!(obj.len(), 3);
    assert_eq!(obj["exposure"], 0.5);
    assert_eq!(obj["vibrance"], 10.0);
    assert_eq!(obj["hsl"]["reds"]["saturation"], 20);
}

#[test]
fn tone_mapper_serializes_as_string() {
    let f = AdjustmentsFlags { tone_mapper: Some("agx".into()), ..Default::default() };
    let v = f.into_patch().into_value();
    assert_eq!(v["toneMapper"], "agx");
}

#[test]
fn bool_flags_default_missing_true() {
    let f = AdjustmentsFlags { flip_horizontal: Some(true), ..Default::default() };
    let v = f.into_patch().into_value();
    assert_eq!(v["flipHorizontal"], true);
}

#[test]
fn every_flag_has_its_key() {
    let f = AdjustmentsFlags {
        exposure: slider(1.0),
        brightness: slider(2.0),
        contrast: slider(3.0),
        highlights: slider(4.0),
        shadows: slider(5.0),
        whites: slider(6.0),
        blacks: slider(7.0),
        tone_mapper: Some("basic".into()),
        temperature: slider(9.0),
        tint: slider(10.0),
        saturation: slider(11.0),
        vibrance: slider(12.0),
        hue: slider(13.0),
        clarity: slider(14.0),
        dehaze: slider(15.0),
        structure: slider(16.0),
        centre: slider(17.0),
        sharpness: slider(18.0),
        sharpness_threshold: slider(19.0),
        luma_noise_reduction: slider(20.0),
        color_noise_reduction: slider(21.0),
        glow_amount: slider(22.0),
        halation_amount: slider(23.0),
        flare_amount: slider(24.0),
        grain_amount: slider(25.0),
        vignette_amount: slider(26.0),
        rotation: slider(27.0),
        flip_horizontal: Some(true),
        flip_vertical: Some(false),
    };
    let expected = parse(
        r#"{
            "exposure": 1.0, "brightness": 2.0, "contrast": 3.0, "highlights": 4.0,
            "shadows": 5.0, "whites": 6.0, "blacks": 7.0, "toneMapper": "basic",
            "temperature": 9.0, "tint": 10.0, "saturation": 11.0, "vibrance": 12.0,
            "hue": 13.0, "clarity": 14.0, "dehaze": 15.0, "structure": 16.0,
            "centré": 17.0, "sharpness": 18.0, "sharpnessThreshold": 19.0,
            "lumaNoiseReduction": 20.0, "colorNoiseReduction": 21.0, "glowAmount": 22.0,
            "halationAmount": 23.0, "flareAmount": 24.0, "grainAmount": 25.0,
            "vignetteAmount": 26.0, "rotation": 27.0, "flipHorizontal": true,
            "flipVertical": false
        }"#,
    );
    assert_eq!(f.into_patch().into_value(), expected);
}

#[test]
fn set_flag_wins_over_json() {
    let f = AdjustmentsFlags { exposure: slider(0.5), ..Default::default() };
    let patch = f.merge_json(object(r#"{"exposure": 2.0, "tint": -3.0}"#));
    assert_eq!(patch.into_value(), parse(r#"{"exposure": 0.5, "tint": -3.0}"#));
}

#[test]
fn unset_flag_leaves_json_alone() {
    let patch = AdjustmentsFlags::default().merge_json(object(r#"{"exposure": 2.0}"#));
    assert_eq!(patch.into_value(), parse(r#"{"exposure": 2.0}"#));
}

#[test]
fn infinite_slider_goes_out_as_null() {
    let f = AdjustmentsFlags { hue: slider(f64::INFINITY), tint: slider(f64::NAN), ..Default::default() };
    assert_eq!(f.into_patch().into_value(), parse(r#"{"hue": null, "tint": null}"#));
}

#[test]
fn default_patch_is_empty() {
    assert!(AdjustmentsPatch::default().fields.is_empty());
}
