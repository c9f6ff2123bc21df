//! The schema: what an agent can set, for it to find out by itself.
//!
//! Kept compact on purpose: the groups of sliders, and the types and modes of
//! masks. The editor falls back to a default for every field that is missing.
use crate::adjustments::AdjustmentsFlags;
use crate::json::{Node, Object, Tree, close, open, put, text_array, texts_value, tree, trees};
use crate::reply::{OK, Reply, carried, ok_json, single};
use vstd::prelude::*;

verus! {

/// The basic sliders that hold a number.
pub open spec fn basic_sliders() -> Seq<Seq<char>> {
    seq![
        "exposure"@,
        "brightness"@,
        "contrast"@,
        "highlights"@,
        "shadows"@,
        "whites"@,
        "blacks"@,
    ]
}

/// The color sliders.
pub open spec fn color_sliders() -> Seq<Seq<char>> {
    seq![
        "temperature"@,
        "tint"@,
        "saturation"@,
        "vibrance"@,
        "hue"@,
    ]
}

/// The details sliders.
pub open spec fn details_sliders() -> Seq<Seq<char>> {
    seq![
        "clarity"@,
        "dehaze"@,
        "structure"@,
        "centré"@,
        "sharpness"@,
        "sharpnessThreshold"@,
        "lumaNoiseReduction"@,
        "colorNoiseReduction"@,
        "chromaticAberrationRedCyan"@,
        "chromaticAberrationBlueYellow"@,
    ]
}

/// The effects sliders.
pub open spec fn effects_sliders() -> Seq<Seq<char>> {
    seq![
        "glowAmount"@,
        "halationAmount"@,
        "flareAmount"@,
        "grainAmount"@,
        "grainRoughness"@,
        "grainSize"@,
        "vignetteAmount"@,
        "vignetteFeather"@,
        "vignetteMidpoint"@,
        "vignetteRoundness"@,
    ]
}

/// The geometry sliders.
pub open spec fn geometry_sliders() -> Seq<Seq<char>> {
    seq![
        "rotation"@,
        "flipHorizontal"@,
        "flipVertical"@,
        "orientationSteps"@,
        "transformDistortion"@,
        "transformVertical"@,
        "transformHorizontal"@,
        "transformRotate"@,
        "transformAspect"@,
        "transformScale"@,
        "transformXOffset"@,
        "transformYOffset"@,
    ]
}

/// The tone mappers.
pub open spec fn tone_mappers() -> Seq<Seq<char>> {
    seq![
        "basic"@,
        "agx"@,
    ]
}

/// The ways to give a curve.
pub open spec fn curve_modes() -> Seq<Seq<char>> {
    seq![
        "point"@,
        "parametric"@,
    ]
}

/// The channels that have a curve.
pub open spec fn curve_channels() -> Seq<Seq<char>> {
    seq![
        "luma"@,
        "red"@,
        "green"@,
        "blue"@,
    ]
}

/// The types of mask.
pub open spec fn mask_types() -> Seq<Seq<char>> {
    seq![
        "linear"@,
        "radial"@,
        "brush"@,
        "color"@,
        "luminance"@,
        "flow"@,
        "ai-sky"@,
        "ai-subject"@,
        "ai-foreground"@,
        "ai-depth"@,
        "clone"@,
        "heal"@,
    ]
}

/// The ways to combine the parts of a mask.
pub open spec fn mask_modes() -> Seq<Seq<char>> {
    seq![
        "additive"@,
        "subtractive"@,
        "intersect"@,
    ]
}

/// Advice to the agent.
pub open spec fn notes() -> Seq<Seq<char>> {
    seq![
        "All fields are optional; the backend applies unwrap_or defaults."@,
        "AI masks (ai-sky/ai-subject/ai-foreground/ai-depth) need only the 'type' — the backend computes the bitmap."@,
        "POST /adjust takes a partial patch that is deep-merged onto the current edits."@,
        "POST /preview is render-only (no GUI update, no sidecar). POST /adjust commits + syncs the live GUI."@,
    ]
}

/// The basic sliders: those that hold a number, and the tone mapper with its
/// choices.
pub open spec fn basic_group() -> Tree {
    Tree::Array(
        text_array(basic_sliders())->Array_0.push(
            Tree::Object(map!["toneMapper"@ => text_array(tone_mappers())]),
        ),
    )
}

/// The groups of sliders.
pub open spec fn slider_groups() -> Tree {
    Tree::Object(
        map![
            "basic"@ => basic_group(),
            "color"@ => text_array(color_sliders()),
            "details"@ => text_array(details_sliders()),
            "effects"@ => text_array(effects_sliders()),
            "geometry"@ => text_array(geometry_sliders()),
        ],
    )
}

/// The whole schema.
pub open spec fn schema_tree() -> Tree {
    Tree::Object(
        map![
            "sliderGroups"@ => slider_groups(),
            "curves"@ => Tree::Object(
                map![
                    "mode"@ => text_array(curve_modes()),
                    "channels"@ => text_array(curve_channels()),
                ],
            ),
            "maskTypes"@ => text_array(mask_types()),
            "maskModes"@ => text_array(mask_modes()),
            "notes"@ => text_array(notes()),
        ],
    )
}

fn color_sliders_value() -> (value: serde_json::Value)
    ensures
        tree(value) == text_array(color_sliders()),
{
    let texts: Vec<&str> = vec![
        "temperature",
        "tint",
        "saturation",
        "vibrance",
        "hue",
    ];
    assert(texts@.map_values(|text: &str| text@) =~= color_sliders());
    texts_value(&texts)
}

fn details_sliders_value() -> (value: serde_json::Value)
    ensures
        tree(value) == text_array(details_sliders()),
{
    let texts: Vec<&str> = vec![
        "clarity",
        "dehaze",
        "structure",
        "centré",
        "sharpness",
        "sharpnessThreshold",
        "lumaNoiseReduction",
        "colorNoiseReduction",
        "chromaticAberrationRedCyan",
        "chromaticAberrationBlueYellow",
    ];
    assert(texts@.map_values(|text: &str| text@) =~= details_sliders());
    texts_value(&texts)
}

fn effects_sliders_value() -> (value: serde_json::Value)
    ensures
        tree(value) == text_array(effects_sliders()),
{
    let texts: Vec<&str> = vec![
        "glowAmount",
        "halationAmount",
        "flareAmount",
        "grainAmount",
        "grainRoughness",
        "grainSize",
        "vignetteAmount",
        "vignetteFeather",
        "vignetteMidpoint",
        "vignetteRoundness",
    ];
    assert(texts@.map_values(|text: &str| text@) =~= effects_sliders());
    texts_value(&texts)
}

fn geometry_sliders_value() -> (value: serde_json::Value)
    ensures
        tree(value) == text_array(geometry_sliders()),
{
    let texts: Vec<&str> = vec![
        "rotation",
        "flipHorizontal",
        "flipVertical",
        "orientationSteps",
        "transformDistortion",
        "transformVertical",
        "transformHorizontal",
        "transformRotate",
        "transformAspect",
        "transformScale",
        "transformXOffset",
        "transformYOffset",
    ];
    assert(texts@.map_values(|text: &str| text@) =~= geometry_sliders());
    texts_value(&texts)
}

fn tone_mappers_value() -> (value: serde_json::Value)
    ensures
        tree(value) == text_array(tone_mappers()),
{
    let texts: Vec<&str> = vec![
        "basic",
        "agx",
    ];
    assert(texts@.map_values(|text: &str| text@) =~= tone_mappers());
    texts_value(&texts)
}

fn curve_modes_value() -> (value: serde_json::Value)
    ensures
        tree(value) == text_array(curve_modes()),
{
    let texts: Vec<&str> = vec![
        "point",
        "parametric",
    ];
    assert(texts@.map_values(|text: &str| text@) =~= curve_modes());
    texts_value(&texts)
}

fn curve_channels_value() -> (value: serde_json::Value)
    ensures
        tree(value) == text_array(curve_channels()),
{
    let texts: Vec<&str> = vec![
        "luma",
        "red",
        "green",
        "blue",
    ];
    assert(texts@.map_values(|text: &str| text@) =~= curve_channels());
    texts_value(&texts)
}

fn mask_types_value() -> (value: serde_json::Value)
    ensures
        tree(value) == text_array(mask_types()),
{
    let texts: Vec<&str> = vec![
        "linear",
        "radial",
        "brush",
        "color",
        "luminance",
        "flow",
        "ai-sky",
        "ai-subject",
        "ai-foreground",
        "ai-depth",
        "clone",
        "heal",
    ];
    assert(texts@.map_values(|text: &str| text@) =~= mask_types());
    texts_value(&texts)
}

fn mask_modes_value() -> (value: serde_json::Value)
    ensures
        tree(value) == text_array(mask_modes()),
{
    let texts: Vec<&str> = vec![
        "additive",
        "subtractive",
        "intersect",
    ];
    assert(texts@.map_values(|text: &str| text@) =~= mask_modes());
    texts_value(&texts)
}

fn notes_value() -> (value: serde_json::Value)
    ensures
        tree(value) == text_array(notes()),
{
    let texts: Vec<&str> = vec![
        "All fields are optional; the backend applies unwrap_or defaults.",
        "AI masks (ai-sky/ai-subject/ai-foreground/ai-depth) need only the 'type' — the backend computes the bitmap.",
        "POST /adjust takes a partial patch that is deep-merged onto the current edits.",
        "POST /preview is render-only (no GUI update, no sidecar). POST /adjust commits + syncs the live GUI.",
    ];
    assert(texts@.map_values(|text: &str| text@) =~= notes());
    texts_value(&texts)
}

fn basic_group_value() -> (value: serde_json::Value)
    ensures
        tree(value) == basic_group(),
{
    let texts: Vec<&str> = vec![
        "exposure",
        "brightness",
        "contrast",
        "highlights",
        "shadows",
        "whites",
        "blacks",
    ];
    assert(texts@.map_values(|text: &str| text@) =~= basic_sliders());
    match open(texts_value(&texts)) {
        Node::Array(items) => {
            let mut items = items;
            let ghost before = items@;
            items.push(single("toneMapper", tone_mappers_value()));
            assert(trees(items@) =~= trees(before).push(tree(items@.last())));
            close(Node::Array(items))
        },
        other => close(other),
    }
}

fn slider_groups_value() -> (value: serde_json::Value)
    ensures
        tree(value) == slider_groups(),
{
    let mut groups: Object = serde_json::Map::new();
    put(&mut groups, "basic", basic_group_value());
    put(&mut groups, "color", color_sliders_value());
    put(&mut groups, "details", details_sliders_value());
    put(&mut groups, "effects", effects_sliders_value());
    put(&mut groups, "geometry", geometry_sliders_value());
    close(Node::Object(groups))
}

fn curves_value() -> (value: serde_json::Value)
    ensures
        tree(value) == Tree::Object(
            map![
                "mode"@ => text_array(curve_modes()),
                "channels"@ => text_array(curve_channels()),
            ],
        ),
{
    let mut curves: Object = serde_json::Map::new();
    put(&mut curves, "mode", curve_modes_value());
    put(&mut curves, "channels", curve_channels_value());
    close(Node::Object(curves))
}

/// The schema as a document.
pub fn schema_value() -> (value: serde_json::Value)
    ensures
        tree(value) == schema_tree(),
{
    let mut schema: Object = serde_json::Map::new();
    put(&mut schema, "sliderGroups", slider_groups_value());
    put(&mut schema, "curves", curves_value());
    put(&mut schema, "maskTypes", mask_types_value());
    put(&mut schema, "maskModes", mask_modes_value());
    put(&mut schema, "notes", notes_value());
    close(Node::Object(schema))
}

/// Answers `GET /schema`.
pub fn schema() -> (reply: Reply)
    ensures
        reply.is_json(OK, schema_tree()),
{
    ok_json(schema_value())
}

// ---- laws ----

/// Whether the item `at` of the group `group` of a schema is the slider `key`:
/// by its name alone, or with the choices that it has.
pub open spec fn slider_at(schema: Tree, group: Seq<char>, at: int, key: Seq<char>) -> bool {
    schema.member("sliderGroups"@).member(group).as_array() matches Some(items) && 0 <= at
        < items.len() && (items[at] == Tree::Text(key) || items[at].members().contains_key(key))
}

/// Whether a schema names the slider `key`, in whatever group.
pub open spec fn names_slider(schema: Tree, key: Seq<char>) -> bool {
    exists|group: Seq<char>, at: int| #[trigger] slider_at(schema, group, at, key)
}

proof fn lemma_groups()
    ensures
        schema_tree().member("sliderGroups"@) == slider_groups(),
        slider_groups().member("basic"@) == basic_group(),
        slider_groups().member("color"@) == text_array(color_sliders()),
        slider_groups().member("details"@) == text_array(details_sliders()),
        slider_groups().member("effects"@) == text_array(effects_sliders()),
        slider_groups().member("geometry"@) == text_array(geometry_sliders()),
{
    reveal_strlit("sliderGroups");
    reveal_strlit("curves");
    reveal_strlit("maskTypes");
    reveal_strlit("maskModes");
    reveal_strlit("notes");
    reveal_strlit("basic");
    reveal_strlit("color");
    reveal_strlit("details");
    reveal_strlit("effects");
    reveal_strlit("geometry");
    assert("sliderGroups"@.len() == 12 && "curves"@.len() == 6 && "maskTypes"@.len() == 9
        && "maskModes"@.len() == 9 && "notes"@.len() == 5);
    assert("basic"@[0] != "color"@[0]);
    assert("details"@[0] != "effects"@[0]);
}

/// Every key that a flag can send is a slider that the schema names.
pub proof fn schema_covers_flags(flags: AdjustmentsFlags, i: int)
    requires
        0 <= i < flags.flags().len(),
    ensures
        names_slider(schema_tree(), flags.flags()[i].0),
{
    let schema = schema_tree();
    let key = flags.flags()[i].0;
    lemma_groups();
    if i < 8 {
        assert(slider_at(schema, "basic"@, i, key));
    } else if i < 13 {
        assert(slider_at(schema, "color"@, i - 8, key));
    } else if i < 21 {
        assert(slider_at(schema, "details"@, i - 13, key));
    } else if i < 25 {
        assert(slider_at(schema, "effects"@, i - 21, key));
    } else if i == 25 {
        assert(slider_at(schema, "effects"@, 6, key));
    } else {
        assert(slider_at(schema, "geometry"@, i - 26, key));
    }
}

/// `GET /schema` is answered with the schema as it is made, which names every slider
/// that a flag can set.
pub proof fn schema_is_answered(
    reply: Reply,
    value: serde_json::Value,
    flags: AdjustmentsFlags,
    i: int,
)
    requires
        call_ensures(schema, (), reply),
        call_ensures(schema_value, (), value),
        0 <= i < flags.flags().len(),
    ensures
        reply.status == 200,
        reply.body is Json,
        carried(reply) == tree(value),
        names_slider(carried(reply), flags.flags()[i].0),
{
    schema_covers_flags(flags, i);
}

} // verus!
