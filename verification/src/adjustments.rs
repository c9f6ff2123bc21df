//! Slider flags and the patch that they make.
//!
//! Every slider is optional, and only the sliders that were set reach the patch:
//! setting the exposure sends the exposure alone and touches no other edit.
use crate::json::{
    Node, Object, Tree, bool_value, close, entries, no_members, numeral, put, text_value,
};
use vstd::prelude::*;

verus! {

/// A number that a slider is set to. JSON has no infinities and no NaN, so
/// those go out as null.
#[derive(Debug)]
pub enum Slider {
    Finite(serde_json::Number),
    NotFinite,
}

impl Slider {
    /// The setting as it goes out.
    pub open spec fn tree(self) -> Tree {
        match self {
            Slider::Finite(number) => Tree::Number(numeral(number)),
            Slider::NotFinite => Tree::Null,
        }
    }

    /// Makes the setting a document.
    pub fn into_value(self) -> (value: serde_json::Value)
        ensures
            crate::json::tree(value) == self.tree(),
    {
        match self {
            Slider::Finite(number) => close(Node::Number(number)),
            Slider::NotFinite => close(Node::Null),
        }
    }
}

/// All sliders that hold one number, text or switch, as optional flags. Curves,
/// HSL and color grading are nested: they come as JSON (see
/// [`AdjustmentsFlags::merge_json`]).
#[derive(Debug)]
pub struct AdjustmentsFlags {
    // --- basic ---
    /// Exposure, typically -4..4.
    pub exposure: Option<Slider>,
    pub brightness: Option<Slider>,
    pub contrast: Option<Slider>,
    pub highlights: Option<Slider>,
    pub shadows: Option<Slider>,
    pub whites: Option<Slider>,
    pub blacks: Option<Slider>,
    /// Tone mapper: "basic" or "agx".
    pub tone_mapper: Option<String>,
    // --- color ---
    /// White balance temperature, typically -100..100.
    pub temperature: Option<Slider>,
    pub tint: Option<Slider>,
    pub saturation: Option<Slider>,
    pub vibrance: Option<Slider>,
    pub hue: Option<Slider>,
    // --- details ---
    pub clarity: Option<Slider>,
    pub dehaze: Option<Slider>,
    pub structure: Option<Slider>,
    /// Centre (detail). Its key keeps the accent that the editor expects.
    pub centre: Option<Slider>,
    pub sharpness: Option<Slider>,
    pub sharpness_threshold: Option<Slider>,
    pub luma_noise_reduction: Option<Slider>,
    pub color_noise_reduction: Option<Slider>,
    // --- effects ---
    pub glow_amount: Option<Slider>,
    pub halation_amount: Option<Slider>,
    pub flare_amount: Option<Slider>,
    pub grain_amount: Option<Slider>,
    pub vignette_amount: Option<Slider>,
    // --- geometry ---
    pub rotation: Option<Slider>,
    /// Flip horizontal; `Some(false)` clears it.
    pub flip_horizontal: Option<bool>,
    /// Flip vertical, likewise.
    pub flip_vertical: Option<bool>,
}

/// A nested patch given as JSON, for what the flags do not cover.
pub type ExtraAdjustments = serde_json::Map<String, serde_json::Value>;

/// A finished patch, ready to send. It holds only what was asked for, by flag or
/// in JSON.
#[derive(Debug)]
pub struct AdjustmentsPatch {
    pub fields: serde_json::Map<String, serde_json::Value>,
}

impl AdjustmentsPatch {
    /// What the patch holds.
    pub open spec fn tree(self) -> Tree {
        Tree::Object(entries(self.fields))
    }

    /// Makes the patch a document.
    pub fn into_value(self) -> (value: serde_json::Value)
        ensures
            crate::json::tree(value) == self.tree(),
    {
        close(Node::Object(self.fields))
    }
}

impl Default for AdjustmentsPatch {
    /// The patch that changes nothing.
    fn default() -> (patch: Self)
        ensures
            entries(patch.fields) == no_members(),
    {
        AdjustmentsPatch { fields: serde_json::Map::new() }
    }
}

// ---- what the flags say ----

/// A flag: its key in the patch, and what it was set to, if it was.
pub type Flag = (Seq<char>, Option<Tree>);

/// What a number flag was set to.
pub open spec fn slider_tree(flag: Option<Slider>) -> Option<Tree> {
    match flag {
        Some(slider) => Some(slider.tree()),
        None => None,
    }
}

/// What a text flag was set to.
pub open spec fn text_tree(flag: Option<String>) -> Option<Tree> {
    match flag {
        Some(text) => Some(Tree::Text(text@)),
        None => None,
    }
}

/// What a switch was set to.
pub open spec fn bool_tree(flag: Option<bool>) -> Option<Tree> {
    match flag {
        Some(truth) => Some(Tree::Bool(truth)),
        None => None,
    }
}

/// `members` with a flag put over them, if it was set.
pub open spec fn with_flag(members: Map<Seq<char>, Tree>, flag: Flag) -> Map<Seq<char>, Tree> {
    match flag.1 {
        Some(value) => members.insert(flag.0, value),
        None => members,
    }
}

/// `members` with the flags that were set put over them.
pub open spec fn flagged(members: Map<Seq<char>, Tree>, flags: Seq<Flag>) -> Map<Seq<char>, Tree>
    decreases flags.len(),
{
    if flags.len() == 0 {
        members
    } else {
        with_flag(flagged(members, flags.drop_last()), flags.last())
    }
}

impl AdjustmentsFlags {
    /// The basic flags.
    pub open spec fn basic_flags(self) -> Seq<Flag> {
        seq![
            ("exposure"@, slider_tree(self.exposure)),
            ("brightness"@, slider_tree(self.brightness)),
            ("contrast"@, slider_tree(self.contrast)),
            ("highlights"@, slider_tree(self.highlights)),
            ("shadows"@, slider_tree(self.shadows)),
            ("whites"@, slider_tree(self.whites)),
            ("blacks"@, slider_tree(self.blacks)),
            ("toneMapper"@, text_tree(self.tone_mapper)),
        ]
    }

    /// The color flags.
    pub open spec fn color_flags(self) -> Seq<Flag> {
        seq![
            ("temperature"@, slider_tree(self.temperature)),
            ("tint"@, slider_tree(self.tint)),
            ("saturation"@, slider_tree(self.saturation)),
            ("vibrance"@, slider_tree(self.vibrance)),
            ("hue"@, slider_tree(self.hue)),
        ]
    }

    /// The details flags.
    pub open spec fn details_flags(self) -> Seq<Flag> {
        seq![
            ("clarity"@, slider_tree(self.clarity)),
            ("dehaze"@, slider_tree(self.dehaze)),
            ("structure"@, slider_tree(self.structure)),
            ("centré"@, slider_tree(self.centre)),
            ("sharpness"@, slider_tree(self.sharpness)),
            ("sharpnessThreshold"@, slider_tree(self.sharpness_threshold)),
            ("lumaNoiseReduction"@, slider_tree(self.luma_noise_reduction)),
            ("colorNoiseReduction"@, slider_tree(self.color_noise_reduction)),
        ]
    }

    /// The effects flags.
    pub open spec fn effects_flags(self) -> Seq<Flag> {
        seq![
            ("glowAmount"@, slider_tree(self.glow_amount)),
            ("halationAmount"@, slider_tree(self.halation_amount)),
            ("flareAmount"@, slider_tree(self.flare_amount)),
            ("grainAmount"@, slider_tree(self.grain_amount)),
            ("vignetteAmount"@, slider_tree(self.vignette_amount)),
        ]
    }

    /// The geometry flags.
    pub open spec fn geometry_flags(self) -> Seq<Flag> {
        seq![
            ("rotation"@, slider_tree(self.rotation)),
            ("flipHorizontal"@, bool_tree(self.flip_horizontal)),
            ("flipVertical"@, bool_tree(self.flip_vertical)),
        ]
    }

    /// Every flag with its key.
    pub open spec fn flags(self) -> Seq<Flag> {
        self.basic_flags() + self.color_flags() + self.details_flags() + self.effects_flags()
            + self.geometry_flags()
    }

    /// Whether no flag was set.
    pub open spec fn none_set(self) -> bool {
        forall|i: int| 0 <= i < self.flags().len() ==> (#[trigger] self.flags()[i]).1 is None
    }

    /// Every flag with its key, in a table.
    fn table(self) -> (table: Vec<FlagValue>)
        ensures
            table@.map_values(|flag: FlagValue| flag.entry()) == self.flags(),
    {
        let table: Vec<FlagValue> = vec![
            slider_flag("exposure", self.exposure),
            slider_flag("brightness", self.brightness),
            slider_flag("contrast", self.contrast),
            slider_flag("highlights", self.highlights),
            slider_flag("shadows", self.shadows),
            slider_flag("whites", self.whites),
            slider_flag("blacks", self.blacks),
            text_flag("toneMapper", self.tone_mapper),
            slider_flag("temperature", self.temperature),
            slider_flag("tint", self.tint),
            slider_flag("saturation", self.saturation),
            slider_flag("vibrance", self.vibrance),
            slider_flag("hue", self.hue),
            slider_flag("clarity", self.clarity),
            slider_flag("dehaze", self.dehaze),
            slider_flag("structure", self.structure),
            slider_flag("centré", self.centre),
            slider_flag("sharpness", self.sharpness),
            slider_flag("sharpnessThreshold", self.sharpness_threshold),
            slider_flag("lumaNoiseReduction", self.luma_noise_reduction),
            slider_flag("colorNoiseReduction", self.color_noise_reduction),
            slider_flag("glowAmount", self.glow_amount),
            slider_flag("halationAmount", self.halation_amount),
            slider_flag("flareAmount", self.flare_amount),
            slider_flag("grainAmount", self.grain_amount),
            slider_flag("vignetteAmount", self.vignette_amount),
            slider_flag("rotation", self.rotation),
            bool_flag("flipHorizontal", self.flip_horizontal),
            bool_flag("flipVertical", self.flip_vertical),
        ];
        assert(table@.map_values(|flag: FlagValue| flag.entry()) =~= self.flags());
        table
    }

    /// Puts the flags that were set over the members of `map`.
    fn put_all(self, map: &mut Object)
        ensures
            entries(*final(map)) == flagged(entries(*old(map)), self.flags()),
    {
        let ghost before = entries(*map);
        let ghost flags = self.flags();
        let table = self.table();
        let mut i: usize = 0;
        while i < table.len()
            invariant
                i <= table.len(),
                table@.map_values(|flag: FlagValue| flag.entry()) == flags,
                entries(*map) == flagged(before, flags.take(i as int)),
            decreases table.len() - i,
        {
            assert(flags.take(i + 1).drop_last() =~= flags.take(i as int));
            assert(flags[i as int] == table@[i as int].entry());
            if let Some(value) = &table[i].value {
                put(map, table[i].key, value.clone());
            }
            i += 1;
        }
        assert(flags.take(table.len() as int) =~= flags);
    }

    /// The patch of the flags alone.
    pub fn into_patch(self) -> (patch: AdjustmentsPatch)
        ensures
            entries(patch.fields) == flagged(no_members(), self.flags()),
    {
        let mut fields: Object = serde_json::Map::new();
        self.put_all(&mut fields);
        AdjustmentsPatch { fields }
    }

    /// The patch of the flags together with `extra`. Where a flag that was set
    /// and a key of `extra` meet, the flag wins.
    pub fn merge_json(self, extra: ExtraAdjustments) -> (patch: AdjustmentsPatch)
        ensures
            entries(patch.fields) == flagged(entries(extra), self.flags()),
    {
        let mut fields: Object = extra;
        self.put_all(&mut fields);
        AdjustmentsPatch { fields }
    }
}

impl Default for AdjustmentsFlags {
    /// No flag set.
    fn default() -> (flags: Self)
        ensures
            flags.none_set(),
    {
        AdjustmentsFlags {
            exposure: None,
            brightness: None,
            contrast: None,
            highlights: None,
            shadows: None,
            whites: None,
            blacks: None,
            tone_mapper: None,
            temperature: None,
            tint: None,
            saturation: None,
            vibrance: None,
            hue: None,
            clarity: None,
            dehaze: None,
            structure: None,
            centre: None,
            sharpness: None,
            sharpness_threshold: None,
            luma_noise_reduction: None,
            color_noise_reduction: None,
            glow_amount: None,
            halation_amount: None,
            flare_amount: None,
            grain_amount: None,
            vignette_amount: None,
            rotation: None,
            flip_horizontal: None,
            flip_vertical: None,
        }
    }
}

/// A flag as it goes out: its key, and what it was set to, if it was.
struct FlagValue {
    key: &'static str,
    value: Option<serde_json::Value>,
}

impl FlagValue {
    spec fn entry(self) -> Flag {
        (
            self.key@,
            match self.value {
                Some(value) => Some(crate::json::tree(value)),
                None => None,
            },
        )
    }
}

fn slider_flag(key: &'static str, flag: Option<Slider>) -> (out: FlagValue)
    ensures
        out.entry() == (key@, slider_tree(flag)),
{
    match flag {
        Some(slider) => FlagValue { key, value: Some(slider.into_value()) },
        None => FlagValue { key, value: None },
    }
}

fn text_flag(key: &'static str, flag: Option<String>) -> (out: FlagValue)
    ensures
        out.entry() == (key@, text_tree(flag)),
{
    match flag {
        Some(text) => FlagValue { key, value: Some(text_value(&text)) },
        None => FlagValue { key, value: None },
    }
}

fn bool_flag(key: &'static str, flag: Option<bool>) -> (out: FlagValue)
    ensures
        out.entry() == (key@, bool_tree(flag)),
{
    match flag {
        Some(truth) => FlagValue { key, value: Some(bool_value(truth)) },
        None => FlagValue { key, value: None },
    }
}

// ---- laws ----

/// A patch holds a key just when it was there before or its flag was set: no
/// flag that was not set is sent.
pub proof fn only_set_flags_are_sent(
    members: Map<Seq<char>, Tree>,
    flags: Seq<Flag>,
    key: Seq<char>,
)
    ensures
        flagged(members, flags).contains_key(key) <==> members.contains_key(key) || exists|i: int|
            0 <= i < flags.len() && (#[trigger] flags[i]).0 == key && flags[i].1 is Some,
    decreases flags.len(),
{
    if flags.len() > 0 {
        let front = flags.drop_last();
        only_set_flags_are_sent(members, front, key);
        if exists|i: int|
            0 <= i < front.len() && (#[trigger] front[i]).0 == key && front[i].1 is Some {
            let i = choose|i: int|
                0 <= i < front.len() && (#[trigger] front[i]).0 == key && front[i].1 is Some;
            assert(flags[i] == front[i]);
        }
        if flags.last().0 == key && flags.last().1 is Some {
            assert(flags[flags.len() - 1] == flags.last());
        }
        assert forall|i: int|
            0 <= i < flags.len() && (#[trigger] flags[i]).0 == key
                && flags[i].1 is Some implies flagged(members, flags).contains_key(key) by {
            if i < front.len() {
                assert(front[i] == flags[i]);
            }
        }
    }
}

/// Flags that were not set leave everything as it was.
pub proof fn no_flags_change_nothing(members: Map<Seq<char>, Tree>, flags: Seq<Flag>)
    requires
        forall|i: int| 0 <= i < flags.len() ==> (#[trigger] flags[i]).1 is None,
    ensures
        flagged(members, flags) == members,
    decreases flags.len(),
{
    if flags.len() > 0 {
        let front = flags.drop_last();
        assert forall|i: int| 0 <= i < front.len() implies (#[trigger] front[i]).1 is None by {
            assert(front[i] == flags[i]);
        }
        no_flags_change_nothing(members, front);
        assert(flags[flags.len() - 1] == flags.last());
    }
}

/// Flags put over a patch are that patch with the patch of the flags alone over
/// it: a flag that was set wins, and any other key stays.
pub proof fn flags_win_over_json(members: Map<Seq<char>, Tree>, flags: Seq<Flag>)
    ensures
        flagged(members, flags) == members.union_prefer_right(flagged(no_members(), flags)),
    decreases flags.len(),
{
    if flags.len() > 0 {
        flags_win_over_json(members, flags.drop_last());
    }
    assert(flagged(members, flags) =~= members.union_prefer_right(flagged(no_members(), flags)));
}

/// A flag that was set reaches the patch under its own key, with its own value:
/// no other flag shares the key.
pub proof fn set_flag_is_sent(flags: AdjustmentsFlags, members: Map<Seq<char>, Tree>, i: int)
    requires
        0 <= i < flags.flags().len(),
        flags.flags()[i].1 is Some,
    ensures
        flagged(members, flags.flags()).contains_key(flags.flags()[i].0),
        flagged(members, flags.flags())[flags.flags()[i].0] == flags.flags()[i].1->Some_0,
{
    let all = flags.flags();
    keys_are_distinct(flags);
    assert forall|j: int| i < j < all.len() implies (#[trigger] all[j]).0 != all[i].0 by {}
    lemma_sent(members, all, i);
}

proof fn lemma_sent(members: Map<Seq<char>, Tree>, flags: Seq<Flag>, i: int)
    requires
        0 <= i < flags.len(),
        flags[i].1 is Some,
        forall|j: int| i < j < flags.len() ==> (#[trigger] flags[j]).0 != flags[i].0,
    ensures
        flagged(members, flags).contains_key(flags[i].0),
        flagged(members, flags)[flags[i].0] == flags[i].1->Some_0,
    decreases flags.len(),
{
    if i + 1 < flags.len() {
        let front = flags.drop_last();
        assert(front[i] == flags[i]);
        assert forall|j: int| i < j < front.len() implies (#[trigger] front[j]).0 != front[i].0 by {
            assert(front[j] == flags[j]);
        }
        lemma_sent(members, front, i);
        assert(flags[flags.len() - 1] == flags.last());
    }
}

/// No two flags have the same key.
pub proof fn keys_are_distinct(flags: AdjustmentsFlags)
    ensures
        forall|i: int, j: int|
            0 <= i < j < flags.flags().len() ==> (#[trigger] flags.flags()[i]).0 != (
            #[trigger] flags.flags()[j]).0,
{
    let all = flags.flags();
    assert forall|i: int| 0 <= i < all.len() implies slot(mark((#[trigger] all[i]).0)) == i by {
        lemma_slot(flags, i);
    }
    assert forall|i: int, j: int| 0 <= i < j < all.len() implies (#[trigger] all[i]).0 != (
    #[trigger] all[j]).0 by {
        assert(slot(mark(all[i].0)) == i);
        assert(slot(mark(all[j].0)) == j);
    }
}

/// A number that tells the keys apart: their length and their first two letters.
spec fn mark(key: Seq<char>) -> int {
    key.len() * 1_000_000 + key[0] as int * 1_000 + key[1] as int
}

/// Where the key with a given mark stands among the flags.
spec fn slot(mark: int) -> int {
    if mark == 8_101_120 {
        0
    } else if mark == 10_098_114 {
        1
    } else if mark == 8_099_111 {
        2
    } else if mark == 10_104_105 {
        3
    } else if mark == 7_115_104 {
        4
    } else if mark == 6_119_104 {
        5
    } else if mark == 6_098_108 {
        6
    } else if mark == 10_116_111 {
        7
    } else if mark == 11_116_101 {
        8
    } else if mark == 4_116_105 {
        9
    } else if mark == 10_115_097 {
        10
    } else if mark == 8_118_105 {
        11
    } else if mark == 3_104_117 {
        12
    } else if mark == 7_099_108 {
        13
    } else if mark == 6_100_101 {
        14
    } else if mark == 9_115_116 {
        15
    } else if mark == 6_099_101 {
        16
    } else if mark == 9_115_104 {
        17
    } else if mark == 18_115_104 {
        18
    } else if mark == 18_108_117 {
        19
    } else if mark == 19_099_111 {
        20
    } else if mark == 10_103_108 {
        21
    } else if mark == 14_104_097 {
        22
    } else if mark == 11_102_108 {
        23
    } else if mark == 11_103_114 {
        24
    } else if mark == 14_118_105 {
        25
    } else if mark == 8_114_111 {
        26
    } else if mark == 14_102_108 {
        27
    } else if mark == 12_102_108 {
        28
    } else {
        -1
    }
}

proof fn lemma_slot(flags: AdjustmentsFlags, i: int)
    requires
        0 <= i < flags.flags().len(),
    ensures
        slot(mark(flags.flags()[i].0)) == i,
{
    let all = flags.flags();
    if i == 0 {
        reveal_strlit("exposure");
        assert(all[0].0 == "exposure"@);
    } else if i == 1 {
        reveal_strlit("brightness");
        assert(all[1].0 == "brightness"@);
    } else if i == 2 {
        reveal_strlit("contrast");
        assert(all[2].0 == "contrast"@);
    } else if i == 3 {
        reveal_strlit("highlights");
        assert(all[3].0 == "highlights"@);
    } else if i == 4 {
        reveal_strlit("shadows");
        assert(all[4].0 == "shadows"@);
    } else if i == 5 {
        reveal_strlit("whites");
        assert(all[5].0 == "whites"@);
    } else if i == 6 {
        reveal_strlit("blacks");
        assert(all[6].0 == "blacks"@);
    } else if i == 7 {
        reveal_strlit("toneMapper");
        assert(all[7].0 == "toneMapper"@);
    } else if i == 8 {
        reveal_strlit("temperature");
        assert(all[8].0 == "temperature"@);
    } else if i == 9 {
        reveal_strlit("tint");
        assert(all[9].0 == "tint"@);
    } else if i == 10 {
        reveal_strlit("saturation");
        assert(all[10].0 == "saturation"@);
    } else if i == 11 {
        reveal_strlit("vibrance");
        assert(all[11].0 == "vibrance"@);
    } else if i == 12 {
        reveal_strlit("hue");
        assert(all[12].0 == "hue"@);
    } else if i == 13 {
        reveal_strlit("clarity");
        assert(all[13].0 == "clarity"@);
    } else if i == 14 {
        reveal_strlit("dehaze");
        assert(all[14].0 == "dehaze"@);
    } else if i == 15 {
        reveal_strlit("structure");
        assert(all[15].0 == "structure"@);
    } else if i == 16 {
        reveal_strlit("centré");
        assert(all[16].0 == "centré"@);
    } else if i == 17 {
        reveal_strlit("sharpness");
        assert(all[17].0 == "sharpness"@);
    } else if i == 18 {
        reveal_strlit("sharpnessThreshold");
        assert(all[18].0 == "sharpnessThreshold"@);
    } else if i == 19 {
        reveal_strlit("lumaNoiseReduction");
        assert(all[19].0 == "lumaNoiseReduction"@);
    } else if i == 20 {
        reveal_strlit("colorNoiseReduction");
        assert(all[20].0 == "colorNoiseReduction"@);
    } else if i == 21 {
        reveal_strlit("glowAmount");
        assert(all[21].0 == "glowAmount"@);
    } else if i == 22 {
        reveal_strlit("halationAmount");
        assert(all[22].0 == "halationAmount"@);
    } else if i == 23 {
        reveal_strlit("flareAmount");
        assert(all[23].0 == "flareAmount"@);
    } else if i == 24 {
        reveal_strlit("grainAmount");
        assert(all[24].0 == "grainAmount"@);
    } else if i == 25 {
        reveal_strlit("vignetteAmount");
        assert(all[25].0 == "vignetteAmount"@);
    } else if i == 26 {
        reveal_strlit("rotation");
        assert(all[26].0 == "rotation"@);
    } else if i == 27 {
        reveal_strlit("flipHorizontal");
        assert(all[27].0 == "flipHorizontal"@);
    } else if i == 28 {
        reveal_strlit("flipVertical");
        assert(all[28].0 == "flipVertical"@);
    }
}

/// A setting goes out as the very number that it is, or as null where JSON has no
/// such number.
pub proof fn settings_go_out_as_they_are(setting: Slider)
    ensures
        setting matches Slider::Finite(number) ==> setting.tree() == Tree::Number(numeral(number)),
        setting is NotFinite ==> setting.tree() == Tree::Null,
{
}

/// Whether a patch made of flags over `extra` has a number flag under `key`: as it
/// was set, or else as `extra` has it.
pub open spec fn has_number(
    patch: Map<Seq<char>, Tree>,
    extra: Map<Seq<char>, Tree>,
    key: Seq<char>,
    setting: Option<Slider>,
) -> bool {
    match setting {
        Some(Slider::Finite(number)) => patch.contains_key(key) && patch[key] == Tree::Number(
            numeral(number),
        ),
        Some(Slider::NotFinite) => patch.contains_key(key) && patch[key] == Tree::Null,
        None => patch.contains_key(key) == extra.contains_key(key) && patch[key] == extra[key],
    }
}

/// The same for a text flag.
pub open spec fn has_text(
    patch: Map<Seq<char>, Tree>,
    extra: Map<Seq<char>, Tree>,
    key: Seq<char>,
    setting: Option<String>,
) -> bool {
    match setting {
        Some(text) => patch.contains_key(key) && patch[key] == Tree::Text(text@),
        None => patch.contains_key(key) == extra.contains_key(key) && patch[key] == extra[key],
    }
}

/// The same for a switch.
pub open spec fn has_switch(
    patch: Map<Seq<char>, Tree>,
    extra: Map<Seq<char>, Tree>,
    key: Seq<char>,
    setting: Option<bool>,
) -> bool {
    match setting {
        Some(truth) => patch.contains_key(key) && patch[key] == Tree::Bool(truth),
        None => patch.contains_key(key) == extra.contains_key(key) && patch[key] == extra[key],
    }
}

/// A key whose flag was not set is as it was before the flags.
proof fn lemma_unset(members: Map<Seq<char>, Tree>, flags: Seq<Flag>, key: Seq<char>)
    requires
        forall|j: int| 0 <= j < flags.len() && (#[trigger] flags[j]).0 == key ==> flags[j].1 is None,
    ensures
        flagged(members, flags).contains_key(key) == members.contains_key(key),
        flagged(members, flags)[key] == members[key],
    decreases flags.len(),
{
    if flags.len() > 0 {
        let front = flags.drop_last();
        assert forall|j: int| 0 <= j < front.len() && (
        #[trigger] front[j]).0 == key implies front[j].1 is None by {
            assert(front[j] == flags[j]);
        }
        lemma_unset(members, front, key);
        assert(flags[flags.len() - 1] == flags.last());
    }
}

/// What the flag in a given place comes to.
proof fn lemma_placed(flags: AdjustmentsFlags, members: Map<Seq<char>, Tree>, i: int)
    requires
        0 <= i < flags.flags().len(),
    ensures
        match flags.flags()[i].1 {
            Some(value) => flagged(members, flags.flags()).contains_key(flags.flags()[i].0)
                && flagged(members, flags.flags())[flags.flags()[i].0] == value,
            None => flagged(members, flags.flags()).contains_key(flags.flags()[i].0)
                == members.contains_key(flags.flags()[i].0) && flagged(
                members,
                flags.flags(),
            )[flags.flags()[i].0] == members[flags.flags()[i].0],
        },
{
    let all = flags.flags();
    if all[i].1 is Some {
        set_flag_is_sent(flags, members, i);
    } else {
        keys_are_distinct(flags);
        assert forall|j: int| 0 <= j < all.len() && (
        #[trigger] all[j]).0 == all[i].0 implies all[j].1 is None by {
            if j < i {
                assert(all[j].0 != all[i].0);
            } else if i < j {
                assert(all[i].0 != all[j].0);
            }
        }
        lemma_unset(members, all, all[i].0);
    }
}

/// Each slider goes out under its own key, with the value that it was set to; one
/// that was not set is left as the JSON beside the flags has it.
pub proof fn every_flag_reaches_its_key(flags: AdjustmentsFlags, extra: Map<Seq<char>, Tree>)
    ensures
        has_number(flagged(extra, flags.flags()), extra, "exposure"@, flags.exposure),
        has_number(flagged(extra, flags.flags()), extra, "brightness"@, flags.brightness),
        has_number(flagged(extra, flags.flags()), extra, "contrast"@, flags.contrast),
        has_number(flagged(extra, flags.flags()), extra, "highlights"@, flags.highlights),
        has_number(flagged(extra, flags.flags()), extra, "shadows"@, flags.shadows),
        has_number(flagged(extra, flags.flags()), extra, "whites"@, flags.whites),
        has_number(flagged(extra, flags.flags()), extra, "blacks"@, flags.blacks),
        has_text(flagged(extra, flags.flags()), extra, "toneMapper"@, flags.tone_mapper),
        has_number(flagged(extra, flags.flags()), extra, "temperature"@, flags.temperature),
        has_number(flagged(extra, flags.flags()), extra, "tint"@, flags.tint),
        has_number(flagged(extra, flags.flags()), extra, "saturation"@, flags.saturation),
        has_number(flagged(extra, flags.flags()), extra, "vibrance"@, flags.vibrance),
        has_number(flagged(extra, flags.flags()), extra, "hue"@, flags.hue),
        has_number(flagged(extra, flags.flags()), extra, "clarity"@, flags.clarity),
        has_number(flagged(extra, flags.flags()), extra, "dehaze"@, flags.dehaze),
        has_number(flagged(extra, flags.flags()), extra, "structure"@, flags.structure),
        has_number(flagged(extra, flags.flags()), extra, "centré"@, flags.centre),
        has_number(flagged(extra, flags.flags()), extra, "sharpness"@, flags.sharpness),
        has_number(flagged(extra, flags.flags()), extra, "sharpnessThreshold"@, flags.sharpness_threshold),
        has_number(flagged(extra, flags.flags()), extra, "lumaNoiseReduction"@, flags.luma_noise_reduction),
        has_number(flagged(extra, flags.flags()), extra, "colorNoiseReduction"@, flags.color_noise_reduction),
        has_number(flagged(extra, flags.flags()), extra, "glowAmount"@, flags.glow_amount),
        has_number(flagged(extra, flags.flags()), extra, "halationAmount"@, flags.halation_amount),
        has_number(flagged(extra, flags.flags()), extra, "flareAmount"@, flags.flare_amount),
        has_number(flagged(extra, flags.flags()), extra, "grainAmount"@, flags.grain_amount),
        has_number(flagged(extra, flags.flags()), extra, "vignetteAmount"@, flags.vignette_amount),
        has_number(flagged(extra, flags.flags()), extra, "rotation"@, flags.rotation),
        has_switch(flagged(extra, flags.flags()), extra, "flipHorizontal"@, flags.flip_horizontal),
        has_switch(flagged(extra, flags.flags()), extra, "flipVertical"@, flags.flip_vertical),
{
    let all = flags.flags();
    lemma_placed(flags, extra, 0);
    assert(all[0].0 == "exposure"@);
    lemma_placed(flags, extra, 1);
    assert(all[1].0 == "brightness"@);
    lemma_placed(flags, extra, 2);
    assert(all[2].0 == "contrast"@);
    lemma_placed(flags, extra, 3);
    assert(all[3].0 == "highlights"@);
    lemma_placed(flags, extra, 4);
    assert(all[4].0 == "shadows"@);
    lemma_placed(flags, extra, 5);
    assert(all[5].0 == "whites"@);
    lemma_placed(flags, extra, 6);
    assert(all[6].0 == "blacks"@);
    lemma_placed(flags, extra, 7);
    assert(all[7].0 == "toneMapper"@);
    lemma_placed(flags, extra, 8);
    assert(all[8].0 == "temperature"@);
    lemma_placed(flags, extra, 9);
    assert(all[9].0 == "tint"@);
    lemma_placed(flags, extra, 10);
    assert(all[10].0 == "saturation"@);
    lemma_placed(flags, extra, 11);
    assert(all[11].0 == "vibrance"@);
    lemma_placed(flags, extra, 12);
    assert(all[12].0 == "hue"@);
    lemma_placed(flags, extra, 13);
    assert(all[13].0 == "clarity"@);
    lemma_placed(flags, extra, 14);
    assert(all[14].0 == "dehaze"@);
    lemma_placed(flags, extra, 15);
    assert(all[15].0 == "structure"@);
    lemma_placed(flags, extra, 16);
    assert(all[16].0 == "centré"@);
    lemma_placed(flags, extra, 17);
    assert(all[17].0 == "sharpness"@);
    lemma_placed(flags, extra, 18);
    assert(all[18].0 == "sharpnessThreshold"@);
    lemma_placed(flags, extra, 19);
    assert(all[19].0 == "lumaNoiseReduction"@);
    lemma_placed(flags, extra, 20);
    assert(all[20].0 == "colorNoiseReduction"@);
    lemma_placed(flags, extra, 21);
    assert(all[21].0 == "glowAmount"@);
    lemma_placed(flags, extra, 22);
    assert(all[22].0 == "halationAmount"@);
    lemma_placed(flags, extra, 23);
    assert(all[23].0 == "flareAmount"@);
    lemma_placed(flags, extra, 24);
    assert(all[24].0 == "grainAmount"@);
    lemma_placed(flags, extra, 25);
    assert(all[25].0 == "vignetteAmount"@);
    lemma_placed(flags, extra, 26);
    assert(all[26].0 == "rotation"@);
    lemma_placed(flags, extra, 27);
    assert(all[27].0 == "flipHorizontal"@);
    lemma_placed(flags, extra, 28);
    assert(all[28].0 == "flipVertical"@);
}

/// A key that no flag has is as the JSON beside the flags has it.
pub proof fn other_keys_stay(
    flags: AdjustmentsFlags,
    extra: Map<Seq<char>, Tree>,
    key: Seq<char>,
)
    requires
        forall|i: int| 0 <= i < flags.flags().len() ==> (#[trigger] flags.flags()[i]).0 != key,
    ensures
        flagged(extra, flags.flags()).contains_key(key) == extra.contains_key(key),
        flagged(extra, flags.flags())[key] == extra[key],
{
    lemma_unset(extra, flags.flags(), key);
}

/// There are as many flags as there are sliders, texts and switches to set.
pub proof fn no_flag_is_made_up(flags: AdjustmentsFlags)
    ensures
        flags.flags().len() == 29,
{
}

/// A patch that is made has each slider under its own key, with the value that it was
/// set to: of the flags alone, and of the flags together with JSON, which keeps what
/// no flag was set for.
pub proof fn made_patches_have_every_flag(
    flags: AdjustmentsFlags,
    extra: ExtraAdjustments,
    alone: AdjustmentsPatch,
    together: AdjustmentsPatch,
)
    requires
        call_ensures(AdjustmentsFlags::into_patch, (flags,), alone),
        call_ensures(AdjustmentsFlags::merge_json, (flags, extra), together),
    ensures
        has_number(entries(alone.fields), no_members(), "exposure"@, flags.exposure),
        has_number(entries(together.fields), entries(extra), "exposure"@, flags.exposure),
        has_number(entries(alone.fields), no_members(), "brightness"@, flags.brightness),
        has_number(entries(together.fields), entries(extra), "brightness"@, flags.brightness),
        has_number(entries(alone.fields), no_members(), "contrast"@, flags.contrast),
        has_number(entries(together.fields), entries(extra), "contrast"@, flags.contrast),
        has_number(entries(alone.fields), no_members(), "highlights"@, flags.highlights),
        has_number(entries(together.fields), entries(extra), "highlights"@, flags.highlights),
        has_number(entries(alone.fields), no_members(), "shadows"@, flags.shadows),
        has_number(entries(together.fields), entries(extra), "shadows"@, flags.shadows),
        has_number(entries(alone.fields), no_members(), "whites"@, flags.whites),
        has_number(entries(together.fields), entries(extra), "whites"@, flags.whites),
        has_number(entries(alone.fields), no_members(), "blacks"@, flags.blacks),
        has_number(entries(together.fields), entries(extra), "blacks"@, flags.blacks),
        has_text(entries(alone.fields), no_members(), "toneMapper"@, flags.tone_mapper),
        has_text(entries(together.fields), entries(extra), "toneMapper"@, flags.tone_mapper),
        has_number(entries(alone.fields), no_members(), "temperature"@, flags.temperature),
        has_number(entries(together.fields), entries(extra), "temperature"@, flags.temperature),
        has_number(entries(alone.fields), no_members(), "tint"@, flags.tint),
        has_number(entries(together.fields), entries(extra), "tint"@, flags.tint),
        has_number(entries(alone.fields), no_members(), "saturation"@, flags.saturation),
        has_number(entries(together.fields), entries(extra), "saturation"@, flags.saturation),
        has_number(entries(alone.fields), no_members(), "vibrance"@, flags.vibrance),
        has_number(entries(together.fields), entries(extra), "vibrance"@, flags.vibrance),
        has_number(entries(alone.fields), no_members(), "hue"@, flags.hue),
        has_number(entries(together.fields), entries(extra), "hue"@, flags.hue),
        has_number(entries(alone.fields), no_members(), "clarity"@, flags.clarity),
        has_number(entries(together.fields), entries(extra), "clarity"@, flags.clarity),
        has_number(entries(alone.fields), no_members(), "dehaze"@, flags.dehaze),
        has_number(entries(together.fields), entries(extra), "dehaze"@, flags.dehaze),
        has_number(entries(alone.fields), no_members(), "structure"@, flags.structure),
        has_number(entries(together.fields), entries(extra), "structure"@, flags.structure),
        has_number(entries(alone.fields), no_members(), "centré"@, flags.centre),
        has_number(entries(together.fields), entries(extra), "centré"@, flags.centre),
        has_number(entries(alone.fields), no_members(), "sharpness"@, flags.sharpness),
        has_number(entries(together.fields), entries(extra), "sharpness"@, flags.sharpness),
        has_number(entries(alone.fields), no_members(), "sharpnessThreshold"@, flags.sharpness_threshold),
        has_number(entries(together.fields), entries(extra), "sharpnessThreshold"@, flags.sharpness_threshold),
        has_number(entries(alone.fields), no_members(), "lumaNoiseReduction"@, flags.luma_noise_reduction),
        has_number(entries(together.fields), entries(extra), "lumaNoiseReduction"@, flags.luma_noise_reduction),
        has_number(entries(alone.fields), no_members(), "colorNoiseReduction"@, flags.color_noise_reduction),
        has_number(entries(together.fields), entries(extra), "colorNoiseReduction"@, flags.color_noise_reduction),
        has_number(entries(alone.fields), no_members(), "glowAmount"@, flags.glow_amount),
        has_number(entries(together.fields), entries(extra), "glowAmount"@, flags.glow_amount),
        has_number(entries(alone.fields), no_members(), "halationAmount"@, flags.halation_amount),
        has_number(entries(together.fields), entries(extra), "halationAmount"@, flags.halation_amount),
        has_number(entries(alone.fields), no_members(), "flareAmount"@, flags.flare_amount),
        has_number(entries(together.fields), entries(extra), "flareAmount"@, flags.flare_amount),
        has_number(entries(alone.fields), no_members(), "grainAmount"@, flags.grain_amount),
        has_number(entries(together.fields), entries(extra), "grainAmount"@, flags.grain_amount),
        has_number(entries(alone.fields), no_members(), "vignetteAmount"@, flags.vignette_amount),
        has_number(entries(together.fields), entries(extra), "vignetteAmount"@, flags.vignette_amount),
        has_number(entries(alone.fields), no_members(), "rotation"@, flags.rotation),
        has_number(entries(together.fields), entries(extra), "rotation"@, flags.rotation),
        has_switch(entries(alone.fields), no_members(), "flipHorizontal"@, flags.flip_horizontal),
        has_switch(entries(together.fields), entries(extra), "flipHorizontal"@, flags.flip_horizontal),
        has_switch(entries(alone.fields), no_members(), "flipVertical"@, flags.flip_vertical),
        has_switch(entries(together.fields), entries(extra), "flipVertical"@, flags.flip_vertical),
{
    every_flag_reaches_its_key(flags, no_members());
    every_flag_reaches_its_key(flags, entries(extra));
}

/// A setting and a patch are made into documents that hold them as they are.
pub proof fn documents_hold_settings_and_patches(
    setting: Slider,
    number: serde_json::Value,
    patch: AdjustmentsPatch,
    object: serde_json::Value,
)
    requires
        call_ensures(Slider::into_value, (setting,), number),
        call_ensures(AdjustmentsPatch::into_value, (patch,), object),
    ensures
        setting matches Slider::Finite(finite) ==> crate::json::tree(number) == Tree::Number(
            numeral(finite),
        ),
        setting is NotFinite ==> crate::json::tree(number) == Tree::Null,
        crate::json::tree(object) == Tree::Object(entries(patch.fields)),
{
}

} // verus!
