//! What the arguments of the command line mean: patches, boxes, labels, ratings.
use crate::adjustments::{
    AdjustmentsFlags, AdjustmentsPatch, Slider, flagged, no_flags_change_nothing,
    only_set_flags_are_sent,
};
use crate::json::{
    Node, Numeral, Tree, close, entries, float_in, no_members, object_in, read_float, read_object,
    show_error, tree, trees,
};
use crate::text::{pieces, split, trim, trimmed};
use vstd::prelude::*;

verus! {

// ---- patches ----

/// Why a command cannot be carried out. Where the reason is text that is not the
/// JSON it should be, the error holds what is wrong with that text.
#[derive(Debug)]
pub enum CliError {
    /// An adjustment without any setting.
    NoAdjustments,
    /// Settings that are not a JSON object.
    BadAdjustments(String),
    /// A mask patch that is not JSON.
    BadMaskPatch(String),
    /// A patch definition that is not JSON.
    BadPatchDefinition(String),
    /// Current adjustments that are not JSON.
    BadCurrentAdjustments(String),
    /// A box that is not four numbers.
    BadBox,
    /// More stars than there are.
    BadRating,
    /// No port was published.
    NoPort,
}

impl CliError {
    /// What the error reads like, without what caused it.
    pub open spec fn text(self) -> Seq<char> {
        match self {
            CliError::NoAdjustments =>
                "No adjustments given. Pass flags like --exposure 0.5 or --json '{...}'."@,
            CliError::BadAdjustments(_) => "invalid --json (expected a JSON object)"@,
            CliError::BadMaskPatch(_) => "invalid --json"@,
            CliError::BadPatchDefinition(_) => "invalid --patch JSON"@,
            CliError::BadCurrentAdjustments(_) => "invalid --adjustments JSON"@,
            CliError::BadBox => "--box must be x1,y1,x2,y2"@,
            CliError::BadRating => "rating must be 0–5"@,
            CliError::NoPort => "Port file not found. Is RapidRAW running?"@,
        }
    }

    /// What caused the error, where it was a text that is not JSON.
    pub open spec fn cause_text(self) -> Option<Seq<char>> {
        match self {
            CliError::BadAdjustments(cause) => Some(cause@),
            CliError::BadMaskPatch(cause) => Some(cause@),
            CliError::BadPatchDefinition(cause) => Some(cause@),
            CliError::BadCurrentAdjustments(cause) => Some(cause@),
            _ => None,
        }
    }

    /// Says what caused the error, where it was a text that is not JSON.
    pub fn cause(&self) -> (cause: Option<&String>)
        ensures
            match cause {
                Some(text) => self.cause_text() == Some(text@),
                None => self.cause_text() is None,
            },
    {
        match self {
            CliError::BadAdjustments(cause) => Some(cause),
            CliError::BadMaskPatch(cause) => Some(cause),
            CliError::BadPatchDefinition(cause) => Some(cause),
            CliError::BadCurrentAdjustments(cause) => Some(cause),
            _ => None,
        }
    }

    /// Says what is wrong.
    pub fn message(&self) -> (message: &'static str)
        ensures
            message@ == self.text(),
    {
        match self {
            CliError::NoAdjustments =>
                "No adjustments given. Pass flags like --exposure 0.5 or --json '{...}'.",
            CliError::BadAdjustments(_) => "invalid --json (expected a JSON object)",
            CliError::BadMaskPatch(_) => "invalid --json",
            CliError::BadPatchDefinition(_) => "invalid --patch JSON",
            CliError::BadCurrentAdjustments(_) => "invalid --adjustments JSON",
            CliError::BadBox => "--box must be x1,y1,x2,y2",
            CliError::BadRating => "rating must be 0–5",
            CliError::NoPort => "Port file not found. Is RapidRAW running?",
        }
    }
}

/// What the flags and the JSON beside them make, or why the JSON is not an object.
pub open spec fn patch_members(flags: AdjustmentsFlags, json: Option<String>) -> Result<
    Map<Seq<char>, Tree>,
    Seq<char>,
> {
    match json {
        Some(text) => match object_in(text@) {
            Ok(extra) => Ok(flagged(extra, flags.flags())),
            Err(cause) => Err(cause),
        },
        None => Ok(flagged(no_members(), flags.flags())),
    }
}

/// Whether `patch` is what the flags and the JSON beside them make.
pub open spec fn builds(
    flags: AdjustmentsFlags,
    json: Option<String>,
    patch: Result<AdjustmentsPatch, CliError>,
) -> bool {
    match (patch_members(flags, json), patch) {
        (Ok(members), Ok(patch)) => entries(patch.fields) == members,
        (Err(cause), Err(error)) => error is BadAdjustments && error.cause_text() == Some(cause),
        _ => false,
    }
}

/// Makes a patch of the flags and the JSON beside them, if there is any. JSON that
/// is not an object is an error before anything is sent.
pub fn build_patch(flags: AdjustmentsFlags, json: Option<String>) -> (patch: Result<
    AdjustmentsPatch,
    CliError,
>)
    ensures
        builds(flags, json, patch),
{
    match json {
        Some(text) => match read_object(&text) {
            Ok(extra) => Ok(flags.merge_json(extra)),
            Err(error) => Err(CliError::BadAdjustments(show_error(&error))),
        },
        None => Ok(flags.into_patch()),
    }
}

/// Whether there is nothing to send.
pub fn patch_is_empty(patch: &AdjustmentsPatch) -> (empty: bool)
    ensures
        empty == (entries(patch.fields) == no_members()),
{
    patch.fields.is_empty()
}

// ---- boxes ----

/// The pieces that are numbers, in order; the others are passed over.
pub open spec fn numbers_in(texts: Seq<Seq<char>>) -> Seq<Option<u64>>
    decreases texts.len(),
{
    if texts.len() == 0 {
        Seq::empty()
    } else {
        let before = numbers_in(texts.drop_last());
        match float_in(trimmed(texts.last())) {
            Some(number) => before.push(number),
            None => before,
        }
    }
}

/// A coordinate as JSON.
pub open spec fn coordinate_tree(number: Option<u64>) -> Tree {
    match number {
        Some(bits) => Tree::Number(Numeral::Float(bits)),
        None => Tree::Null,
    }
}

/// The coordinates of a box: the numbers between the commas.
pub open spec fn box_coordinates(text: Seq<char>) -> Seq<Tree> {
    numbers_in(pieces(text, ',')).map_values(|number: Option<u64>| coordinate_tree(number))
}

/// Reads the numbers between the commas of `text`.
fn read_coordinates(text: &str) -> (coordinates: Vec<serde_json::Value>)
    ensures
        trees(coordinates@) == box_coordinates(text@),
{
    let parts = split(text, ',');
    let ghost texts = parts@.map_values(|part: String| part@);
    let ghost shown = |number: Option<u64>| coordinate_tree(number);
    let mut coordinates: Vec<serde_json::Value> = Vec::new();
    let mut i: usize = 0;
    assert(texts.take(0) =~= Seq::empty());
    assert(trees(coordinates@) =~= numbers_in(texts.take(0)).map_values(shown));
    while i < parts.len()
        invariant
            i <= parts.len(),
            texts == parts@.map_values(|part: String| part@),
            shown == (|number: Option<u64>| coordinate_tree(number)),
            trees(coordinates@) == numbers_in(texts.take(i as int)).map_values(shown),
        decreases parts.len() - i,
    {
        let ghost before = coordinates@;
        assert(texts.take(i + 1).drop_last() =~= texts.take(i as int));
        if let Some(number) = read_float(&trim(&parts[i])) {
            let slider = match number {
                Some(finite) => Slider::Finite(finite),
                None => Slider::NotFinite,
            };
            coordinates.push(slider.into_value());
            assert(trees(coordinates@) =~= trees(before).push(tree(coordinates@.last())));
        }
        assert(trees(coordinates@) =~= numbers_in(texts.take(i + 1)).map_values(shown));
        i += 1;
    }
    assert(texts.take(parts.len() as int) =~= texts);
    coordinates
}

/// Whether `made` is the box with the given coordinates, or the refusal of them.
pub open spec fn is_box(
    coordinates: Seq<Tree>,
    made: Result<serde_json::Value, CliError>,
) -> bool {
    match made {
        Ok(value) => coordinates.len() == 4 && tree(value) == Tree::Array(coordinates),
        Err(error) => coordinates.len() != 4 && error is BadBox,
    }
}

/// Makes a box of its coordinates. There must be four.
pub fn make_box(coordinates: Vec<serde_json::Value>) -> (made: Result<serde_json::Value, CliError>)
    ensures
        is_box(trees(coordinates@), made),
{
    if coordinates.len() != 4 {
        return Err(CliError::BadBox);
    }
    Ok(close(Node::Array(coordinates)))
}

/// Reads a box: four numbers with commas between them.
pub fn parse_box(text: &str) -> (read: Result<serde_json::Value, CliError>)
    ensures
        is_box(box_coordinates(text@), read),
{
    make_box(read_coordinates(text))
}

// ---- labels and ratings ----

/// The color that a label in lower case stands for: none where it asks to clear
/// the label.
pub open spec fn color_of(label: Seq<char>) -> Option<Seq<char>> {
    if label == "clear"@ || label == "none"@ || label.len() == 0 {
        None
    } else {
        Some(label)
    }
}

/// Whether `color` is what a label in lower case stands for.
pub open spec fn is_color(label: Seq<char>, color: Option<String>) -> bool {
    match color {
        Some(color) => color_of(label) == Some(color@),
        None => color_of(label) is None,
    }
}

/// Tells a color from a wish to clear the label.
pub fn color_label(label: String) -> (color: Option<String>)
    ensures
        is_color(label@, color),
{
    if label == "clear".to_owned() || label == "none".to_owned() || label.as_str().is_empty() {
        None
    } else {
        Some(label)
    }
}

/// The most stars that an image can have.
pub const MAX_RATING: u8 = 5;

// ---- laws ----

/// Flags and JSON make a patch just when the JSON is an object, or there is none.
/// The patch is then the flags over that object; otherwise the error says what is
/// wrong with the JSON.
pub proof fn patch_is_flags_over_json(
    flags: AdjustmentsFlags,
    json: Option<String>,
    patch: Result<AdjustmentsPatch, CliError>,
)
    requires
        call_ensures(build_patch, (flags, json), patch),
    ensures
        json is None ==> (patch matches Ok(made) && entries(made.fields) == flagged(
            no_members(),
            flags.flags(),
        )),
        json matches Some(text) ==> match object_in(text@) {
            Ok(extra) => patch matches Ok(made) && entries(made.fields) == flagged(
                extra,
                flags.flags(),
            ),
            Err(cause) => patch matches Err(error) && error is BadAdjustments && error.cause_text()
                == Some(cause),
        },
{
}

/// There is nothing to send just when no flag was set and the JSON beside them, if
/// any, has no members.
pub proof fn nothing_is_sent_when_nothing_is_given(flags: AdjustmentsFlags, json: Option<String>)
    ensures
        patch_members(flags, json) matches Ok(members) ==> (members == no_members()
            <==> flags.none_set() && (json matches Some(text) ==> object_in(text@) matches Ok(extra)
            && extra == no_members())),
{
    let all = flags.flags();
    let base = match json {
        Some(text) => match object_in(text@) {
            Ok(extra) => extra,
            Err(_) => no_members(),
        },
        None => no_members(),
    };
    if flags.none_set() {
        no_flags_change_nothing(base, all);
    } else {
        let i = choose|i: int| 0 <= i < all.len() && !((#[trigger] all[i]).1 is None);
        only_set_flags_are_sent(base, all, all[i].0);
        assert(flagged(base, all).contains_key(all[i].0));
    }
    if flagged(base, all) == no_members() {
        assert forall|key: Seq<char>| !base.contains_key(key) by {
            only_set_flags_are_sent(base, all, key);
        }
        assert(base =~= no_members());
    }
}

/// A box is made of its four coordinates in their order, and of nothing else than
/// four.
pub proof fn box_is_its_four_coordinates(
    coordinates: Vec<serde_json::Value>,
    made: Result<serde_json::Value, CliError>,
)
    requires
        call_ensures(make_box, (coordinates,), made),
    ensures
        made is Ok <==> coordinates.len() == 4,
        made matches Ok(value) ==> (tree(value) matches Tree::Array(held) && held.len() == 4
            && held[0] == tree(coordinates@[0]) && held[1] == tree(coordinates@[1]) && held[2] == tree(coordinates@[2])
            && held[3] == tree(coordinates@[3])),
        made matches Err(error) ==> error is BadBox,
{
}

/// Numbers are read piece by piece, in order: the numbers of two rows of pieces are
/// those of the first and then those of the second.
pub proof fn numbers_are_read_in_order(first: Seq<Seq<char>>, second: Seq<Seq<char>>)
    ensures
        numbers_in(first + second) == numbers_in(first) + numbers_in(second),
    decreases second.len(),
{
    if second.len() == 0 {
        assert(first + second =~= first);
        assert(numbers_in(first) + numbers_in(second) =~= numbers_in(first));
    } else {
        numbers_are_read_in_order(first, second.drop_last());
        assert((first + second).drop_last() =~= first + second.drop_last());
        assert(numbers_in(first + second) =~= numbers_in(first) + numbers_in(second));
    }
}

/// One piece gives the number that it is, without the whitespace around it, or
/// nothing where it is none.
pub proof fn piece_gives_its_number(piece: Seq<char>)
    ensures
        float_in(trimmed(piece)) matches Some(number) ==> numbers_in(seq![piece]) == seq![number],
        float_in(trimmed(piece)) is None ==> numbers_in(seq![piece]).len() == 0,
{
    assert(seq![piece].drop_last() =~= Seq::<Seq<char>>::empty());
    assert(numbers_in(seq![piece].drop_last()) =~= Seq::<Option<u64>>::empty());
    if let Some(number) = float_in(trimmed(piece)) {
        assert(numbers_in(seq![piece]) =~= seq![number]);
    }
}

/// A box whose four pieces are all numbers has those numbers for coordinates, each
/// in its place; one that JSON cannot hold is null.
pub proof fn coordinates_are_the_pieces(text: Seq<char>)
    requires
        pieces(text, ',').len() == 4,
        forall|i: int| 0 <= i < 4 ==> float_in(trimmed(#[trigger] pieces(text, ',')[i])) is Some,
    ensures
        box_coordinates(text).len() == 4,
        forall|i: int|
            0 <= i < 4 ==> #[trigger] box_coordinates(text)[i] == (match float_in(
                trimmed(pieces(text, ',')[i]),
            )->Some_0 {
                Some(bits) => Tree::Number(Numeral::Float(bits)),
                None => Tree::Null,
            }),
{
    let parts = pieces(text, ',');
    let a = seq![parts[0]];
    let b = seq![parts[1]];
    let c = seq![parts[2]];
    let d = seq![parts[3]];
    assert(parts =~= a + b + c + d);
    assert(float_in(trimmed(parts[0])) is Some);
    assert(float_in(trimmed(parts[1])) is Some);
    assert(float_in(trimmed(parts[2])) is Some);
    assert(float_in(trimmed(parts[3])) is Some);
    piece_gives_its_number(parts[0]);
    piece_gives_its_number(parts[1]);
    piece_gives_its_number(parts[2]);
    piece_gives_its_number(parts[3]);
    numbers_are_read_in_order(a, b);
    numbers_are_read_in_order(a + b, c);
    numbers_are_read_in_order(a + b + c, d);
}

/// A coordinate goes out as the number that it is, or as null where JSON has no
/// such number; and a box has as many coordinates as it has numbers.
pub proof fn coordinates_are_the_numbers(text: Seq<char>)
    ensures
        box_coordinates(text).len() == numbers_in(pieces(text, ',')).len(),
        forall|i: int|
            0 <= i < box_coordinates(text).len() ==> #[trigger] box_coordinates(text)[i] == (
            match numbers_in(pieces(text, ','))[i] {
                Some(bits) => Tree::Number(Numeral::Float(bits)),
                None => Tree::Null,
            }),
{
}

/// A label is cleared on request only, by one of two words or by no word at all;
/// any other label is kept as it is.
pub proof fn labels_are_kept_or_cleared(label: String, color: Option<String>)
    requires
        call_ensures(color_label, (label,), color),
    ensures
        color is None <==> label@ == "clear"@ || label@ == "none"@ || label@ == Seq::<char>::empty(),
        color matches Some(kept) ==> kept@ == label@,
{
    if label@.len() == 0 {
        assert(label@ =~= Seq::<char>::empty());
    }
}

/// An error hands on what caused it: the text that it holds, where it holds one.
pub proof fn errors_hand_on_their_cause(error: CliError)
    ensures
        error matches CliError::BadAdjustments(cause) ==> error.cause_text() == Some(cause@),
        error matches CliError::BadMaskPatch(cause) ==> error.cause_text() == Some(cause@),
        error matches CliError::BadPatchDefinition(cause) ==> error.cause_text() == Some(cause@),
        error matches CliError::BadCurrentAdjustments(cause) ==> error.cause_text() == Some(cause@),
        error is NoAdjustments || error is BadBox || error is BadRating || error is NoPort
            ==> error.cause_text() is None,
{
}

/// A box is read just when there are four numbers between its commas, and then as
/// those, in order.
pub proof fn box_is_read_as_its_numbers(
    text: &str,
    read: Result<serde_json::Value, CliError>,
)
    requires
        call_ensures(parse_box, (text,), read),
    ensures
        read is Ok <==> numbers_in(pieces(text@, ',')).len() == 4,
        read matches Ok(value) ==> tree(value) == Tree::Array(box_coordinates(text@)),
        read matches Err(error) ==> error is BadBox,
{
}

/// A patch is empty just when it has no member.
pub proof fn empty_patches_have_no_member(patch: AdjustmentsPatch, empty: bool, key: Seq<char>)
    requires
        call_ensures(patch_is_empty, (&patch,), empty),
    ensures
        empty ==> !entries(patch.fields).contains_key(key),
        entries(patch.fields).contains_key(key) ==> !empty,
{
}

/// What an error says of its cause is the text that it holds.
pub proof fn causes_are_said(error: CliError, cause: Option<&String>)
    requires
        call_ensures(CliError::cause, (&error,), cause),
    ensures
        error matches CliError::BadAdjustments(held) ==> (cause matches Some(said) && said@ == held@),
        error matches CliError::BadMaskPatch(held) ==> (cause matches Some(said) && said@ == held@),
        error matches CliError::BadPatchDefinition(held) ==> (cause matches Some(said) && said@
            == held@),
        error matches CliError::BadCurrentAdjustments(held) ==> (cause matches Some(said) && said@
            == held@),
        error is NoAdjustments || error is BadBox || error is BadRating || error is NoPort
            ==> cause is None,
{
}

} // verus!
