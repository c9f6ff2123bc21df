//! What the command line prints.
use crate::json::{
    Numeral, Tree, array_member, bool_member, float_shown, number_member, pretty_text, show_float,
    text_member, tree, trees, unsigned_member, write_pretty,
};
use crate::text::{align_right, concat, concat3, decimal, decimal_text, right_aligned};
use vstd::prelude::*;
use vstd::string::*;

verus! {

/// Writes a document in its indented form, which every document has.
pub fn pretty(value: &serde_json::Value) -> (text: Result<String, serde_json::Error>)
    ensures
        text matches Ok(written) && written@ == pretty_text(tree(*value)),
{
    write_pretty(value)
}

/// How a remark reads that so many bytes went to a file.
pub open spec fn wrote_text(len: nat, path: Seq<char>) -> Seq<char> {
    "wrote "@ + decimal(len) + " bytes to "@ + path
}

/// Says how many bytes went where.
pub fn wrote_message(len: usize, path: &str) -> (message: String)
    ensures
        message@ == wrote_text(len as nat, path@),
{
    concat(&concat3("wrote ", &decimal_text(len as u64), " bytes to "), path)
}

/// A text, or a question mark where there is none.
pub open spec fn text_or_unknown(text: Option<Seq<char>>) -> Seq<char> {
    match text {
        Some(inner) => inner,
        None => "?"@,
    }
}

fn member_or_unknown(value: &serde_json::Value, name: &str) -> (text: String)
    ensures
        text@ == text_or_unknown(tree(*value).member(name@).as_text()),
{
    match text_member(value, name) {
        Some(text) => text.clone(),
        None => "?".to_owned(),
    }
}

// ---- masks ----

/// How an opacity reads: as a number, and as full where it is none.
pub open spec fn opacity_shown(opacity: Tree) -> Seq<char> {
    match opacity.as_number() {
        Some(number) => float_shown(number),
        None => "1"@,
    }
}

/// How many parts a mask has.
pub open spec fn part_count(parts: Tree) -> nat {
    match parts.as_array() {
        Some(items) => items.len(),
        None => 0,
    }
}

/// The line for one mask: its id, name, opacity and number of parts.
pub open spec fn mask_line(mask: Tree) -> Seq<char> {
    text_or_unknown(mask.member("id"@).as_text()) + "\t"@ + text_or_unknown(
        mask.member("name"@).as_text(),
    ) + "\topacity="@ + opacity_shown(mask.member("opacity"@)) + "\tsubmasks="@ + decimal(
        part_count(mask.member("subMasks"@)),
    )
}

/// The lines for the masks among the adjustments: one for each mask, or a remark
/// that there are none.
pub open spec fn mask_lines(adjustments: Tree) -> Seq<Seq<char>> {
    match adjustments.member("masks"@).as_array() {
        Some(masks) if masks.len() > 0 => masks.map_values(|mask: Tree| mask_line(mask)),
        _ => seq!["(no masks)"@],
    }
}

fn show_mask(mask: &serde_json::Value) -> (line: String)
    ensures
        line@ == mask_line(tree(*mask)),
{
    let opacity = match number_member(mask, "opacity") {
        Some(number) => match show_float(number) {
            Some(text) => text,
            None => "1".to_owned(),
        },
        None => "1".to_owned(),
    };
    let parts: usize = match array_member(mask, "subMasks") {
        Some(items) => items.len(),
        None => 0,
    };
    let mut line = member_or_unknown(mask, "id");
    line.append("\t");
    line.append(&member_or_unknown(mask, "name"));
    line.append("\topacity=");
    line.append(&opacity);
    line.append("\tsubmasks=");
    line.append(&decimal_text(parts as u64));
    line
}

/// Lists the masks among the adjustments.
pub fn list_masks(adjustments: &serde_json::Value) -> (lines: Vec<String>)
    ensures
        lines@.map_values(|line: String| line@) == mask_lines(tree(*adjustments)),
{
    let ghost view = |line: String| line@;
    let mut lines: Vec<String> = Vec::new();
    if let Some(masks) = array_member(adjustments, "masks") {
        if masks.len() > 0 {
            let mut i: usize = 0;
            while i < masks.len()
                invariant
                    i <= masks.len(),
                    lines.len() == i,
                    forall|j: int|
                        0 <= j < i ==> (#[trigger] lines@[j])@ == mask_line(tree(masks@[j])),
                decreases masks.len() - i,
            {
                lines.push(show_mask(&masks[i]));
                i += 1;
            }
            assert(lines@.map_values(view) =~= trees(masks@).map_values(
                |mask: Tree| mask_line(mask),
            ));
            return lines;
        }
    }
    lines.push("(no masks)".to_owned());
    assert(lines@.map_values(view) =~= seq!["(no masks)"@]);
    lines
}

// ---- images ----

/// A position, where there is one.
pub open spec fn position_shown(position: Option<u64>) -> Seq<char> {
    match position {
        Some(at) => "Some("@ + decimal(at as nat) + ")"@,
        None => "None"@,
    }
}

/// A number, or zero where there is none.
pub open spec fn count_of(number: Option<u64>) -> u64 {
    match number {
        Some(value) => value,
        None => 0,
    }
}

/// The heading of a listing: the directory, how many images there are, and which
/// is open.
pub open spec fn listing_heading(listing: Tree) -> Seq<char> {
    "# dir="@ + text_or_unknown(listing.member("dir"@).as_text()) + "  count="@ + decimal(
        count_of(listing.member("count"@).as_unsigned()) as nat,
    ) + "  currentIndex="@ + position_shown(listing.member("currentIndex"@).as_unsigned())
}

/// The line for the image at position `at`: a mark if it is open, its position,
/// its stars, a mark if it was edited, and its path.
pub open spec fn image_line(image: Tree, at: nat, current: Option<u64>) -> Seq<char> {
    let mark = if current matches Some(open) && open == at {
        ">"@
    } else {
        " "@
    };
    let edited = if image.member("is_edited"@).as_bool() == Some(true) {
        "*"@
    } else {
        " "@
    };
    mark + right_aligned(decimal(at), 4) + "  ★"@ + decimal(
        count_of(image.member("rating"@).as_unsigned()) as nat,
    ) + " "@ + edited + "  "@ + text_or_unknown(image.member("path"@).as_text())
}

/// The lines of a listing: the heading, and one for each image.
pub open spec fn listing_lines(listing: Tree) -> Seq<Seq<char>> {
    seq![listing_heading(listing)] + (match listing.member("images"@).as_array() {
        Some(images) => Seq::new(
            images.len(),
            |i: int|
                image_line(images[i], i as nat, listing.member("currentIndex"@).as_unsigned()),
        ),
        None => Seq::empty(),
    })
}

fn show_heading(listing: &serde_json::Value) -> (line: String)
    ensures
        line@ == listing_heading(tree(*listing)),
{
    let mut line = "# dir=".to_owned();
    line.append(&member_or_unknown(listing, "dir"));
    line.append("  count=");
    line.append(&decimal_text(unsigned_member(listing, "count").unwrap_or(0)));
    line.append("  currentIndex=");
    let position = match unsigned_member(listing, "currentIndex") {
        Some(at) => concat3("Some(", &decimal_text(at), ")"),
        None => "None".to_owned(),
    };
    line.append(&position);
    line
}

fn show_image(image: &serde_json::Value, at: usize, current: Option<u64>) -> (line: String)
    ensures
        line@ == image_line(tree(*image), at as nat, current),
{
    let is_open = match current {
        Some(open) => open == at as u64,
        None => false,
    };
    let mut line = if is_open {
        ">".to_owned()
    } else {
        " ".to_owned()
    };
    line.append(&align_right(&decimal_text(at as u64), 4));
    line.append("  ★");
    line.append(&decimal_text(unsigned_member(image, "rating").unwrap_or(0)));
    line.append(" ");
    if bool_member(image, "is_edited").unwrap_or(false) {
        line.append("*");
    } else {
        line.append(" ");
    }
    line.append("  ");
    line.append(&member_or_unknown(image, "path"));
    line
}

/// Lists the images of a directory.
pub fn list_images(listing: &serde_json::Value) -> (lines: Vec<String>)
    ensures
        lines@.map_values(|line: String| line@) == listing_lines(tree(*listing)),
{
    let ghost view = |line: String| line@;
    let current = unsigned_member(listing, "currentIndex");
    let mut lines: Vec<String> = Vec::new();
    lines.push(show_heading(listing));
    if let Some(images) = array_member(listing, "images") {
        let mut i: usize = 0;
        while i < images.len()
            invariant
                i <= images.len(),
                lines.len() == i + 1,
                lines@[0]@ == listing_heading(tree(*listing)),
                forall|j: int|
                    0 <= j < i ==> (#[trigger] lines@[j + 1])@ == image_line(
                        tree(images@[j]),
                        j as nat,
                        current,
                    ),
            decreases images.len() - i,
        {
            lines.push(show_image(&images[i], i, current));
            i += 1;
        }
        assert(lines@.map_values(view) =~= listing_lines(tree(*listing))) by {
            assert forall|k: int| 0 <= k < lines.len() implies lines@.map_values(view)[k]
                == listing_lines(tree(*listing))[k] by {
                if k > 0 {
                    assert(lines@[(k - 1) + 1]@ == image_line(
                        tree(images@[k - 1]),
                        (k - 1) as nat,
                        current,
                    ));
                }
            }
        }
    } else {
        assert(lines@.map_values(view) =~= listing_lines(tree(*listing)));
    }
    lines
}

// ---- laws ----

/// The remark on a file gives the very number of bytes and the very path.
pub proof fn remark_names_bytes_and_file(len: nat, path: Seq<char>)
    ensures
        ("wrote "@ + decimal(len) + " bytes to "@).is_prefix_of(wrote_text(len, path)),
        wrote_text(len, path).skip(("wrote "@ + decimal(len) + " bytes to "@).len() as int) == path,
{
    let head = "wrote "@ + decimal(len) + " bytes to "@;
    assert(wrote_text(len, path).take(head.len() as int) =~= head);
    assert(wrote_text(len, path).skip(head.len() as int) =~= path);
}

/// A text as it is shown: itself, or a question mark where there is none.
pub open spec fn seen_text(document: Tree) -> Seq<char> {
    match document {
        Tree::Text(text) => text,
        _ => "?"@,
    }
}

/// A number of things as it is shown: itself, or zero where there is none.
pub open spec fn seen_count(document: Tree) -> nat {
    match document {
        Tree::Number(Numeral::Unsigned(count)) => count as nat,
        _ => 0,
    }
}

/// The masks have a line each, in their order, and where there are none that is
/// said instead.
pub proof fn masks_have_a_line_each(adjustments: Tree)
    ensures
        adjustments.member("masks"@) matches Tree::Array(masks) ==> masks.len() > 0 ==> {
            &&& mask_lines(adjustments).len() == masks.len()
            &&& forall|i: int|
                0 <= i < masks.len() ==> #[trigger] mask_lines(adjustments)[i] == mask_line(
                    masks[i],
                )
        },
        !(adjustments.member("masks"@) matches Tree::Array(masks) && masks.len() > 0)
            ==> mask_lines(adjustments) == seq!["(no masks)"@],
{
}

/// The line of a mask shows its id and its name, its opacity, full where none is
/// given, and how many parts it has.
pub proof fn mask_line_shows_the_mask(mask: Tree)
    ensures
        mask_line(mask) == seen_text(mask.member("id"@)) + "\t"@ + seen_text(mask.member("name"@))
            + "\topacity="@ + (match mask.member("opacity"@) {
            Tree::Number(number) => float_shown(number),
            _ => "1"@,
        }) + "\tsubmasks="@ + decimal(
            match mask.member("subMasks"@) {
                Tree::Array(parts) => parts.len(),
                _ => 0,
            },
        ),
{
}

/// A listing has a heading, and then a line for each image, in order.
pub proof fn images_have_a_line_each(listing: Tree)
    ensures
        listing.member("images"@) matches Tree::Array(images) ==> listing_lines(listing).len() == 1
            + images.len(),
        !(listing.member("images"@) is Array) ==> listing_lines(listing).len() == 1,
        listing.member("images"@) matches Tree::Array(images) ==> forall|i: int|
            0 <= i < images.len() ==> #[trigger] listing_lines(listing)[i + 1] == image_line(
                images[i],
                i as nat,
                listing.member("currentIndex"@).as_unsigned(),
            ),
        listing_lines(listing)[0] == listing_heading(listing),
{
}

/// The heading shows the directory, how many images there are, and which is open.
pub proof fn heading_shows_the_directory(listing: Tree)
    ensures
        listing_heading(listing) == "# dir="@ + seen_text(listing.member("dir"@)) + "  count="@
            + decimal(seen_count(listing.member("count"@))) + "  currentIndex="@ + (
        match listing.member("currentIndex"@) {
            Tree::Number(Numeral::Unsigned(at)) => "Some("@ + decimal(at as nat) + ")"@,
            _ => "None"@,
        }),
{
}

/// The line of an image shows whether it is the open one, where it stands, its
/// stars, whether it was edited, and its path.
pub proof fn image_line_shows_the_image(image: Tree, at: nat, current: Option<u64>)
    ensures
        image_line(image, at, current) == (if current is Some && current->Some_0 == at {
            ">"@
        } else {
            " "@
        }) + right_aligned(decimal(at), 4) + "  ★"@ + decimal(seen_count(image.member("rating"@)))
            + " "@ + (if image.member("is_edited"@) == Tree::Bool(true) {
            "*"@
        } else {
            " "@
        }) + "  "@ + seen_text(image.member("path"@)),
{
}

/// The list of masks has the lines of the masks, in order.
pub proof fn masks_are_listed(adjustments: serde_json::Value, lines: Vec<String>, i: int)
    requires
        call_ensures(list_masks, (&adjustments,), lines),
    ensures
        lines.len() == mask_lines(tree(adjustments)).len(),
        0 <= i < lines.len() ==> lines@[i]@ == mask_lines(tree(adjustments))[i],
{
    let shown = lines@.map_values(|line: String| line@);
    assert(shown.len() == lines.len());
    if 0 <= i < lines.len() {
        assert(shown[i] == lines@[i]@);
    }
}

/// The listing of a directory has the lines of the listing, in order.
pub proof fn images_are_listed(listing: serde_json::Value, lines: Vec<String>, i: int)
    requires
        call_ensures(list_images, (&listing,), lines),
    ensures
        lines.len() == listing_lines(tree(listing)).len(),
        0 <= i < lines.len() ==> lines@[i]@ == listing_lines(tree(listing))[i],
{
    let shown = lines@.map_values(|line: String| line@);
    assert(shown.len() == lines.len());
    if 0 <= i < lines.len() {
        assert(shown[i] == lines@[i]@);
    }
}

/// What is printed is the document in its indented form, and what is remarked names
/// the bytes and the file.
pub proof fn documents_and_remarks_are_printed(
    value: serde_json::Value,
    text: Result<String, serde_json::Error>,
    len: usize,
    path: &str,
    message: String,
)
    requires
        call_ensures(pretty, (&value,), text),
        call_ensures(wrote_message, (len, path), message),
    ensures
        text matches Ok(written) && written@ == pretty_text(tree(value)),
        message@ == "wrote "@ + decimal(len as nat) + " bytes to "@ + path@,
{
}

} // verus!
