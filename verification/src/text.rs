//! Text: whitespace, separators, and decimal numerals, with the sequences of
//! characters that they stand for.
use vstd::prelude::*;
use vstd::string::*;
use vstd::utf8::is_ascii_chars;

verus! {

// ---- whitespace ----

/// The characters of Unicode's `White_Space` property.
pub open spec fn is_space(c: char) -> bool {
    let code = c as u32;
    ||| 0x9 <= code <= 0xd
    ||| code == 0x20
    ||| code == 0x85
    ||| code == 0xa0
    ||| code == 0x1680
    ||| 0x2000 <= code <= 0x200a
    ||| code == 0x2028
    ||| code == 0x2029
    ||| code == 0x202f
    ||| code == 0x205f
    ||| code == 0x3000
}

/// `text` without the whitespace that it starts with.
pub open spec fn trimmed_start(text: Seq<char>) -> Seq<char>
    decreases text.len(),
{
    if text.len() > 0 && is_space(text.first()) {
        trimmed_start(text.drop_first())
    } else {
        text
    }
}

/// `text` without the whitespace that it ends with.
pub open spec fn trimmed_end(text: Seq<char>) -> Seq<char>
    decreases text.len(),
{
    if text.len() > 0 && is_space(text.last()) {
        trimmed_end(text.drop_last())
    } else {
        text
    }
}

/// `text` without the whitespace around it.
pub open spec fn trimmed(text: Seq<char>) -> Seq<char> {
    trimmed_end(trimmed_start(text))
}

/// Whether `c` is whitespace.
pub(crate) fn is_whitespace(c: char) -> (space: bool)
    ensures
        space == is_space(c),
{
    let code: u32 = c as u32;
    (0x9 <= code && code <= 0xd) || code == 0x20 || code == 0x85 || code == 0xa0 || code == 0x1680
        || (0x2000 <= code && code <= 0x200a) || code == 0x2028 || code == 0x2029 || code == 0x202f
        || code == 0x205f || code == 0x3000
}

/// Removes the whitespace around `text`.
pub(crate) fn trim(text: &str) -> (inner: String)
    ensures
        inner@ == trimmed(text@),
{
    let len: usize = text.unicode_len();
    let mut start: usize = 0;
    assert(text@.subrange(0, len as int) =~= text@);
    while start < len && is_whitespace(text.get_char(start))
        invariant
            len == text@.len(),
            start <= len,
            trimmed_start(text@) == trimmed_start(text@.subrange(start as int, len as int)),
        decreases len - start,
    {
        assert(text@.subrange(start as int, len as int).drop_first() =~= text@.subrange(
            start + 1,
            len as int,
        ));
        start += 1;
    }
    assert(trimmed_start(text@) == text@.subrange(start as int, len as int));
    let mut end: usize = len;
    while start < end && is_whitespace(text.get_char(end - 1))
        invariant
            len == text@.len(),
            start <= end <= len,
            trimmed(text@) == trimmed_end(text@.subrange(start as int, end as int)),
        decreases end,
    {
        assert(text@.subrange(start as int, end as int).drop_last() =~= text@.subrange(
            start as int,
            end - 1,
        ));
        end -= 1;
    }
    text.substring_char(start, end).to_owned()
}

// ---- joining and splitting ----

/// `left` followed by `right`.
pub(crate) fn concat(left: &str, right: &str) -> (joined: String)
    ensures
        joined@ == left@ + right@,
{
    let mut joined = left.to_owned();
    joined.append(right);
    joined
}

/// `left`, `middle` and `right` in a row.
pub(crate) fn concat3(left: &str, middle: &str, right: &str) -> (joined: String)
    ensures
        joined@ == left@ + middle@ + right@,
{
    let mut joined = left.to_owned();
    joined.append(middle);
    joined.append(right);
    joined
}

/// The pieces of `text` between the occurrences of `separator`: one more piece
/// than there are separators.
pub open spec fn pieces(text: Seq<char>, separator: char) -> Seq<Seq<char>>
    decreases text.len(),
{
    if text.len() == 0 {
        seq![Seq::empty()]
    } else {
        let before = pieces(text.drop_last(), separator);
        if text.last() == separator {
            before.push(Seq::empty())
        } else {
            before.drop_last().push(before.last().push(text.last()))
        }
    }
}

/// Splits `text` at every `separator`.
pub(crate) fn split(text: &str, separator: char) -> (parts: Vec<String>)
    ensures
        parts@.map_values(|part: String| part@) == pieces(text@, separator),
{
    let len: usize = text.unicode_len();
    let mut parts: Vec<String> = Vec::new();
    let mut from: usize = 0;
    let mut at: usize = 0;
    let ghost view = |part: String| part@;
    assert(text@.subrange(0, 0) =~= Seq::empty());
    while at < len
        invariant
            len == text@.len(),
            from <= at <= len,
            view == (|part: String| part@),
            pieces(text@.subrange(0, at as int), separator) == parts@.map_values(view).push(
                text@.subrange(from as int, at as int),
            ),
        decreases len - at,
    {
        let ghost seen = text@.subrange(0, at + 1);
        assert(seen.drop_last() =~= text@.subrange(0, at as int));
        assert(pieces(seen.drop_last(), separator).drop_last() =~= parts@.map_values(view));
        if text.get_char(at) == separator {
            let ghost before = parts@;
            parts.push(text.substring_char(from, at).to_owned());
            assert(parts@.map_values(view) =~= before.map_values(view).push(
                text@.subrange(from as int, at as int),
            ));
            from = at + 1;
            assert(text@.subrange(from as int, from as int) =~= Seq::empty());
        } else {
            assert(text@.subrange(from as int, at + 1) =~= text@.subrange(
                from as int,
                at as int,
            ).push(text@[at as int]));
        }
        at += 1;
    }
    assert(text@.subrange(0, len as int) =~= text@);
    let ghost before = parts@;
    parts.push(text.substring_char(from, len).to_owned());
    assert(parts@.map_values(view) =~= before.map_values(view).push(
        text@.subrange(from as int, len as int),
    ));
    parts
}

// ---- lower case ----

/// A text in lower case.
pub uninterp spec fn lowercased(text: Seq<char>) -> Seq<char>;

/// An ASCII letter in lower case; any other ASCII character as it is.
pub open spec fn ascii_lowercased(c: char) -> char {
    if 'A' <= c <= 'Z' {
        ((c as u32) + 32) as char
    } else {
        c
    }
}

/// `str::to_lowercase`. The contract gives the outcome a name, and says that it
/// goes letter by letter on ASCII text.
#[verifier::external_body]
pub(crate) fn to_lowercase(text: &str) -> (lower: String)
    ensures
        lower@ == lowercased(text@),
        is_ascii_chars(text@) ==> lower@ == text@.map_values(|c: char| ascii_lowercased(c)),
{
    text.to_lowercase()
}

// ---- decimal numerals ----

/// The ten digits, in order.
pub open spec fn digit_char(value: nat) -> char
    recommends
        value < 10,
{
    (('0' as u32) + value) as char
}

/// Whether `c` is one of the ten ASCII digits.
pub open spec fn is_digit(c: char) -> bool {
    '0' <= c <= '9'
}

/// What a digit counts.
pub open spec fn digit_value(c: char) -> nat
    recommends
        is_digit(c),
{
    ((c as u32) - ('0' as u32)) as nat
}

/// The decimal numeral of `n`, without leading zeros.
pub open spec fn decimal(n: nat) -> Seq<char>
    decreases n,
{
    if n < 10 {
        seq![digit_char(n)]
    } else {
        decimal(n / 10).push(digit_char(n % 10))
    }
}

/// Whether `text` is one digit or more, and nothing else.
pub open spec fn is_numeral(text: Seq<char>) -> bool {
    text.len() > 0 && forall|i: int| 0 <= i < text.len() ==> is_digit(#[trigger] text[i])
}

/// The number that a row of digits stands for.
pub open spec fn numeral_value(text: Seq<char>) -> nat
    decreases text.len(),
{
    if text.len() == 0 {
        0
    } else {
        numeral_value(text.drop_last()) * 10 + digit_value(text.last())
    }
}

/// A numeral reads back as the number that it was written for.
pub proof fn decimal_reads_back(n: nat)
    ensures
        is_numeral(decimal(n)),
        numeral_value(decimal(n)) == n,
    decreases n,
{
    if n >= 10 {
        decimal_reads_back(n / 10);
        assert(decimal(n).drop_last() =~= decimal(n / 10));
    } else {
        assert(decimal(n).drop_last() =~= Seq::<char>::empty());
        assert(numeral_value(Seq::<char>::empty()) == 0);
    }
}

fn digit_text(value: u64) -> (digit: &'static str)
    requires
        value < 10,
    ensures
        digit@ == seq![digit_char(value as nat)],
{
    proof {
        reveal_strlit("0");
        reveal_strlit("1");
        reveal_strlit("2");
        reveal_strlit("3");
        reveal_strlit("4");
        reveal_strlit("5");
        reveal_strlit("6");
        reveal_strlit("7");
        reveal_strlit("8");
        reveal_strlit("9");
    }
    match value {
        0 => "0",
        1 => "1",
        2 => "2",
        3 => "3",
        4 => "4",
        5 => "5",
        6 => "6",
        7 => "7",
        8 => "8",
        _ => "9",
    }
}

/// `text` behind as many spaces as make it `width` long.
pub open spec fn right_aligned(text: Seq<char>, width: nat) -> Seq<char>
    decreases width - text.len(),
{
    if text.len() >= width {
        text
    } else {
        right_aligned(seq![' '] + text, width)
    }
}

/// Writes spaces in front of `text` until it is `width` long.
pub(crate) fn align_right(text: &str, width: usize) -> (aligned: String)
    ensures
        aligned@ == right_aligned(text@, width as nat),
{
    proof {
        reveal_strlit(" ");
    }
    let mut aligned = text.to_owned();
    while aligned.as_str().unicode_len() < width
        invariant
            " "@ =~= seq![' '],
            right_aligned(aligned@, width as nat) == right_aligned(text@, width as nat),
        decreases width - aligned@.len(),
    {
        aligned = concat(" ", &aligned);
    }
    aligned
}

/// Writes `n` in decimal.
pub(crate) fn decimal_text(n: u64) -> (text: String)
    ensures
        text@ == decimal(n as nat),
    decreases n,
{
    if n < 10 {
        digit_text(n).to_owned()
    } else {
        let mut text = decimal_text(n / 10);
        text.append(digit_text(n % 10));
        text
    }
}

// ---- laws ----

/// Whitespace is what Unicode calls so: these characters, and no others.
pub proof fn whitespace_is_that_of_unicode(c: char)
    ensures
        is_space(c) <==> seq![
            0x9u32, 0xa, 0xb, 0xc, 0xd, 0x20, 0x85, 0xa0, 0x1680, 0x2000, 0x2001, 0x2002, 0x2003,
            0x2004, 0x2005, 0x2006, 0x2007, 0x2008, 0x2009, 0x200a, 0x2028, 0x2029, 0x202f, 0x205f,
            0x3000,
        ].contains(c as u32),
{
    let all = seq![
        0x9u32, 0xa, 0xb, 0xc, 0xd, 0x20, 0x85, 0xa0, 0x1680, 0x2000, 0x2001, 0x2002, 0x2003,
        0x2004, 0x2005, 0x2006, 0x2007, 0x2008, 0x2009, 0x200a, 0x2028, 0x2029, 0x202f, 0x205f,
        0x3000,
    ];
    let code = c as u32;
    let at = if code <= 0xd {
        code - 0x9
    } else if code == 0x20 {
        5
    } else if code == 0x85 {
        6
    } else if code == 0xa0 {
        7
    } else if code == 0x1680 {
        8
    } else if code <= 0x200a {
        code - 0x2000 + 9
    } else if code == 0x2028 {
        20
    } else if code == 0x2029 {
        21
    } else if code == 0x202f {
        22
    } else if code == 0x205f {
        23
    } else {
        24
    };
    if is_space(c) {
        assert(all[at] == code);
    }
}

/// Whether every character of `text` is whitespace.
pub open spec fn is_blank(text: Seq<char>) -> bool {
    forall|i: int| 0 <= i < text.len() ==> is_space(#[trigger] text[i])
}

proof fn lemma_trimmed_start(text: Seq<char>) -> (before: Seq<char>)
    ensures
        is_blank(before),
        text == before + trimmed_start(text),
        trimmed_start(text).len() > 0 ==> !is_space(trimmed_start(text).first()),
    decreases text.len(),
{
    if text.len() > 0 && is_space(text.first()) {
        let rest = lemma_trimmed_start(text.drop_first());
        let before = seq![text.first()] + rest;
        assert(text =~= seq![text.first()] + text.drop_first());
        assert(before + trimmed_start(text) =~= seq![text.first()] + (rest + trimmed_start(
            text.drop_first(),
        )));
        before
    } else {
        assert(text =~= Seq::<char>::empty() + text);
        Seq::empty()
    }
}

proof fn lemma_trimmed_end(text: Seq<char>) -> (after: Seq<char>)
    ensures
        is_blank(after),
        text == trimmed_end(text) + after,
        trimmed_end(text).len() > 0 ==> !is_space(trimmed_end(text).last()) && trimmed_end(
            text,
        ).first() == text.first(),
    decreases text.len(),
{
    if text.len() > 0 && is_space(text.last()) {
        let rest = lemma_trimmed_end(text.drop_last());
        let after = rest.push(text.last());
        assert(text =~= text.drop_last().push(text.last()));
        assert(trimmed_end(text) + after =~= (trimmed_end(text.drop_last()) + rest).push(
            text.last(),
        ));
        after
    } else {
        assert(text =~= text + Seq::<char>::empty());
        Seq::empty()
    }
}

/// Trimming takes away whitespace alone, before and after, and leaves none at
/// either end.
pub proof fn trimming_takes_whitespace_alone(text: Seq<char>) -> (around: (Seq<char>, Seq<char>))
    ensures
        text == around.0 + trimmed(text) + around.1,
        is_blank(around.0),
        is_blank(around.1),
        trimmed(text).len() > 0 ==> !is_space(trimmed(text).first()) && !is_space(
            trimmed(text).last(),
        ),
{
    let before = lemma_trimmed_start(text);
    let after = lemma_trimmed_end(trimmed_start(text));
    assert(text =~= before + trimmed(text) + after);
    (before, after)
}

/// Pieces put together again, with the separator between them.
pub open spec fn rejoined(parts: Seq<Seq<char>>, separator: char) -> Seq<char>
    decreases parts.len(),
{
    if parts.len() == 0 {
        Seq::empty()
    } else if parts.len() == 1 {
        parts[0]
    } else {
        rejoined(parts.drop_last(), separator).push(separator) + parts.last()
    }
}

/// Splitting loses nothing: the pieces give the text back, and no piece has a
/// separator in it.
pub proof fn splitting_loses_nothing(text: Seq<char>, separator: char)
    ensures
        pieces(text, separator).len() > 0,
        rejoined(pieces(text, separator), separator) == text,
        forall|i: int|
            0 <= i < pieces(text, separator).len() ==> !(#[trigger] pieces(
                text,
                separator,
            )[i]).contains(separator),
    decreases text.len(),
{
    let parts = pieces(text, separator);
    if text.len() == 0 {
        assert(rejoined(parts, separator) =~= text);
    } else {
        splitting_loses_nothing(text.drop_last(), separator);
        let before = pieces(text.drop_last(), separator);
        assert(text =~= text.drop_last().push(text.last()));
        if text.last() == separator {
            assert(parts.drop_last() =~= before);
            assert(rejoined(parts, separator) =~= text);
        } else {
            assert(parts.drop_last() =~= before.drop_last());
            assert(parts.last() == before.last().push(text.last()));
            assert forall|c: char| parts.last().contains(c) implies before.last().contains(c) || c
                == text.last() by {
                let k = choose|k: int| 0 <= k < parts.last().len() && parts.last()[k] == c;
                if k < before.last().len() {
                    assert(before.last()[k] == c);
                }
            }
            assert(before.last() == before[before.len() - 1]);
            assert(rejoined(parts, separator) =~= text);
            assert forall|i: int| 0 <= i < parts.len() implies !(
            #[trigger] parts[i]).contains(separator) by {
                if i < parts.len() - 1 {
                    assert(parts[i] == before[i]);
                }
            }
        }
    }
}

/// Every row of digits without leading zeros is the numeral of what it counts, so
/// that numbers and their numerals go one for one.
pub proof fn numerals_go_one_for_one(text: Seq<char>)
    requires
        is_numeral(text),
        text.len() == 1 || text[0] != '0',
    ensures
        decimal(numeral_value(text)) == text,
    decreases text.len(),
{
    let front = text.drop_last();
    let last = digit_value(text.last());
    assert(is_digit(text[text.len() - 1]));
    assert(text =~= front.push(text.last()));
    assert(digit_char(last) == text.last());
    if text.len() == 1 {
        assert(front =~= Seq::empty());
        assert(numeral_value(front) == 0);
        assert(decimal(last) =~= text);
    } else {
        assert forall|i: int| 0 <= i < front.len() implies is_digit(#[trigger] front[i]) by {
            assert(front[i] == text[i]);
        }
        assert(front[0] == text[0]);
        numerals_go_one_for_one(front);
        lemma_positive(front);
        let n = numeral_value(text);
        assert(n / 10 == numeral_value(front) && n % 10 == last);
        assert(decimal(n) =~= text);
    }
}

proof fn lemma_positive(text: Seq<char>)
    requires
        is_numeral(text),
        text[0] != '0',
    ensures
        numeral_value(text) > 0,
    decreases text.len(),
{
    let front = text.drop_last();
    if text.len() == 1 {
        assert(numeral_value(front) == 0);
        assert(is_digit(text[0]));
    } else {
        assert forall|i: int| 0 <= i < front.len() implies is_digit(#[trigger] front[i]) by {
            assert(front[i] == text[i]);
        }
        assert(front[0] == text[0]);
        lemma_positive(front);
    }
}

/// A numeral has no leading zero.
pub proof fn numerals_have_no_leading_zero(n: nat)
    ensures
        decimal(n).len() > 0,
        n > 0 ==> decimal(n)[0] != '0',
        n < 10 <==> decimal(n).len() == 1,
    decreases n,
{
    if n >= 10 {
        numerals_have_no_leading_zero(n / 10);
        assert(decimal(n)[0] == decimal(n / 10)[0]);
    }
}

/// Alignment puts spaces in front of a text and changes nothing else: the text is
/// never cut, and is as long as it should be or longer.
pub proof fn alignment_adds_spaces_in_front(text: Seq<char>, width: nat)
    ensures
        right_aligned(text, width).len() == if text.len() < width { width } else { text.len() },
        forall|i: int|
            0 <= i < right_aligned(text, width).len() - text.len() ==> #[trigger] right_aligned(
                text,
                width,
            )[i] == ' ',
        right_aligned(text, width).skip(right_aligned(text, width).len() - text.len()) == text,
    decreases width - text.len(),
{
    if text.len() < width {
        let longer = seq![' '] + text;
        alignment_adds_spaces_in_front(longer, width);
        let aligned = right_aligned(longer, width);
        assert(aligned.skip(aligned.len() - text.len()) =~= aligned.skip(
            aligned.len() - longer.len(),
        ).skip(1));
        assert(longer.skip(1) =~= text);
        assert forall|i: int| 0 <= i < aligned.len() - text.len() implies aligned[i] == ' ' by {
            if i == aligned.len() - longer.len() {
                assert(aligned[i] == aligned.skip(aligned.len() - longer.len())[0]);
            }
        }
    } else {
        assert(text.skip(0) =~= text);
    }
}

} // verus!
