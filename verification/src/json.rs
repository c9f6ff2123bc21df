//! JSON documents.
//!
//! A document is a `serde_json::Value`. What it holds is a [`Tree`], and every
//! contract of this crate that speaks of a document speaks of its tree: of the
//! names and values in an object, not of the order in which they are kept.
use crate::text::is_digit;
use vstd::prelude::*;

verus! {

/// A JSON object: its members by name.
pub type Object = serde_json::Map<String, serde_json::Value>;

// ---- what a document holds ----

/// A JSON number: a non-negative whole number, a negative one, or the bits of a
/// finite double-precision number.
pub enum Numeral {
    Unsigned(u64),
    Negative(i64),
    Float(u64),
}

/// What a JSON document holds.
pub enum Tree {
    Null,
    Bool(bool),
    Number(Numeral),
    Text(Seq<char>),
    Array(Seq<Tree>),
    Object(Map<Seq<char>, Tree>),
}

impl Tree {
    /// The members of an object; of anything else, none.
    pub open spec fn members(self) -> Map<Seq<char>, Tree> {
        match self {
            Tree::Object(members) => members,
            _ => no_members(),
        }
    }

    /// The member called `name`. Where there is none, and on anything but an
    /// object, that is null.
    pub open spec fn member(self, name: Seq<char>) -> Tree {
        if self.members().contains_key(name) {
            self.members()[name]
        } else {
            Tree::Null
        }
    }

    /// The text, if this is one.
    pub open spec fn as_text(self) -> Option<Seq<char>> {
        match self {
            Tree::Text(text) => Some(text),
            _ => None,
        }
    }

    /// The truth value, if this is one.
    pub open spec fn as_bool(self) -> Option<bool> {
        match self {
            Tree::Bool(value) => Some(value),
            _ => None,
        }
    }

    /// The non-negative whole number, if this is one.
    pub open spec fn as_unsigned(self) -> Option<u64> {
        match self {
            Tree::Number(Numeral::Unsigned(value)) => Some(value),
            _ => None,
        }
    }

    /// The number, if this is one.
    pub open spec fn as_number(self) -> Option<Numeral> {
        match self {
            Tree::Number(number) => Some(number),
            _ => None,
        }
    }

    /// The items, if this is an array.
    pub open spec fn as_array(self) -> Option<Seq<Tree>> {
        match self {
            Tree::Array(items) => Some(items),
            _ => None,
        }
    }
}

/// The members of the empty object.
pub open spec fn no_members() -> Map<Seq<char>, Tree> {
    Map::empty()
}

/// An array of texts.
pub open spec fn text_array(items: Seq<Seq<char>>) -> Tree {
    Tree::Array(items.map_values(|item: Seq<char>| Tree::Text(item)))
}

// ---- serde_json's types ----

/// `serde_json::Number`.
#[verifier::external_type_specification]
#[verifier::external_body]
pub struct ExNumber(serde_json::Number);

/// `serde_json::Value`.
#[verifier::external_type_specification]
#[verifier::external_body]
pub struct ExValue(serde_json::Value);

/// `serde_json::Map`.
#[verifier::external_type_specification]
#[verifier::external_body]
#[verifier::reject_recursive_types(K)]
#[verifier::reject_recursive_types(V)]
pub struct ExMap<K, V>(serde_json::Map<K, V>);

/// `serde_json::Error`.
#[verifier::external_type_specification]
#[verifier::external_body]
pub struct ExError(serde_json::Error);

/// What a `serde_json::Number` holds.
pub uninterp spec fn numeral(number: serde_json::Number) -> Numeral;

/// What a `serde_json::Value` holds.
pub uninterp spec fn tree(value: serde_json::Value) -> Tree;

/// What a `serde_json::Map` holds.
pub uninterp spec fn entries(map: serde_json::Map<String, serde_json::Value>) -> Map<
    Seq<char>,
    Tree,
>;

/// What each of a row of documents holds.
pub open spec fn trees(items: Seq<serde_json::Value>) -> Seq<Tree> {
    items.map_values(|item: serde_json::Value| tree(item))
}

// ---- documents, one level at a time ----

/// A document taken apart at the top: the six kinds of `serde_json::Value`.
pub enum Node {
    Null,
    Bool(bool),
    Number(serde_json::Number),
    Text(String),
    Array(Vec<serde_json::Value>),
    Object(serde_json::Map<String, serde_json::Value>),
}

impl Node {
    /// What the document holds.
    pub open spec fn tree(self) -> Tree {
        match self {
            Node::Null => Tree::Null,
            Node::Bool(value) => Tree::Bool(value),
            Node::Number(number) => Tree::Number(numeral(number)),
            Node::Text(text) => Tree::Text(text@),
            Node::Array(items) => Tree::Array(trees(items@)),
            Node::Object(map) => Tree::Object(entries(map)),
        }
    }
}

/// A borrowed document taken apart at the top.
pub enum NodeRef<'a> {
    Null,
    Bool(bool),
    Number(&'a serde_json::Number),
    Text(&'a String),
    Array(&'a Vec<serde_json::Value>),
    Object(&'a serde_json::Map<String, serde_json::Value>),
}

impl<'a> NodeRef<'a> {
    /// What the document holds.
    pub open spec fn tree(self) -> Tree {
        match self {
            NodeRef::Null => Tree::Null,
            NodeRef::Bool(value) => Tree::Bool(value),
            NodeRef::Number(number) => Tree::Number(numeral(*number)),
            NodeRef::Text(text) => Tree::Text(text@),
            NodeRef::Array(items) => Tree::Array(trees(items@)),
            NodeRef::Object(map) => Tree::Object(entries(*map)),
        }
    }
}

/// Takes a `serde_json::Value` apart: the contract says that each of its six
/// variants holds what the field of that variant holds.
#[verifier::external_body]
pub(crate) fn open(value: serde_json::Value) -> (node: Node)
    ensures
        node.tree() == tree(value),
{
    match value {
        serde_json::Value::Null => Node::Null,
        serde_json::Value::Bool(value) => Node::Bool(value),
        serde_json::Value::Number(number) => Node::Number(number),
        serde_json::Value::String(text) => Node::Text(text),
        serde_json::Value::Array(items) => Node::Array(items),
        serde_json::Value::Object(map) => Node::Object(map),
    }
}

/// Looks into a borrowed `serde_json::Value`: the contract says of its variants
/// what that of [`open`] says.
#[verifier::external_body]
pub(crate) fn peek(value: &serde_json::Value) -> (node: NodeRef<'_>)
    ensures
        node.tree() == tree(*value),
{
    match value {
        serde_json::Value::Null => NodeRef::Null,
        serde_json::Value::Bool(value) => NodeRef::Bool(*value),
        serde_json::Value::Number(number) => NodeRef::Number(number),
        serde_json::Value::String(text) => NodeRef::Text(text),
        serde_json::Value::Array(items) => NodeRef::Array(items),
        serde_json::Value::Object(map) => NodeRef::Object(map),
    }
}

/// Puts a `serde_json::Value` together: the contract says that each of its six
/// variants holds what the field of that variant holds.
#[verifier::external_body]
pub(crate) fn close(node: Node) -> (value: serde_json::Value)
    ensures
        tree(value) == node.tree(),
{
    match node {
        Node::Null => serde_json::Value::Null,
        Node::Bool(value) => serde_json::Value::Bool(value),
        Node::Number(number) => serde_json::Value::Number(number),
        Node::Text(text) => serde_json::Value::String(text),
        Node::Array(items) => serde_json::Value::Array(items),
        Node::Object(map) => serde_json::Value::Object(map),
    }
}

/// `Value::clone` makes a document that holds the same.
pub assume_specification[ <serde_json::Value as Clone>::clone ](value: &serde_json::Value) -> (copy:
    serde_json::Value)
    ensures
        tree(copy) == tree(*value),
;

// ---- objects ----

/// `Map::new` makes an object with no members.
pub assume_specification[ serde_json::Map::<String, serde_json::Value>::new ]() -> (map:
    serde_json::Map<String, serde_json::Value>)
    ensures
        entries(map) == no_members(),
;

/// `Map::insert` sets one member and leaves the others; it gives back what the
/// member was before, if it was there.
pub assume_specification[ serde_json::Map::<String, serde_json::Value>::insert ](
    map: &mut serde_json::Map<String, serde_json::Value>,
    k: String,
    v: serde_json::Value,
) -> (replaced: Option<serde_json::Value>)
    ensures
        entries(*final(map)) == entries(*old(map)).insert(k@, tree(v)),
        replaced is Some <==> entries(*old(map)).contains_key(k@),
        replaced matches Some(before) ==> tree(before) == entries(*old(map))[k@],
;

/// `Map::is_empty` tells whether there are no members.
pub assume_specification[ serde_json::Map::<String, serde_json::Value>::is_empty ](
    map: &serde_json::Map<String, serde_json::Value>,
) -> (empty: bool)
    ensures
        empty == (entries(*map) == no_members()),
;

/// `Map::get` with a name finds the member of that name, if there is one.
#[verifier::external_body]
pub(crate) fn get<'a>(map: &'a Object, name: &str) -> (found: Option<&'a serde_json::Value>)
    ensures
        found is Some <==> entries(*map).contains_key(name@),
        found matches Some(value) ==> tree(*value) == entries(*map)[name@],
{
    map.get(name)
}

/// `members` with those of `list` set in it, one after the other.
pub open spec fn inserted(
    members: Map<Seq<char>, Tree>,
    list: Seq<(String, serde_json::Value)>,
) -> Map<Seq<char>, Tree>
    decreases list.len(),
{
    if list.len() == 0 {
        members
    } else {
        inserted(members, list.drop_last()).insert(list.last().0@, tree(list.last().1))
    }
}

/// Whether no name stands in `list` twice.
pub open spec fn distinct_names(list: Seq<(String, serde_json::Value)>) -> bool {
    forall|i: int, j: int|
        0 <= i < j < list.len() ==> (#[trigger] list[i]).0@ != (#[trigger] list[j]).0@
}

/// Iterating over an owned `Map` gives each of its members once.
#[verifier::external_body]
pub(crate) fn into_list(map: Object) -> (list: Vec<(String, serde_json::Value)>)
    ensures
        distinct_names(list@),
        entries(map) == inserted(no_members(), list@),
{
    map.into_iter().collect()
}

/// Whether `name` stands in `list`.
pub open spec fn names(list: Seq<(String, serde_json::Value)>, name: Seq<char>) -> bool {
    exists|i: int| 0 <= i < list.len() && (#[trigger] list[i]).0@ == name
}

/// What is in an object made from a list: the names of the list with their
/// values, and no others.
pub(crate) proof fn lemma_inserted(
    members: Map<Seq<char>, Tree>,
    list: Seq<(String, serde_json::Value)>,
)
    requires
        distinct_names(list),
    ensures
        forall|name: Seq<char>| #[trigger]
            inserted(members, list).contains_key(name) <==> members.contains_key(name) || names(
                list,
                name,
            ),
        forall|i: int|
            0 <= i < list.len() ==> inserted(members, list)[(#[trigger] list[i]).0@] == tree(
                list[i].1,
            ),
        forall|name: Seq<char>|
            members.contains_key(name) && !names(list, name) ==> #[trigger] inserted(
                members,
                list,
            )[name] == members[name],
    decreases list.len(),
{
    if list.len() > 0 {
        let front = list.drop_last();
        lemma_inserted(members, front);
        assert(list[list.len() - 1] == list.last());
        assert forall|name: Seq<char>| names(list, name) <==> names(front, name) || name
            == list.last().0@ by {
            if names(front, name) {
                let i = choose|i: int| 0 <= i < front.len() && (#[trigger] front[i]).0@ == name;
                assert(list[i] == front[i]);
            }
            if names(list, name) && name != list.last().0@ {
                let i = choose|i: int| 0 <= i < list.len() && (#[trigger] list[i]).0@ == name;
                assert(front[i] == list[i]);
            }
        }
        assert forall|i: int| 0 <= i < list.len() implies inserted(members, list)[(
        #[trigger] list[i]).0@] == tree(list[i].1) by {
            if i < front.len() {
                assert(front[i] == list[i]);
            }
        }
    }
}

/// Sets the member `name` of `map`.
pub(crate) fn put(map: &mut Object, name: &str, value: serde_json::Value)
    ensures
        entries(*final(map)) == entries(*old(map)).insert(name@, tree(value)),
{
    map.insert(name.to_owned(), value);
}

// ---- numbers ----

/// `Number::from` on a whole number keeps the number.
#[verifier::external_body]
pub(crate) fn unsigned_number(value: u64) -> (number: serde_json::Number)
    ensures
        numeral(number) == Numeral::Unsigned(value),
{
    serde_json::Number::from(value)
}

/// `Number::as_u64` gives back the whole number that a number was made from, and
/// nothing for a negative number or a floating-point one.
pub assume_specification[ serde_json::Number::as_u64 ](number: &serde_json::Number) -> (value:
    Option<u64>)
    ensures
        value == Tree::Number(numeral(*number)).as_unsigned(),
;

/// What reading a text as a floating-point number gives: nothing where it is no
/// such number, no bits where it is infinite or not a number, else its bits.
pub uninterp spec fn float_in(text: Seq<char>) -> Option<Option<u64>>;

/// Reads a text as a double-precision number and makes that a JSON number with
/// `Number::from_f64`, which refuses infinities and NaN. The contract gives the
/// outcome a name, and says that a digit, a point and a digit are a finite number.
#[verifier::external_body]
pub(crate) fn read_float(text: &str) -> (number: Option<Option<serde_json::Number>>)
    ensures
        match number {
            None => float_in(text@) is None,
            Some(None) => float_in(text@) == Some(None::<u64>),
            Some(Some(finite)) => float_in(text@) matches Some(Some(bits)) && numeral(finite)
                == Numeral::Float(bits),
        },
        text@.len() == 3 && is_digit(text@[0]) && text@[1] == '.' && is_digit(text@[2])
            ==> number matches Some(Some(_)),
{
    text.parse().ok().map(serde_json::Number::from_f64)
}

/// How a number reads when it is printed as a floating-point number.
pub uninterp spec fn float_shown(number: Numeral) -> Seq<char>;

/// Prints what `Number::as_f64` gives: each of the three kinds of number has a
/// floating-point number. The contract gives the outcome a name.
#[verifier::external_body]
pub(crate) fn show_float(number: &serde_json::Number) -> (text: Option<String>)
    ensures
        match text {
            Some(shown) => shown@ == float_shown(numeral(*number)),
            None => false,
        },
{
    number.as_f64().as_ref().map(ToString::to_string)
}

// ---- text ----

/// What a `serde_json::Error` reads like.
pub uninterp spec fn error_text(error: serde_json::Error) -> Seq<char>;

/// Prints a `serde_json::Error`. The contract gives the outcome a name.
#[verifier::external_body]
pub(crate) fn show_error(error: &serde_json::Error) -> (text: String)
    ensures
        text@ == error_text(*error),
{
    error.to_string()
}

/// What a text holds that is a JSON object, or else why it is not one.
pub uninterp spec fn object_in(text: Seq<char>) -> Result<Map<Seq<char>, Tree>, Seq<char>>;

/// What a text holds that is a JSON document, or else why it is not one.
pub uninterp spec fn document_in(text: Seq<char>) -> Result<Tree, Seq<char>>;

/// The indented form of a document.
pub uninterp spec fn pretty_text(document: Tree) -> Seq<char>;

/// `serde_json::from_str` into an object. The contract gives the outcome a name:
/// what the object holds, or what the error says of the text.
#[verifier::external_body]
pub(crate) fn read_object(text: &str) -> (read: Result<Object, serde_json::Error>)
    ensures
        match (read, object_in(text@)) {
            (Ok(map), Ok(members)) => entries(map) == members,
            (Err(error), Err(cause)) => error_text(error) == cause,
            _ => false,
        },
{
    serde_json::from_str(text)
}

/// `serde_json::from_str` into any document. The contract gives the outcome a
/// name: what the document holds, or what the error says of the text.
#[verifier::external_body]
pub(crate) fn read_document(text: &str) -> (read: Result<serde_json::Value, serde_json::Error>)
    ensures
        match (read, document_in(text@)) {
            (Ok(value), Ok(held)) => tree(value) == held,
            (Err(error), Err(cause)) => error_text(error) == cause,
            _ => false,
        },
{
    serde_json::from_str(text)
}

/// `serde_json::to_string_pretty` on a document, which has text for names and so
/// always has an indented form. A `Map` keeps its members in the order of their
/// names, so that what is written rests on what the document holds alone. The
/// contract gives the outcome a name.
#[verifier::external_body]
pub(crate) fn write_pretty(value: &serde_json::Value) -> (text: Result<String, serde_json::Error>)
    ensures
        match text {
            Ok(written) => written@ == pretty_text(tree(*value)),
            Err(_) => false,
        },
{
    serde_json::to_string_pretty(value)
}

// ---- building documents ----

/// A text as a document.
pub(crate) fn text_value(text: &str) -> (value: serde_json::Value)
    ensures
        tree(value) == Tree::Text(text@),
{
    close(Node::Text(text.to_owned()))
}

/// A truth value as a document.
pub(crate) fn bool_value(truth: bool) -> (value: serde_json::Value)
    ensures
        tree(value) == Tree::Bool(truth),
{
    close(Node::Bool(truth))
}

/// A whole number as a document.
pub(crate) fn unsigned_value(number: u64) -> (value: serde_json::Value)
    ensures
        tree(value) == Tree::Number(Numeral::Unsigned(number)),
{
    close(Node::Number(unsigned_number(number)))
}

/// An array of texts as a document.
pub(crate) fn texts_value(texts: &Vec<&str>) -> (value: serde_json::Value)
    ensures
        tree(value) == text_array(texts@.map_values(|text: &str| text@)),
{
    let mut items: Vec<serde_json::Value> = Vec::new();
    let mut i: usize = 0;
    while i < texts.len()
        invariant
            i <= texts.len(),
            items.len() == i,
            forall|j: int| 0 <= j < i ==> tree(#[trigger] items@[j]) == Tree::Text(texts@[j]@),
        decreases texts.len() - i,
    {
        items.push(text_value(texts[i]));
        i += 1;
    }
    assert(trees(items@) =~= texts@.map_values(|text: &str| text@).map_values(
        |item: Seq<char>| Tree::Text(item),
    ));
    close(Node::Array(items))
}

/// An array of owned texts as a document.
pub(crate) fn strings_value(texts: &Vec<String>) -> (value: serde_json::Value)
    ensures
        tree(value) == text_array(texts@.map_values(|text: String| text@)),
{
    let mut items: Vec<serde_json::Value> = Vec::new();
    let mut i: usize = 0;
    while i < texts.len()
        invariant
            i <= texts.len(),
            items.len() == i,
            forall|j: int| 0 <= j < i ==> tree(#[trigger] items@[j]) == Tree::Text(texts@[j]@),
        decreases texts.len() - i,
    {
        items.push(text_value(&texts[i]));
        i += 1;
    }
    assert(trees(items@) =~= texts@.map_values(|text: String| text@).map_values(
        |item: Seq<char>| Tree::Text(item),
    ));
    close(Node::Array(items))
}

// ---- reading documents ----

/// The member `name` of an object, if `value` is one and has it.
pub(crate) fn member<'a>(value: &'a serde_json::Value, name: &str) -> (found: Option<
    &'a serde_json::Value,
>)
    ensures
        found is Some <==> tree(*value).members().contains_key(name@),
        found matches Some(inner) ==> tree(*inner) == tree(*value).members()[name@],
{
    match peek(value) {
        NodeRef::Object(map) => get(map, name),
        _ => None,
    }
}

/// The text in the member `name`, if it is one.
pub(crate) fn text_member<'a>(value: &'a serde_json::Value, name: &str) -> (text: Option<
    &'a String,
>)
    ensures
        text is Some <==> tree(*value).member(name@).as_text() is Some,
        text matches Some(inner) ==> tree(*value).member(name@).as_text() == Some(inner@),
{
    match member(value, name) {
        Some(inner) => match peek(inner) {
            NodeRef::Text(text) => Some(text),
            _ => None,
        },
        None => None,
    }
}

/// The truth value in the member `name`, if it is one.
pub(crate) fn bool_member(value: &serde_json::Value, name: &str) -> (truth: Option<bool>)
    ensures
        truth == tree(*value).member(name@).as_bool(),
{
    match member(value, name) {
        Some(inner) => match peek(inner) {
            NodeRef::Bool(truth) => Some(truth),
            _ => None,
        },
        None => None,
    }
}

/// The whole number in the member `name`, if it is one.
pub(crate) fn unsigned_member(value: &serde_json::Value, name: &str) -> (number: Option<u64>)
    ensures
        number == tree(*value).member(name@).as_unsigned(),
{
    match member(value, name) {
        Some(inner) => match peek(inner) {
            NodeRef::Number(number) => number.as_u64(),
            _ => None,
        },
        None => None,
    }
}

/// The number in the member `name`, if it is one.
pub(crate) fn number_member<'a>(value: &'a serde_json::Value, name: &str) -> (number: Option<
    &'a serde_json::Number,
>)
    ensures
        number is Some <==> tree(*value).member(name@).as_number() is Some,
        number matches Some(inner) ==> tree(*value).member(name@).as_number() == Some(
            numeral(*inner),
        ),
{
    match member(value, name) {
        Some(inner) => match peek(inner) {
            NodeRef::Number(number) => Some(number),
            _ => None,
        },
        None => None,
    }
}

/// The items of the array in the member `name`, if it is one.
pub(crate) fn array_member<'a>(value: &'a serde_json::Value, name: &str) -> (items: Option<
    &'a Vec<serde_json::Value>,
>)
    ensures
        items is Some <==> tree(*value).member(name@).as_array() is Some,
        items matches Some(inner) ==> tree(*value).member(name@).as_array() == Some(
            trees(inner@),
        ),
{
    match member(value, name) {
        Some(inner) => match peek(inner) {
            NodeRef::Array(items) => Some(items),
            _ => None,
        },
        None => None,
    }
}

// ---- laws ----

/// Each reader takes what is of its own kind, as it is, and nothing else.
pub proof fn readers_take_their_kind(document: Tree)
    ensures
        forall|text: Seq<char>| document.as_text() == Some(text) <==> document == Tree::Text(text),
        forall|truth: bool| document.as_bool() == Some(truth) <==> document == Tree::Bool(truth),
        forall|number: Numeral|
            document.as_number() == Some(number) <==> document == Tree::Number(number),
        forall|number: u64|
            document.as_unsigned() == Some(number) <==> document == Tree::Number(
                Numeral::Unsigned(number),
            ),
        forall|items: Seq<Tree>| document.as_array() == Some(items) <==> document == Tree::Array(items),
{
}

/// A member is what stands under its name; what has no such member reads as null.
pub proof fn members_read_by_name(members: Map<Seq<char>, Tree>, name: Seq<char>, document: Tree)
    ensures
        members.contains_key(name) ==> Tree::Object(members).member(name) == members[name],
        !members.contains_key(name) ==> Tree::Object(members).member(name) == Tree::Null,
        !(document is Object) ==> document.member(name) == Tree::Null,
{
}

/// An array of texts holds those texts, in their order.
pub proof fn text_array_keeps_order(items: Seq<Seq<char>>)
    ensures
        text_array(items) matches Tree::Array(held) && held.len() == items.len() && forall|i: int|
            0 <= i < items.len() ==> #[trigger] held[i] == Tree::Text(items[i]),
{
}

} // verus!
