//! JSON documents: reading bytes into a tree that contracts can speak of, and
//! writing a tree back.
use crate::numbers::signed_decimal;
use crate::text::{same, sorts_before};
use vstd::prelude::*;
use vstd::utf8::encode_scalar;

verus! {

// ------------------------------------------------------------------- models --

/// A JSON value. A number is known where it is a whole number in the range of
/// an `i64`. The entries of an object stand in the order it keeps them in.
#[verifier::ext_equal]
pub enum JsonView {
    Null,
    Bool(bool),
    Number(Option<i64>),
    Text(Seq<char>),
    Array(Seq<JsonView>),
    Object(Seq<(Seq<char>, JsonView)>),
}

/// The value of the first entry under `key`.
pub open spec fn entry(entries: Seq<(Seq<char>, JsonView)>, key: Seq<char>) -> Option<JsonView>
    decreases entries.len(),
{
    if entries.len() == 0 {
        None
    } else if entries[0].0 == key {
        Some(entries[0].1)
    } else {
        entry(entries.drop_first(), key)
    }
}

impl JsonView {
    /// What an object holds under `key`; nothing for any other value.
    pub open spec fn get(self, key: Seq<char>) -> Option<JsonView> {
        match self {
            JsonView::Object(entries) => entry(entries, key),
            _ => None,
        }
    }

    /// What the object under `outer` holds under `inner`.
    pub open spec fn at(self, outer: Seq<char>, inner: Seq<char>) -> Option<JsonView> {
        match self.get(outer) {
            Some(value) => value.get(inner),
            None => None,
        }
    }
}

/// The characters of a JSON string.
pub open spec fn as_text(value: Option<JsonView>) -> Option<Seq<char>> {
    match value {
        Some(JsonView::Text(text)) => Some(text),
        _ => None,
    }
}

/// The characters of a JSON string, or none at all for anything else.
pub open spec fn text_or_empty(value: Option<JsonView>) -> Seq<char> {
    match as_text(value) {
        Some(text) => text,
        None => Seq::empty(),
    }
}

/// The items of a JSON array.
pub open spec fn as_items(value: Option<JsonView>) -> Option<Seq<JsonView>> {
    match value {
        Some(JsonView::Array(items)) => Some(items),
        _ => None,
    }
}

/// The entries of a JSON object.
pub open spec fn as_entries(value: Option<JsonView>) -> Option<Seq<(Seq<char>, JsonView)>> {
    match value {
        Some(JsonView::Object(entries)) => Some(entries),
        _ => None,
    }
}

/// The whole number of a JSON number, or zero for anything else.
pub open spec fn number_or_zero(value: Option<JsonView>) -> int {
    match value {
        Some(JsonView::Number(Some(number))) => number as int,
        _ => 0,
    }
}

/// Whether the keys of an object come in order and none comes twice.
pub open spec fn in_order(entries: Seq<(Seq<char>, JsonView)>) -> bool {
    forall|i: int, j: int|
        0 <= i < j < entries.len() ==> sorts_before(#[trigger] entries[i].0, #[trigger] entries[j].0)
}

/// Whether the keys of every object of a document come in order and none comes
/// twice, as in every document that was read.
pub open spec fn tidy(value: JsonView) -> bool
    decreases value,
{
    match value {
        JsonView::Array(items) => forall|i: int|
            0 <= i < items.len() ==> tidy(#[trigger] items[i]),
        JsonView::Object(entries) => in_order(entries) && forall|i: int|
            0 <= i < entries.len() ==> tidy((#[trigger] entries[i]).1),
        _ => true,
    }
}

proof fn entries_are_tidy(entries: Seq<(Seq<char>, JsonView)>, key: Seq<char>)
    requires
        forall|i: int| 0 <= i < entries.len() ==> tidy((#[trigger] entries[i]).1),
    ensures
        entry(entries, key) matches Some(value) ==> tidy(value),
    decreases entries.len(),
{
    if entries.len() > 0 {
        let rest = entries.drop_first();
        assert forall|i: int| 0 <= i < rest.len() implies tidy((#[trigger] rest[i]).1) by {
            assert(rest[i] == entries[i + 1]);
        }
        entries_are_tidy(rest, key);
    }
}

/// What a tidy document holds is tidy.
pub proof fn parts_are_tidy(value: JsonView, key: Seq<char>)
    requires
        tidy(value),
    ensures
        value.get(key) matches Some(part) ==> tidy(part),
{
    if let JsonView::Object(entries) = value {
        entries_are_tidy(entries, key);
    }
}

// ---------------------------------------------------------------- documents --

/// A JSON value that the library reads and builds.
#[derive(Debug, PartialEq)]
pub enum Json {
    Null,
    Bool(bool),
    Number(Option<i64>),
    Text(String),
    Array(Vec<Json>),
    Object(Vec<(String, Json)>),
}

impl Json {
    pub open spec fn view(&self) -> JsonView
        decreases self,
    {
        match self {
            Json::Null => JsonView::Null,
            Json::Bool(value) => JsonView::Bool(*value),
            Json::Number(number) => JsonView::Number(*number),
            Json::Text(text) => JsonView::Text(text@),
            Json::Array(items) => JsonView::Array(
                Seq::new(
                    items@.len(),
                    |i: int|
                        if 0 <= i < items@.len() {
                            items@[i].view()
                        } else {
                            JsonView::Null
                        },
                ),
            ),
            Json::Object(entries) => JsonView::Object(
                Seq::new(
                    entries@.len(),
                    |i: int|
                        if 0 <= i < entries@.len() {
                            (entries@[i].0@, entries@[i].1.view())
                        } else {
                            (Seq::empty(), JsonView::Null)
                        },
                ),
            ),
        }
    }

    /// What an object holds under `key`.
    pub fn get(&self, key: &str) -> (value: Option<&Json>)
        ensures
            match value {
                Some(value) => self@.get(key@) == Some(value@),
                None => self@.get(key@) is None,
            },
    {
        match self {
            Json::Object(entries) => {
                let ghost all = self@->Object_0;
                let mut at: usize = 0;
                assert(all.skip(0) =~= all);
                while at < entries.len()
                    invariant
                        at <= entries@.len(),
                        self@ == JsonView::Object(all),
                        all.len() == entries@.len(),
                        forall|i: int|
                            0 <= i < all.len() ==> #[trigger] all[i] == (
                                entries@[i].0@,
                                entries@[i].1@,
                            ),
                        entry(all, key@) == entry(all.skip(at as int), key@),
                    decreases entries@.len() - at,
                {
                    assert(all.skip(at as int)[0] == all[at as int]);
                    if same(entries[at].0.as_str(), key) {
                        return Some(&entries[at].1);
                    }
                    assert(all.skip(at as int).drop_first() =~= all.skip(at + 1));
                    at = at + 1;
                }
                None
            },
            _ => None,
        }
    }

    /// What the object under `outer` holds under `inner`.
    pub fn at(&self, outer: &str, inner: &str) -> (value: Option<&Json>)
        ensures
            match value {
                Some(value) => self@.at(outer@, inner@) == Some(value@),
                None => self@.at(outer@, inner@) is None,
            },
    {
        match self.get(outer) {
            Some(value) => value.get(inner),
            None => None,
        }
    }
}

/// The view of a value that may be missing.
pub open spec fn seen(value: Option<&Json>) -> Option<JsonView> {
    match value {
        Some(value) => Some(value@),
        None => None,
    }
}

/// The characters of a JSON string.
pub fn text_of_json(value: Option<&Json>) -> (text: Option<String>)
    ensures
        match text {
            Some(text) => as_text(seen(value)) == Some(text@),
            None => as_text(seen(value)) is None,
        },
{
    match value {
        Some(Json::Text(text)) => Some(text.clone()),
        _ => None,
    }
}

/// The characters of a JSON string, or none at all for anything else.
pub fn text_or_nothing(value: Option<&Json>) -> (text: String)
    ensures
        text@ == text_or_empty(seen(value)),
{
    match text_of_json(value) {
        Some(text) => text,
        None => String::new(),
    }
}

/// Whether a JSON value is the string `wanted`.
pub fn is_text(value: Option<&Json>, wanted: &str) -> (yes: bool)
    ensures
        yes == (as_text(seen(value)) == Some(wanted@)),
{
    match value {
        Some(Json::Text(text)) => same(text.as_str(), wanted),
        _ => false,
    }
}

/// The whole number of a JSON number, or zero for anything else.
pub fn whole_number(value: Option<&Json>) -> (number: i64)
    ensures
        number == number_or_zero(seen(value)),
{
    match value {
        Some(Json::Number(Some(number))) => *number,
        _ => 0,
    }
}

// ------------------------------------------------------- the parser's values --

/// The parsed documents of `serde_json`.
#[verifier::external_type_specification]
#[verifier::external_body]
pub struct ExValue(serde_json::Value);

/// What a parsed document holds.
pub uninterp spec fn value_json(value: serde_json::Value) -> JsonView;

/// The document that bytes spell, if they spell one.
pub uninterp spec fn parsed_json(bytes: Seq<u8>) -> Result<JsonView, Seq<char>>;

/// What `serde_json` writes for a document.
pub uninterp spec fn json_bytes(value: JsonView) -> Seq<u8>;

/// One level of a parsed document.
pub enum Node {
    Null,
    Bool(bool),
    Number(Option<i64>),
    Text(String),
    Array(Vec<serde_json::Value>),
    Object(Vec<(String, serde_json::Value)>),
}

pub open spec fn value_items(items: Seq<serde_json::Value>) -> Seq<JsonView> {
    items.map_values(|item: serde_json::Value| value_json(item))
}

pub open spec fn value_entries(entries: Seq<(String, serde_json::Value)>) -> Seq<
    (Seq<char>, JsonView),
> {
    entries.map_values(|entry: (String, serde_json::Value)| (entry.0@, value_json(entry.1)))
}

impl Node {
    pub open spec fn view(&self) -> JsonView {
        match self {
            Node::Null => JsonView::Null,
            Node::Bool(value) => JsonView::Bool(*value),
            Node::Number(number) => JsonView::Number(*number),
            Node::Text(text) => JsonView::Text(text@),
            Node::Array(items) => JsonView::Array(value_items(items@)),
            Node::Object(entries) => JsonView::Object(value_entries(entries@)),
        }
    }
}

/// Whether every number of a document is known.
pub open spec fn known(value: JsonView) -> bool
    decreases value,
{
    match value {
        JsonView::Number(number) => number is Some,
        JsonView::Array(items) => forall|i: int|
            0 <= i < items.len() ==> known(#[trigger] items[i]),
        JsonView::Object(entries) => forall|i: int|
            0 <= i < entries.len() ==> known((#[trigger] entries[i]).1),
        _ => true,
    }
}

/// How many bytes a character takes inside a written string: the quote, the
/// backslash and the control characters are escaped.
pub open spec fn letter_len(letter: char) -> nat {
    let code = letter as u32;
    if code == 0x22 || code == 0x5c || 0x08 <= code <= 0x0a || code == 0x0c || code == 0x0d {
        2
    } else if code < 0x20 {
        6
    } else {
        encode_scalar(code).len()
    }
}

/// How many bytes the characters of a string take once written.
pub open spec fn letters_len(text: Seq<char>) -> nat
    decreases text.len(),
{
    if text.len() == 0 {
        0
    } else {
        letters_len(text.drop_last()) + letter_len(text.last())
    }
}

/// The length of a string once written, its quotes included.
pub open spec fn text_len(text: Seq<char>) -> nat {
    2 + letters_len(text)
}

/// The length of the items of an array once written, with a comma between each
/// two.
pub open spec fn items_len(items: Seq<JsonView>) -> nat
    decreases items,
{
    if items.len() == 0 {
        0
    } else if items.len() == 1 {
        json_len(items[0])
    } else {
        items_len(items.drop_last()) + 1 + json_len(items.last())
    }
}

/// The length of the entries of an object once written, with a colon after each
/// key and a comma between each two.
pub open spec fn entries_len(entries: Seq<(Seq<char>, JsonView)>) -> nat
    decreases entries,
{
    if entries.len() == 0 {
        0
    } else {
        let last = entries.last();
        let comma: nat = if entries.len() == 1 {
            0
        } else {
            1
        };
        entries_len(entries.drop_last()) + comma + text_len(last.0) + 1 + json_len(last.1)
    }
}

/// The length of a document once written, without any white space.
pub open spec fn json_len(value: JsonView) -> nat
    decreases value,
{
    match value {
        JsonView::Null => 4,
        JsonView::Bool(value) => if value {
            4
        } else {
            5
        },
        JsonView::Number(Some(number)) => signed_decimal(number as int).len(),
        JsonView::Number(None) => 0,
        JsonView::Text(text) => text_len(text),
        JsonView::Array(items) => 2 + items_len(items),
        JsonView::Object(entries) => 2 + entries_len(entries),
    }
}

/// Opens one level of a [`serde_json::Value`]: its variant, with the fields of
/// the variant moved out. A number is what `Number::as_i64` gives, and the
/// entries of an object come in the order in which its map is walked: the map is
/// a `BTreeMap`, so its keys are sorted and each is there once.
#[verifier::external_body]
pub(crate) fn open_value(value: serde_json::Value) -> (node: Node)
    ensures
        node@ == value_json(value),
        node@ matches JsonView::Object(entries) ==> in_order(entries),
{
    match value {
        serde_json::Value::Null => Node::Null,
        serde_json::Value::Bool(value) => Node::Bool(value),
        serde_json::Value::Number(number) => Node::Number(number.as_i64()),
        serde_json::Value::String(text) => Node::Text(text),
        serde_json::Value::Array(items) => Node::Array(items),
        serde_json::Value::Object(entries) => Node::Object(entries.into_iter().collect()),
    }
}

/// Builds one level of a [`serde_json::Value`] from the same variant. The map of
/// an object keeps its keys sorted and each of them once, so the entries have to
/// come that way.
#[verifier::external_body]
pub(crate) fn close_node(node: Node) -> (value: serde_json::Value)
    requires
        node@ matches JsonView::Number(number) ==> number is Some,
        node@ matches JsonView::Object(entries) ==> in_order(entries),
    ensures
        value_json(value) == node@,
{
    match node {
        Node::Null => serde_json::Value::Null,
        Node::Bool(value) => serde_json::Value::Bool(value),
        Node::Number(number) => serde_json::Value::from(number),
        Node::Text(text) => serde_json::Value::String(text),
        Node::Array(items) => serde_json::Value::Array(items),
        Node::Object(entries) => serde_json::Value::Object(entries.into_iter().collect()),
    }
}

/// Calls [`serde_json::from_slice`] for a [`serde_json::Value`]. Which document
/// given bytes spell, and what the message says where they spell none, is named
/// and not described further.
#[verifier::external_body]
pub(crate) fn parse_value(bytes: &[u8]) -> (value: Result<serde_json::Value, String>)
    ensures
        match value {
            Ok(value) => parsed_json(bytes@) == Ok::<JsonView, Seq<char>>(value_json(value)),
            Err(message) => parsed_json(bytes@) == Err::<JsonView, Seq<char>>(message@),
        },
{
    serde_json::from_slice(bytes).map_err(|error| error.to_string())
}

/// Calls [`serde_json::to_vec`], which succeeds for every
/// [`serde_json::Value`]. The bytes are named, and they are as many as
/// [`json_len`] says: the compact form, in which only the quote, the backslash
/// and the control characters of a string are escaped.
#[verifier::external_body]
pub(crate) fn encode_value(value: &serde_json::Value) -> (bytes: Result<Vec<u8>, String>)
    requires
        known(value_json(*value)),
    ensures
        bytes is Ok,
        bytes->Ok_0@ == json_bytes(value_json(*value)),
        bytes->Ok_0@.len() == json_len(value_json(*value)),
{
    serde_json::to_vec(value).map_err(|error| error.to_string())
}

// --------------------------------------------------------------- functions --

/// The whole tree of a parsed document.
pub fn json_of(value: serde_json::Value) -> (json: Json)
    ensures
        json@ == value_json(value),
        tidy(json@),
    decreases value_json(value),
{
    let ghost whole = value_json(value);
    match open_value(value) {
        Node::Null => Json::Null,
        Node::Bool(value) => Json::Bool(value),
        Node::Number(number) => Json::Number(number),
        Node::Text(text) => Json::Text(text),
        Node::Array(items) => {
            let ghost all = items@;
            let ghost views = value_items(all);
            let mut list: Vec<Json> = Vec::new();
            for item in iter: items
                invariant
                    iter.seq() == all,
                    views == value_items(all),
                    whole == value_json(value),
                    whole == JsonView::Array(views),
                    list@.len() == iter.index(),
                    forall|i: int| 0 <= i < list@.len() ==> (#[trigger] list@[i])@ == views[i],
                    forall|i: int| 0 <= i < list@.len() ==> tidy(#[trigger] views[i]),
            {
                proof {
                    assert(views[iter.index() as int] == value_json(item));
                    assert(whole->Array_0 == views);
                    assert(decreases_to!(whole => whole->Array_0));
                    assert(decreases_to!(views => views[iter.index() as int]));
                }
                list.push(json_of(item));
            }
            let json = Json::Array(list);
            assert(json@->Array_0 =~= views);
            json
        },
        Node::Object(entries) => {
            let ghost all = entries@;
            let ghost views = value_entries(all);
            let mut list: Vec<(String, Json)> = Vec::new();
            for entry in iter: entries
                invariant
                    iter.seq() == all,
                    views == value_entries(all),
                    whole == value_json(value),
                    whole == JsonView::Object(views),
                    list@.len() == iter.index(),
                    forall|i: int|
                        0 <= i < list@.len() ==> ((#[trigger] list@[i]).0@, list@[i].1@)
                            == views[i],
                    in_order(views),
                    forall|i: int| 0 <= i < list@.len() ==> tidy((#[trigger] views[i]).1),
            {
                proof {
                    assert(views[iter.index() as int] == (entry.0@, value_json(entry.1)));
                    assert(whole->Object_0 == views);
                    assert(decreases_to!(whole => whole->Object_0));
                    assert(decreases_to!(views => views[iter.index() as int]));
                    assert(decreases_to!(views[iter.index() as int] => views[iter.index() as int].1));
                }
                let (key, value) = entry;
                list.push((key, json_of(value)));
            }
            let json = Json::Object(list);
            assert(json@->Object_0 =~= views);
            json
        },
    }
}

/// Reads a JSON document.
pub fn read_json(bytes: &[u8]) -> (json: Result<Json, String>)
    ensures
        match json {
            Ok(json) => parsed_json(bytes@) == Ok::<JsonView, Seq<char>>(json@) && tidy(json@),
            Err(message) => parsed_json(bytes@) == Err::<JsonView, Seq<char>>(message@),
        },
{
    match parse_value(bytes) {
        Ok(value) => Ok(json_of(value)),
        Err(message) => Err(message),
    }
}

} // verus!
