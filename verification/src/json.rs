//! JSON documents as trees of plain values: what the request and response
//! shapes are built from and read out of, how a tree is written as text, and
//! the places where `serde_json` does the work.

use crate::decimal::{from_decimal, parse_decimal};
use vstd::prelude::*;
use vstd::string::*;

verus! {

/// The mathematical value of a JSON document.
///
/// A number is held as its literal text, so that no precision is lost and no
/// floating point is needed to carry it. The members of an object keep their
/// order.
pub enum JsonValue {
    Null,
    Bool(bool),
    Number(Seq<char>),
    Text(Seq<char>),
    Array(Seq<JsonValue>),
    Object(Seq<Member>),
}

/// One member of a JSON object.
pub struct Member {
    pub key: Seq<char>,
    pub value: JsonValue,
}

/// A JSON document held in memory.
#[derive(Debug, PartialEq, Eq)]
pub enum Json {
    Null,
    Bool(bool),
    Number(String),
    Text(String),
    Array(Vec<Json>),
    Object(Vec<(String, Json)>),
}

impl View for Json {
    type V = JsonValue;

    open spec fn view(&self) -> JsonValue
        decreases self,
    {
        match self {
            Json::Null => JsonValue::Null,
            Json::Bool(b) => JsonValue::Bool(*b),
            Json::Number(n) => JsonValue::Number(n@),
            Json::Text(t) => JsonValue::Text(t@),
            Json::Array(items) => JsonValue::Array(
                Seq::new(
                    items@.len(),
                    |i: int|
                        if 0 <= i < items@.len() {
                            items@[i].view()
                        } else {
                            JsonValue::Null
                        },
                ),
            ),
            Json::Object(members) => JsonValue::Object(
                Seq::new(
                    members@.len(),
                    |i: int|
                        if 0 <= i < members@.len() {
                            Member { key: members@[i].0@, value: members@[i].1.view() }
                        } else {
                            Member { key: Seq::empty(), value: JsonValue::Null }
                        },
                ),
            ),
        }
    }
}

/// The values of a list of documents.
pub open spec fn item_views(items: Seq<Json>) -> Seq<JsonValue> {
    Seq::new(items.len(), |i: int| items[i]@)
}

/// The values of a list of object members.
pub open spec fn member_views(members: Seq<(String, Json)>) -> Seq<Member> {
    Seq::new(members.len(), |i: int| Member { key: members[i].0@, value: members[i].1@ })
}

/// The texts of a list of strings.
pub open spec fn text_views(texts: Seq<String>) -> Seq<Seq<char>> {
    Seq::new(texts.len(), |i: int| texts[i]@)
}

/// The value of an array is the array of its items' values.
pub proof fn lemma_array_view(items: Vec<Json>)
    ensures
        Json::Array(items)@ == JsonValue::Array(item_views(items@)),
{
    assert(Json::Array(items)@->Array_0 =~= item_views(items@));
}

/// The value of an object is the list of its members' keys and values.
pub proof fn lemma_object_view(members: Vec<(String, Json)>)
    ensures
        Json::Object(members)@ == JsonValue::Object(member_views(members@)),
{
    assert(Json::Object(members)@->Object_0 =~= member_views(members@));
}

/// The value under `key` in a list of members: that of the first member with
/// that key.
pub open spec fn find(members: Seq<Member>, key: Seq<char>) -> Option<JsonValue>
    decreases members.len(),
{
    if members.len() == 0 {
        None
    } else if members[0].key == key {
        Some(members[0].value)
    } else {
        find(members.skip(1), key)
    }
}

/// The member found under `key` is the first that has it.
pub proof fn lemma_find_first(members: Seq<Member>, key: Seq<char>, i: int)
    requires
        0 <= i < members.len(),
        members[i].key == key,
        forall|j: int| 0 <= j < i ==> (#[trigger] members[j]).key != key,
    ensures
        find(members, key) == Some(members[i].value),
    decreases i,
{
    if i > 0 {
        let rest = members.skip(1);
        assert(rest[i - 1] == members[i]);
        assert forall|j: int| 0 <= j < i - 1 implies (#[trigger] rest[j]).key != key by {
            assert(rest[j] == members[j + 1]);
        }
        lemma_find_first(rest, key, i - 1);
    }
}

/// An array of strings is read back as those strings.
pub proof fn lemma_texts_round_trip(texts: Seq<Seq<char>>)
    ensures
        JsonValue::of_texts(texts).as_texts() == Some(texts),
{
    let items = JsonValue::of_texts(texts)->Array_0;
    assert(Seq::new(items.len(), |i: int| items[i]->Text_0) =~= texts);
}

/// An array without items is written as `[]`, an object without members as `{}`.
pub proof fn lemma_rendered_empty()
    ensures
        JsonValue::Array(Seq::empty()).rendered() == seq!['[', ']'],
        JsonValue::Object(Seq::empty()).rendered() == seq!['{', '}'],
{
    reveal_strlit("[");
    reveal_strlit("]");
    reveal_strlit("{");
    reveal_strlit("}");
    assert(JsonValue::Array(Seq::empty()).rendered() =~= seq!['[', ']']);
    assert(JsonValue::Object(Seq::empty()).rendered() =~= seq!['{', '}']);
}

/// What `serde_json::to_string` writes for a string: the text between double
/// quotes, with the characters that JSON does not allow there escaped.
pub uninterp spec fn json_quoted(text: Seq<char>) -> Seq<char>;

/// Whether a text holds no character that JSON escapes inside a string: no
/// double quote, no backslash and nothing below U+0020.
pub open spec fn is_plain(text: Seq<char>) -> bool {
    forall|i: int| 0 <= i < text.len() ==> is_plain_char(#[trigger] text[i])
}

/// Whether JSON writes a character inside a string as it is.
pub open spec fn is_plain_char(c: char) -> bool {
    c != '"' && c != '\\' && c as u32 >= 0x20
}

/// A text between two double quotes.
pub open spec fn in_quotes(text: Seq<char>) -> Seq<char> {
    seq!['"'] + text + seq!['"']
}

/// A text as a JSON string: a plain text between double quotes, any other as
/// `serde_json` escapes it.
pub open spec fn quoted(text: Seq<char>) -> Seq<char> {
    if is_plain(text) {
        in_quotes(text)
    } else {
        json_quoted(text)
    }
}

/// What `serde_json::from_slice` reads from a byte string as a
/// `serde_json::Value`, taken over into a `JsonValue` variant by variant, a
/// number by the text that `serde_json::Number` displays; `None` where the
/// bytes are not one JSON document.
pub uninterp spec fn json_document(text: Seq<u8>) -> Option<JsonValue>;

/// The value that a `serde_json::Value` stands for: variant by variant the
/// same document, a number by the text that `serde_json::Number` displays, the
/// members of an object in the order in which `serde_json::Map::iter` hands
/// them out.
pub uninterp spec fn value_model(value: serde_json::Value) -> JsonValue;

impl JsonValue {
    /// The value of member `key`, if this is an object that has one.
    pub open spec fn member(self, key: Seq<char>) -> Option<JsonValue> {
        match self {
            JsonValue::Object(members) => find(members, key),
            _ => None,
        }
    }

    /// The text, if this is a string.
    pub open spec fn as_text(self) -> Option<Seq<char>> {
        match self {
            JsonValue::Text(t) => Some(t),
            _ => None,
        }
    }

    /// The literal, if this is a number.
    pub open spec fn as_number(self) -> Option<Seq<char>> {
        match self {
            JsonValue::Number(n) => Some(n),
            _ => None,
        }
    }

    /// The number, if this is the notation of a `u64`.
    pub open spec fn as_unsigned(self) -> Option<u64> {
        match self {
            JsonValue::Number(n) => parse_decimal(n),
            _ => None,
        }
    }

    /// The items, if this is an array.
    pub open spec fn as_items(self) -> Option<Seq<JsonValue>> {
        match self {
            JsonValue::Array(items) => Some(items),
            _ => None,
        }
    }

    /// The texts of the items, if this is an array of strings only.
    pub open spec fn as_texts(self) -> Option<Seq<Seq<char>>> {
        match self {
            JsonValue::Array(items) => if forall|i: int|
                0 <= i < items.len() ==> (#[trigger] items[i]) is Text {
                Some(Seq::new(items.len(), |i: int| items[i]->Text_0))
            } else {
                None
            },
            _ => None,
        }
    }

    /// The array of the strings `texts`.
    pub open spec fn of_texts(texts: Seq<Seq<char>>) -> JsonValue {
        JsonValue::Array(Seq::new(texts.len(), |i: int| JsonValue::Text(texts[i])))
    }

    /// The text of member `key`, if it is there and is a string.
    pub open spec fn text_at(self, key: Seq<char>) -> Option<Seq<char>> {
        match self.member(key) {
            Some(m) => m.as_text(),
            None => None,
        }
    }

    /// The literal of member `key`, if it is there and is a number.
    pub open spec fn number_at(self, key: Seq<char>) -> Option<Seq<char>> {
        match self.member(key) {
            Some(m) => m.as_number(),
            None => None,
        }
    }

    /// The number of member `key`, if it is there and is the notation of a `u64`.
    pub open spec fn unsigned_at(self, key: Seq<char>) -> Option<u64> {
        match self.member(key) {
            Some(m) => m.as_unsigned(),
            None => None,
        }
    }

    /// The compact text of this document: no white space, array items and
    /// object members separated by commas in their order, a number by its
    /// literal, a string as `quoted` gives it.
    pub open spec fn rendered(self) -> Seq<char>
        decreases self,
    {
        match self {
            JsonValue::Null => "null"@,
            JsonValue::Bool(b) => if b {
                "true"@
            } else {
                "false"@
            },
            JsonValue::Number(n) => n,
            JsonValue::Text(t) => quoted(t),
            JsonValue::Array(items) => "["@ + rendered_items(items, items.len()) + "]"@,
            JsonValue::Object(members) => "{"@ + rendered_members(members, members.len()) + "}"@,
        }
    }
}

/// The text of the first `n` items of an array, separated by commas.
pub open spec fn rendered_items(items: Seq<JsonValue>, n: nat) -> Seq<char>
    decreases items, n,
{
    if n == 0 || n > items.len() {
        Seq::empty()
    } else if n == 1 {
        items[0].rendered()
    } else {
        rendered_items(items, (n - 1) as nat) + ","@ + items[n - 1].rendered()
    }
}

/// The text of the first `n` members of an object, separated by commas: each
/// is its quoted key, a colon and its value.
pub open spec fn rendered_members(members: Seq<Member>, n: nat) -> Seq<char>
    decreases members, n,
{
    if n == 0 || n > members.len() {
        Seq::empty()
    } else if n == 1 {
        quoted(members[0].key) + ":"@ + members[0].value.rendered()
    } else {
        rendered_members(members, (n - 1) as nat) + ","@ + quoted(members[n - 1].key) + ":"@
            + members[n - 1].value.rendered()
    }
}

#[verifier::external_type_specification]
#[verifier::external_body]
pub struct ExValue(serde_json::Value);

/// `serde_json::to_string` on a string slice. It writes into a buffer in
/// memory, which does not fail. Its escape table leaves every character but
/// the double quote, the backslash and those below U+0020 as it is, so a
/// plain text comes back unchanged between two double quotes; of any other
/// text the result is named, not described.
#[verifier::external_body]
fn quote(text: &str) -> (written: String)
    ensures
        written@ == json_quoted(text@),
        is_plain(text@) ==> written@ == in_quotes(text@),
{
    serde_json::to_string(text).unwrap_or_default()
}

/// `serde_json::from_slice` for a `serde_json::Value`: the document that the
/// bytes hold, or nothing where they are not one JSON document.
#[verifier::external_body]
fn read_value(text: &[u8]) -> (value: Option<serde_json::Value>)
    ensures
        json_document(text@) == match value {
            Some(v) => Some(value_model(v)),
            None => None,
        },
{
    serde_json::from_slice::<serde_json::Value>(text).ok()
}

/// One level of a `serde_json::Value`: which variant it is and what the
/// variant holds, with the items of an array and the values of an object
/// still as they are.
enum Node<'a> {
    Null,
    Bool(bool),
    Number(String),
    Text(String),
    Array(&'a Vec<serde_json::Value>),
    Object(Vec<(&'a String, &'a serde_json::Value)>),
}

/// The value of one level, given the values of what lies below it.
spec fn node_model(node: Node) -> JsonValue {
    match node {
        Node::Null => JsonValue::Null,
        Node::Bool(b) => JsonValue::Bool(b),
        Node::Number(n) => JsonValue::Number(n@),
        Node::Text(t) => JsonValue::Text(t@),
        Node::Array(items) => JsonValue::Array(
            Seq::new(items@.len(), |i: int| value_model(items@[i])),
        ),
        Node::Object(members) => JsonValue::Object(
            Seq::new(
                members@.len(),
                |i: int| Member { key: members@[i].0@, value: value_model(*members@[i].1) },
            ),
        ),
    }
}

/// Tells the variants of a `serde_json::Value` apart, one arm for each: a
/// number comes as the text of `serde_json::Number`'s `Display`, a string as
/// a copy, an array as it is, an object as the pairs that
/// `serde_json::Map::iter` hands out, in its order.
#[verifier::external_body]
fn open<'a>(value: &'a serde_json::Value) -> (node: Node<'a>)
    ensures
        node_model(node) == value_model(*value),
{
    match value {
        serde_json::Value::Null => Node::Null,
        serde_json::Value::Bool(b) => Node::Bool(*b),
        serde_json::Value::Number(n) => Node::Number(n.to_string()),
        serde_json::Value::String(s) => Node::Text(s.clone()),
        serde_json::Value::Array(a) => Node::Array(a),
        serde_json::Value::Object(m) => Node::Object(m.iter().collect()),
    }
}

/// Takes a `serde_json::Value` over into a `Json`, level by level.
fn from_value(value: &serde_json::Value) -> (json: Json)
    ensures
        json@ == value_model(*value),
    decreases value_model(*value),
{
    match open(value) {
        Node::Null => Json::Null,
        Node::Bool(b) => Json::Bool(b),
        Node::Number(n) => Json::Number(n),
        Node::Text(t) => Json::Text(t),
        Node::Array(below) => {
            let ghost all = value_model(*value)->Array_0;
            let mut items: Vec<Json> = Vec::new();
            let mut i: usize = 0;
            while i < below.len()
                invariant
                    0 <= i <= below.len(),
                    value_model(*value) == JsonValue::Array(all),
                    all.len() == below@.len(),
                    forall|j: int| 0 <= j < all.len() ==> #[trigger] all[j] == value_model(below@[j]),
                    items@.len() == i,
                    forall|j: int| 0 <= j < i ==> (#[trigger] items@[j])@ == all[j],
                decreases below.len() - i,
            {
                assert(all[i as int] == value_model(below@[i as int]));
                assert(decreases_to!(value_model(*value) => value_model(*value)->Array_0[i as int]));
                items.push(from_value(&below[i]));
                i += 1;
            }
            proof {
                lemma_array_view(items);
                assert(item_views(items@) =~= all);
            }
            Json::Array(items)
        },
        Node::Object(below) => {
            let ghost all = value_model(*value)->Object_0;
            let mut members: Vec<(String, Json)> = Vec::new();
            let mut i: usize = 0;
            while i < below.len()
                invariant
                    0 <= i <= below.len(),
                    value_model(*value) == JsonValue::Object(all),
                    all.len() == below@.len(),
                    forall|j: int|
                        0 <= j < all.len() ==> #[trigger] all[j] == (Member {
                            key: below@[j].0@,
                            value: value_model(*below@[j].1),
                        }),
                    members@.len() == i,
                    forall|j: int|
                        0 <= j < i ==> (#[trigger] members@[j]).0@ == all[j].key && members@[j].1@
                            == all[j].value,
                decreases below.len() - i,
            {
                assert(all[i as int].value == value_model(*below@[i as int].1));
                assert(decreases_to!(value_model(*value) => value_model(*value)->Object_0[i as int].value));
                members.push((below[i].0.clone(), from_value(below[i].1)));
                i += 1;
            }
            proof {
                lemma_object_view(members);
                assert(member_views(members@) =~= all);
            }
            Json::Object(members)
        },
    }
}

impl Json {
    /// Reads one JSON document from `text`.
    pub fn parse(text: &[u8]) -> (doc: Option<Json>)
        ensures
            json_document(text@) == match doc {
                Some(j) => Some(j@),
                None => None,
            },
    {
        match read_value(text) {
            Some(v) => Some(from_value(&v)),
            None => None,
        }
    }

    /// The member `key` of an object.
    pub fn member(&self, key: &str) -> (found: Option<&Json>)
        ensures
            self@.member(key@) == match found {
                Some(j) => Some(j@),
                None => None,
            },
    {
        match self {
            Json::Object(members) => {
                proof {
                    lemma_object_view(*members);
                }
                let wanted = key.to_owned();
                let ghost all = member_views(members@);
                let mut i: usize = 0;
                assert(all.skip(0) =~= all);
                while i < members.len()
                    invariant
                        0 <= i <= members.len(),
                        all == member_views(members@),
                        self@ == JsonValue::Object(all),
                        wanted@ == key@,
                        find(all, key@) == find(all.skip(i as int), key@),
                    decreases members.len() - i,
                {
                    assert(all.skip(i as int).len() > 0);
                    assert(all.skip(i as int)[0] == all[i as int]);
                    assert(all[i as int].key == members@[i as int].0@);
                    assert(all[i as int].value == members@[i as int].1@);
                    assert(all.skip(i as int).skip(1) =~= all.skip(i + 1));
                    if members[i].0 == wanted {
                        assert(find(all.skip(i as int), key@) == Some(members@[i as int].1@));
                        return Some(&members[i].1);
                    }
                    i += 1;
                }
                None
            },
            _ => None,
        }
    }

    /// The text of a string.
    pub fn as_text(&self) -> (text: Option<&String>)
        ensures
            self@.as_text() == match text {
                Some(t) => Some(t@),
                None => None,
            },
    {
        match self {
            Json::Text(t) => Some(t),
            _ => None,
        }
    }

    /// The literal of a number.
    pub fn as_number(&self) -> (literal: Option<&String>)
        ensures
            self@.as_number() == match literal {
                Some(n) => Some(n@),
                None => None,
            },
    {
        match self {
            Json::Number(n) => Some(n),
            _ => None,
        }
    }

    /// The number that a numeric literal denotes, where it is a `u64`.
    pub fn as_unsigned(&self) -> (number: Option<u64>)
        ensures
            number == self@.as_unsigned(),
    {
        match self {
            Json::Number(n) => from_decimal(n.as_str()),
            _ => None,
        }
    }

    /// The items of an array.
    pub fn as_items(&self) -> (items: Option<&Vec<Json>>)
        ensures
            self@.as_items() == match items {
                Some(v) => Some(item_views(v@)),
                None => None,
            },
    {
        match self {
            Json::Array(items) => {
                proof {
                    lemma_array_view(*items);
                }
                Some(items)
            },
            _ => None,
        }
    }

    /// The texts of an array of strings, copied out.
    pub fn as_texts(&self) -> (texts: Option<Vec<String>>)
        ensures
            self@.as_texts() == match texts {
                Some(v) => Some(text_views(v@)),
                None => None,
            },
    {
        match self {
            Json::Array(items) => {
                proof {
                    lemma_array_view(*items);
                }
                let ghost all = item_views(items@);
                let mut texts: Vec<String> = Vec::new();
                let mut i: usize = 0;
                while i < items.len()
                    invariant
                        0 <= i <= items.len(),
                        all == item_views(items@),
                        self@ == JsonValue::Array(all),
                        texts@.len() == i,
                        forall|j: int| 0 <= j < i ==> (#[trigger] all[j]) is Text,
                        forall|j: int| 0 <= j < i ==> (#[trigger] texts@[j])@ == all[j]->Text_0,
                    decreases items.len() - i,
                {
                    assert(all[i as int] == items@[i as int]@);
                    match &items[i] {
                        Json::Text(t) => {
                            texts.push(t.clone());
                        },
                        _ => {
                            assert(!(all[i as int] is Text));
                            return None;
                        },
                    }
                    i += 1;
                }
                assert(text_views(texts@) =~= Seq::new(all.len(), |i: int| all[i]->Text_0));
                Some(texts)
            },
            _ => None,
        }
    }

    /// The array of the strings `texts`.
    pub fn of_texts(texts: &Vec<String>) -> (json: Json)
        ensures
            json@ == JsonValue::of_texts(text_views(texts@)),
    {
        let mut items: Vec<Json> = Vec::new();
        let mut i: usize = 0;
        while i < texts.len()
            invariant
                0 <= i <= texts.len(),
                items@.len() == i,
                forall|j: int| 0 <= j < i ==> (#[trigger] items@[j])@ == JsonValue::Text(texts@[j]@),
            decreases texts.len() - i,
        {
            items.push(Json::Text(texts[i].clone()));
            i += 1;
        }
        proof {
            lemma_array_view(items);
            assert(item_views(items@) =~= JsonValue::of_texts(text_views(texts@))->Array_0);
        }
        Json::Array(items)
    }

    /// The text of the string member `key`, copied out.
    pub fn text_at(&self, key: &str) -> (text: Option<String>)
        ensures
            self@.text_at(key@) == match text {
                Some(t) => Some(t@),
                None => None,
            },
    {
        match self.member(key) {
            Some(m) => match m.as_text() {
                Some(t) => Some(t.clone()),
                None => None,
            },
            None => None,
        }
    }

    /// The literal of the numeric member `key`, copied out.
    pub fn number_at(&self, key: &str) -> (literal: Option<String>)
        ensures
            self@.number_at(key@) == match literal {
                Some(n) => Some(n@),
                None => None,
            },
    {
        match self.member(key) {
            Some(m) => match m.as_number() {
                Some(n) => Some(n.clone()),
                None => None,
            },
            None => None,
        }
    }

    /// The number of the numeric member `key`.
    pub fn unsigned_at(&self, key: &str) -> (number: Option<u64>)
        ensures
            number == self@.unsigned_at(key@),
    {
        match self.member(key) {
            Some(m) => m.as_unsigned(),
            None => None,
        }
    }

    /// The compact text of this document.
    pub fn render(&self) -> (text: String)
        ensures
            text@ == self@.rendered(),
    {
        let mut out = String::new();
        self.write(&mut out);
        assert(out@ =~= self@.rendered());
        out
    }

    /// Appends the compact text of this document to `out`.
    pub fn write(&self, out: &mut String)
        ensures
            final(out)@ == old(out)@ + self@.rendered(),
        decreases self,
    {
        match self {
            Json::Null => {
                out.append("null");
            },
            Json::Bool(b) => {
                if *b {
                    out.append("true");
                } else {
                    out.append("false");
                }
            },
            Json::Number(n) => {
                out.append(n.as_str());
            },
            Json::Text(t) => {
                let written = quote(t.as_str());
                out.append(written.as_str());
            },
            Json::Array(items) => {
                proof {
                    lemma_array_view(*items);
                }
                out.append("[");
                write_items(items, out);
                out.append("]");
                assert(out@ =~= old(out)@ + self@.rendered());
            },
            Json::Object(members) => {
                proof {
                    lemma_object_view(*members);
                }
                out.append("{");
                write_members(members, out);
                out.append("}");
                assert(out@ =~= old(out)@ + self@.rendered());
            },
        }
    }
}

fn write_items(items: &Vec<Json>, out: &mut String)
    ensures
        final(out)@ == old(out)@ + rendered_items(item_views(items@), items@.len()),
    decreases items,
{
    let ghost all = item_views(items@);
    let mut i: usize = 0;
    assert(out@ =~= old(out)@ + rendered_items(all, 0));
    while i < items.len()
        invariant
            0 <= i <= items.len(),
            all == item_views(items@),
            out@ == old(out)@ + rendered_items(all, i as nat),
        decreases items.len() - i,
    {
        if i > 0 {
            out.append(",");
        }
        items[i].write(out);
        assert(out@ =~= old(out)@ + rendered_items(all, (i + 1) as nat));
        i += 1;
    }
}

fn write_members(members: &Vec<(String, Json)>, out: &mut String)
    ensures
        final(out)@ == old(out)@ + rendered_members(member_views(members@), members@.len()),
    decreases members,
{
    let ghost all = member_views(members@);
    let mut i: usize = 0;
    assert(out@ =~= old(out)@ + rendered_members(all, 0));
    while i < members.len()
        invariant
            0 <= i <= members.len(),
            all == member_views(members@),
            out@ == old(out)@ + rendered_members(all, i as nat),
        decreases members.len() - i,
    {
        if i > 0 {
            out.append(",");
        }
        let written = quote(members[i].0.as_str());
        out.append(written.as_str());
        out.append(":");
        members[i].1.write(out);
        assert(out@ =~= old(out)@ + rendered_members(all, (i + 1) as nat));
        i += 1;
    }
}

} // verus!
