//! Flat JSON objects and their canonical text.
//!
//! A document is an ordered tuple of named members. Its canonical text lists the
//! members in the order given, without any whitespace, so that the text, and
//! with it the hash, depends on nothing but the members themselves.

use crate::hashing::{hash_of_text, hash_str};
use crate::text::{clone_texts, str_eq, texts};
use vstd::prelude::*;
use vstd::string::*;

verus! {

/// The JSON text of a string: the string between double quotes, with the
/// escapes that JSON asks for.
pub uninterp spec fn json_string_text(s: Seq<char>) -> Seq<char>;

/// The value of one member of a flat object.
#[derive(Debug)]
pub enum JsonValue {
    Null,
    Bool(bool),
    Number(u64),
    Text(String),
    TextList(Vec<String>),
}

/// What a [`JsonValue`] holds.
pub enum JsonValueView {
    Null,
    Bool(bool),
    Number(nat),
    Text(Seq<char>),
    TextList(Seq<Seq<char>>),
}

impl View for JsonValue {
    type V = JsonValueView;

    open spec fn view(&self) -> JsonValueView {
        match self {
            JsonValue::Null => JsonValueView::Null,
            JsonValue::Bool(b) => JsonValueView::Bool(*b),
            JsonValue::Number(n) => JsonValueView::Number(*n as nat),
            JsonValue::Text(s) => JsonValueView::Text(s@),
            JsonValue::TextList(l) => JsonValueView::TextList(texts(l@)),
        }
    }
}

/// A named member of a flat object.
#[derive(Debug)]
pub struct JsonField {
    pub name: String,
    pub value: JsonValue,
}

/// What a [`JsonField`] holds.
pub struct JsonFieldView {
    pub name: Seq<char>,
    pub value: JsonValueView,
}

impl View for JsonField {
    type V = JsonFieldView;

    open spec fn view(&self) -> JsonFieldView {
        JsonFieldView { name: self.name@, value: self.value@ }
    }
}

/// A flat JSON object: its members, in the order in which they are written.
#[derive(Debug)]
pub struct JsonObject {
    pub fields: Vec<JsonField>,
}

impl View for JsonObject {
    type V = Seq<JsonFieldView>;

    open spec fn view(&self) -> Seq<JsonFieldView> {
        Seq::new(self.fields@.len(), |i: int| self.fields@[i]@)
    }
}

/// The text of a list of strings: the quoted strings between square brackets,
/// separated by commas.
pub open spec fn list_text(items: Seq<Seq<char>>) -> Seq<char> {
    "["@ + list_body(items) + "]"@
}

/// The quoted strings of a list, separated by commas.
pub open spec fn list_body(items: Seq<Seq<char>>) -> Seq<char>
    decreases items.len(),
{
    if items.len() == 0 {
        Seq::empty()
    } else if items.len() == 1 {
        json_string_text(items[0])
    } else {
        list_body(items.drop_last()) + ","@ + json_string_text(items.last())
    }
}

/// The decimal digit of a number below ten.
pub open spec fn digit_text(digit: nat) -> Seq<char> {
    if digit == 0 {
        "0"@
    } else if digit == 1 {
        "1"@
    } else if digit == 2 {
        "2"@
    } else if digit == 3 {
        "3"@
    } else if digit == 4 {
        "4"@
    } else if digit == 5 {
        "5"@
    } else if digit == 6 {
        "6"@
    } else if digit == 7 {
        "7"@
    } else if digit == 8 {
        "8"@
    } else {
        "9"@
    }
}

/// The decimal text of a natural number, without leading zeros.
pub open spec fn decimal_text(n: nat) -> Seq<char>
    decreases n,
{
    if n < 10 {
        digit_text(n)
    } else {
        decimal_text(n / 10) + digit_text(n % 10)
    }
}

/// The text of a member's value.
pub open spec fn value_text(value: JsonValueView) -> Seq<char> {
    match value {
        JsonValueView::Null => "null"@,
        JsonValueView::Bool(b) => if b {
            "true"@
        } else {
            "false"@
        },
        JsonValueView::Number(n) => decimal_text(n),
        JsonValueView::Text(s) => json_string_text(s),
        JsonValueView::TextList(l) => list_text(l),
    }
}

/// The text of a member: its quoted name, a colon, its value.
pub open spec fn field_text(field: JsonFieldView) -> Seq<char> {
    json_string_text(field.name) + ":"@ + value_text(field.value)
}

/// The members' texts, separated by commas.
pub open spec fn object_body(fields: Seq<JsonFieldView>) -> Seq<char>
    decreases fields.len(),
{
    if fields.len() == 0 {
        Seq::empty()
    } else if fields.len() == 1 {
        field_text(fields[0])
    } else {
        object_body(fields.drop_last()) + ","@ + field_text(fields.last())
    }
}

/// The canonical text of an object: its members between braces.
pub open spec fn object_text(fields: Seq<JsonFieldView>) -> Seq<char> {
    "{"@ + object_body(fields) + "}"@
}

/// The value of the first member of `fields` named `name`, if there is one.
pub open spec fn lookup(fields: Seq<JsonFieldView>, name: Seq<char>) -> Option<JsonValueView>
    decreases fields.len(),
{
    if fields.len() == 0 {
        None
    } else if fields[0].name == name {
        Some(fields[0].value)
    } else {
        lookup(fields.drop_first(), name)
    }
}

/// The hash of an object: the content hash of its canonical text.
pub open spec fn hash_of_object(fields: Seq<JsonFieldView>) -> Seq<char> {
    hash_of_text(object_text(fields))
}

/// A member whose value is a string.
pub open spec fn text_member(name: Seq<char>, value: Seq<char>) -> JsonFieldView {
    JsonFieldView { name, value: JsonValueView::Text(value) }
}

/// A member whose value is a string where one is present, and `null` otherwise.
pub open spec fn opt_member(name: Seq<char>, value: Option<Seq<char>>) -> JsonFieldView {
    JsonFieldView {
        name,
        value: match value {
            Some(s) => JsonValueView::Text(s),
            None => JsonValueView::Null,
        },
    }
}

/// Calls `serde_json::to_string` on a string slice. Trusted: the call succeeds,
/// since writing a string into memory cannot fail, and the text returned is the
/// JSON form of `s`, a function of `s` alone.
#[verifier::external_body]
fn quote(s: &str) -> (quoted: Option<String>)
    ensures
        quoted is Some,
        quoted->0@ == json_string_text(s@),
{
    serde_json::to_string(s).ok()
}

/// Appends the JSON form of `s` to `out`.
fn push_quoted(out: &mut String, s: &str)
    ensures
        final(out)@ == old(out)@ + json_string_text(s@),
{
    match quote(s) {
        Some(t) => out.append(t.as_str()),
        None => {},
    }
}

/// Appends the decimal text of `n` to `out`.
fn push_decimal(out: &mut String, n: u64)
    ensures
        final(out)@ == old(out)@ + decimal_text(n as nat),
    decreases n,
{
    if n >= 10 {
        push_decimal(out, n / 10);
    }
    let digit = match n % 10 {
        0 => "0",
        1 => "1",
        2 => "2",
        3 => "3",
        4 => "4",
        5 => "5",
        6 => "6",
        7 => "7",
        8 => "8",
        _ => "9",
    };
    out.append(digit);
    assert(out@ =~= old(out)@ + decimal_text(n as nat));
}

/// Appends the text of a list of strings to `out`.
fn push_list(out: &mut String, items: &Vec<String>)
    ensures
        final(out)@ == old(out)@ + list_text(texts(items@)),
{
    let ghost before = out@;
    out.append("[");
    let mut i: usize = 0;
    while i < items.len()
        invariant
            i <= items.len(),
            out@ == before + "["@ + list_body(texts(items@.take(i as int))),
        decreases items.len() - i,
    {
        proof {
            crate::text::lemma_texts_take(items@, i as int);
        }
        if i > 0 {
            out.append(",");
        }
        push_quoted(out, items[i].as_str());
        assert(out@ =~= before + "["@ + list_body(texts(items@.take(i + 1))));
        i += 1;
    }
    assert(items@.take(items.len() as int) =~= items@);
    out.append("]");
    assert(out@ =~= before + list_text(texts(items@)));
}

impl Clone for JsonValue {
    fn clone(&self) -> (copy: JsonValue)
        ensures
            copy@ == self@,
    {
        match self {
            JsonValue::Null => JsonValue::Null,
            JsonValue::Bool(b) => JsonValue::Bool(*b),
            JsonValue::Number(n) => JsonValue::Number(*n),
            JsonValue::Text(s) => JsonValue::Text(s.clone()),
            JsonValue::TextList(l) => {
                JsonValue::TextList(clone_texts(l))
            },
        }
    }
}

impl JsonField {
    /// A member whose value is the string `value`.
    pub fn text(name: &str, value: &str) -> (field: JsonField)
        ensures
            field@ == text_member(name@, value@),
    {
        JsonField { name: name.to_owned(), value: JsonValue::Text(value.to_owned()) }
    }

    /// A member whose value is the string in `value`, or `null` where there is
    /// none.
    pub fn optional(name: &str, value: &Option<String>) -> (field: JsonField)
        ensures
            field@ == opt_member(name@, crate::text::opt_text(*value)),
    {
        let inner = match value {
            Some(s) => JsonValue::Text(s.clone()),
            None => JsonValue::Null,
        };
        JsonField { name: name.to_owned(), value: inner }
    }

}

impl Clone for JsonField {
    fn clone(&self) -> (copy: JsonField)
        ensures
            copy@ == self@,
    {
        JsonField { name: self.name.clone(), value: self.value.clone() }
    }
}

impl JsonObject {
    /// The object without members.
    pub fn new() -> (object: JsonObject)
        ensures
            object@ == Seq::<JsonFieldView>::empty(),
    {
        let object = JsonObject { fields: Vec::new() };
        assert(object@ =~= Seq::<JsonFieldView>::empty());
        object
    }

    /// The object with `field` added as its last member.
    pub fn with(self, field: JsonField) -> (object: JsonObject)
        ensures
            object@ == self@.push(field@),
    {
        let mut fields = self.fields;
        fields.push(field);
        let object = JsonObject { fields };
        assert(object@ =~= self@.push(field@));
        object
    }

    /// The value of the first member named `name`, if there is one.
    pub fn get(&self, name: &str) -> (found: Option<&JsonValue>)
        ensures
            match found {
                Some(value) => lookup(self@, name@) == Some(value@),
                None => lookup(self@, name@) is None,
            },
    {
        let mut i: usize = 0;
        assert(self@.skip(0) =~= self@);
        while i < self.fields.len()
            invariant
                i <= self.fields.len(),
                lookup(self@, name@) == lookup(self@.skip(i as int), name@),
            decreases self.fields.len() - i,
        {
            assert(self@.skip(i as int)[0] == self@[i as int]);
            if str_eq(self.fields[i].name.as_str(), name) {
                return Some(&self.fields[i].value);
            }
            assert(self@.skip(i as int).drop_first() =~= self@.skip(i + 1));
            i += 1;
        }
        None
    }

    /// The canonical text of the object.
    pub fn encode(&self) -> (out: String)
        ensures
            out@ == object_text(self@),
    {
        let mut out = String::from_str("{");
        let mut i: usize = 0;
        while i < self.fields.len()
            invariant
                i <= self.fields.len(),
                out@ == "{"@ + object_body(self@.take(i as int)),
            decreases self.fields.len() - i,
        {
            assert(self@.take(i + 1).drop_last() =~= self@.take(i as int));
            if i > 0 {
                out.append(",");
            }
            let field = &self.fields[i];
            push_quoted(&mut out, field.name.as_str());
            out.append(":");
            match &field.value {
                JsonValue::Null => out.append("null"),
                JsonValue::Bool(b) => if *b {
                    out.append("true")
                } else {
                    out.append("false")
                },
                JsonValue::Number(n) => push_decimal(&mut out, *n),
                JsonValue::Text(s) => push_quoted(&mut out, s.as_str()),
                JsonValue::TextList(l) => push_list(&mut out, l),
            }
            assert(out@ =~= "{"@ + object_body(self@.take(i + 1)));
            i += 1;
        }
        assert(self@.take(self.fields.len() as int) =~= self@);
        out.append("}");
        out
    }
}

impl Clone for JsonObject {
    fn clone(&self) -> (copy: JsonObject)
        ensures
            copy@ == self@,
    {
        let mut fields: Vec<JsonField> = Vec::new();
        let mut i: usize = 0;
        while i < self.fields.len()
            invariant
                i <= self.fields.len(),
                fields@.len() == i,
                forall|k: int| 0 <= k < i ==> fields@[k]@ == self.fields@[k]@,
            decreases self.fields.len() - i,
        {
            fields.push(self.fields[i].clone());
            i += 1;
        }
        let copy = JsonObject { fields };
        assert(copy@ =~= self@);
        copy
    }
}

/// Hashes an object: the content hash of its canonical text.
pub fn hash_json(value: &JsonObject) -> (hash: String)
    ensures
        hash@ == hash_of_object(value@),
{
    let text = value.encode();
    hash_str(text.as_str())
}

} // verus!
