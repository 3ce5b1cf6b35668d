//! JSON documents as the manager reads and writes them: objects whose
//! members of interest are strings and booleans. Parsing and printing are
//! delegated; finding a member is verified here.

use vstd::prelude::*;
use vstd::string::*;
use serde_json::Value;

verus! {

/// The value of one member: its kind, and what it holds where the manager
/// reads that.
#[derive(Clone, Debug, PartialEq, Eq)]
pub enum JsonValue {
    Null,
    Flag(bool),
    Number,
    Text(String),
    Array,
    Object,
}

/// The value of a member, in the terms of contracts.
pub enum JsonValueView {
    Null,
    Flag(bool),
    Number,
    Text(Seq<char>),
    Array,
    Object,
}

impl View for JsonValue {
    type V = JsonValueView;

    open spec fn view(&self) -> JsonValueView {
        match self {
            JsonValue::Null => JsonValueView::Null,
            JsonValue::Flag(b) => JsonValueView::Flag(*b),
            JsonValue::Number => JsonValueView::Number,
            JsonValue::Text(s) => JsonValueView::Text(s@),
            JsonValue::Array => JsonValueView::Array,
            JsonValue::Object => JsonValueView::Object,
        }
    }
}

/// One member of a JSON object.
#[derive(Clone, Debug, PartialEq, Eq)]
pub struct Member {
    pub key: String,
    pub value: JsonValue,
}

impl View for Member {
    type V = (Seq<char>, JsonValueView);

    open spec fn view(&self) -> (Seq<char>, JsonValueView) {
        (self.key@, self.value@)
    }
}

/// The members of a document, each by its view.
pub open spec fn members_view(members: Seq<Member>) -> Seq<(Seq<char>, JsonValueView)> {
    members.map_values(|m: Member| m@)
}

/// The members of the JSON object that `text` holds; `None` where `text`
/// is not the text of a JSON object.
pub uninterp spec fn json_members(text: Seq<char>) -> Option<Seq<(Seq<char>, JsonValueView)>>;

/// Parses `text` with `serde_json::from_str` into a `serde_json::Map` and
/// hands out its members, each value by its kind, strings and booleans
/// with what they hold. The contract only names the result.
#[verifier::external_body]
pub(crate) fn parse_members(text: &str) -> (document: Option<Vec<Member>>)
    ensures
        match document {
            Some(members) => json_members(text@) == Some(members_view(members@)),
            None => json_members(text@) is None,
        },
{
    let kind = |value: Value| match value {
        Value::Null => JsonValue::Null,
        Value::Bool(b) => JsonValue::Flag(b),
        Value::Number(_) => JsonValue::Number,
        Value::String(s) => JsonValue::Text(s),
        Value::Array(_) => JsonValue::Array,
        Value::Object(_) => JsonValue::Object,
    };
    match serde_json::from_str::<serde_json::Map<String, Value>>(text) {
        Ok(map) => Some(map.into_iter().map(|(key, v)| Member { key, value: kind(v) }).collect()),
        Err(_) => None,
    }
}

/// The value of the first member named `key` from position `from` on.
pub open spec fn member_from(
    members: Seq<(Seq<char>, JsonValueView)>,
    key: Seq<char>,
    from: int,
) -> Option<JsonValueView>
    decreases members.len() - from,
{
    if from < 0 || from >= members.len() {
        None
    } else if members[from].0 == key {
        Some(members[from].1)
    } else {
        member_from(members, key, from + 1)
    }
}

/// The string that the member `key` holds, if there is such a member and it
/// holds a string.
pub open spec fn text_member(members: Seq<(Seq<char>, JsonValueView)>, key: Seq<char>) -> Option<
    Seq<char>,
> {
    match member_from(members, key, 0) {
        Some(JsonValueView::Text(s)) => Some(s),
        _ => None,
    }
}

/// The boolean that the member `key` holds, if there is such a member and
/// it holds a boolean.
pub open spec fn flag_member(members: Seq<(Seq<char>, JsonValueView)>, key: Seq<char>) -> Option<
    bool,
> {
    match member_from(members, key, 0) {
        Some(JsonValueView::Flag(b)) => Some(b),
        _ => None,
    }
}

/// Position of the first member named `key`.
fn find(members: &Vec<Member>, key: &str) -> (at: Option<usize>)
    ensures
        match at {
            Some(i) => i < members.len() && member_from(members_view(members@), key@, 0) == Some(
                members[i as int].value@,
            ),
            None => member_from(members_view(members@), key@, 0) is None,
        },
{
    let ghost view = members_view(members@);
    let mut i: usize = 0;
    while i < members.len()
        invariant
            i <= members.len(),
            view == members_view(members@),
            member_from(view, key@, 0) == member_from(view, key@, i as int),
        decreases members.len() - i,
    {
        if crate::text::same(members[i].key.as_str(), key) {
            return Some(i);
        }
        i += 1;
    }
    None
}

/// The string held by the member `key`.
pub fn text_of(members: &Vec<Member>, key: &str) -> (text: Option<String>)
    ensures
        crate::text::text_view(text) == text_member(members_view(members@), key@),
{
    match find(members, key) {
        Some(i) => match &members[i].value {
            JsonValue::Text(s) => Some(s.clone()),
            _ => None,
        },
        None => None,
    }
}

/// The boolean held by the member `key`.
pub fn flag_of(members: &Vec<Member>, key: &str) -> (flag: Option<bool>)
    ensures
        flag == flag_member(members_view(members@), key@),
{
    match find(members, key) {
        Some(i) => match &members[i].value {
            JsonValue::Flag(b) => Some(*b),
            _ => None,
        },
        None => None,
    }
}

/// One string member to print: its key and its value.
#[derive(Clone, Debug, PartialEq, Eq)]
pub struct Pair {
    pub key: String,
    pub value: String,
}

impl View for Pair {
    type V = (Seq<char>, Seq<char>);

    open spec fn view(&self) -> (Seq<char>, Seq<char>) {
        (self.key@, self.value@)
    }
}

/// The pairs to print, each by its view.
pub open spec fn pairs_view(pairs: Seq<Pair>) -> Seq<(Seq<char>, Seq<char>)> {
    pairs.map_values(|p: Pair| p@)
}

/// The compact JSON text of the object that holds the given string members.
pub uninterp spec fn json_object_text(members: Seq<(Seq<char>, Seq<char>)>) -> Seq<char>;

/// Collects the pairs into a `serde_json::Map` of string values and prints
/// `serde_json::Value::Object` of it with `to_string`, the compact form.
/// The contract only names the result.
#[verifier::external_body]
pub(crate) fn object_text(pairs: &Vec<Pair>) -> (text: String)
    ensures
        text@ == json_object_text(pairs_view(pairs@)),
{
    let map: serde_json::Map<String, Value> = pairs.iter().map(
        |p| (p.key.clone(), Value::String(p.value.clone())),
    ).collect();
    Value::Object(map).to_string()
}

} // verus!
