//! The little of JSON that the client reads and writes: the members of an
//! object with their texts and numbers, and string literals.

use vstd::prelude::*;

verus! {

/// The value of one member of a JSON object, as far as the client reads it.
#[derive(Clone, Debug, PartialEq, Eq)]
pub enum JsonField {
    /// A string.
    Text(String),
    /// A number, with its value where that is a whole number from 0 to
    /// `u64::MAX`.
    Number(Option<u64>),
    /// Anything else: null, a boolean, an array or an object.
    Other,
}

/// A `JsonField` with its text as a sequence of characters.
pub enum JsonFieldView {
    Text(Seq<char>),
    Number(Option<u64>),
    Other,
}

impl View for JsonField {
    type V = JsonFieldView;

    open spec fn view(&self) -> JsonFieldView {
        match self {
            JsonField::Text(text) => JsonFieldView::Text(text@),
            JsonField::Number(n) => JsonFieldView::Number(*n),
            JsonField::Other => JsonFieldView::Other,
        }
    }
}

/// The members of a JSON object: names with their values.
#[derive(Clone, Debug, PartialEq, Eq)]
pub struct JsonObject {
    pub members: Vec<(String, JsonField)>,
}

impl View for JsonObject {
    type V = Seq<(Seq<char>, JsonFieldView)>;

    open spec fn view(&self) -> Seq<(Seq<char>, JsonFieldView)> {
        Seq::new(self.members@.len(), |i: int| (self.members@[i].0@, self.members@[i].1@))
    }
}

/// The members of the JSON object that `bytes` spell, as `serde_json` reads
/// them, or `None` where the bytes are not one JSON object.
pub uninterp spec fn json_object(bytes: Seq<u8>) -> Option<Seq<(Seq<char>, JsonFieldView)>>;

/// The JSON string literal that `serde_json` writes for a text, with its
/// quotes and escapes.
pub uninterp spec fn json_string_text(text: Seq<char>) -> Seq<char>;

/// The value of the first member called `key`, if there is one.
pub open spec fn member(members: Seq<(Seq<char>, JsonFieldView)>, key: Seq<char>) -> Option<
    JsonFieldView,
>
    decreases members.len(),
{
    if members.len() == 0 {
        None
    } else if members[0].0 == key {
        Some(members[0].1)
    } else {
        member(members.drop_first(), key)
    }
}

/// The text of the member called `key`, if that member exists and is a
/// string.
pub open spec fn text_member(members: Seq<(Seq<char>, JsonFieldView)>, key: Seq<char>) -> Option<
    Seq<char>,
> {
    match member(members, key) {
        Some(JsonFieldView::Text(text)) => Some(text),
        _ => None,
    }
}

/// The number of the member called `key`, if that member exists and is a
/// whole number from 0 to `u32::MAX`.
pub open spec fn u32_member(members: Seq<(Seq<char>, JsonFieldView)>, key: Seq<char>) -> Option<
    u32,
> {
    match member(members, key) {
        Some(JsonFieldView::Number(Some(n))) => if n <= u32::MAX {
            Some(n as u32)
        } else {
            None
        },
        _ => None,
    }
}

/// Calls `serde_json::from_slice` for a `serde_json::Map` and hands out its
/// entries one for one: a string as `Text`, a number as `Number` with what
/// its `as_u64` returns, everything else as `Other`. The contract names the
/// outcome, which depends on the bytes alone.
#[verifier::external_body]
pub(crate) fn parse_object(bytes: &Vec<u8>) -> (object: Option<JsonObject>)
    ensures
        object is Some <==> json_object(bytes@) is Some,
        object matches Some(o) ==> json_object(bytes@) == Some(o@),
{
    let map: serde_json::Map<String, serde_json::Value> = serde_json::from_slice(bytes).ok()?;
    let mut members = Vec::new();
    for (name, value) in map {
        let field = match value {
            serde_json::Value::String(text) => JsonField::Text(text),
            serde_json::Value::Number(n) => JsonField::Number(n.as_u64()),
            _ => JsonField::Other,
        };
        members.push((name, field));
    }
    Some(JsonObject { members })
}

/// Calls `serde_json::to_string` on a string slice. serde_json documents two
/// causes of failure, a `Serialize` impl that fails and a map key that is no
/// string; a string slice has neither, so the call succeeds, and the contract
/// names the literal that it returns.
#[verifier::external_body]
pub(crate) fn json_string(text: &str) -> (literal: String)
    ensures
        literal@ == json_string_text(text@),
{
    serde_json::to_string(text).unwrap_or_default()
}

impl JsonObject {
    /// Finds the value of the first member called `key`.
    pub fn get(&self, key: &str) -> (found: Option<&JsonField>)
        ensures
            match member(self@, key@) {
                Some(field) => found matches Some(f) && f@ == field,
                None => found is None,
            },
    {
        let wanted = String::from_str(key);
        let mut i: usize = 0;
        proof {
            assert(self@.skip(0) =~= self@);
        }
        while i < self.members.len()
            invariant
                i <= self.members.len(),
                wanted@ == key@,
                member(self@, key@) == member(self@.skip(i as int), key@),
            decreases self.members.len() - i,
        {
            proof {
                assert(self@.skip(i as int).drop_first() =~= self@.skip(i as int + 1));
            }
            if self.members[i].0 == wanted {
                return Some(&self.members[i].1);
            }
            i += 1;
        }
        None
    }

    /// Reads the member called `key` as a text.
    pub fn text(&self, key: &str) -> (found: Option<String>)
        ensures
            found.deep_view() == text_member(self@, key@),
    {
        match self.get(key) {
            Some(JsonField::Text(text)) => Some(text.clone()),
            _ => None,
        }
    }

    /// Reads the member called `key` as a number that fits in 32 bits.
    pub fn unsigned(&self, key: &str) -> (found: Option<u32>)
        ensures
            found == u32_member(self@, key@),
    {
        match self.get(key) {
            Some(JsonField::Number(Some(n))) => if *n <= u32::MAX as u64 {
                Some(*n as u32)
            } else {
                None
            },
            _ => None,
        }
    }
}

} // verus!
