//! JSON documents as plain values.
//!
//! Parsing is left to `serde_json`; what it yields is carried over into
//! [`Json`], a tree of plain values that the rest of the crate reads.

use vstd::prelude::*;
use vstd::string::*;

verus! {

/// A JSON number: its value as an unsigned integer where it is one, and the
/// decimal text of its value as a double.
#[derive(Debug, PartialEq, Eq)]
pub struct JsonNumber {
    /// The value, if the number is a non-negative integer below 2^64.
    pub unsigned: Option<u64>,
    /// The value as a double-precision number, written in decimal.
    pub decimal: Option<String>,
}

/// A JSON document.
#[derive(Debug, PartialEq, Eq)]
pub enum Json {
    /// `null`
    Null,
    /// `true` or `false`
    Bool(bool),
    /// A number.
    Number(JsonNumber),
    /// A string.
    Text(String),
    /// An array, in document order.
    Array(Vec<Json>),
    /// An object: its members, each key once.
    Object(Vec<(String, Json)>),
}

/// `serde_json::Value`, the tree that `serde_json` reads a document into.
/// Nothing of its inside is known here; it is carried over into [`Json`].
#[verifier::external_type_specification]
#[verifier::external_body]
pub struct ExJsonValue(serde_json::Value);

/// The document that `serde_json` reads from a text; `None` where it
/// rejects the text.
pub uninterp spec fn json_decode(text: Seq<char>) -> Option<Json>;

/// The message with which `serde_json` rejects a text.
pub uninterp spec fn json_decode_error(text: Seq<char>) -> Seq<char>;

/// The compact text that `serde_json` writes for the document it reads
/// from a text; `None` where it rejects the text.
pub uninterp spec fn json_compact(text: Seq<char>) -> Option<Seq<char>>;

/// The text that `serde_json` writes for a string: the string in quotes,
/// with the characters escaped that JSON wants escaped.
pub uninterp spec fn json_quoted(text: Seq<char>) -> Seq<char>;

/// Carries a `serde_json::Value` over into a [`Json`], variant by variant:
/// a number with `as_u64` and with the text of `as_f64`. Nothing is claimed
/// of the result here; `parse_json` names it.
#[verifier::external_body]
fn json_from_value(value: &serde_json::Value) -> Json {
    match value {
        serde_json::Value::Null => Json::Null,
        serde_json::Value::Bool(flag) => Json::Bool(*flag),
        serde_json::Value::Number(n) => Json::Number(
            JsonNumber { unsigned: n.as_u64(), decimal: n.as_f64().map(|d| d.to_string()) },
        ),
        serde_json::Value::String(text) => Json::Text(text.clone()),
        serde_json::Value::Array(items) => Json::Array(items.iter().map(json_from_value).collect()),
        serde_json::Value::Object(members) => Json::Object(
            members.iter().map(|(key, item)| (key.clone(), json_from_value(item))).collect(),
        ),
    }
}

/// `serde_json::from_str` into a `serde_json::Value`: the document read
/// from `text` together with the compact text that `to_string` writes for
/// it, or the message of the error with which the text was rejected. All
/// three are functions of the text alone.
#[verifier::external_body]
pub(crate) fn parse_json(text: &str) -> (parsed: Result<(Json, String), String>)
    ensures
        parsed matches Ok(read) ==> json_decode(text@) == Some(read.0) && json_compact(text@)
            == Some(read.1@),
        parsed matches Err(message) ==> json_decode(text@) is None && json_compact(text@) is None
            && message@ == json_decode_error(text@),
{
    match serde_json::from_str::<serde_json::Value>(text) {
        Ok(value) => Ok((json_from_value(&value), value.to_string())),
        Err(error) => Err(error.to_string()),
    }
}

/// `to_string` of `serde_json::Value` on a string: the JSON text of the
/// string, which is a function of the string alone.
#[verifier::external_body]
pub(crate) fn quote_json(text: &str) -> (quoted: String)
    ensures
        quoted@ == json_quoted(text@),
{
    serde_json::Value::String(text.to_owned()).to_string()
}

/// The member of `members` with key `key`, if there is one.
pub open spec fn member_of(members: Seq<(String, Json)>, key: Seq<char>) -> Option<Json>
    decreases members.len(),
{
    if members.len() == 0 {
        None
    } else if members[0].0@ == key {
        Some(members[0].1)
    } else {
        member_of(members.drop_first(), key)
    }
}

/// No member among the first `n` has the key.
pub open spec fn absent_before(members: Seq<(String, Json)>, key: Seq<char>, n: int) -> bool {
    forall|i: int| 0 <= i < n ==> (#[trigger] members[i]).0@ != key
}

/// The first member with the key is the one looked up.
pub proof fn lemma_member_found(members: Seq<(String, Json)>, key: Seq<char>, n: int)
    requires
        0 <= n < members.len(),
        absent_before(members, key, n),
        members[n].0@ == key,
    ensures
        member_of(members, key) == Some(members[n].1),
    decreases n,
{
    if n > 0 {
        assert(members[0].0@ != key);
        let rest = members.drop_first();
        assert forall|i: int| 0 <= i < n - 1 implies (#[trigger] rest[i]).0@ != key by {
            assert(rest[i] == members[i + 1]);
        }
        assert(rest[n - 1] == members[n]);
        lemma_member_found(rest, key, n - 1);
    }
}

/// A key that no member has is not found.
pub proof fn lemma_member_missing(members: Seq<(String, Json)>, key: Seq<char>)
    requires
        absent_before(members, key, members.len() as int),
    ensures
        member_of(members, key) is None,
    decreases members.len(),
{
    if members.len() > 0 {
        assert(members[0].0@ != key);
        let rest = members.drop_first();
        assert forall|i: int| 0 <= i < rest.len() implies (#[trigger] rest[i]).0@ != key by {
            assert(rest[i] == members[i + 1]);
        }
        lemma_member_missing(rest, key);
    }
}

impl Json {
    /// The member with key `key` of an object; `None` for a missing key and
    /// for a document that is no object.
    pub open spec fn spec_get(self, key: Seq<char>) -> Option<Json> {
        match self {
            Json::Object(members) => member_of(members@, key),
            _ => None,
        }
    }

    /// The value of `true` or `false`.
    pub open spec fn spec_as_bool(self) -> Option<bool> {
        match self {
            Json::Bool(flag) => Some(flag),
            _ => None,
        }
    }

    /// The text of a string.
    pub open spec fn spec_as_str(self) -> Option<Seq<char>> {
        match self {
            Json::Text(text) => Some(text@),
            _ => None,
        }
    }

    /// The value of a number that is a non-negative integer below 2^64.
    pub open spec fn spec_as_u64(self) -> Option<u64> {
        match self {
            Json::Number(n) => n.unsigned,
            _ => None,
        }
    }

    /// The member with key `key` of an object.
    pub fn get(&self, key: &str) -> (member: Option<&Json>)
        ensures
            match member {
                Some(found) => self.spec_get(key@) == Some(*found),
                None => self.spec_get(key@) is None,
            },
    {
        match self {
            Json::Object(members) => {
                let wanted = String::from_str(key);
                let mut i: usize = 0;
                while i < members.len()
                    invariant
                        i <= members.len(),
                        wanted@ == key@,
                        self.spec_get(key@) == member_of(members@, key@),
                        absent_before(members@, key@, i as int),
                    decreases members.len() - i,
                {
                    if members[i].0 == wanted {
                        proof {
                            lemma_member_found(members@, key@, i as int);
                        }
                        return Some(&members[i].1);
                    }
                    i = i + 1;
                }
                proof {
                    lemma_member_missing(members@, key@);
                }
                None
            },
            _ => None,
        }
    }

    /// The value of `true` or `false`.
    pub fn as_bool(&self) -> (flag: Option<bool>)
        ensures
            flag == self.spec_as_bool(),
    {
        match self {
            Json::Bool(flag) => Some(*flag),
            _ => None,
        }
    }

    /// The text of a string.
    pub fn as_str(&self) -> (text: Option<&str>)
        ensures
            match text {
                Some(found) => self.spec_as_str() == Some(found@),
                None => self.spec_as_str() is None,
            },
    {
        match self {
            Json::Text(text) => Some(text.as_str()),
            _ => None,
        }
    }

    /// The value of a number that is a non-negative integer below 2^64.
    pub fn as_u64(&self) -> (value: Option<u64>)
        ensures
            value == self.spec_as_u64(),
    {
        match self {
            Json::Number(n) => n.unsigned,
            _ => None,
        }
    }
}

/// Writes a string as JSON text.
pub fn quote(text: &str) -> (quoted: String)
    ensures
        quoted@ == json_quoted(text@),
{
    quote_json(text)
}

/// Reads a JSON document from a text.
pub fn parse(text: &str) -> (parsed: Option<Json>)
    ensures
        parsed == json_decode(text@),
{
    match parse_json(text) {
        Ok(read) => Some(read.0),
        Err(_) => None,
    }
}

} // verus!
