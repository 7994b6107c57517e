use vstd::prelude::*;

verus! {

/// What a JSON value is to this library: a string, an array, or anything
/// else. Of an array only its string elements are kept apart; every other
/// element is `None`.
pub enum JsonValue {
    Text(String),
    List(Vec<Option<String>>),
    Other,
}

/// The mathematical counterpart of a [`JsonValue`].
pub ghost enum JsonModel {
    Text(Seq<char>),
    List(Seq<Option<Seq<char>>>),
    Other,
}

/// The character sequence of an optional string.
pub open spec fn item_text(item: Option<String>) -> Option<Seq<char>> {
    match item {
        Some(s) => Some(s@),
        None => None,
    }
}

impl View for JsonValue {
    type V = JsonModel;

    open spec fn view(&self) -> JsonModel {
        match self {
            JsonValue::Text(s) => JsonModel::Text(s@),
            JsonValue::List(items) => JsonModel::List(
                items@.map_values(|item: Option<String>| item_text(item)),
            ),
            JsonValue::Other => JsonModel::Other,
        }
    }
}

/// A JSON object: its members in some order. Where a key stands more than
/// once, the first member with it counts.
pub struct JsonObject {
    pub entries: Vec<(String, JsonValue)>,
}

impl JsonObject {
    /// Whether the member at `i` has the key `key`.
    pub open spec fn key_at(&self, i: int, key: Seq<char>) -> bool {
        0 <= i < self.entries@.len() && self.entries@[i].0@ == key
    }

    /// Whether the member at `i` is the first with the key `key`.
    pub open spec fn first_at(&self, i: int, key: Seq<char>) -> bool {
        self.key_at(i, key) && forall|j: int| 0 <= j < i ==> !self.key_at(j, key)
    }

    /// The object as a map from keys to values.
    pub open spec fn view(&self) -> Map<Seq<char>, JsonModel> {
        Map::new(
            |key: Seq<char>| exists|i: int| self.key_at(i, key),
            |key: Seq<char>| self.entries@[choose|i: int| self.first_at(i, key)].1@,
        )
    }

    /// The value of the member `key`, if the object has one.
    pub fn get(&self, key: &str) -> (found: Option<&JsonValue>)
        ensures
            match found {
                Some(value) => self@.contains_key(key@) && self@[key@] == value@,
                None => !self@.contains_key(key@),
            },
    {
        let wanted: String = key.to_owned();
        let mut i: usize = 0;
        while i < self.entries.len()
            invariant
                0 <= i <= self.entries@.len(),
                wanted@ == key@,
                forall|k: int| 0 <= k < i ==> !self.key_at(k, key@),
            decreases self.entries.len() - i,
        {
            if self.entries[i].0 == wanted {
                proof {
                    assert(self.key_at(i as int, key@));
                    assert(self.first_at(i as int, key@));
                    let c = choose|k: int| self.first_at(k, key@);
                    assert(self.first_at(c, key@));
                    assert(c == i);
                }
                return Some(&self.entries[i].1);
            }
            i = i + 1;
        }
        None
    }
}

/// What `serde_json` reads from a text as a JSON object: its members, or
/// `None` where the text is no single JSON object.
pub uninterp spec fn parsed_object(text: Seq<char>) -> Option<Map<Seq<char>, JsonModel>>;

/// What `serde_json` reads from a text as a JSON value of any kind, or `None`
/// where the text is no single JSON value.
pub uninterp spec fn parsed_value(text: Seq<char>) -> Option<JsonModel>;

/// The error of `serde_json`, which the parsing wrappers hand on untouched.
#[verifier::external_type_specification]
#[verifier::external_body]
pub struct ExJsonError(serde_json::Error);

/// Calls `serde_json::from_str` for a map from strings to values. The
/// contract claims that the outcome depends on the text alone: the members
/// that come back are the ones named by [`parsed_object`], and an error
/// comes back exactly where that is `None`.
#[verifier::external_body]
pub(crate) fn parse_object(text: &str) -> (parsed: Result<JsonObject, serde_json::Error>)
    ensures
        match parsed {
            Ok(object) => parsed_object(text@) == Some(object@),
            Err(_) => parsed_object(text@) is None,
        },
{
    let data: std::collections::HashMap<String, serde_json::Value> = serde_json::from_str(text)?;
    Ok(JsonObject { entries: data.into_iter().map(|(k, v)| (k, match v {
        serde_json::Value::String(s) => JsonValue::Text(s),
        serde_json::Value::Array(a) => JsonValue::List(a.into_iter().map(|e| match e {
            serde_json::Value::String(s) => Some(s),
            _ => None,
        }).collect()),
        _ => JsonValue::Other,
    })).collect() })
}

/// Calls `serde_json::from_str` for a value of any kind. The contract claims
/// that the outcome depends on the text alone: the value that comes back is
/// the one named by [`parsed_value`], and an error comes back exactly where
/// that is `None`.
#[verifier::external_body]
pub(crate) fn parse_value(text: &str) -> (parsed: Result<JsonValue, serde_json::Error>)
    ensures
        match parsed {
            Ok(value) => parsed_value(text@) == Some(value@),
            Err(_) => parsed_value(text@) is None,
        },
{
    let value: serde_json::Value = serde_json::from_str(text)?;
    Ok(match value {
        serde_json::Value::String(s) => JsonValue::Text(s),
        serde_json::Value::Array(a) => JsonValue::List(a.into_iter().map(|e| match e {
            serde_json::Value::String(s) => Some(s),
            _ => None,
        }).collect()),
        _ => JsonValue::Other,
    })
}

} // verus!
