//! A JSON document as plain values, read from bytes by `serde_json`.

use vstd::prelude::*;

verus! {

/// A JSON value. Numbers are kept as the text that `serde_json` prints for
/// them; an object keeps its members in the order `serde_json` holds them,
/// each key once.
#[derive(Debug, PartialEq)]
pub enum Json {
    Null,
    Bool(bool),
    Number(String),
    Str(String),
    Array(Vec<Json>),
    Object(Vec<(String, Json)>),
}

/// The mathematical form of a `Json` value.
pub enum JsonV {
    Null,
    Bool(bool),
    Number(Seq<char>),
    Str(Seq<char>),
    Array(Seq<JsonV>),
    Object(Seq<(Seq<char>, JsonV)>),
}

impl Json {
    /// The mathematical form of this value.
    pub open spec fn model(&self) -> JsonV
        decreases self,
    {
        match self {
            Json::Null => JsonV::Null,
            Json::Bool(b) => JsonV::Bool(*b),
            Json::Number(n) => JsonV::Number(n@),
            Json::Str(s) => JsonV::Str(s@),
            Json::Array(items) => JsonV::Array(
                Seq::new(
                    items@.len(),
                    |i: int|
                        if 0 <= i < items@.len() {
                            items@[i].model()
                        } else {
                            JsonV::Null
                        },
                ),
            ),
            Json::Object(members) => JsonV::Object(
                Seq::new(
                    members@.len(),
                    |i: int|
                        if 0 <= i < members@.len() {
                            (members@[i].0@, members@[i].1.model())
                        } else {
                            (Seq::empty(), JsonV::Null)
                        },
                ),
            ),
        }
    }
}


impl View for Json {
    type V = JsonV;

    open spec fn view(&self) -> JsonV {
        self.model()
    }
}

/// The value of the first member named `key`, if any.
pub open spec fn member(members: Seq<(Seq<char>, JsonV)>, key: Seq<char>) -> Option<JsonV>
    decreases members.len(),
{
    if members.len() == 0 {
        None
    } else if members[0].0 == key {
        Some(members[0].1)
    } else {
        member(members.drop_first(), key)
    }
}

impl JsonV {
    /// The member `key` of an object; `None` for a missing key or a value
    /// that is not an object (as `serde_json::Value::get` with a `&str`).
    pub open spec fn get(self, key: Seq<char>) -> Option<JsonV> {
        match self {
            JsonV::Object(members) => member(members, key),
            _ => None,
        }
    }

    /// The elements of an array.
    pub open spec fn as_array(self) -> Option<Seq<JsonV>> {
        match self {
            JsonV::Array(items) => Some(items),
            _ => None,
        }
    }

    /// The text of a string.
    pub open spec fn as_str(self) -> Option<Seq<char>> {
        match self {
            JsonV::Str(s) => Some(s),
            _ => None,
        }
    }

    /// The text of the string member `key`, if there is one.
    pub open spec fn str_member(self, key: Seq<char>) -> Option<Seq<char>> {
        match self.get(key) {
            Some(v) => v.as_str(),
            None => None,
        }
    }

    /// The elements of the array member `key`, if there is one.
    pub open spec fn array_member(self, key: Seq<char>) -> Option<Seq<JsonV>> {
        match self.get(key) {
            Some(v) => v.as_array(),
            None => None,
        }
    }
}

proof fn lemma_member_at(members: Seq<(Seq<char>, JsonV)>, key: Seq<char>, i: int)
    requires
        0 <= i < members.len(),
        members[i].0 == key,
        forall|j: int| 0 <= j < i ==> (#[trigger] members[j]).0 != key,
    ensures
        member(members, key) == Some(members[i].1),
    decreases i,
{
    if i > 0 {
        let rest = members.drop_first();
        assert forall|j: int| 0 <= j < i - 1 implies (#[trigger] rest[j]).0 != key by {
            assert(rest[j] == members[j + 1]);
        }
        lemma_member_at(rest, key, i - 1);
    }
}

proof fn lemma_member_absent(members: Seq<(Seq<char>, JsonV)>, key: Seq<char>)
    requires
        forall|j: int| 0 <= j < members.len() ==> (#[trigger] members[j]).0 != key,
    ensures
        member(members, key) is None,
    decreases members.len(),
{
    if members.len() > 0 {
        let rest = members.drop_first();
        assert forall|j: int| 0 <= j < rest.len() implies (#[trigger] rest[j]).0 != key by {
            assert(rest[j] == members[j + 1]);
        }
        lemma_member_absent(rest, key);
    }
}

impl Json {
    /// The member `key` of an object.
    pub fn get(&self, key: &str) -> (res: Option<&Json>)
        ensures
            match res {
                Some(v) => self@.get(key@) == Some(v@),
                None => self@.get(key@) is None,
            },
    {
        match self {
            Json::Object(members) => {
                let owned_key = key.to_owned();
                let ghost m = self@->Object_0;
                let mut i: usize = 0;
                while i < members.len()
                    invariant
                        i <= members@.len(),
                        m.len() == members@.len(),
                        forall|j: int|
                            0 <= j < members@.len() ==> #[trigger] m[j] == (
                                members@[j].0@,
                                members@[j].1@,
                            ),
                        forall|j: int| 0 <= j < i ==> (#[trigger] m[j]).0 != key@,
                        owned_key@ == key@,
                        self@ == JsonV::Object(m),
                    decreases members.len() - i,
                {
                    if members[i].0 == owned_key {
                        proof {
                            lemma_member_at(m, key@, i as int);
                        }
                        return Some(&members[i].1);
                    }
                    i += 1;
                }
                proof {
                    lemma_member_absent(m, key@);
                }
                None
            },
            _ => None,
        }
    }

    /// The elements of an array.
    pub fn as_array(&self) -> (res: Option<&Vec<Json>>)
        ensures
            match res {
                Some(items) => *self == Json::Array(*items),
                None => !(self is Array),
            },
    {
        match self {
            Json::Array(items) => Some(items),
            _ => None,
        }
    }

    /// The text of a string.
    pub fn as_str(&self) -> (res: Option<&str>)
        ensures
            match res {
                Some(s) => self@.as_str() == Some(s@),
                None => self@.as_str() is None,
            },
    {
        match self {
            Json::Str(s) => Some(s.as_str()),
            _ => None,
        }
    }

    /// The text of the string member `key`.
    pub fn str_member(&self, key: &str) -> (res: Option<&str>)
        ensures
            match res {
                Some(s) => self@.str_member(key@) == Some(s@),
                None => self@.str_member(key@) is None,
            },
    {
        match self.get(key) {
            Some(v) => v.as_str(),
            None => None,
        }
    }

    /// The elements of the array member `key`.
    pub fn array_member(&self, key: &str) -> (res: Option<&Vec<Json>>)
        ensures
            match res {
                Some(items) => self@.array_member(key@) == Some(
                    Seq::new(items@.len(), |i: int| items@[i]@),
                ),
                None => self@.array_member(key@) is None,
            },
    {
        match self.get(key) {
            Some(v) => {
                let r = v.as_array();
                proof {
                    if let Some(items) = r {
                        assert(v@.as_array().unwrap() =~= Seq::new(items@.len(), |i: int| items@[i]@));
                    }
                }
                r
            },
            None => None,
        }
    }
}


#[verifier::external_type_specification]
#[verifier::external_body]
pub struct ExSerdeJsonValue(serde_json::Value);

#[verifier::external_type_specification]
#[verifier::external_body]
pub struct ExSerdeJsonError(serde_json::Error);

/// The document that `serde_json` reads from `bytes`; `None` where it
/// reports an error.
pub uninterp spec fn json_document(bytes: Seq<u8>) -> Option<JsonV>;

/// The text that the `Display` of the error `serde_json` reports for
/// `bytes` gives (its message, with the line and column).
pub uninterp spec fn json_error_message(bytes: Seq<u8>) -> Seq<char>;

/// The text that the `Display` of a `serde_json::Error` gives.
pub uninterp spec fn json_error_display(error: serde_json::Error) -> Seq<char>;

/// What a `serde_json::Value` holds, in the form of a `Json` value.
pub uninterp spec fn json_value_model(value: serde_json::Value) -> JsonV;

/// Calls `serde_json::from_slice::<serde_json::Value>`. The contract claims
/// that success and the value read depend on the bytes alone: they are what
/// `json_document` names; so does the error's text, which
/// `json_error_message` names. The JSON grammar itself is not restated.
#[verifier::external_body]
fn value_from_slice(body: &[u8]) -> (res: Result<serde_json::Value, serde_json::Error>)
    ensures
        res is Ok <==> json_document(body@) is Some,
        res matches Ok(value) ==> json_document(body@) == Some(json_value_model(value)),
        res matches Err(e) ==> json_error_display(e) == json_error_message(body@),
{
    serde_json::from_slice::<serde_json::Value>(body)
}

/// Rebuilds a `serde_json::Value` as a `Json`, variant for variant: a
/// number becomes the text its `Display` gives, arrays and objects are
/// rebuilt element by element in the order `serde_json` holds them. The
/// contract claims that the rebuilt value is what the value holds.
#[verifier::external_body]
fn json_from_value(value: serde_json::Value) -> (res: Json)
    ensures
        res@ == json_value_model(value),
{
    match value {
        serde_json::Value::Null => Json::Null,
        serde_json::Value::Bool(b) => Json::Bool(b),
        serde_json::Value::Number(n) => Json::Number(n.to_string()),
        serde_json::Value::String(s) => Json::Str(s),
        serde_json::Value::Array(items) => Json::Array(items.into_iter().map(json_from_value).collect()),
        serde_json::Value::Object(map) => Json::Object(
            map.into_iter().map(|(k, v)| (k, json_from_value(v))).collect(),
        ),
    }
}

/// Reads a JSON document from bytes, or gives the error `serde_json` reports.
pub fn parse_json(body: &[u8]) -> (res: Result<Json, serde_json::Error>)
    ensures
        res is Ok <==> json_document(body@) is Some,
        res matches Ok(doc) ==> json_document(body@) == Some(doc@),
        res matches Err(e) ==> json_error_display(e) == json_error_message(body@),
{
    match value_from_slice(body) {
        Ok(value) => Ok(json_from_value(value)),
        Err(e) => Err(e),
    }
}

/// Calls the `Display` of `serde_json::Error`; the contract claims that the
/// text is what `json_error_display` names for the error.
#[verifier::external_body]
pub(crate) fn json_error_text(error: &serde_json::Error) -> (res: String)
    ensures
        res@ == json_error_display(*error),
{
    error.to_string()
}

} // verus!
