use vstd::prelude::*;

verus! {

#[verifier::external_type_specification]
#[verifier::external_body]
pub struct ExValue(serde_json::Value);

#[verifier::external_type_specification]
#[verifier::external_body]
pub struct ExJsonError(serde_json::Error);

#[verifier::external_type_specification]
#[verifier::external_body]
#[verifier::reject_recursive_types(K)]
#[verifier::reject_recursive_types(V)]
pub struct ExJsonMap<K, V>(serde_json::Map<K, V>);

/// Relies on the `Clone` impl of `serde_json::Value`: a deep copy.
pub assume_specification[ <serde_json::Value as Clone>::clone ](v: &serde_json::Value) -> (r:
    serde_json::Value)
    ensures
        r == *v,
;

/// The member map of a JSON object.
pub type JsonMembers = serde_json::Map<String, serde_json::Value>;

/// The members that a `serde_json::Map` holds: name to value.
pub uninterp spec fn json_members(m: serde_json::Map<String, serde_json::Value>) -> Map<
    Seq<char>,
    serde_json::Value,
>;

/// The text that serde_json writes for a JSON object with these members.
pub uninterp spec fn json_text(members: Map<Seq<char>, serde_json::Value>) -> Seq<char>;

/// The members of the JSON object that serde_json reads from a text; nothing
/// where the text is not JSON, is nested too deep for the reader, or is JSON
/// of another kind than an object.
pub uninterp spec fn json_document(text: Seq<char>) -> Option<Map<Seq<char>, serde_json::Value>>;

pub open spec fn no_members() -> Map<Seq<char>, serde_json::Value> {
    Map::empty()
}

/// Relies on `serde_json::Map::new`: a map without members.
#[verifier::external_body]
fn members_new() -> (r: JsonMembers)
    ensures
        json_members(r) == no_members(),
{
    serde_json::Map::new()
}

/// Relies on `serde_json::Map::get`: the value under a name, copied.
#[verifier::external_body]
fn members_get(m: &serde_json::Map<String, serde_json::Value>, key: &str) -> (r: Option<
    serde_json::Value,
>)
    ensures
        r == json_members(*m).get(key@),
{
    m.get(key).cloned()
}

/// Relies on `serde_json::Map::insert`: the value replaces what the name held.
#[verifier::external_body]
fn members_insert(m: &mut serde_json::Map<String, serde_json::Value>, key: String, value: serde_json::Value)
    ensures
        json_members(*final(m)) == json_members(*old(m)).insert(key@, value),
{
    m.insert(key, value);
}

/// Relies on `serde_json::Map::len`: the number of members.
#[verifier::external_body]
fn members_len(m: &serde_json::Map<String, serde_json::Value>) -> (r: usize)
    ensures
        r == json_members(*m).len(),
{
    m.len()
}

/// Relies on `Display` of `serde_json::Value` for an object. Without the
/// `preserve_order` feature serde_json keeps the members of an object in a
/// `BTreeMap`, so the text depends on the members alone.
#[verifier::external_body]
fn members_text(m: &serde_json::Map<String, serde_json::Value>) -> (r: String)
    ensures
        r@ == json_text(json_members(*m)),
{
    serde_json::Value::Object(m.clone()).to_string()
}

/// Relies on `serde_json::from_str` into a `serde_json::Value`; an object's
/// members are taken as they are.
#[verifier::external_body]
fn parse_json_object(text: &str) -> (r: Result<Option<JsonMembers>, serde_json::Error>)
    ensures
        match r {
            Ok(Some(m)) => json_document(text@) == Some(json_members(m)),
            _ => json_document(text@) is None,
        },
{
    match serde_json::from_str::<serde_json::Value>(text)? {
        serde_json::Value::Object(members) => Ok(Some(members)),
        _ => Ok(None),
    }
}

/// A JSON object at the top level: member names, each with a JSON value.
pub struct Document {
    members: serde_json::Map<String, serde_json::Value>,
}

impl Document {
    pub closed spec fn view(&self) -> Map<Seq<char>, serde_json::Value> {
        json_members(self.members)
    }

    /// An object without members.
    pub fn new() -> (r: Document)
        ensures
            r@ == Map::<Seq<char>, serde_json::Value>::empty(),
    {
        Document { members: members_new() }
    }

    /// A copy of the value of member `key`.
    pub fn get(&self, key: &str) -> (r: Option<serde_json::Value>)
        ensures
            r == self@.get(key@),
    {
        members_get(&self.members, key)
    }

    /// Gives member `key` the value `value`, adding the member where it is
    /// missing.
    pub fn set(&mut self, key: &str, value: serde_json::Value)
        ensures
            final(self)@ == old(self)@.insert(key@, value),
    {
        members_insert(&mut self.members, key.to_owned(), value);
    }

    /// The number of members.
    pub fn len(&self) -> (r: usize)
        ensures
            r == self@.len(),
    {
        members_len(&self.members)
    }

    /// The JSON text of the object.
    pub fn to_json(&self) -> (r: String)
        ensures
            r@ == json_text(self@),
    {
        members_text(&self.members)
    }

    /// Reads a JSON object from its text; nothing where the text is not JSON
    /// or not an object.
    pub fn from_json(text: &str) -> (r: Option<Document>)
        ensures
            match r {
                Some(d) => json_document(text@) == Some(d@),
                None => json_document(text@) is None,
            },
    {
        match parse_json_object(text) {
            Ok(Some(members)) => Some(Document { members }),
            _ => None,
        }
    }
}

} // verus!
