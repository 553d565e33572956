//! JSON objects, as `serde_json` builds and writes them.
use serde_json::Value;
use vstd::prelude::*;

verus! {

/// JSON value of `serde_json`.
#[verifier::external_type_specification]
#[verifier::external_body]
pub struct ExValue(Value);

/// A member of an object.
#[derive(Debug)]
pub enum JsonScalar {
    Text(String),
    Number(u64),
}

/// What a member of an object says.
pub ghost enum JsonMember {
    Text(Seq<char>),
    Number(nat),
}

impl View for JsonScalar {
    type V = JsonMember;

    open spec fn view(&self) -> JsonMember {
        match self {
            JsonScalar::Text(s) => JsonMember::Text(s@),
            JsonScalar::Number(n) => JsonMember::Number(*n as nat),
        }
    }
}

/// Members of an object that holds nothing but texts and natural numbers; none
/// for any other value.
pub uninterp spec fn object_members(value: Value) -> Option<Map<Seq<char>, JsonMember>>;

/// Compact JSON text of an object that holds nothing but texts and natural
/// numbers.
pub uninterp spec fn object_bytes(members: Map<Seq<char>, JsonMember>) -> Seq<u8>;

/// `serde_json::Map::new` makes an object without members.
#[verifier::external_body]
pub(crate) fn new_object() -> (value: Value)
    ensures
        object_members(value) == Some(Map::<Seq<char>, JsonMember>::empty()),
{
    Value::Object(serde_json::Map::new())
}

/// `serde_json::Map::insert` sets a member of an object, in place of an earlier
/// one with the same key.
#[verifier::external_body]
pub(crate) fn put_member(value: &mut Value, key: &str, member: JsonScalar)
    requires
        object_members(*old(value)) is Some,
    ensures
        object_members(*final(value)) == Some(object_members(*old(value))->0.insert(key@, member@)),
{
    let member = match member {
        JsonScalar::Text(s) => Value::from(s),
        JsonScalar::Number(n) => Value::from(n),
    };
    if let Some(object) = value.as_object_mut() {
        object.insert(key.to_string(), member);
    }
}

/// `serde_json::to_vec` writes an object in its compact form, with the keys in
/// order. Control characters are escaped, so the text is a single line.
#[verifier::external_body]
pub(crate) fn write_object(value: &Value) -> (bytes: Vec<u8>)
    requires
        object_members(*value) is Some,
    ensures
        bytes@ == object_bytes(object_members(*value)->0),
        !bytes@.contains(10u8),
{
    serde_json::to_vec(value).unwrap_or_default()
}

/// Line of an object on a pipe: its compact JSON text and a line feed.
pub open spec fn object_line(members: Map<Seq<char>, JsonMember>) -> Seq<u8> {
    object_bytes(members).push(10u8)
}

/// Write an object as one line. The only line feed is the last byte.
pub fn write_line(value: &Value) -> (line: Vec<u8>)
    requires
        object_members(*value) is Some,
    ensures
        line@ == object_line(object_members(*value)->0),
        line@.len() > 0,
        line@.last() == 10u8,
        !line@.drop_last().contains(10u8),
{
    let mut line = write_object(value);
    let ghost text = line@;
    line.push(10);
    assert(line@.drop_last() =~= text);
    line
}

} // verus!
