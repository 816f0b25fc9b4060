//! The attributes that a zone carries into a feature collection.

use vstd::prelude::*;
use crate::zone::Zone;

verus! {

/// `serde_json::Value`, a JSON value of any kind. Nothing of its inside is
/// known here.
#[verifier::external_type_specification]
#[verifier::external_body]
pub struct ExJsonValue(serde_json::Value);

/// `serde_json::Map`, the members of a JSON object by their keys. Nothing of
/// its inside is known here but through `members`.
#[verifier::external_type_specification]
#[verifier::external_body]
#[verifier::reject_recursive_types(K)]
#[verifier::reject_recursive_types(V)]
pub struct ExJsonMap<K, V>(serde_json::Map<K, V>);

/// What a JSON object holds: its keys, and for each key the text of its
/// value where that value is a JSON string, `None` where it is of another
/// kind.
pub uninterp spec fn members(object: serde_json::Map<String, serde_json::Value>) -> Map<Seq<char>, Option<Seq<char>>>;

/// The members of an object with a single member, `label`, whose value is the
/// string `label`.
pub open spec fn label_members(label: Seq<char>) -> Map<Seq<char>, Option<Seq<char>>> {
    Map::empty().insert("label"@, Some(label))
}

/// The members of an object without any.
pub open spec fn no_members() -> Map<Seq<char>, Option<Seq<char>>> {
    Map::empty()
}

/// `serde_json::Map::new`: the new object has no members.
#[verifier::external_body]
fn new_object() -> (object: serde_json::Map<String, serde_json::Value>)
    ensures
        members(object) == no_members(),
{
    serde_json::Map::new()
}

/// `serde_json::Map::insert`, called with a JSON string as the value: after
/// it the object holds that string under `key`, in place of what it held
/// there before if it held anything, and every other member as before.
#[verifier::external_body]
fn insert_string(
    object: &mut serde_json::Map<String, serde_json::Value>,
    key: String,
    value: String,
)
    ensures
        members(*final(object)) == members(*old(object)).insert(key@, Some(value@)),
{
    object.insert(key, serde_json::Value::String(value));
}

/// Builds the properties of a feature: one member, `label`, set to the label
/// of the zone.
pub fn label_properties(label: &str) -> (object: serde_json::Map<String, serde_json::Value>)
    ensures
        members(object) == label_members(label@),
{
    let mut object = new_object();
    insert_string(&mut object, "label".to_owned(), label.to_owned());
    object
}

impl Zone {
    /// The properties of the feature that stands for this zone.
    pub fn properties(&self) -> (object: serde_json::Map<String, serde_json::Value>)
        ensures
            members(object) == label_members(self.label@),
    {
        label_properties(self.label.as_str())
    }
}

} // verus!
