//! The reply envelope and its JSON text.

use vstd::prelude::*;
use crate::text::views_of;

verus! {

/// The key under which an envelope carries its lines.
pub open spec fn data_key() -> Seq<char> {
    "data"@
}

/// The compact JSON text of an object with the one member `key`, whose value
/// is the array of the strings `items`.
pub uninterp spec fn json_object_text(key: Seq<char>, items: Seq<Seq<char>>) -> Seq<char>;

/// What every reply carries: an ordered sequence of strings.
#[derive(Debug, PartialEq, Eq)]
pub struct Envelope {
    pub data: Vec<String>,
}

impl View for Envelope {
    type V = Seq<Seq<char>>;

    open spec fn view(&self) -> Seq<Seq<char>> {
        views_of(self.data@)
    }
}

/// The JSON text of the envelope that carries `data`.
pub open spec fn envelope_text(data: Seq<Seq<char>>) -> Seq<char> {
    json_object_text(data_key(), data)
}

/// `Display` of `serde_json::Value`, by way of `to_string`, on the object
/// `{key: [items...]}` built from the arguments. The text depends on the key
/// and the items alone and is here called `json_object_text`. An object whose
/// only member is an array of strings always serialises.
#[verifier::external_body]
fn json_object(key: &str, items: &Vec<String>) -> (text: String)
    ensures
        text@ == json_object_text(key@, views_of(items@)),
{
    let mut object = serde_json::Map::new();
    object.insert(key.to_owned(), serde_json::Value::from(items.clone()));
    serde_json::Value::Object(object).to_string()
}

impl Envelope {
    /// The envelope without lines.
    pub fn empty() -> (envelope: Envelope)
        ensures
            envelope@ == Seq::<Seq<char>>::empty(),
    {
        let envelope = Envelope { data: Vec::new() };
        assert(envelope@ =~= Seq::<Seq<char>>::empty());
        envelope
    }

    /// The envelope of the given lines.
    pub fn new(data: Vec<String>) -> (envelope: Envelope)
        ensures
            envelope@ == views_of(data@),
            envelope.data == data,
    {
        Envelope { data }
    }

    /// The reply text: a JSON object whose member `data` is the array of the lines.
    pub fn to_json(&self) -> (text: String)
        ensures
            text@ == envelope_text(self@),
    {
        json_object("data", &self.data)
    }
}

} // verus!
