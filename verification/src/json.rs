//! JSON values as trees, and reading a text into one.

use vstd::prelude::*;
use crate::error::{error_category, Category, ErrorKind};

verus! {

/// A JSON value. A number carries no payload: no rule of the model reads one.
/// An object is the list of its members in the order in which they are held.
#[derive(Debug, PartialEq, Eq)]
pub enum Json {
    Null,
    Bool(bool),
    Number,
    Text(String),
    Array(Vec<Json>),
    Object(Vec<(String, Json)>),
}

/// The mathematical tree of a JSON value.
pub enum JsonValue {
    Null,
    Bool(bool),
    Number,
    Text(Seq<char>),
    Array(Seq<JsonValue>),
    Object(Seq<(Seq<char>, JsonValue)>),
}

impl Json {
    /// The tree of this value: texts by their characters, arrays and objects
    /// by the trees of what they hold.
    pub open spec fn tree(self) -> JsonValue
        decreases self,
    {
        match self {
            Json::Null => JsonValue::Null,
            Json::Bool(b) => JsonValue::Bool(b),
            Json::Number => JsonValue::Number,
            Json::Text(text) => JsonValue::Text(text@),
            Json::Array(items) => JsonValue::Array(
                Seq::new(
                    items@.len(),
                    |i: int|
                        if 0 <= i < items@.len() {
                            items@[i].tree()
                        } else {
                            JsonValue::Null
                        },
                ),
            ),
            Json::Object(members) => JsonValue::Object(
                Seq::new(
                    members@.len(),
                    |i: int|
                        if 0 <= i < members@.len() {
                            (members@[i].0@, members@[i].1.tree())
                        } else {
                            (Seq::empty(), JsonValue::Null)
                        },
                ),
            ),
        }
    }
}

impl View for Json {
    type V = JsonValue;

    /// The view of a value is its tree.
    open spec fn view(&self) -> JsonValue {
        self.tree()
    }
}

impl JsonValue {
    /// The name that a value gives when it stands for a bare name: a text
    /// gives itself, and an object of exactly one member whose value is
    /// `null` gives the name of that member. No other value gives one.
    pub open spec fn unit_name(self) -> Option<Seq<char>> {
        match self {
            JsonValue::Text(name) => Some(name),
            JsonValue::Object(members) => if members.len() == 1 && members[0].1 is Null {
                Some(members[0].0)
            } else {
                None
            },
            _ => None,
        }
    }
}

impl Json {
    /// The trees of the items of an array, in their order.
    pub open spec fn item_trees(items: Seq<Json>) -> Seq<JsonValue> {
        Seq::new(items.len(), |i: int| items[i]@)
    }

    /// The names and the trees of the members of an object, in their order.
    pub open spec fn member_trees(members: Seq<(String, Json)>) -> Seq<(Seq<char>, JsonValue)> {
        Seq::new(members.len(), |i: int| (members[i].0@, members[i].1@))
    }

    /// The tree of an array holds the trees of its items.
    pub proof fn lemma_array_view(items: Vec<Json>)
        ensures
            Json::Array(items)@ == JsonValue::Array(Self::item_trees(items@)),
    {
        assert(Json::Array(items)@->Array_0 =~= Self::item_trees(items@));
    }

    /// The tree of an object holds the names and the trees of its members.
    pub proof fn lemma_object_view(members: Vec<(String, Json)>)
        ensures
            Json::Object(members)@ == JsonValue::Object(Self::member_trees(members@)),
    {
        assert(Json::Object(members)@->Object_0 =~= Self::member_trees(members@));
    }

    /// A value and its tree are of the same variant.
    pub proof fn lemma_same_variant(self)
        ensures
            self@ is Null <==> self is Null,
            self@ is Bool <==> self is Bool,
            self@ is Number <==> self is Number,
            self@ is Text <==> self is Text,
            self@ is Array <==> self is Array,
            self@ is Object <==> self is Object,
    {
    }

    /// The name that this value gives when it stands for a bare name.
    pub fn unit_name(&self) -> (name: Option<&str>)
        ensures
            match name {
                Some(text) => self@.unit_name() == Some(text@),
                None => self@.unit_name() is None,
            },
    {
        match self {
            Json::Text(text) => Some(text.as_str()),
            Json::Object(members) => {
                proof {
                    Self::lemma_object_view(*members);
                }
                if members.len() == 1 {
                    proof {
                        members@[0].1.lemma_same_variant();
                    }
                    match &members[0].1 {
                        Json::Null => Some(members[0].0.as_str()),
                        _ => None,
                    }
                } else {
                    None
                }
            },
            _ => None,
        }
    }
}

/// `serde_json::Value`, the form in which the JSON layer hands a value
/// over. Nothing of its inside is known here but the tree that it holds.
#[verifier::external_type_specification]
#[verifier::external_body]
pub struct ExValue(serde_json::Value);

/// The tree that a `serde_json::Value` holds: a number without its value, a
/// text and a name by their characters, the items of an array in their
/// order, and the members of an object in the order in which
/// `serde_json::Map::iter` yields them.
pub uninterp spec fn value_tree(value: serde_json::Value) -> JsonValue;

/// What `serde_json::from_str` makes of a text when it is asked for a
/// `serde_json::Value`: the tree of the value, or the category of the error.
pub uninterp spec fn parse_outcome(text: Seq<char>) -> Result<JsonValue, Category>;

/// Carries a `serde_json::Value` over into a `Json`, variant by variant.
/// Trusted: the result holds the tree of the value.
#[verifier::external_body]
fn lift(value: &serde_json::Value) -> (json: Json)
    ensures
        json@ == value_tree(*value),
{
    match value {
        serde_json::Value::Null => Json::Null,
        serde_json::Value::Bool(b) => Json::Bool(*b),
        serde_json::Value::Number(_) => Json::Number,
        serde_json::Value::String(text) => Json::Text(text.clone()),
        serde_json::Value::Array(items) => Json::Array(items.iter().map(lift).collect()),
        serde_json::Value::Object(members) => Json::Object(
            members.iter().map(|(name, member)| (name.clone(), lift(member))).collect(),
        ),
    }
}

/// Calls `serde_json::from_str` for a `serde_json::Value`. Trusted: the
/// outcome depends on the text alone, the value by its tree and the error
/// by its category.
///
/// A `serde_json::Value` holds an object as a map, so where a text names a
/// member of an object twice, the tree holds the last of the two alone.
#[verifier::external_body]
fn parse(text: &str) -> (outcome: Result<serde_json::Value, serde_json::Error>)
    ensures
        match outcome {
            Ok(value) => parse_outcome(text@) == Ok::<JsonValue, Category>(value_tree(value)),
            Err(err) => parse_outcome(text@) == Err::<JsonValue, Category>(error_category(err)),
        },
{
    serde_json::from_str::<serde_json::Value>(text)
}

impl Json {
    /// Reads a text as a JSON value. The text is handed to the JSON layer:
    /// the tree that it makes of the text is returned, or the kind of the
    /// failure that it reports, sorted by its category.
    pub fn from_text(text: &str) -> (read: Result<Json, ErrorKind>)
        ensures
            match read {
                Ok(json) => parse_outcome(text@) == Ok::<JsonValue, Category>(json@),
                Err(kind) => parse_outcome(text@) is Err && kind == ErrorKind::category_kind(
                    parse_outcome(text@)->Err_0,
                ),
            },
    {
        match parse(text) {
            Ok(value) => Ok(lift(&value)),
            Err(err) => Err(ErrorKind::from(err)),
        }
    }
}

} // verus!
