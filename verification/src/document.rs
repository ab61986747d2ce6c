//! The JSON document of a history: how its arrays, its object of centuries
//! and its record are read.

use vstd::prelude::*;
use crate::century::Century;
use crate::error::ErrorKind;
use crate::json::{Json, JsonValue};
use crate::preferences::{EnergyPreferenceHistory, EnergyPreferences, PreferenceMap};
use crate::source::EnergySource;
use crate::text::same_text;

verus! {

/// The sources that a JSON value lists: the value must be an array, and each
/// of its items must stand for a source. The sources come in the order of
/// the items.
pub open spec fn sources_of(json: JsonValue) -> Option<Seq<EnergySource>> {
    match json {
        JsonValue::Array(items) => if forall|i: int|
            0 <= i < items.len() ==> (#[trigger] EnergySource::of_json(items[i])) is Some {
            Some(Seq::new(items.len(), |i: int| EnergySource::of_json(items[i]).unwrap()))
        } else {
            None
        },
        _ => None,
    }
}

/// Reads a JSON array of sources, or `None` where the value is no array or
/// one of its items stands for no source.
pub fn read_sources(json: &Json) -> (sources: Option<Vec<EnergySource>>)
    ensures
        match sources {
            Some(read) => sources_of(json@) == Some(read@),
            None => sources_of(json@) is None,
        },
{
    match json {
        Json::Array(items) => {
            proof {
                Json::lemma_array_view(*items);
            }
            let ghost trees = Json::item_trees(items@);
            let mut read: Vec<EnergySource> = Vec::new();
            let mut i: usize = 0;
            while i < items.len()
                invariant
                    i <= items@.len(),
                    json@ == JsonValue::Array(trees),
                    trees == Json::item_trees(items@),
                    read@.len() == i,
                    forall|k: int|
                        0 <= k < i ==> (#[trigger] EnergySource::of_json(trees[k])) == Some(
                            read@[k],
                        ),
                decreases items@.len() - i,
            {
                match EnergySource::from_json(&items[i]) {
                    Some(source) => {
                        read.push(source);
                    },
                    None => {
                        assert(EnergySource::of_json(trees[i as int]) is None);
                        return None;
                    },
                }
                i += 1;
            }
            Some(read)
        },
        _ => {
            proof {
                json.lemma_same_variant();
            }
            None
        },
    }
}

/// Nothing is lost from an array of sources and nothing changes place: the
/// sources read are as many as the items, and each is the source of the item
/// at its own position, whose label the item gives as its name.
pub proof fn lemma_sources_keep_order(items: Seq<JsonValue>, i: int)
    requires
        sources_of(JsonValue::Array(items)) is Some,
        0 <= i < items.len(),
    ensures
        sources_of(JsonValue::Array(items)).unwrap().len() == items.len(),
        EnergySource::of_json(items[i]) == Some(sources_of(JsonValue::Array(items)).unwrap()[i]),
        items[i].unit_name() == Some(
            sources_of(JsonValue::Array(items)).unwrap()[i].label_text(),
        ),
{
    EnergySource::lemma_read_by_label(items[i], EnergySource::of_json(items[i]).unwrap());
}

impl EnergyPreferences {
    /// Whether every member of an object can be entered: its name is the
    /// label of a century and its value lists sources.
    pub open spec fn admissible(members: Seq<(Seq<char>, JsonValue)>) -> bool {
        forall|i: int|
            0 <= i < members.len() ==> Century::labelled((#[trigger] members[i]).0) is Some
                && sources_of(members[i].1) is Some
    }

    /// The preferences that result from entering the members of an object
    /// one after another, a later member replacing an earlier one of the
    /// same century.
    pub open spec fn entered(members: Seq<(Seq<char>, JsonValue)>) -> PreferenceMap
        decreases members.len(),
    {
        if members.len() == 0 {
            Map::empty()
        } else {
            Self::entered(members.drop_last()).insert(
                Century::labelled(members.last().0).unwrap(),
                sources_of(members.last().1).unwrap(),
            )
        }
    }

    /// The preferences that a JSON value holds: the value must be an object
    /// whose every member can be entered.
    pub open spec fn of_json(json: JsonValue) -> Option<PreferenceMap> {
        match json {
            JsonValue::Object(members) => if Self::admissible(members) {
                Some(Self::entered(members))
            } else {
                None
            },
            _ => None,
        }
    }

    /// Reads a JSON object of centuries, or `None` where the value is no
    /// object, a member's name is the label of no century, or a member's
    /// value does not list sources.
    pub fn from_json(json: &Json) -> (preferences: Option<EnergyPreferences>)
        ensures
            match preferences {
                Some(read) => Self::of_json(json@) == Some(read@),
                None => Self::of_json(json@) is None,
            },
    {
        match json {
            Json::Object(members) => {
                proof {
                    Json::lemma_object_view(*members);
                }
                let ghost trees = Json::member_trees(members@);
                let mut read = EnergyPreferences::new();
                let mut i: usize = 0;
                while i < members.len()
                    invariant
                        i <= members@.len(),
                        json@ == JsonValue::Object(trees),
                        trees == Json::member_trees(members@),
                        Self::admissible(trees.take(i as int)),
                        read@ == Self::entered(trees.take(i as int)),
                    decreases members@.len() - i,
                {
                    let century = match Century::from_label(members[i].0.as_str()) {
                        Some(century) => century,
                        None => {
                            return None;
                        },
                    };
                    let sources = match read_sources(&members[i].1) {
                        Some(sources) => sources,
                        None => {
                            assert(sources_of(trees[i as int].1) is None);
                            return None;
                        },
                    };
                    proof {
                        assert(trees.take(i + 1).drop_last() =~= trees.take(i as int));
                    }
                    read.insert(century, sources);
                    i += 1;
                }
                assert(trees.take(i as int) =~= trees);
                Some(read)
            },
            _ => {
                proof {
                    json.lemma_same_variant();
                }
                None
            },
        }
    }
}

impl EnergyPreferences {
    /// The preferences entered from the members of an object speak of
    /// exactly the centuries that the members name.
    pub proof fn lemma_every_century_kept(members: Seq<(Seq<char>, JsonValue)>, century: Century)
        requires
            Self::admissible(members),
        ensures
            Self::entered(members).contains_key(century) <==> exists|i: int|
                0 <= i < members.len() && Century::labelled((#[trigger] members[i]).0) == Some(
                    century,
                ),
        decreases members.len(),
    {
        if members.len() > 0 {
            let before = members.drop_last();
            Self::lemma_every_century_kept(before, century);
            if !Self::entered(members).contains_key(century) {
                assert forall|i: int| 0 <= i < members.len() implies Century::labelled(
                    (#[trigger] members[i]).0,
                ) != Some(century) by {
                    if i < before.len() {
                        assert(before[i] == members[i]);
                    }
                }
            }
        }
    }

    /// Where several members name one century, the last of them decides:
    /// the sources entered for a century are those that the last member of
    /// that name lists.
    pub proof fn lemma_last_member_decides(members: Seq<(Seq<char>, JsonValue)>, i: int)
        requires
            Self::admissible(members),
            0 <= i < members.len(),
            forall|j: int|
                i < j < members.len() ==> Century::labelled((#[trigger] members[j]).0)
                    != Century::labelled(members[i].0),
        ensures
            Self::entered(members).contains_key(Century::labelled(members[i].0).unwrap()),
            Self::entered(members)[Century::labelled(members[i].0).unwrap()] == sources_of(
                members[i].1,
            ).unwrap(),
        decreases members.len(),
    {
        if i < members.len() - 1 {
            Self::lemma_last_member_decides(members.drop_last(), i);
        }
    }
}

impl EnergyPreferenceHistory {
    /// Whether a member of the record is its one field, by its name.
    pub open spec fn is_field(member: (Seq<char>, JsonValue)) -> bool {
        member.0 == "energy-preferences"@
    }

    /// Those of the members of an object that bear the name of the field,
    /// in their order.
    pub open spec fn fields(members: Seq<(Seq<char>, JsonValue)>) -> Seq<(Seq<char>, JsonValue)> {
        members.filter(|member: (Seq<char>, JsonValue)| Self::is_field(member))
    }

    /// The history that a JSON value holds: the value must be an object in
    /// which exactly one member bears the name of the field, and the value
    /// of that member must hold preferences. Members of other names are
    /// passed over.
    pub open spec fn of_json(json: JsonValue) -> Option<PreferenceMap> {
        match json {
            JsonValue::Object(members) => if Self::fields(members).len() == 1 {
                EnergyPreferences::of_json(Self::fields(members)[0].1)
            } else {
                None
            },
            _ => None,
        }
    }

    /// Reads the record of a history from a JSON value. Every value that
    /// does not hold a history is refused as `BadJson`: one that is no
    /// object, one without the field or with the field twice, and one whose
    /// field does not hold preferences.
    pub fn from_json(json: &Json) -> (history: Result<EnergyPreferenceHistory, ErrorKind>)
        ensures
            match history {
                Ok(read) => Self::of_json(json@) == Some(read@),
                Err(kind) => kind == ErrorKind::BadJson && Self::of_json(json@) is None,
            },
    {
        match json {
            Json::Object(members) => {
                proof {
                    Json::lemma_object_view(*members);
                }
                let ghost trees = Json::member_trees(members@);
                let mut field: Option<usize> = None;
                let mut i: usize = 0;
                proof {
                    reveal(Seq::filter);
                }
                while i < members.len()
                    invariant
                        i <= members@.len(),
                        json@ == JsonValue::Object(trees),
                        trees == Json::member_trees(members@),
                        match field {
                            Some(at) => at < i && Self::fields(trees.take(i as int)) == seq![
                                trees[at as int],
                            ],
                            None => Self::fields(trees.take(i as int)).len() == 0,
                        },
                    decreases members@.len() - i,
                {
                    let named = same_text(members[i].0.as_str(), "energy-preferences");
                    proof {
                        reveal(Seq::filter);
                        assert(trees.take(i + 1).drop_last() =~= trees.take(i as int));
                    }
                    if named {
                        if field.is_some() {
                            proof {
                                Self::lemma_fields_only_grow(trees, i + 1);
                            }
                            return Err(ErrorKind::BadJson);
                        }
                        field = Some(i);
                    }
                    i += 1;
                }
                assert(trees.take(i as int) =~= trees);
                match field {
                    Some(at) => match EnergyPreferences::from_json(&members[at].1) {
                        Some(energy_preferences) => Ok(
                            EnergyPreferenceHistory { energy_preferences },
                        ),
                        None => Err(ErrorKind::BadJson),
                    },
                    None => Err(ErrorKind::BadJson),
                }
            },
            _ => {
                proof {
                    json.lemma_same_variant();
                }
                Err(ErrorKind::BadJson)
            },
        }
    }

    /// Where exactly one member of an object bears the name of the field,
    /// the object holds what the value of that member holds, whatever the
    /// other members are.
    pub proof fn lemma_one_field_decides(members: Seq<(Seq<char>, JsonValue)>, i: int)
        requires
            0 <= i < members.len(),
            forall|j: int|
                0 <= j < members.len() ==> (Self::is_field(#[trigger] members[j]) <==> j == i),
        ensures
            Self::of_json(JsonValue::Object(members)) == EnergyPreferences::of_json(members[i].1),
    {
        Self::lemma_one_field(members, i);
    }

    /// An object in which no member bears the name of the field holds no
    /// history, and neither does one in which two members bear it.
    pub proof fn lemma_field_needed_once(members: Seq<(Seq<char>, JsonValue)>)
        requires
            (forall|j: int| 0 <= j < members.len() ==> !Self::is_field(#[trigger] members[j])) || (
            exists|i: int, j: int|
                0 <= i < j < members.len() && Self::is_field(#[trigger] members[i])
                    && Self::is_field(#[trigger] members[j])),
        ensures
            Self::of_json(JsonValue::Object(members)) is None,
    {
        if forall|j: int| 0 <= j < members.len() ==> !Self::is_field(#[trigger] members[j]) {
            Self::lemma_no_field(members);
        } else {
            let (i, j) = choose|i: int, j: int|
                0 <= i < j < members.len() && Self::is_field(#[trigger] members[i])
                    && Self::is_field(#[trigger] members[j]);
            reveal(Seq::filter);
            Self::lemma_fields_only_grow(members.take(j), i + 1);
            assert(members.take(j + 1).drop_last() =~= members.take(j));
            Self::lemma_fields_only_grow(members, j + 1);
        }
    }

    /// Members of which none bears the name of the field hold no field.
    proof fn lemma_no_field(members: Seq<(Seq<char>, JsonValue)>)
        requires
            forall|j: int| 0 <= j < members.len() ==> !Self::is_field(#[trigger] members[j]),
        ensures
            Self::fields(members).len() == 0,
        decreases members.len(),
    {
        reveal(Seq::filter);
        if members.len() > 0 {
            Self::lemma_no_field(members.drop_last());
        }
    }

    /// Members of which exactly one bears the name of the field hold that
    /// member as their one field.
    proof fn lemma_one_field(members: Seq<(Seq<char>, JsonValue)>, i: int)
        requires
            0 <= i < members.len(),
            forall|j: int|
                0 <= j < members.len() ==> (Self::is_field(#[trigger] members[j]) <==> j == i),
        ensures
            Self::fields(members) == seq![members[i]],
        decreases members.len(),
    {
        reveal(Seq::filter);
        if i == members.len() - 1 {
            Self::lemma_no_field(members.drop_last());
        } else {
            Self::lemma_one_field(members.drop_last(), i);
        }
    }

    /// The members of an object hold at least as many fields as the first
    /// few of them do.
    proof fn lemma_fields_only_grow(members: Seq<(Seq<char>, JsonValue)>, first: int)
        requires
            0 <= first <= members.len(),
        ensures
            Self::fields(members.take(first)).len() <= Self::fields(members).len(),
        decreases members.len() - first,
    {
        if first == members.len() {
            assert(members.take(first) =~= members);
        } else {
            reveal(Seq::filter);
            assert(members.take(first + 1).drop_last() =~= members.take(first));
            Self::lemma_fields_only_grow(members, first + 1);
        }
    }
}

} // verus!
