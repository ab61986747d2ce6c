//! Writing a history as a JSON value, and the proof that reading what was
//! written gives the history back.

use vstd::prelude::*;
use crate::century::Century;
use crate::document::sources_of;
use crate::json::{Json, JsonValue};
use crate::preferences::{EnergyPreferenceHistory, EnergyPreferences, PreferenceMap};
use crate::source::EnergySource;

verus! {

/// The JSON array as which a list of sources is written: the sources in
/// their order, each as its label.
pub open spec fn sources_wire(sources: Seq<EnergySource>) -> JsonValue {
    JsonValue::Array(Seq::new(sources.len(), |i: int| sources[i].wire()))
}

/// Writes a list of sources as a JSON array.
pub fn write_sources(sources: &Vec<EnergySource>) -> (json: Json)
    ensures
        json@ == sources_wire(sources@),
{
    let mut items: Vec<Json> = Vec::new();
    let mut i: usize = 0;
    while i < sources.len()
        invariant
            i <= sources@.len(),
            items@.len() == i,
            forall|k: int| 0 <= k < i ==> (#[trigger] items@[k])@ == sources@[k].wire(),
        decreases sources@.len() - i,
    {
        items.push(sources[i].to_json());
        i += 1;
    }
    proof {
        Json::lemma_array_view(items);
        assert(Json::item_trees(items@) =~= Seq::new(
            sources@.len(),
            |k: int| sources@[k].wire(),
        ));
    }
    Json::Array(items)
}

/// Reading a list of sources that was written gives the list back.
pub proof fn lemma_sources_written_then_read(sources: Seq<EnergySource>)
    ensures
        sources_of(sources_wire(sources)) == Some(sources),
{
    let items = sources_wire(sources)->Array_0;
    assert forall|i: int| 0 <= i < items.len() implies (#[trigger] EnergySource::of_json(
        items[i],
    )) == Some(sources[i]) by {
        EnergySource::lemma_written_then_read(sources[i]);
    }
}

impl EnergyPreferences {
    /// The members of an object, followed by the member of a century where
    /// the preferences speak of that century: its label, and its sources as
    /// an array.
    pub open spec fn with_member(
        members: Seq<(Seq<char>, JsonValue)>,
        preferences: PreferenceMap,
        century: Century,
    ) -> Seq<(Seq<char>, JsonValue)> {
        if preferences.contains_key(century) {
            members.push((century.label_text(), sources_wire(preferences[century])))
        } else {
            members
        }
    }

    /// The JSON object as which preferences are written: one member for
    /// each century that they speak of, the centuries in their order.
    pub open spec fn wire(preferences: PreferenceMap) -> JsonValue {
        JsonValue::Object(
            Self::with_member(
                Self::with_member(
                    Self::with_member(Seq::empty(), preferences, Century::NineteenthCentury),
                    preferences,
                    Century::TwentiethCentury,
                ),
                preferences,
                Century::TwentyFirstCentury,
            ),
        )
    }

    /// Adds the member of a century to the members of an object that is
    /// being written, where the preferences speak of that century.
    fn write_member(&self, members: &mut Vec<(String, Json)>, century: Century)
        ensures
            Json::member_trees(final(members)@) == Self::with_member(
                Json::member_trees(old(members)@),
                self@,
                century,
            ),
    {
        match self.get(century) {
            Some(sources) => {
                let member = (century.label().to_owned(), write_sources(sources));
                members.push(member);
            },
            None => {},
        }
    }

    /// Writes these preferences as a JSON object.
    pub fn to_json(&self) -> (json: Json)
        ensures
            json@ == Self::wire(self@),
    {
        let mut members: Vec<(String, Json)> = Vec::new();
        assert(Json::member_trees(members@) =~= Seq::empty());
        self.write_member(&mut members, Century::NineteenthCentury);
        self.write_member(&mut members, Century::TwentiethCentury);
        self.write_member(&mut members, Century::TwentyFirstCentury);
        proof {
            Json::lemma_object_view(members);
        }
        Json::Object(members)
    }

    /// Entering one more member enters it on top of what the members before
    /// it came to.
    proof fn lemma_entered_push(
        members: Seq<(Seq<char>, JsonValue)>,
        member: (Seq<char>, JsonValue),
    )
        ensures
            Self::entered(members.push(member)) == Self::entered(members).insert(
                Century::labelled(member.0).unwrap(),
                sources_of(member.1).unwrap(),
            ),
    {
        assert(members.push(member).drop_last() =~= members);
    }

    /// Reading preferences that were written gives the preferences back.
    pub proof fn lemma_written_then_read(preferences: PreferenceMap)
        ensures
            Self::of_json(Self::wire(preferences)) == Some(preferences),
    {
        let none = Seq::<(Seq<char>, JsonValue)>::empty();
        let one = Self::with_member(none, preferences, Century::NineteenthCentury);
        let two = Self::with_member(one, preferences, Century::TwentiethCentury);
        let all = Self::with_member(two, preferences, Century::TwentyFirstCentury);
        assert forall|century: Century| preferences.contains_key(century) implies Century::labelled(
            #[trigger] century.label_text(),
        ) == Some(century) && sources_of(sources_wire(preferences[century])) == Some(
            preferences[century],
        ) by {
            Century::lemma_labels_correspond(century, century.label_text());
            lemma_sources_written_then_read(preferences[century]);
        }
        if preferences.contains_key(Century::NineteenthCentury) {
            Self::lemma_entered_push(none, one.last());
        }
        if preferences.contains_key(Century::TwentiethCentury) {
            Self::lemma_entered_push(one, two.last());
        }
        if preferences.contains_key(Century::TwentyFirstCentury) {
            Self::lemma_entered_push(two, all.last());
        }
    }
}

impl EnergyPreferenceHistory {
    /// The JSON object as which a history is written: a record of one
    /// field, which holds the preferences.
    pub open spec fn wire(history: PreferenceMap) -> JsonValue {
        JsonValue::Object(seq![("energy-preferences"@, EnergyPreferences::wire(history))])
    }

    /// Writes this history as a JSON object.
    pub fn to_json(&self) -> (json: Json)
        ensures
            json@ == Self::wire(self@),
    {
        let mut members: Vec<(String, Json)> = Vec::new();
        members.push(("energy-preferences".to_owned(), self.energy_preferences.to_json()));
        proof {
            Json::lemma_object_view(members);
            assert(Json::member_trees(members@) =~= seq![
                ("energy-preferences"@, EnergyPreferences::wire(self@)),
            ]);
        }
        Json::Object(members)
    }

    /// Reading a history that was written gives the history back: every
    /// century that it speaks of, and for each the same sources in the same
    /// order.
    pub proof fn lemma_written_then_read(history: PreferenceMap)
        ensures
            Self::of_json(Self::wire(history)) == Some(history),
    {
        reveal_with_fuel(Seq::filter, 2);
        EnergyPreferences::lemma_written_then_read(history);
    }
}

} // verus!
