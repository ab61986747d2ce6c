//! Energy sources: four closed families of named sources, their labels, and
//! the rule by which a JSON value is resolved to a source.

use vstd::prelude::*;
use crate::json::{Json, JsonValue};
use crate::text::same_text;

verus! {

/// Sources that do not run out.
#[derive(Clone, Copy, Debug, PartialEq, Eq, Hash, Structural)]
pub enum Inexhaustible {
    Solar,
    Wind,
}

impl Inexhaustible {
    /// The lower-case label under which a source is written.
    pub open spec fn label_text(self) -> Seq<char> {
        match self {
            Inexhaustible::Solar => "solar"@,
            Inexhaustible::Wind => "wind"@,
        }
    }

    /// The source of this family that a label stands for, if there is one.
    pub open spec fn labelled(label: Seq<char>) -> Option<Inexhaustible> {
        if label == "solar"@ {
            Some(Inexhaustible::Solar)
        } else if label == "wind"@ {
            Some(Inexhaustible::Wind)
        } else {
            None
        }
    }

    /// The source of this family that a JSON value stands for: the value
    /// must give a name, and the name must be a label of this family.
    pub open spec fn of_json(json: JsonValue) -> Option<Inexhaustible> {
        match json.unit_name() {
            Some(label) => Self::labelled(label),
            None => None,
        }
    }

    /// The lower-case label under which this source is written.
    pub fn label(self) -> (label: &'static str)
        ensures
            label@ == self.label_text(),
    {
        match self {
            Inexhaustible::Solar => "solar",
            Inexhaustible::Wind => "wind",
        }
    }

    /// Reads a label: the source of this family that it stands for, or
    /// `None` where it names no source of this family.
    pub fn from_label(label: &str) -> (source: Option<Inexhaustible>)
        ensures
            source == Self::labelled(label@),
    {
        if same_text(label, "solar") {
            Some(Inexhaustible::Solar)
        } else if same_text(label, "wind") {
            Some(Inexhaustible::Wind)
        } else {
            None
        }
    }

    /// Reads a JSON value as a source of this family, or `None` where it
    /// does not stand for one.
    pub fn from_json(json: &Json) -> (source: Option<Inexhaustible>)
        ensures
            source == Self::of_json(json@),
    {
        match json.unit_name() {
            Some(label) => Self::from_label(label),
            None => None,
        }
    }
}

/// Sources rendered from animals.
#[derive(Clone, Copy, Debug, PartialEq, Eq, Hash, Structural)]
pub enum Blubber {
    Seal,
    Whale,
}

impl Blubber {
    /// The lower-case label under which a source is written.
    pub open spec fn label_text(self) -> Seq<char> {
        match self {
            Blubber::Seal => "seal"@,
            Blubber::Whale => "whale"@,
        }
    }

    /// The source of this family that a label stands for, if there is one.
    pub open spec fn labelled(label: Seq<char>) -> Option<Blubber> {
        if label == "seal"@ {
            Some(Blubber::Seal)
        } else if label == "whale"@ {
            Some(Blubber::Whale)
        } else {
            None
        }
    }

    /// The source of this family that a JSON value stands for: the value
    /// must give a name, and the name must be a label of this family.
    pub open spec fn of_json(json: JsonValue) -> Option<Blubber> {
        match json.unit_name() {
            Some(label) => Self::labelled(label),
            None => None,
        }
    }

    /// The lower-case label under which this source is written.
    pub fn label(self) -> (label: &'static str)
        ensures
            label@ == self.label_text(),
    {
        match self {
            Blubber::Seal => "seal",
            Blubber::Whale => "whale",
        }
    }

    /// Reads a label: the source of this family that it stands for, or
    /// `None` where it names no source of this family.
    pub fn from_label(label: &str) -> (source: Option<Blubber>)
        ensures
            source == Self::labelled(label@),
    {
        if same_text(label, "seal") {
            Some(Blubber::Seal)
        } else if same_text(label, "whale") {
            Some(Blubber::Whale)
        } else {
            None
        }
    }

    /// Reads a JSON value as a source of this family, or `None` where it
    /// does not stand for one.
    pub fn from_json(json: &Json) -> (source: Option<Blubber>)
        ensures
            source == Self::of_json(json@),
    {
        match json.unit_name() {
            Some(label) => Self::from_label(label),
            None => None,
        }
    }
}

/// Sources pressed from plants.
#[derive(Clone, Copy, Debug, PartialEq, Eq, Hash, Structural)]
pub enum Crop {
    Peanut,
    Soy,
}

impl Crop {
    /// The lower-case label under which a source is written.
    pub open spec fn label_text(self) -> Seq<char> {
        match self {
            Crop::Peanut => "peanut"@,
            Crop::Soy => "soy"@,
        }
    }

    /// The source of this family that a label stands for, if there is one.
    pub open spec fn labelled(label: Seq<char>) -> Option<Crop> {
        if label == "peanut"@ {
            Some(Crop::Peanut)
        } else if label == "soy"@ {
            Some(Crop::Soy)
        } else {
            None
        }
    }

    /// The source of this family that a JSON value stands for: the value
    /// must give a name, and the name must be a label of this family.
    pub open spec fn of_json(json: JsonValue) -> Option<Crop> {
        match json.unit_name() {
            Some(label) => Self::labelled(label),
            None => None,
        }
    }

    /// The lower-case label under which this source is written.
    pub fn label(self) -> (label: &'static str)
        ensures
            label@ == self.label_text(),
    {
        match self {
            Crop::Peanut => "peanut",
            Crop::Soy => "soy",
        }
    }

    /// Reads a label: the source of this family that it stands for, or
    /// `None` where it names no source of this family.
    pub fn from_label(label: &str) -> (source: Option<Crop>)
        ensures
            source == Self::labelled(label@),
    {
        if same_text(label, "peanut") {
            Some(Crop::Peanut)
        } else if same_text(label, "soy") {
            Some(Crop::Soy)
        } else {
            None
        }
    }

    /// Reads a JSON value as a source of this family, or `None` where it
    /// does not stand for one.
    pub fn from_json(json: &Json) -> (source: Option<Crop>)
        ensures
            source == Self::of_json(json@),
    {
        match json.unit_name() {
            Some(label) => Self::from_label(label),
            None => None,
        }
    }
}

/// Sources drawn from the ground.
#[derive(Clone, Copy, Debug, PartialEq, Eq, Hash, Structural)]
pub enum Fossil {
    Kerosene,
    Petroleum,
}

impl Fossil {
    /// The lower-case label under which a source is written.
    pub open spec fn label_text(self) -> Seq<char> {
        match self {
            Fossil::Kerosene => "kerosene"@,
            Fossil::Petroleum => "petroleum"@,
        }
    }

    /// The source of this family that a label stands for, if there is one.
    pub open spec fn labelled(label: Seq<char>) -> Option<Fossil> {
        if label == "kerosene"@ {
            Some(Fossil::Kerosene)
        } else if label == "petroleum"@ {
            Some(Fossil::Petroleum)
        } else {
            None
        }
    }

    /// The source of this family that a JSON value stands for: the value
    /// must give a name, and the name must be a label of this family.
    pub open spec fn of_json(json: JsonValue) -> Option<Fossil> {
        match json.unit_name() {
            Some(label) => Self::labelled(label),
            None => None,
        }
    }

    /// The lower-case label under which this source is written.
    pub fn label(self) -> (label: &'static str)
        ensures
            label@ == self.label_text(),
    {
        match self {
            Fossil::Kerosene => "kerosene",
            Fossil::Petroleum => "petroleum",
        }
    }

    /// Reads a label: the source of this family that it stands for, or
    /// `None` where it names no source of this family.
    pub fn from_label(label: &str) -> (source: Option<Fossil>)
        ensures
            source == Self::labelled(label@),
    {
        if same_text(label, "kerosene") {
            Some(Fossil::Kerosene)
        } else if same_text(label, "petroleum") {
            Some(Fossil::Petroleum)
        } else {
            None
        }
    }

    /// Reads a JSON value as a source of this family, or `None` where it
    /// does not stand for one.
    pub fn from_json(json: &Json) -> (source: Option<Fossil>)
        ensures
            source == Self::of_json(json@),
    {
        match json.unit_name() {
            Some(label) => Self::from_label(label),
            None => None,
        }
    }
}

/// An energy source: a source of one of the four families. Written down, a
/// source carries no mark of its family; the family is found by trying the
/// four in the order in which they are declared here.
#[derive(Clone, Copy, Debug, PartialEq, Eq, Hash, Structural)]
pub enum EnergySource {
    Sustainable(Inexhaustible),
    Animal(Blubber),
    Vegetable(Crop),
    Mineral(Fossil),
}

impl EnergySource {
    /// The label under which a source is written: that of its family member.
    pub open spec fn label_text(self) -> Seq<char> {
        match self {
            EnergySource::Sustainable(source) => source.label_text(),
            EnergySource::Animal(source) => source.label_text(),
            EnergySource::Vegetable(source) => source.label_text(),
            EnergySource::Mineral(source) => source.label_text(),
        }
    }

    /// The outcome of four attempts, one per family: the first that
    /// succeeded, in the order sustainable, animal, vegetable, mineral.
    pub open spec fn first_of(
        sustainable: Option<Inexhaustible>,
        animal: Option<Blubber>,
        vegetable: Option<Crop>,
        mineral: Option<Fossil>,
    ) -> Option<EnergySource> {
        if let Some(source) = sustainable {
            Some(EnergySource::Sustainable(source))
        } else if let Some(source) = animal {
            Some(EnergySource::Animal(source))
        } else if let Some(source) = vegetable {
            Some(EnergySource::Vegetable(source))
        } else if let Some(source) = mineral {
            Some(EnergySource::Mineral(source))
        } else {
            None
        }
    }

    /// The source that a JSON value stands for: the value is tried as a
    /// member of each family, and the first family that accepts it decides.
    pub open spec fn of_json(json: JsonValue) -> Option<EnergySource> {
        Self::first_of(
            Inexhaustible::of_json(json),
            Blubber::of_json(json),
            Crop::of_json(json),
            Fossil::of_json(json),
        )
    }

    /// The JSON value as which a source is written: its label, as a text.
    pub open spec fn wire(self) -> JsonValue {
        JsonValue::Text(self.label_text())
    }

    /// The lower-case label under which this source is written.
    pub fn label(self) -> (label: &'static str)
        ensures
            label@ == self.label_text(),
    {
        match self {
            EnergySource::Sustainable(source) => source.label(),
            EnergySource::Animal(source) => source.label(),
            EnergySource::Vegetable(source) => source.label(),
            EnergySource::Mineral(source) => source.label(),
        }
    }

    /// Settles four attempts at reading one value, one attempt per family:
    /// the family declared first among those that succeeded wins, whatever
    /// the later ones found. `None` where all four failed.
    pub fn first_match(
        sustainable: Option<Inexhaustible>,
        animal: Option<Blubber>,
        vegetable: Option<Crop>,
        mineral: Option<Fossil>,
    ) -> (source: Option<EnergySource>)
        ensures
            source == Self::first_of(sustainable, animal, vegetable, mineral),
    {
        if let Some(source) = sustainable {
            Some(EnergySource::Sustainable(source))
        } else if let Some(source) = animal {
            Some(EnergySource::Animal(source))
        } else if let Some(source) = vegetable {
            Some(EnergySource::Vegetable(source))
        } else if let Some(source) = mineral {
            Some(EnergySource::Mineral(source))
        } else {
            None
        }
    }

    /// Reads a JSON value as a source, or `None` where no family accepts it.
    pub fn from_json(json: &Json) -> (source: Option<EnergySource>)
        ensures
            source == Self::of_json(json@),
    {
        Self::first_match(
            Inexhaustible::from_json(json),
            Blubber::from_json(json),
            Crop::from_json(json),
            Fossil::from_json(json),
        )
    }

    /// Writes this source as a JSON value.
    pub fn to_json(self) -> (json: Json)
        ensures
            json@ == self.wire(),
    {
        Json::Text(self.label().to_owned())
    }

    /// Among four attempts the family declared first decides: a later
    /// family is heard only where every earlier one failed.
    pub proof fn lemma_declared_order_decides(
        sustainable: Option<Inexhaustible>,
        animal: Option<Blubber>,
        vegetable: Option<Crop>,
        mineral: Option<Fossil>,
    )
        ensures
            ({
                let outcome = Self::first_of(sustainable, animal, vegetable, mineral);
                if sustainable is Some {
                    outcome == Some(EnergySource::Sustainable(sustainable.unwrap()))
                } else if animal is Some {
                    outcome == Some(EnergySource::Animal(animal.unwrap()))
                } else if vegetable is Some {
                    outcome == Some(EnergySource::Vegetable(vegetable.unwrap()))
                } else if mineral is Some {
                    outcome == Some(EnergySource::Mineral(mineral.unwrap()))
                } else {
                    outcome is None
                }
            }),
    {
    }

    /// No two sources share a label, within a family or across families.
    pub proof fn lemma_labels_differ(first: EnergySource, second: EnergySource)
        ensures
            first.label_text() == second.label_text() <==> first == second,
    {
        Self::lemma_label_shapes();
    }

    /// A JSON value stands for a source exactly when it gives the label of
    /// that source as its name.
    pub proof fn lemma_read_by_label(json: JsonValue, source: EnergySource)
        ensures
            Self::of_json(json) == Some(source) <==> json.unit_name() == Some(
                source.label_text(),
            ),
    {
        Self::lemma_label_shapes();
    }

    /// Reading what was written gives the source back.
    pub proof fn lemma_written_then_read(source: EnergySource)
        ensures
            Self::of_json(source.wire()) == Some(source),
    {
        Self::lemma_read_by_label(source.wire(), source);
    }

    /// The length and the first character of each of the eight labels,
    /// which together tell every label from every other.
    proof fn lemma_label_shapes()
        ensures
            "solar"@.len() == 5 && "solar"@[0] == 's',
            "wind"@.len() == 4 && "wind"@[0] == 'w',
            "seal"@.len() == 4 && "seal"@[0] == 's',
            "whale"@.len() == 5 && "whale"@[0] == 'w',
            "peanut"@.len() == 6,
            "soy"@.len() == 3,
            "kerosene"@.len() == 8,
            "petroleum"@.len() == 9,
    {
        reveal_strlit("solar");
        reveal_strlit("wind");
        reveal_strlit("seal");
        reveal_strlit("whale");
        reveal_strlit("peanut");
        reveal_strlit("soy");
        reveal_strlit("kerosene");
        reveal_strlit("petroleum");
    }
}

} // verus!
