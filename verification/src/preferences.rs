//! Energy preferences: which sources were preferred in which century.

use vstd::prelude::*;
use crate::century::Century;
use crate::source::EnergySource;

verus! {

/// What preferences hold, mathematically: for each century that they speak
/// of, the sources preferred in it, in order of preference.
pub type PreferenceMap = Map<Century, Seq<EnergySource>>;

/// A mapping from centuries to the sources preferred in them, in order of
/// preference. A century occurs at most once: there is one place for each.
#[derive(Debug, PartialEq, Eq)]
pub struct EnergyPreferences {
    nineteenth: Option<Vec<EnergySource>>,
    twentieth: Option<Vec<EnergySource>>,
    twenty_first: Option<Vec<EnergySource>>,
}

impl View for EnergyPreferences {
    type V = PreferenceMap;

    closed spec fn view(&self) -> PreferenceMap {
        Map::new(
            |century: Century| self.place(century) is Some,
            |century: Century| self.place(century).unwrap()@,
        )
    }
}

impl EnergyPreferences {
    /// What is held in the place of a century.
    spec fn place(self, century: Century) -> Option<Vec<EnergySource>> {
        match century {
            Century::NineteenthCentury => self.nineteenth,
            Century::TwentiethCentury => self.twentieth,
            Century::TwentyFirstCentury => self.twenty_first,
        }
    }

    /// Preferences that speak of no century.
    pub fn new() -> (preferences: EnergyPreferences)
        ensures
            preferences@ == PreferenceMap::empty(),
    {
        EnergyPreferences { nineteenth: None, twentieth: None, twenty_first: None }
    }

    /// Enters the sources of a century. What was entered for that century
    /// before is replaced; the other centuries are untouched.
    pub fn insert(&mut self, century: Century, sources: Vec<EnergySource>)
        ensures
            final(self)@ == old(self)@.insert(century, sources@),
    {
        match century {
            Century::NineteenthCentury => {
                self.nineteenth = Some(sources);
            },
            Century::TwentiethCentury => {
                self.twentieth = Some(sources);
            },
            Century::TwentyFirstCentury => {
                self.twenty_first = Some(sources);
            },
        }
    }

    /// The sources entered for a century, or `None` where nothing was.
    pub fn get(&self, century: Century) -> (sources: Option<&Vec<EnergySource>>)
        ensures
            match sources {
                Some(found) => self@.contains_key(century) && self@[century] == found@,
                None => !self@.contains_key(century),
            },
    {
        match century {
            Century::NineteenthCentury => self.nineteenth.as_ref(),
            Century::TwentiethCentury => self.twentieth.as_ref(),
            Century::TwentyFirstCentury => self.twenty_first.as_ref(),
        }
    }
}

/// A history of energy preferences: the record that a document holds.
#[derive(Debug, PartialEq, Eq)]
pub struct EnergyPreferenceHistory {
    pub energy_preferences: EnergyPreferences,
}

impl View for EnergyPreferenceHistory {
    type V = PreferenceMap;

    open spec fn view(&self) -> PreferenceMap {
        self.energy_preferences@
    }
}

} // verus!
