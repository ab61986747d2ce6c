//! The centuries that a history speaks of, and their labels.

use vstd::prelude::*;
use crate::text::same_text;

verus! {

/// One of the three eras by which preferences are keyed.
#[derive(Clone, Copy, Debug, PartialEq, Eq, Hash, Structural)]
pub enum Century {
    NineteenthCentury,
    TwentiethCentury,
    TwentyFirstCentury,
}

impl Century {
    /// The label under which a century is written.
    pub open spec fn label_text(self) -> Seq<char> {
        match self {
            Century::NineteenthCentury => "1800s"@,
            Century::TwentiethCentury => "1900s"@,
            Century::TwentyFirstCentury => "2000s"@,
        }
    }

    /// The century that a label stands for, if it is the label of one.
    pub open spec fn labelled(label: Seq<char>) -> Option<Century> {
        if label == "1800s"@ {
            Some(Century::NineteenthCentury)
        } else if label == "1900s"@ {
            Some(Century::TwentiethCentury)
        } else if label == "2000s"@ {
            Some(Century::TwentyFirstCentury)
        } else {
            None
        }
    }

    /// The label under which this century is written.
    pub fn label(self) -> (label: &'static str)
        ensures
            label@ == self.label_text(),
    {
        match self {
            Century::NineteenthCentury => "1800s",
            Century::TwentiethCentury => "1900s",
            Century::TwentyFirstCentury => "2000s",
        }
    }

    /// Reads a label: the century that it stands for, or `None` where it is
    /// the label of no century.
    pub fn from_label(label: &str) -> (century: Option<Century>)
        ensures
            century == Self::labelled(label@),
    {
        if same_text(label, "1800s") {
            Some(Century::NineteenthCentury)
        } else if same_text(label, "1900s") {
            Some(Century::TwentiethCentury)
        } else if same_text(label, "2000s") {
            Some(Century::TwentyFirstCentury)
        } else {
            None
        }
    }

    /// Labels and centuries correspond one to one: reading the label of a
    /// century gives that century back, and a label that reads as a century
    /// is the label of that century.
    pub proof fn lemma_labels_correspond(century: Century, label: Seq<char>)
        ensures
            Self::labelled(century.label_text()) == Some(century),
            Self::labelled(label) == Some(century) <==> label == century.label_text(),
    {
        reveal_strlit("1800s");
        reveal_strlit("1900s");
        reveal_strlit("2000s");
        assert("1800s"@[1] != "1900s"@[1]);
        assert("1800s"@[0] != "2000s"@[0]);
        assert("1900s"@[0] != "2000s"@[0]);
    }
}

} // verus!
