//! Loading a history: from what reading a file gave, and from the text of a
//! document.

use vstd::prelude::*;
use crate::error::{reports_not_found, Category, ErrorKind};
use crate::json::{parse_outcome, Json, JsonValue};
use crate::preferences::{EnergyPreferenceHistory, PreferenceMap};

verus! {

/// What a load comes to, given what the JSON layer made of the text. A tree
/// that holds a history yields that history, whole; any other tree is
/// `BadJson`; a failure of the JSON layer is sorted by its category.
pub open spec fn load_outcome(outcome: Result<JsonValue, Category>) -> Result<
    PreferenceMap,
    ErrorKind,
> {
    match outcome {
        Ok(json) => match EnergyPreferenceHistory::of_json(json) {
            Some(history) => Ok(history),
            None => Err(ErrorKind::BadJson),
        },
        Err(category) => Err(ErrorKind::category_kind(category)),
    }
}

/// A load as a contract speaks of it: the history by what it holds.
pub open spec fn loaded_view(loaded: Result<EnergyPreferenceHistory, ErrorKind>) -> Result<
    PreferenceMap,
    ErrorKind,
> {
    match loaded {
        Ok(history) => Ok(history@),
        Err(kind) => Err(kind),
    }
}

/// Loads a history from the text of a JSON document. The text is handed to
/// the JSON layer, and the history is read from the tree that comes back.
/// Either the whole history is returned or an error: never a part of one.
pub fn load_text(text: &str) -> (loaded: Result<EnergyPreferenceHistory, ErrorKind>)
    ensures
        loaded_view(loaded) == load_outcome(parse_outcome(text@)),
{
    match Json::from_text(text) {
        Ok(json) => EnergyPreferenceHistory::from_json(&json),
        Err(kind) => Err(kind),
    }
}

/// Loads a history from what reading its file gave: the text of the file,
/// or the error with which the read failed. A failed read is `NoFilePath`
/// where the file was not found and `Unknown` otherwise; a text is loaded
/// as `load_text` loads it.
pub fn load(contents: Result<String, std::io::Error>) -> (loaded: Result<
    EnergyPreferenceHistory,
    ErrorKind,
>)
    ensures
        match contents {
            Ok(text) => loaded_view(loaded) == load_outcome(parse_outcome(text@)),
            Err(err) => loaded == Err::<EnergyPreferenceHistory, ErrorKind>(
                ErrorKind::read_failure_kind(reports_not_found(err)),
            ),
        },
{
    match contents {
        Ok(text) => load_text(text.as_str()),
        Err(err) => Err(ErrorKind::from(err)),
    }
}

/// A history that was written loads as itself, once the JSON layer hands
/// back the tree that was written.
pub proof fn lemma_written_history_loads(history: PreferenceMap)
    ensures
        load_outcome(Ok(EnergyPreferenceHistory::wire(history))) == Ok::<PreferenceMap, ErrorKind>(
            history,
        ),
{
    EnergyPreferenceHistory::lemma_written_then_read(history);
}

/// A text fails to load in one of two ways: as `NoJson` exactly where the
/// JSON layer failed to read, and as `BadJson` wherever it failed otherwise
/// or handed back a tree that holds no history. `NoFilePath` and `Unknown`
/// are failures of reading the file, never of a text.
pub proof fn lemma_text_failures(outcome: Result<JsonValue, Category>)
    ensures
        load_outcome(outcome) == Err::<PreferenceMap, ErrorKind>(ErrorKind::NoJson) <==> outcome
            == Err::<JsonValue, Category>(Category::Io),
        load_outcome(outcome) == Err::<PreferenceMap, ErrorKind>(ErrorKind::BadJson) <==> (outcome
            is Err && outcome != Err::<JsonValue, Category>(Category::Io)) || (outcome is Ok
            && EnergyPreferenceHistory::of_json(outcome->Ok_0) is None),
        load_outcome(outcome) != Err::<PreferenceMap, ErrorKind>(ErrorKind::NoFilePath),
        load_outcome(outcome) != Err::<PreferenceMap, ErrorKind>(ErrorKind::Unknown),
{
}

} // verus!
