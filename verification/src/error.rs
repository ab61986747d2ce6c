//! The four ways in which loading an energy preference history can fail, and
//! how lower-level failures are sorted into them.

use vstd::prelude::*;
use vstd::std_specs::convert::FromSpecImpl;

verus! {

/// Why a load failed.
#[derive(Clone, Copy, Debug, PartialEq, Eq, Structural)]
pub enum ErrorKind {
    /// The text is not the JSON of an energy preference history: it is not
    /// JSON at all, it ends too early, or its shape does not fit the model.
    BadJson,
    /// The JSON layer failed to read its input.
    NoJson,
    /// There is no file at the given path.
    NoFilePath,
    /// Reading the file failed for any other reason.
    Unknown,
}

/// The four categories into which the JSON layer sorts its own failures.
#[derive(Clone, Copy, Debug, PartialEq, Eq, Structural)]
pub enum Category {
    /// Bytes could not be read or written.
    Io,
    /// The input is not syntactically valid JSON.
    Syntax,
    /// The input is valid JSON of the wrong shape.
    Data,
    /// The input ended before the value was complete.
    Eof,
}

/// `serde_json::Error`, the error of the JSON layer. Nothing of its inside
/// is known here but the category that it reports.
#[verifier::external_type_specification]
#[verifier::external_body]
pub struct ExJsonError(serde_json::Error);

/// The category that `serde_json::Error::classify` reports for an error.
pub uninterp spec fn error_category(err: serde_json::Error) -> Category;

/// Calls `serde_json::Error::classify`. Trusted: the result is the category
/// of the error, each of the four `serde_json::error::Category` variants
/// carried over to the variant of the same name.
#[verifier::external_body]
fn classify(err: &serde_json::Error) -> (category: Category)
    ensures
        category == error_category(*err),
{
    match err.classify() {
        serde_json::error::Category::Io => Category::Io,
        serde_json::error::Category::Syntax => Category::Syntax,
        serde_json::error::Category::Data => Category::Data,
        serde_json::error::Category::Eof => Category::Eof,
    }
}

/// `std::io::Error`, the error of a failed read. Nothing of its inside is
/// known here but whether it reports that nothing was found.
#[verifier::external_type_specification]
#[verifier::external_body]
pub struct ExIoError(std::io::Error);

/// Whether `std::io::Error::kind` reports `NotFound` for an error.
pub uninterp spec fn reports_not_found(err: std::io::Error) -> bool;

/// Calls `std::io::Error::kind`. Trusted: the result says whether the kind
/// that was reported is `std::io::ErrorKind::NotFound`.
#[verifier::external_body]
fn not_found(err: &std::io::Error) -> (missing: bool)
    ensures
        missing == reports_not_found(*err),
{
    matches!(err.kind(), std::io::ErrorKind::NotFound)
}

impl ErrorKind {
    /// The kind of failure that a category of JSON failure stands for.
    pub open spec fn category_kind(category: Category) -> ErrorKind {
        match category {
            Category::Io => ErrorKind::NoJson,
            Category::Syntax | Category::Data | Category::Eof => ErrorKind::BadJson,
        }
    }

    /// Sorts a category of JSON failure into a kind: a failure to read is
    /// `NoJson`, every failure of the text itself is `BadJson`.
    pub fn of_category(category: Category) -> (kind: ErrorKind)
        ensures
            kind == Self::category_kind(category),
    {
        match category {
            Category::Io => ErrorKind::NoJson,
            Category::Syntax | Category::Data | Category::Eof => ErrorKind::BadJson,
        }
    }

    /// The kind of failure that a failed read of the file stands for.
    pub open spec fn read_failure_kind(not_found: bool) -> ErrorKind {
        if not_found {
            ErrorKind::NoFilePath
        } else {
            ErrorKind::Unknown
        }
    }

    /// Sorts a failed read of the file into a kind: `NoFilePath` where the
    /// file was not found, `Unknown` for every other failure.
    pub fn of_read_failure(not_found: bool) -> (kind: ErrorKind)
        ensures
            kind == Self::read_failure_kind(not_found),
    {
        if not_found {
            ErrorKind::NoFilePath
        } else {
            ErrorKind::Unknown
        }
    }
}

impl From<serde_json::Error> for ErrorKind {
    /// Sorts an error of the JSON layer into a kind, by its category.
    fn from(err: serde_json::Error) -> (kind: ErrorKind) {
        ErrorKind::of_category(classify(&err))
    }
}

impl FromSpecImpl<serde_json::Error> for ErrorKind {
    open spec fn obeys_from_spec() -> bool {
        true
    }

    open spec fn from_spec(err: serde_json::Error) -> ErrorKind {
        ErrorKind::category_kind(error_category(err))
    }
}

impl From<std::io::Error> for ErrorKind {
    /// Sorts the error of a failed read into a kind, by whether it reports
    /// that nothing was found.
    fn from(err: std::io::Error) -> (kind: ErrorKind) {
        ErrorKind::of_read_failure(not_found(&err))
    }
}

impl FromSpecImpl<std::io::Error> for ErrorKind {
    open spec fn obeys_from_spec() -> bool {
        true
    }

    open spec fn from_spec(err: std::io::Error) -> ErrorKind {
        ErrorKind::read_failure_kind(reports_not_found(err))
    }
}

} // verus!
