//! Energy preference histories: a typed model of which energy sources were
//! preferred in which century, read from a JSON document.
//!
//! A document is a record of one field, `energy-preferences`, which holds an
//! object keyed by century (`1800s`, `1900s`, `2000s`); each century lists
//! its sources in order of preference. A source is written as its lower-case
//! label and carries no mark of its family: the family is found by trying
//! the four families in their declared order.
//!
//! `loader` loads a history from a text, `document` reads it from a JSON
//! tree, `wire` writes it as one, and `error` sorts every failure into one
//! of four kinds.

pub mod century;
pub mod document;
pub mod error;
pub mod json;
pub mod loader;
pub mod preferences;
pub mod source;
pub mod text;
pub mod wire;
