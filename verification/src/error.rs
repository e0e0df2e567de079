//! The ways in which reading a document fails.

use vstd::prelude::*;
use vstd::string::StringExecFns;
use crate::json::{JsonKind, JsonModel, kind_of};

verus! {

/// Why a document could not be read.
#[derive(Debug)]
pub enum ParseError {
    /// The document is not a JSON object.
    NotAnObject,
    /// The value of a field is of none of the kinds that the field takes.
    ShapeMismatch { field_path: String, expected_kinds: Vec<JsonKind>, actual_kind: JsonKind },
    /// The text is not JSON; the error is the one that the JSON reader gave.
    MalformedJson(serde_json::Error),
}

/// The mathematical model of a `ParseError`.
pub enum ParseErrorModel {
    NotAnObject,
    ShapeMismatch { field_path: Seq<char>, expected_kinds: Seq<JsonKind>, actual_kind: JsonKind },
    MalformedJson,
}

impl DeepView for ParseError {
    type V = ParseErrorModel;

    open spec fn deep_view(&self) -> ParseErrorModel {
        match self {
            ParseError::NotAnObject => ParseErrorModel::NotAnObject,
            ParseError::ShapeMismatch { field_path, expected_kinds, actual_kind } => (
            ParseErrorModel::ShapeMismatch {
                field_path: field_path@,
                expected_kinds: expected_kinds@,
                actual_kind: *actual_kind,
            }),
            ParseError::MalformedJson(_) => ParseErrorModel::MalformedJson,
        }
    }
}

impl View for ParseError {
    type V = ParseErrorModel;

    open spec fn view(&self) -> ParseErrorModel {
        self.deep_view()
    }
}

/// The result of a read, as the model of what was read or of the error.
pub open spec fn outcome<T: DeepView>(r: Result<T, ParseError>) -> Result<T::V, ParseErrorModel> {
    match r {
        Ok(x) => Ok(x.deep_view()),
        Err(e) => Err(e.deep_view()),
    }
}

/// The path of the member `key` of the value at `prefix`; the document
/// itself has the empty path.
pub open spec fn path_of(prefix: Seq<char>, key: Seq<char>) -> Seq<char> {
    if prefix.len() == 0 {
        key
    } else {
        prefix + "."@ + key
    }
}

/// The path that stands for every item of the list at `path`.
pub open spec fn item_path(path: Seq<char>) -> Seq<char> {
    path + "[]"@
}

/// The error for a value at `path` that is of none of the kinds `expected`.
pub open spec fn mismatch(
    path: Seq<char>,
    expected: Seq<JsonKind>,
    actual: JsonModel,
) -> ParseErrorModel {
    ParseErrorModel::ShapeMismatch {
        field_path: path,
        expected_kinds: expected,
        actual_kind: kind_of(actual),
    }
}

pub(crate) fn join_path(prefix: &str, key: &str) -> (r: String)
    ensures
        r@ == path_of(prefix@, key@),
{
    if prefix.is_empty() {
        key.to_owned()
    } else {
        prefix.to_owned().concat(".").concat(key)
    }
}

pub(crate) fn list_item_path(path: &str) -> (r: String)
    ensures
        r@ == item_path(path@),
{
    path.to_owned().concat("[]")
}

} // verus!
