//! Why a parameter could not be read.

use vstd::prelude::*;
use vstd::string::*;

verus! {

/// The kind of value that a parameter was expected to hold.
#[derive(Clone, Copy, Debug, PartialEq, Eq, Structural)]
pub enum Expected {
    Boolean,
    Integer,
    UnsignedInteger,
}

impl Expected {
    /// How the kind is named in a message.
    pub open spec fn description(self) -> Seq<char> {
        match self {
            Expected::Boolean => "boolean (true, false, 1, or 0)"@,
            Expected::Integer => "integer"@,
            Expected::UnsignedInteger => "unsigned integer"@,
        }
    }

    /// How the kind is named in a message.
    pub fn describe(&self) -> (text: &'static str)
        ensures
            text@ == self.description(),
    {
        match self {
            Expected::Boolean => "boolean (true, false, 1, or 0)",
            Expected::Integer => "integer",
            Expected::UnsignedInteger => "unsigned integer",
        }
    }
}

/// Why a parameter could not be read. Each error names the parameter by the
/// key that the caller asked for.
#[derive(Debug, PartialEq, Eq)]
pub enum ParamError {
    /// A required parameter is not set.
    MissingParameter(String),
    /// The parameter is set, but its value is not of the expected kind.
    InvalidParameter(String, Expected),
}

/// A `ParamError` with its key as a sequence of characters.
pub enum ParamErrorView {
    MissingParameter(Seq<char>),
    InvalidParameter(Seq<char>, Expected),
}

impl ParamErrorView {
    /// What the error says to a reader.
    pub open spec fn message(self) -> Seq<char> {
        match self {
            ParamErrorView::MissingParameter(key) => "build parameter `"@ + key + "` is missing"@,
            ParamErrorView::InvalidParameter(key, expected) => "build parameter `"@ + key
                + "` is invalid: expected "@ + expected.description(),
        }
    }
}

impl View for ParamError {
    type V = ParamErrorView;

    open spec fn view(&self) -> ParamErrorView {
        match self {
            ParamError::MissingParameter(key) => ParamErrorView::MissingParameter(key@),
            ParamError::InvalidParameter(key, expected) => ParamErrorView::InvalidParameter(
                key@,
                *expected,
            ),
        }
    }
}

impl ParamError {
    /// What the error says to a reader.
    pub fn message(&self) -> (text: String)
        ensures
            text@ == self@.message(),
    {
        let mut text = "build parameter `".to_owned();
        match self {
            ParamError::MissingParameter(key) => {
                text.append(key.as_str());
                text.append("` is missing");
            },
            ParamError::InvalidParameter(key, expected) => {
                text.append(key.as_str());
                text.append("` is invalid: expected ");
                text.append(expected.describe());
            },
        }
        text
    }
}

} // verus!
