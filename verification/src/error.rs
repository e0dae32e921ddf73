//! The closed set of failures a decode can end in.

use vstd::prelude::*;
use vstd::string::to_string_from_display_ensures;

verus! {

/// Every way a decode can fail. A failure is a returned value; the first one
/// ends the decode.
#[derive(Debug, Clone)]
pub enum ParamsDeserializationError {
    /// The requested shape can never be read from a flat list of pairs.
    UnsupportedType(&'static str),
    /// A failure that the receiving side reports in its own words.
    Custom(String),
    /// The list holds `got` entries where the shape needs exactly `expected`.
    WrongNumberOfParameters { got: usize, expected: usize },
    /// The text `value` is not a value of the type named `expected_type`.
    ParseError { value: String, expected_type: &'static str },
    /// As `ParseError`, for the entry under `key`.
    ParseErrorAtKey { key: String, value: String, expected_type: &'static str },
    /// As `ParseError`, for the entry at position `index`.
    ParseErrorAtIndex { index: usize, value: String, expected_type: &'static str },
}

/// What an error says, with every text taken as a sequence of characters.
pub ghost enum ErrorModel {
    UnsupportedType(Seq<char>),
    Custom(Seq<char>),
    WrongNumberOfParameters { got: nat, expected: nat },
    ParseError { value: Seq<char>, expected_type: Seq<char> },
    ParseErrorAtKey { key: Seq<char>, value: Seq<char>, expected_type: Seq<char> },
    ParseErrorAtIndex { index: nat, value: Seq<char>, expected_type: Seq<char> },
}

impl View for ParamsDeserializationError {
    type V = ErrorModel;

    open spec fn view(&self) -> ErrorModel {
        match *self {
            ParamsDeserializationError::UnsupportedType(name) => ErrorModel::UnsupportedType(name@),
            ParamsDeserializationError::Custom(message) => ErrorModel::Custom(message@),
            ParamsDeserializationError::WrongNumberOfParameters { got, expected } => {
                ErrorModel::WrongNumberOfParameters { got: got as nat, expected: expected as nat }
            },
            ParamsDeserializationError::ParseError { value, expected_type } => {
                ErrorModel::ParseError { value: value@, expected_type: expected_type@ }
            },
            ParamsDeserializationError::ParseErrorAtKey { key, value, expected_type } => {
                ErrorModel::ParseErrorAtKey { key: key@, value: value@, expected_type: expected_type@ }
            },
            ParamsDeserializationError::ParseErrorAtIndex { index, value, expected_type } => {
                ErrorModel::ParseErrorAtIndex {
                    index: index as nat,
                    value: value@,
                    expected_type: expected_type@,
                }
            },
        }
    }
}

/// The arity failure of a shape that needs `expected` entries and finds `got`.
pub open spec fn wrong_number(got: nat, expected: nat) -> ErrorModel {
    ErrorModel::WrongNumberOfParameters { got, expected }
}

/// The failure of reading `value` as the type named `expected_type`.
pub open spec fn parse_failure(value: Seq<char>, expected_type: Seq<char>) -> ErrorModel {
    ErrorModel::ParseError { value, expected_type }
}

impl ParamsDeserializationError {
    /// The rejection of a shape whose target type is called `target`.
    pub fn unsupported_type(target: &'static str) -> (e: Self)
        ensures
            e@ == ErrorModel::UnsupportedType(target@),
    {
        ParamsDeserializationError::UnsupportedType(target)
    }

    /// A failure in the receiving side's own words: the rendering of `msg`.
    pub fn custom<T: core::fmt::Display + ?Sized>(msg: &T) -> (e: Self)
        ensures
            e matches ParamsDeserializationError::Custom(text)
                && to_string_from_display_ensures::<T>(msg, text),
    {
        ParamsDeserializationError::Custom(msg.to_string())
    }

    /// The failure of reading `value` as the type named `expected_type`.
    pub fn parse_error(value: &str, expected_type: &'static str) -> (e: Self)
        ensures
            e@ == parse_failure(value@, expected_type@),
    {
        ParamsDeserializationError::ParseError { value: value.to_owned(), expected_type }
    }

    /// The arity failure of a shape that needs `expected` entries and finds `got`.
    pub fn wrong_number_of_parameters(got: usize, expected: usize) -> (e: Self)
        ensures
            e@ == wrong_number(got as nat, expected as nat),
    {
        ParamsDeserializationError::WrongNumberOfParameters { got, expected }
    }
}

} // verus!
