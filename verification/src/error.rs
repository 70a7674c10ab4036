use vstd::prelude::*;
use vstd::std_specs::convert::FromSpecImpl;

verus! {

/// The error that `str::parse` gives for an integer.
#[verifier::external_type_specification]
#[verifier::external_body]
pub struct ExParseIntError(std::num::ParseIntError);

/// The error that `str::parse` gives for a number with a fraction.
#[verifier::external_type_specification]
#[verifier::external_body]
pub struct ExParseFloatError(std::num::ParseFloatError);

/// The error that `str::parse` gives for a boolean.
#[verifier::external_type_specification]
#[verifier::external_body]
pub struct ExParseBoolError(std::str::ParseBoolError);

/// The error that `str::parse` gives for a character.
#[verifier::external_type_specification]
#[verifier::external_body]
pub struct ExParseCharError(std::char::ParseCharError);

/// Errors of the conversions between a structure, its names and its data.
#[derive(Debug, PartialEq)]
pub enum StrunemixFromError {
    /// The data do not come in the order of declaration.
    WrongOrder,
    /// Some data are missing while others are present more than once.
    AppearedMoreThanOnce,
    /// The string, first, names no variant of the enumeration, second.
    NotAnEnumName(String, String),
}

/// Errors of parsing a field's value from a string.
#[derive(Debug)]
pub enum StrunemixParseError {
    /// A failure of the caller's own, in words.
    Other(String),
    /// The string is no integer.
    ParseIntError(std::num::ParseIntError),
    /// The string is no number with a fraction.
    ParseFloatError(std::num::ParseFloatError),
    /// The string is no boolean.
    ParseBoolError(std::str::ParseBoolError),
    /// The string is no single character.
    ParseCharError(std::char::ParseCharError),
    /// The error of parsing a string into a string, which never happens.
    ParseError(std::string::ParseError),
}

/// Any error of this library.
#[derive(Debug)]
pub enum StrunemixError {
    /// A field's value could not be read from a string.
    ParseError(StrunemixParseError),
    /// A field of the form has no data.
    IncompleteForm,
    /// A conversion between a structure, its names and its data failed.
    ConversionError(StrunemixFromError),
}

impl From<StrunemixParseError> for StrunemixError {
    fn from(e: StrunemixParseError) -> (r: Self) {
        StrunemixError::ParseError(e)
    }
}

impl FromSpecImpl<StrunemixParseError> for StrunemixError {
    open spec fn obeys_from_spec() -> bool {
        true
    }

    open spec fn from_spec(e: StrunemixParseError) -> Self {
        StrunemixError::ParseError(e)
    }
}

impl From<StrunemixFromError> for StrunemixError {
    fn from(e: StrunemixFromError) -> (r: Self) {
        StrunemixError::ConversionError(e)
    }
}

impl FromSpecImpl<StrunemixFromError> for StrunemixError {
    open spec fn obeys_from_spec() -> bool {
        true
    }

    open spec fn from_spec(e: StrunemixFromError) -> Self {
        StrunemixError::ConversionError(e)
    }
}

impl From<std::num::ParseIntError> for StrunemixParseError {
    fn from(e: std::num::ParseIntError) -> (r: Self) {
        StrunemixParseError::ParseIntError(e)
    }
}

impl FromSpecImpl<std::num::ParseIntError> for StrunemixParseError {
    open spec fn obeys_from_spec() -> bool {
        true
    }

    open spec fn from_spec(e: std::num::ParseIntError) -> Self {
        StrunemixParseError::ParseIntError(e)
    }
}

impl From<std::num::ParseFloatError> for StrunemixParseError {
    fn from(e: std::num::ParseFloatError) -> (r: Self) {
        StrunemixParseError::ParseFloatError(e)
    }
}

impl FromSpecImpl<std::num::ParseFloatError> for StrunemixParseError {
    open spec fn obeys_from_spec() -> bool {
        true
    }

    open spec fn from_spec(e: std::num::ParseFloatError) -> Self {
        StrunemixParseError::ParseFloatError(e)
    }
}

impl From<std::str::ParseBoolError> for StrunemixParseError {
    fn from(e: std::str::ParseBoolError) -> (r: Self) {
        StrunemixParseError::ParseBoolError(e)
    }
}

impl FromSpecImpl<std::str::ParseBoolError> for StrunemixParseError {
    open spec fn obeys_from_spec() -> bool {
        true
    }

    open spec fn from_spec(e: std::str::ParseBoolError) -> Self {
        StrunemixParseError::ParseBoolError(e)
    }
}

impl From<std::char::ParseCharError> for StrunemixParseError {
    fn from(e: std::char::ParseCharError) -> (r: Self) {
        StrunemixParseError::ParseCharError(e)
    }
}

impl FromSpecImpl<std::char::ParseCharError> for StrunemixParseError {
    open spec fn obeys_from_spec() -> bool {
        true
    }

    open spec fn from_spec(e: std::char::ParseCharError) -> Self {
        StrunemixParseError::ParseCharError(e)
    }
}

impl From<std::string::ParseError> for StrunemixParseError {
    fn from(e: std::string::ParseError) -> (r: Self) {
        StrunemixParseError::ParseError(e)
    }
}

impl FromSpecImpl<std::string::ParseError> for StrunemixParseError {
    open spec fn obeys_from_spec() -> bool {
        true
    }

    open spec fn from_spec(e: std::string::ParseError) -> Self {
        StrunemixParseError::ParseError(e)
    }
}

} // verus!
