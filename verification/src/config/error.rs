//! What can go wrong with the configuration, and how it is worded.

use vstd::prelude::*;
use vstd::string::StringExecFns;

use crate::text::{concat, join, joined, texts};

verus! {

/// A failure of a configuration operation.
#[derive(Debug, PartialEq, Eq)]
pub enum ConfigError {
    /// The configuration directory could not be determined.
    ConfigDirNotFound(String),
    /// The configuration file could not be read.
    ReadError(String),
    /// The configuration file or its directory could not be written.
    WriteError(String),
    /// The document could not be parsed or serialised.
    ParseError(String),
    /// A value offered for a field is none of the accepted ones.
    InvalidValue { field: String, input: String, accepted: Vec<String> },
}

pub enum ConfigErrorView {
    ConfigDirNotFound(Seq<char>),
    ReadError(Seq<char>),
    WriteError(Seq<char>),
    ParseError(Seq<char>),
    InvalidValue { field: Seq<char>, input: Seq<char>, accepted: Seq<Seq<char>> },
}

impl View for ConfigError {
    type V = ConfigErrorView;

    open spec fn view(&self) -> ConfigErrorView {
        match self {
            ConfigError::ConfigDirNotFound(cause) => ConfigErrorView::ConfigDirNotFound(cause@),
            ConfigError::ReadError(cause) => ConfigErrorView::ReadError(cause@),
            ConfigError::WriteError(cause) => ConfigErrorView::WriteError(cause@),
            ConfigError::ParseError(cause) => ConfigErrorView::ParseError(cause@),
            ConfigError::InvalidValue { field, input, accepted } => ConfigErrorView::InvalidValue {
                field: field@,
                input: input@,
                accepted: texts(accepted@),
            },
        }
    }
}

/// How a refused value is worded: the field, the value, and the values that
/// would have been accepted.
pub open spec fn refusal(field: Seq<char>, input: Seq<char>, accepted: Seq<Seq<char>>) -> Seq<
    char,
> {
    "Invalid "@ + field + ": "@ + input + ". Must be one of: "@ + joined(accepted, ", "@)
}

impl ConfigErrorView {
    /// The message of the error.
    pub open spec fn message(self) -> Seq<char> {
        match self {
            ConfigErrorView::ConfigDirNotFound(cause) => "Failed to get app config directory: "@
                + cause,
            ConfigErrorView::ReadError(cause) => "Failed to read config file: "@ + cause,
            ConfigErrorView::WriteError(cause) => "Failed to write config file: "@ + cause,
            ConfigErrorView::ParseError(cause) => "Failed to parse config: "@ + cause,
            ConfigErrorView::InvalidValue { field, input, accepted } => "Invalid value: "@
                + refusal(field, input, accepted),
        }
    }
}

/// Words the refusal of a value.
pub fn refusal_text(field: &str, input: &str, accepted: &Vec<String>) -> (text: String)
    ensures
        text@ == refusal(field@, input@, texts(accepted@)),
{
    let mut text = concat("Invalid ", field);
    text.append(": ");
    text.append(input);
    text.append(". Must be one of: ");
    let list = join(accepted, ", ");
    text.append(list.as_str());
    text
}

impl ConfigError {
    /// The message of the error, as it is shown to the user.
    pub fn to_string(&self) -> (message: String)
        ensures
            message@ == self@.message(),
    {
        match self {
            ConfigError::ConfigDirNotFound(cause) => concat(
                "Failed to get app config directory: ",
                cause.as_str(),
            ),
            ConfigError::ReadError(cause) => concat("Failed to read config file: ", cause.as_str()),
            ConfigError::WriteError(cause) => concat(
                "Failed to write config file: ",
                cause.as_str(),
            ),
            ConfigError::ParseError(cause) => concat("Failed to parse config: ", cause.as_str()),
            ConfigError::InvalidValue { field, input, accepted } => {
                let detail = refusal_text(field.as_str(), input.as_str(), accepted);
                concat("Invalid value: ", detail.as_str())
            },
        }
    }
}

impl vstd::std_specs::convert::FromSpecImpl<ConfigError> for String {
    open spec fn obeys_from_spec() -> bool {
        false
    }

    open spec fn from_spec(error: ConfigError) -> String {
        arbitrary()
    }
}

impl From<ConfigError> for String {
    fn from(error: ConfigError) -> (message: String)
        ensures
            message@ == error@.message(),
    {
        error.to_string()
    }
}

} // verus!
