//! What is reported when a daemon's configuration cannot be loaded.
//!
//! Reading the file and turning its text into values is the caller's part;
//! a configuration that is missing or malformed stops the daemon before its
//! loop, with one of the two lines below.

use vstd::prelude::*;
use vstd::string::*;

verus! {

/// Why no configuration was loaded.
#[derive(Clone, Debug, PartialEq, Eq)]
pub enum ConfigError {
    /// The file could not be read, for the reason given.
    Unreadable(String),
    /// The file's text is no configuration, for the reason given.
    Malformed(String),
}

/// A configuration error, with its text as a sequence of characters.
pub enum ConfigErrorView {
    Unreadable(Seq<char>),
    Malformed(Seq<char>),
}

impl View for ConfigError {
    type V = ConfigErrorView;

    open spec fn view(&self) -> ConfigErrorView {
        match self {
            ConfigError::Unreadable(d) => ConfigErrorView::Unreadable(d@),
            ConfigError::Malformed(d) => ConfigErrorView::Malformed(d@),
        }
    }
}

/// What is logged when no configuration was loaded.
pub open spec fn config_message(error: ConfigErrorView) -> Seq<char> {
    match error {
        ConfigErrorView::Unreadable(detail) => "Failed to read TOML file: "@ + detail,
        ConfigErrorView::Malformed(detail) => "Failed to parse TOML file: "@ + detail,
    }
}

impl ConfigError {
    /// The line to log.
    pub fn message(&self) -> (text: String)
        ensures
            text@ == config_message(self@),
    {
        match self {
            ConfigError::Unreadable(detail) => {
                let mut text = String::from_str("Failed to read TOML file: ");
                text.append(detail.as_str());
                text
            },
            ConfigError::Malformed(detail) => {
                let mut text = String::from_str("Failed to parse TOML file: ");
                text.append(detail.as_str());
                text
            },
        }
    }
}

} // verus!
