use vstd::prelude::*;
use vstd::string::*;

verus! {

/// Why a stored record could not be read back.
#[derive(Clone, Copy, Debug, PartialEq, Eq, Structural)]
pub enum DecodeError {
    /// The bytes end before the record does.
    Truncated,
    /// The leading version byte names a layout this library does not know.
    UnsupportedVersion,
    /// A toggle byte is neither 0 nor 1.
    InvalidToggle,
    /// The token bytes are not UTF-8.
    InvalidText,
    /// The token is non-empty and has no separator.
    InvalidToken,
}

/// Why no record could be loaded.
#[derive(Clone, Debug, PartialEq, Eq)]
pub enum LoadError {
    /// The store gave no bytes; the text is the store's own account of it.
    Unreadable(String),
    /// The store gave bytes that are no record.
    Corrupt(DecodeError),
}

/// The failures that end a run.
#[derive(Clone, Debug, PartialEq, Eq)]
pub enum ConfigError {
    /// A token was supplied that has no separator.
    InvalidTokenFormat,
    /// No record could be loaded and no token was supplied to start afresh.
    LoadFailure(LoadError),
}

/// A failed write of the record. It does not end a run.
#[derive(Clone, Debug, PartialEq, Eq)]
pub struct PersistError {
    /// The store's own account of the failure.
    pub cause: String,
}

impl DecodeError {
    /// The error in words.
    pub open spec fn text(self) -> Seq<char> {
        match self {
            DecodeError::Truncated => "stored record ends too early"@,
            DecodeError::UnsupportedVersion => "stored record has an unknown layout version"@,
            DecodeError::InvalidToggle => "stored record holds a toggle that is neither 0 nor 1"@,
            DecodeError::InvalidText => "stored token is not UTF-8"@,
            DecodeError::InvalidToken => "stored token has no separator"@,
        }
    }

    /// The error in words, for the user.
    pub fn message(&self) -> (s: String)
        ensures
            s@ == self.text(),
    {
        match self {
            DecodeError::Truncated => String::from_str("stored record ends too early"),
            DecodeError::UnsupportedVersion => String::from_str(
                "stored record has an unknown layout version",
            ),
            DecodeError::InvalidToggle => String::from_str(
                "stored record holds a toggle that is neither 0 nor 1",
            ),
            DecodeError::InvalidText => String::from_str("stored token is not UTF-8"),
            DecodeError::InvalidToken => String::from_str("stored token has no separator"),
        }
    }
}

impl LoadError {
    /// The error in words: the store's own, or those of the decoding error.
    pub open spec fn text(self) -> Seq<char> {
        match self {
            LoadError::Unreadable(cause) => cause@,
            LoadError::Corrupt(e) => e.text(),
        }
    }

    /// The error in words, for the user.
    pub fn message(&self) -> (s: String)
        ensures
            s@ == self.text(),
    {
        match self {
            LoadError::Unreadable(cause) => cause.clone(),
            LoadError::Corrupt(e) => e.message(),
        }
    }
}

impl ConfigError {
    /// The error in words.
    pub open spec fn text(self) -> Seq<char> {
        match self {
            ConfigError::InvalidTokenFormat => "Invalid Auth Token format!"@,
            ConfigError::LoadFailure(e) => e.text(),
        }
    }

    /// The error in words, for the user.
    pub fn message(&self) -> (s: String)
        ensures
            s@ == self.text(),
    {
        match self {
            ConfigError::InvalidTokenFormat => String::from_str("Invalid Auth Token format!"),
            ConfigError::LoadFailure(e) => e.message(),
        }
    }
}

impl PersistError {
    /// The error in words.
    pub open spec fn text(self) -> Seq<char> {
        "Couldn't save config file: "@ + self.cause@
    }

    /// The error in words, for the log.
    pub fn message(&self) -> (s: String)
        ensures
            s@ == self.text(),
    {
        String::from_str("Couldn't save config file: ").concat(self.cause.as_str())
    }
}

} // verus!
