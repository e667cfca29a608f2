//! Error taxonomy for manifest parsing and resolution.

use vstd::prelude::*;

verus! {

/// Spec-level description of a [`ManifestError`]: the same variants, with
/// each payload string abstracted to its character sequence.
pub enum ErrorKind {
    Io(Seq<char>),
    TomlParse(Seq<char>),
    InvalidFormat(Seq<char>),
    MissingField(Seq<char>),
    InvalidVersion(Seq<char>),
    CircularDependency(Seq<char>),
}

impl ErrorKind {
    /// The message that [`ManifestError::message`] renders for this error.
    pub open spec fn spec_message(self) -> Seq<char> {
        match self {
            ErrorKind::Io(s) => "IO error: "@ + s,
            ErrorKind::TomlParse(s) => "TOML parse error: "@ + s,
            ErrorKind::InvalidFormat(s) => "Invalid manifest format: "@ + s,
            ErrorKind::MissingField(s) => "Missing required field: "@ + s,
            ErrorKind::InvalidVersion(s) => "Invalid version: "@ + s,
            ErrorKind::CircularDependency(s) => "Circular dependency detected: "@ + s,
        }
    }
}

/// Errors that can occur when parsing or resolving manifests.
#[derive(Debug)]
pub enum ManifestError {
    /// Underlying storage failure, carried as the I/O error's message.
    Io(String),
    /// The text is not well-formed TOML, or a field holds the wrong value type.
    TomlParse(String),
    /// Structurally parseable but semantically wrong input.
    InvalidFormat(String),
    /// A mandatory field is absent; the payload is its dotted path.
    MissingField(String),
    /// Reserved for stricter semantic-version validation.
    InvalidVersion(String),
    /// The dependency relation has a cycle, detected at the named plugin id.
    CircularDependency(String),
}

impl View for ManifestError {
    type V = ErrorKind;

    open spec fn view(&self) -> ErrorKind {
        match self {
            ManifestError::Io(s) => ErrorKind::Io(s@),
            ManifestError::TomlParse(s) => ErrorKind::TomlParse(s@),
            ManifestError::InvalidFormat(s) => ErrorKind::InvalidFormat(s@),
            ManifestError::MissingField(s) => ErrorKind::MissingField(s@),
            ManifestError::InvalidVersion(s) => ErrorKind::InvalidVersion(s@),
            ManifestError::CircularDependency(s) => ErrorKind::CircularDependency(s@),
        }
    }
}

impl ManifestError {
    /// A human-readable description of the error.
    pub fn message(&self) -> (r: String)
        ensures
            r@ == self@.spec_message(),
    {
        match self {
            ManifestError::Io(s) => "IO error: ".to_owned().concat(s.as_str()),
            ManifestError::TomlParse(s) => "TOML parse error: ".to_owned().concat(s.as_str()),
            ManifestError::InvalidFormat(s) => {
                "Invalid manifest format: ".to_owned().concat(s.as_str())
            },
            ManifestError::MissingField(s) => {
                "Missing required field: ".to_owned().concat(s.as_str())
            },
            ManifestError::InvalidVersion(s) => "Invalid version: ".to_owned().concat(s.as_str()),
            ManifestError::CircularDependency(s) => {
                "Circular dependency detected: ".to_owned().concat(s.as_str())
            },
        }
    }

    /// The error raised when a field holds a value of an unexpected type;
    /// the payload names the field's dotted path.
    pub fn wrong_type(path: &str) -> (r: ManifestError)
        ensures
            r@ == ErrorKind::TomlParse(spec_wrong_type(path@)),
    {
        ManifestError::TomlParse(path.to_owned().concat(": unexpected value type"))
    }

    /// The error raised when a mandatory field is absent; the payload is the
    /// field's dotted path.
    pub fn missing(path: &str) -> (r: ManifestError)
        ensures
            r@ == ErrorKind::MissingField(path@),
    {
        ManifestError::MissingField(path.to_owned())
    }
}

/// The message carried by the wrong-value-type error for a field path.
pub open spec fn spec_wrong_type(path: Seq<char>) -> Seq<char> {
    path + ": unexpected value type"@
}

} // verus!
