//! The error taxonomy of the library and its rendering as text.
use vstd::prelude::*;

verus! {

/// `std::io::Error`, carried through the library as an opaque value.
#[verifier::external_type_specification]
#[verifier::external_body]
pub struct ExIoError(std::io::Error);

/// Renders an I/O error with its `Display` implementation (`std::io::Error::to_string`).
///
/// Nothing is claimed of the text: the error value is opaque here.
#[verifier::external_body]
fn io_error_text(e: &std::io::Error) -> String {
    e.to_string()
}

/// The failures that the shredding engine reports.
#[derive(Debug)]
pub enum ShredError {
    /// A failure of an operating-system file operation.
    Io(std::io::Error),
    /// An invalid configuration, or an operation the user declined.
    Cli(String),
    /// A failure to obtain random data.
    Entropy(String),
    /// A target path that is missing or of the wrong kind.
    InvalidPath(String),
    /// A failure while scrubbing names or verifying overwritten data.
    Obfuscation(String),
}

/// Result type used throughout the library.
pub type ShredResult<T> = Result<T, ShredError>;

/// The fixed prefix that the text of each error kind starts with.
pub open spec fn error_prefix(e: ShredError) -> Seq<char> {
    match e {
        ShredError::Io(_) => "System I/O Failure: "@,
        ShredError::Cli(_) => "CLI Configuration Error: "@,
        ShredError::Entropy(_) => "Cryptographic Entropy Error: "@,
        ShredError::InvalidPath(_) => "Inaccessible Path Error: "@,
        ShredError::Obfuscation(_) => "Metadata Obfuscation Failure: "@,
    }
}

/// The full text of an error that carries its own message
/// (every kind but `Io`, whose detail comes from the operating system).
pub open spec fn error_text(e: ShredError) -> Seq<char> {
    match e {
        ShredError::Io(_) => error_prefix(e),
        ShredError::Cli(m) => error_prefix(e) + m@,
        ShredError::Entropy(m) => error_prefix(e) + m@,
        ShredError::InvalidPath(m) => error_prefix(e) + m@,
        ShredError::Obfuscation(m) => error_prefix(e) + m@,
    }
}

/// Whether `text` is how `e` reads: its kind's prefix and its message; for an I/O error,
/// the prefix and whatever the operating system's error says.
pub open spec fn describes(e: ShredError, text: Seq<char>) -> bool {
    if e is Io {
        exists|detail: Seq<char>| text == error_prefix(e) + detail
    } else {
        text == error_text(e)
    }
}

impl ShredError {
    /// The human-readable text of the error: its kind's prefix followed by its detail.
    pub fn to_string(&self) -> (s: String)
        ensures
            describes(*self, s@),
    {
        match self {
            ShredError::Io(e) => {
                let mut s = String::from_str("System I/O Failure: ");
                let detail = io_error_text(e);
                s.append(detail.as_str());
                assert(s@ == error_prefix(*self) + detail@);
                s
            },
            ShredError::Cli(m) => String::from_str("CLI Configuration Error: ").concat(m.as_str()),
            ShredError::Entropy(m) => String::from_str("Cryptographic Entropy Error: ").concat(m.as_str()),
            ShredError::InvalidPath(m) => String::from_str("Inaccessible Path Error: ").concat(m.as_str()),
            ShredError::Obfuscation(m) => String::from_str("Metadata Obfuscation Failure: ").concat(m.as_str()),
        }
    }
}

impl From<std::io::Error> for ShredError {
    /// An operating-system error becomes an I/O failure.
    fn from(e: std::io::Error) -> (r: ShredError) {
        ShredError::Io(e)
    }
}

impl vstd::std_specs::convert::FromSpecImpl<std::io::Error> for ShredError {
    open spec fn obeys_from_spec() -> bool {
        true
    }

    open spec fn from_spec(v: std::io::Error) -> ShredError {
        ShredError::Io(v)
    }
}

} // verus!
