//! The failures a proving run can end with.

use vstd::prelude::*;

verus! {

/// What went wrong, without the message.
#[derive(Clone, Copy, Debug, PartialEq, Eq, Structural)]
pub enum ErrorKind {
    /// The package manifest is missing or malformed.
    Manifest,
    /// A file or directory could not be found, read or written.
    IO,
    /// The inputs file is not syntactically valid.
    InputParse,
    /// An input value does not have the type the program declares for it.
    TypeMismatch,
    /// The proving algorithm failed.
    ProofConstruction,
    /// The setup that precedes proving failed.
    SetupPropagated,
}

/// A failure of the command, with the message of whoever reported it.
#[derive(Clone, Debug, PartialEq, Eq)]
pub enum CLIError {
    ManifestError(String),
    IOError(String),
    InputParseError(String),
    TypeMismatchError(String),
    ProofConstructionError(String),
    SetupPropagatedError(String),
}

/// The mathematical content of a [`CLIError`].
pub struct CLIErrorView {
    pub kind: ErrorKind,
    pub message: Seq<char>,
}

impl View for CLIError {
    type V = CLIErrorView;

    open spec fn view(&self) -> CLIErrorView {
        match self {
            CLIError::ManifestError(m) => CLIErrorView { kind: ErrorKind::Manifest, message: m@ },
            CLIError::IOError(m) => CLIErrorView { kind: ErrorKind::IO, message: m@ },
            CLIError::InputParseError(m) => CLIErrorView {
                kind: ErrorKind::InputParse,
                message: m@,
            },
            CLIError::TypeMismatchError(m) => CLIErrorView {
                kind: ErrorKind::TypeMismatch,
                message: m@,
            },
            CLIError::ProofConstructionError(m) => CLIErrorView {
                kind: ErrorKind::ProofConstruction,
                message: m@,
            },
            CLIError::SetupPropagatedError(m) => CLIErrorView {
                kind: ErrorKind::SetupPropagated,
                message: m@,
            },
        }
    }
}

impl CLIError {
    /// Builds the error of the given kind around `message`.
    pub fn new(kind: ErrorKind, message: String) -> (error: CLIError)
        ensures
            error@ == (CLIErrorView { kind, message: message@ }),
    {
        match kind {
            ErrorKind::Manifest => CLIError::ManifestError(message),
            ErrorKind::IO => CLIError::IOError(message),
            ErrorKind::InputParse => CLIError::InputParseError(message),
            ErrorKind::TypeMismatch => CLIError::TypeMismatchError(message),
            ErrorKind::ProofConstruction => CLIError::ProofConstructionError(message),
            ErrorKind::SetupPropagated => CLIError::SetupPropagatedError(message),
        }
    }

    /// Which of the failures this is.
    pub fn kind(&self) -> (kind: ErrorKind)
        ensures
            kind == self@.kind,
    {
        match self {
            CLIError::ManifestError(_) => ErrorKind::Manifest,
            CLIError::IOError(_) => ErrorKind::IO,
            CLIError::InputParseError(_) => ErrorKind::InputParse,
            CLIError::TypeMismatchError(_) => ErrorKind::TypeMismatch,
            CLIError::ProofConstructionError(_) => ErrorKind::ProofConstruction,
            CLIError::SetupPropagatedError(_) => ErrorKind::SetupPropagated,
        }
    }

    /// The message that came with the failure, unchanged.
    pub fn message(&self) -> (message: &str)
        ensures
            message@ == self@.message,
    {
        match self {
            CLIError::ManifestError(m) => m.as_str(),
            CLIError::IOError(m) => m.as_str(),
            CLIError::InputParseError(m) => m.as_str(),
            CLIError::TypeMismatchError(m) => m.as_str(),
            CLIError::ProofConstructionError(m) => m.as_str(),
            CLIError::SetupPropagatedError(m) => m.as_str(),
        }
    }
}

} // verus!
