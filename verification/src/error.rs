//! The failures the library reports.

use vstd::prelude::*;

verus! {

/// The class of a failure.
#[derive(Clone, Copy, PartialEq, Eq, Debug, Structural)]
pub enum ErrorKind {
    /// A path could not be queried, resolved or read.
    IO,
    /// A directory walk broke off.
    DirectoryTraversal,
    /// A root is neither a file nor a directory.
    UnsupportedPath,
    /// A path has no textual form.
    PathRender,
    /// A text is not JSON.
    JSONParse,
    /// A text is not JSON5.
    JSON5Parse,
    /// A schema was refused, or a document breaks it.
    JSONSchema,
}

/// The mathematical content of a [`KirillError`]: its class and its message.
pub ghost struct Failure {
    pub kind: ErrorKind,
    pub message: Seq<char>,
}

/// KirillError models bad computer states. Every variant carries the message
/// that is shown to the user.
#[derive(Debug)]
pub enum KirillError {
    IOError(String),
    DirectoryTraversalError(String),
    UnsupportedPathError(String),
    PathRenderError(String),
    JSONParseError(String),
    JSON5ParseError(String),
    JSONSchemaError(String),
}

impl View for KirillError {
    type V = Failure;

    open spec fn view(&self) -> Failure {
        match self {
            KirillError::IOError(m) => Failure { kind: ErrorKind::IO, message: m@ },
            KirillError::DirectoryTraversalError(m) => Failure {
                kind: ErrorKind::DirectoryTraversal,
                message: m@,
            },
            KirillError::UnsupportedPathError(m) => Failure {
                kind: ErrorKind::UnsupportedPath,
                message: m@,
            },
            KirillError::PathRenderError(m) => Failure { kind: ErrorKind::PathRender, message: m@ },
            KirillError::JSONParseError(m) => Failure { kind: ErrorKind::JSONParse, message: m@ },
            KirillError::JSON5ParseError(m) => Failure { kind: ErrorKind::JSON5Parse, message: m@ },
            KirillError::JSONSchemaError(m) => Failure { kind: ErrorKind::JSONSchema, message: m@ },
        }
    }
}

impl KirillError {
    /// The class of this error.
    pub fn kind(&self) -> (k: ErrorKind)
        ensures
            k == self@.kind,
    {
        match self {
            KirillError::IOError(_) => ErrorKind::IO,
            KirillError::DirectoryTraversalError(_) => ErrorKind::DirectoryTraversal,
            KirillError::UnsupportedPathError(_) => ErrorKind::UnsupportedPath,
            KirillError::PathRenderError(_) => ErrorKind::PathRender,
            KirillError::JSONParseError(_) => ErrorKind::JSONParse,
            KirillError::JSON5ParseError(_) => ErrorKind::JSON5Parse,
            KirillError::JSONSchemaError(_) => ErrorKind::JSONSchema,
        }
    }

    /// The text shown for this error: the message it carries, whatever its
    /// class.
    pub fn message(&self) -> (m: String)
        ensures
            m@ == self@.message,
    {
        match self {
            KirillError::IOError(m) => m.clone(),
            KirillError::DirectoryTraversalError(m) => m.clone(),
            KirillError::UnsupportedPathError(m) => m.clone(),
            KirillError::PathRenderError(m) => m.clone(),
            KirillError::JSONParseError(m) => m.clone(),
            KirillError::JSON5ParseError(m) => m.clone(),
            KirillError::JSONSchemaError(m) => m.clone(),
        }
    }
}

} // verus!
