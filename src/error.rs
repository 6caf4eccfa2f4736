//! The error taxonomy that every backend maps its own failures into.

use vstd::prelude::*;
use vstd::string::*;

verus! {

/// A failed storage operation.
#[derive(Debug)]
pub enum StorageError {
    /// A local disk failure, with the system's description.
    Io(String),
    /// A malformed manifest document.
    Serialization(String),
    /// The path is absent.
    NotFound(String),
    /// The digest computed over an upload differs from the declared one; the
    /// upload has been rolled back.
    IntegrityMismatch { expected: String, computed: String },
    /// Any other backend failure (network, permissions, rate limits).
    Generic(String),
}

/// A failed authentication or authorization.
#[derive(Debug)]
pub enum AuthError {
    InvalidToken,
    Forbidden(String),
    Generic(String),
}

/// The human-readable text of a storage error.
pub open spec fn storage_error_text(e: StorageError) -> Seq<char> {
    match e {
        StorageError::Io(m) => "IO error: "@ + m@,
        StorageError::Serialization(m) => "Manifest serialization error: "@ + m@,
        StorageError::NotFound(p) => "Path not found: "@ + p@,
        StorageError::IntegrityMismatch { expected, computed } => "Integrity check failed. Expected "@
            + expected@ + ", got "@ + computed@,
        StorageError::Generic(m) => "Storage backend error: "@ + m@,
    }
}

/// The human-readable text of an authentication error.
pub open spec fn auth_error_text(e: AuthError) -> Seq<char> {
    match e {
        AuthError::InvalidToken => "Invalid token"@,
        AuthError::Forbidden(m) => "Insufficient permissions: "@ + m@,
        AuthError::Generic(m) => "Authentication provider error: "@ + m@,
    }
}

/// `prefix` followed by `tail`, as a new string.
pub(crate) fn joined(prefix: &str, tail: &str) -> (r: String)
    ensures
        r@ == prefix@ + tail@,
{
    let mut s = String::from_str(prefix);
    s.append(tail);
    s
}

impl StorageError {
    pub fn message(&self) -> (r: String)
        ensures
            r@ == storage_error_text(*self),
    {
        match self {
            StorageError::Io(m) => joined("IO error: ", m.as_str()),
            StorageError::Serialization(m) => joined("Manifest serialization error: ", m.as_str()),
            StorageError::NotFound(p) => joined("Path not found: ", p.as_str()),
            StorageError::IntegrityMismatch { expected, computed } => {
                let mut s = joined("Integrity check failed. Expected ", expected.as_str());
                s.append(", got ");
                s.append(computed.as_str());
                s
            },
            StorageError::Generic(m) => joined("Storage backend error: ", m.as_str()),
        }
    }

    pub fn is_not_found(&self) -> (r: bool)
        ensures
            r == (*self is NotFound),
    {
        match self {
            StorageError::NotFound(_) => true,
            _ => false,
        }
    }
}

impl AuthError {
    pub fn message(&self) -> (r: String)
        ensures
            r@ == auth_error_text(*self),
    {
        match self {
            AuthError::InvalidToken => String::from_str("Invalid token"),
            AuthError::Forbidden(m) => joined("Insufficient permissions: ", m.as_str()),
            AuthError::Generic(m) => joined("Authentication provider error: ", m.as_str()),
        }
    }
}

} // verus!
