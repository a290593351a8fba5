//! The error taxonomy of the store.

use vstd::prelude::*;
use vstd::string::StringExecFns;

verus! {

/// Why a store operation failed.
///
/// Every failure is returned to the immediate caller as a value; no error is
/// retried internally and none invalidates later calls.
#[derive(Debug, PartialEq, Eq)]
pub enum StoreError {
    /// A filesystem call on `path` failed (read, write, or copy); `cause`
    /// describes the underlying failure.
    IoError { path: String, cause: String },
    /// A backup was requested for a `path` that does not exist.
    NotFoundError { path: String },
    /// The path exists but its modification time cannot be expressed as
    /// seconds since the Unix epoch; `cause` describes the underlying
    /// failure.
    TimeError { cause: String },
}

impl StoreError {
    /// The user-visible description of the failure: it embeds the offending
    /// path and the underlying cause, since callers display it directly.
    pub open spec fn spec_message(self) -> Seq<char> {
        match self {
            StoreError::IoError { path, cause } => "Failed to access file "@ + path@ + ": "@
                + cause@,
            StoreError::NotFoundError { path } => "Source file does not exist: "@ + path@,
            StoreError::TimeError { cause } => "Invalid modification time: "@ + cause@,
        }
    }

    /// Renders the user-visible description of the failure.
    pub fn message(&self) -> (r: String)
        ensures
            r@ == self.spec_message(),
    {
        match self {
            StoreError::IoError { path, cause } => {
                let mut m = "Failed to access file ".to_owned();
                m.append(path.as_str());
                m.append(": ");
                m.append(cause.as_str());
                m
            },
            StoreError::NotFoundError { path } => {
                let mut m = "Source file does not exist: ".to_owned();
                m.append(path.as_str());
                m
            },
            StoreError::TimeError { cause } => {
                let mut m = "Invalid modification time: ".to_owned();
                m.append(cause.as_str());
                m
            },
        }
    }
}

} // verus!
