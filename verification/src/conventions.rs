//! The shared error channel of every convention check: a hard failure that
//! aborts one convention's pass, as opposed to a validation failure, which
//! is always captured as data and rendered as a diagnostic.

use vstd::prelude::*;
use vstd::string::*;

verus! {

/// A hard failure of a convention's verify pass: either the governing file
/// could not be read, or its contents were not valid structured data. Each
/// variant carries the underlying failure's description.
#[derive(Debug, Clone, PartialEq)]
pub enum ConventionError {
    Io(String),
    Serde(String),
}

impl ConventionError {
    /// The single printed line this failure is shown as.
    pub fn message(&self) -> (r: String)
        ensures
            match self {
                ConventionError::Io(m) => r@ == "I/O error: "@ + m@,
                ConventionError::Serde(m) => r@ == "Serde: "@ + m@,
            },
    {
        match self {
            ConventionError::Io(m) => {
                let mut r = String::from_str("I/O error: ");
                r.append(m.as_str());
                r
            },
            ConventionError::Serde(m) => {
                let mut r = String::from_str("Serde: ");
                r.append(m.as_str());
                r
            },
        }
    }
}

} // verus!
