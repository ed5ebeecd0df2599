//! Errors of the network domain.

use vstd::prelude::*;

verus! {

/// Network domain error.
#[derive(Debug)]
pub enum NetworkError {
    /// A general failure, with its message
    General(String),
    /// A configuration that cannot be realised, with its message
    InvalidConfiguration(String),
    /// Input that failed validation, with its message
    ValidationError(String),
}

impl NetworkError {
    /// The message the error carries.
    pub fn message(&self) -> (m: &String)
        ensures
            *m == (match *self {
                NetworkError::General(s) => s,
                NetworkError::InvalidConfiguration(s) => s,
                NetworkError::ValidationError(s) => s,
            }),
    {
        match self {
            NetworkError::General(s) => s,
            NetworkError::InvalidConfiguration(s) => s,
            NetworkError::ValidationError(s) => s,
        }
    }
}

/// The text of an error, as it is displayed.
pub open spec fn error_text(e: NetworkError) -> Seq<char> {
    match e {
        NetworkError::General(s) => "Network error: "@ + s@,
        NetworkError::InvalidConfiguration(s) => "Invalid configuration: "@ + s@,
        NetworkError::ValidationError(s) => "Validation error: "@ + s@,
    }
}

impl NetworkError {
    /// The text of the error, as it is displayed.
    pub fn to_string(&self) -> (s: String)
        ensures
            s@ == error_text(*self),
    {
        let (prefix, m) = match self {
            NetworkError::General(m) => ("Network error: ", m),
            NetworkError::InvalidConfiguration(m) => ("Invalid configuration: ", m),
            NetworkError::ValidationError(m) => ("Validation error: ", m),
        };
        let mut s = crate::text::owned(prefix);
        crate::text::push_str(&mut s, m.as_str());
        s
    }
}

} // verus!
