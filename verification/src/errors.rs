//! Error taxonomy shared by every component.

use vstd::prelude::*;

verus! {

/// Why an operation failed.
///
/// - `NotFound`: the location resolver found zero matches.
/// - `Upstream`: transport failure or response-shape mismatch from an
///   external provider.
/// - `Validation`: malformed user input, such as an invalid profile field.
/// - `Storage`: cache or profile store failure.
#[derive(Debug, Clone)]
pub enum WxError {
    NotFound(String),
    Upstream(String),
    Validation(String),
    Storage(String),
}

impl WxError {
    /// A plain-text description of the error, for display by callers.
    pub fn message(&self) -> (m: String)
        ensures
            m@ == self.message_text(),
    {
        match self {
            WxError::NotFound(m) => m.clone(),
            WxError::Upstream(m) => m.clone(),
            WxError::Validation(m) => m.clone(),
            WxError::Storage(m) => m.clone(),
        }
    }

    /// The text carried by the error, whatever its kind.
    pub open spec fn message_text(&self) -> Seq<char> {
        match self {
            WxError::NotFound(m) => m@,
            WxError::Upstream(m) => m@,
            WxError::Validation(m) => m@,
            WxError::Storage(m) => m@,
        }
    }
}

} // verus!
