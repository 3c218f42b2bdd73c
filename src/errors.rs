//! Errors of the relay.
use vstd::prelude::*;

verus! {

/// The kinds of error that building and wiring endpoints can report.
#[derive(Debug)]
pub enum FitterErrorKind {
    /// A capability was used out of order (an endpoint already handed to its task).
    InternalErr(String),
    /// An endpoint or a fabric could not be built.
    GenericErr(String),
}

impl FitterErrorKind {
    /// The text carried by the error.
    pub fn describe(&self) -> (r: &str)
        ensures
            r@ == match self {
                FitterErrorKind::InternalErr(s) => s@,
                FitterErrorKind::GenericErr(s) => s@,
            },
    {
        match self {
            FitterErrorKind::InternalErr(s) => s.as_str(),
            FitterErrorKind::GenericErr(s) => s.as_str(),
        }
    }
}

} // verus!
