//! What can go wrong between the navigator and the disk.

use vstd::prelude::*;

verus! {

/// The ways a request of the navigator can fail.
#[derive(Clone, Copy, Debug, PartialEq, Eq, Structural)]
pub enum SiuError {
    /// A directory or a file that the navigator asked for was not handed
    /// over: it could not be read, it is gone, or it is not of the kind that
    /// was asked for.
    NotReadable,
    /// The path has no parent directory.
    NoParent,
}

impl SiuError {
    /// A short description for the user.
    pub fn message(&self) -> (s: &'static str)
        ensures
            *self == SiuError::NotReadable ==> s@ == "not readable"@,
            *self == SiuError::NoParent ==> s@ == "no parent directory"@,
    {
        match self {
            SiuError::NotReadable => "not readable",
            SiuError::NoParent => "no parent directory",
        }
    }
}

} // verus!
