//! The ways in which a registry operation fails.

use vstd::prelude::*;

verus! {

/// Why an operation on the registry was refused. A refused operation changes
/// nothing.
#[derive(Clone, Copy, Debug, PartialEq, Eq, Structural)]
pub enum RegistryError {
    /// The caller is not the registry's owner.
    Unauthorized,
    /// A task is already registered under the identifier.
    TaskAlreadyExists,
    /// No task is registered under the identifier.
    TaskNotFound,
    /// The task has no version stored under its latest version number.
    NoVersionsYet,
}

impl RegistryError {
    /// The text with which a host aborts a call that failed this way.
    pub fn message(&self) -> (text: &'static str)
        ensures
            text@ == match *self {
                RegistryError::Unauthorized => "only owner can call"@,
                RegistryError::TaskAlreadyExists => "task already registered"@,
                RegistryError::TaskNotFound => "task not found"@,
                RegistryError::NoVersionsYet => "no versions yet"@,
            },
    {
        match self {
            RegistryError::Unauthorized => "only owner can call",
            RegistryError::TaskAlreadyExists => "task already registered",
            RegistryError::TaskNotFound => "task not found",
            RegistryError::NoVersionsYet => "no versions yet",
        }
    }
}

} // verus!
