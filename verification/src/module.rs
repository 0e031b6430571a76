//! Modules and their identifiers.
use vstd::prelude::*;

use crate::source::SourceFileId;

verus! {

/// Stable identifier for a module; a module has the number of its file.
#[derive(Debug, Clone, Copy, PartialEq, Eq, Hash, Structural)]
pub struct ModuleId(pub u32);

impl ModuleId {
    /// The identifier with the given number.
    pub fn new(id: u32) -> (m: ModuleId)
        ensures
            m.0 == id,
    {
        ModuleId(id)
    }

    /// The number of this identifier.
    pub fn as_u32(self) -> (n: u32)
        ensures
            n == self.0,
    {
        self.0
    }

    /// The identifier of the module of `file`.
    pub fn from_file(file: &SourceFileId) -> (m: ModuleId)
        ensures
            m.0 == file.0,
    {
        ModuleId(file.as_u32())
    }

    /// The identifier that names no module.
    pub fn invalid() -> (m: ModuleId)
        ensures
            m.0 == u32::MAX,
    {
        ModuleId(u32::MAX)
    }

    /// Whether this is the identifier that names no module.
    pub fn is_invalid(&self) -> (b: bool)
        ensures
            b == (self.0 == u32::MAX),
    {
        self.0 == u32::MAX
    }
}

/// A module.
#[derive(Debug, Clone)]
pub struct Module {
    pub id: ModuleId,
}

} // verus!
