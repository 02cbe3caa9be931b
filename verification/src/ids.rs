//! Identities that the host hands to the viewer.

use vstd::prelude::*;

verus! {

/// Identity of one open item within the workspace container.
pub type ItemId = u64;

/// Identity of a persisted workspace session.
#[derive(Clone, Copy, Debug, PartialEq, Eq, Structural, Hash)]
pub struct WorkspaceId(pub i64);

/// Identity of a shared record that the host keeps alive by reference
/// counting (an image record, a project).
#[derive(Clone, Copy, Debug, PartialEq, Eq, Structural, Hash)]
pub struct EntityId(pub u64);

/// Identity that the host uses to route keyboard focus to one pane.
#[derive(Clone, Copy, Debug, PartialEq, Eq, Structural, Hash)]
pub struct FocusId(pub u64);

/// Identity of a tracked directory root of the project.
#[derive(Clone, Copy, Debug, PartialEq, Eq, Structural, Hash)]
pub struct WorktreeId(pub usize);

impl WorkspaceId {
    /// The integer under which the workspace is stored.
    pub fn to_i64(self) -> (value: i64)
        ensures
            value == self.0,
    {
        self.0
    }
}

} // verus!
