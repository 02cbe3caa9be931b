//! The events that reach a view, and what it makes of them.

use vstd::prelude::*;

verus! {

/// A change that the shared image record announces.
#[derive(Clone, Copy, Debug, PartialEq, Eq, Structural)]
pub enum ImageItemEvent {
    /// The file changed on disk and the record has not taken the change in.
    ReloadNeeded,
    /// The record took in the new content of the file.
    Reloaded,
    /// The file of the record was moved, renamed or replaced.
    FileHandleChanged,
}

/// What a view announces to its host.
#[derive(Clone, Copy, Debug, PartialEq, Eq, Structural)]
pub enum ImageViewEvent {
    /// The text that labels the view is stale.
    TitleChanged,
}

/// What the workspace container is asked to refresh.
#[derive(Clone, Copy, Debug, PartialEq, Eq, Structural)]
pub enum ItemEvent {
    UpdateTab,
    UpdateBreadcrumbs,
}

/// What a view does on a change of its image record.
#[derive(Debug, PartialEq, Eq)]
pub struct Reaction {
    /// The notifications to emit to the host, in order.
    pub emitted: Vec<ImageViewEvent>,
    /// Whether the view asks to be drawn again.
    pub redraw: bool,
}

impl ImageItemEvent {
    /// The change makes the title and the breadcrumbs of a view stale: the
    /// file's place or its content is no longer what the view last showed.
    pub open spec fn invalidates_title(self) -> bool {
        self is FileHandleChanged || self is Reloaded
    }
}

} // verus!
