//! The life of a view, as the workspace container drives it.
//!
//! A view is restored from a stored path in three steps, each of which waits
//! for the host: the path is looked up, the project finds the tracked root
//! that holds it, and the image record is opened. Once loaded, the view is
//! saved at the host's save points, split, and closed. The host performs the
//! action that a step asks for and hands the outcome back as the next event.

use vstd::prelude::*;
use crate::ids::{EntityId, FocusId, ItemId, WorkspaceId, WorktreeId};
use crate::image_view::{row_to_persist, text_view, ImageView};
use crate::persistence::{ImageViewerDb, PersistedRow, StoreError};

verus! {

/// A path within the project: a tracked root and a path relative to it.
#[derive(Clone, Debug, PartialEq, Eq)]
pub struct ProjectPath {
    pub worktree_id: WorktreeId,
    pub path: Vec<u8>,
}

/// What a restore is waiting for.
#[derive(Clone, Copy, Debug, PartialEq, Eq, Structural)]
pub enum LoadStage {
    /// The project is finding, or creating, the tracked root of the path.
    ResolvingRoot,
    /// The project is opening the image record.
    OpeningImage,
}

/// Why a restore came to nothing.
#[derive(Clone, Copy, Debug, PartialEq, Eq, Structural)]
pub enum LoadError {
    /// The store has no path for the item.
    NoImagePath,
    /// The stored path lies in no root that the project can track.
    PathNotFound,
    /// The project could not open the image.
    OpenFailed,
}

/// Where a view stands in its life.
#[derive(Clone, Copy, Debug, PartialEq, Eq, Structural)]
pub enum Lifecycle {
    /// Nothing is known of the view but, perhaps, a row in the store.
    Unloaded,
    /// A restore within `project` is under way.
    Loading { project: EntityId, stage: LoadStage },
    /// The view is shown in a pane.
    Loaded(ImageView),
    /// The view is shown, and a write of its row is under way.
    Serializing(ImageView),
    /// The pane is gone.
    Closed,
}

/// What the host reports to the view.
#[derive(Debug, PartialEq, Eq)]
pub enum HostEvent {
    /// The container asks for the view to be restored within `project`;
    /// `stored_path` is what the store holds for the item.
    Deserialize { project: EntityId, stored_path: Option<Vec<u8>> },
    /// The project found the tracked root of the path and the path below it,
    /// or failed to.
    RootResolved(Option<(WorktreeId, Vec<u8>)>),
    /// The project opened the image record, or failed to; the focus identity
    /// is for the view to be made.
    ImageOpened { image_item: Option<EntityId>, focus_handle: FocusId },
    /// A save point: the identity of the workspace in the store, if it has
    /// one, and the local absolute path of the image, if it has one.
    Serialize {
        workspace_id: Option<WorkspaceId>,
        item_id: ItemId,
        closing: bool,
        abs_path: Option<Vec<u8>>,
    },
    /// A write of the view's row has ended.
    Persisted,
    /// The pane is split; the focus identity is for the new half.
    Split { workspace_id: Option<WorkspaceId>, focus_handle: FocusId },
    /// The pane is closed.
    Close,
}

/// What the view asks of the host.
#[derive(Debug, PartialEq, Eq)]
pub enum Action {
    /// Nothing.
    Idle,
    /// Find or create the tracked root that holds `abs_path`; a root created
    /// for it is shown only if `visible`.
    ResolveRoot { abs_path: Vec<u8>, visible: bool },
    /// Open the image record at this path, or fetch it from the cache.
    OpenImage(ProjectPath),
    /// Show this view in a pane.
    Present(ImageView),
    /// Write this row to the store.
    Persist(PersistedRow),
    /// Give the restore up for this reason. No view was made.
    Fail(LoadError),
}

impl LoadError {
    /// The message of the error, where the viewer words it.
    pub open spec fn message_text(self) -> Option<Seq<char>> {
        match self {
            LoadError::NoImagePath => Some("No image path found"@),
            LoadError::PathNotFound => Some("Path not found"@),
            LoadError::OpenFailed => None,
        }
    }

    /// The message of the error. A failure to open the image has none of the
    /// viewer's own: the host reports what the project said.
    pub fn message(&self) -> (text: Option<String>)
        ensures
            text_view(text) == self.message_text(),
    {
        match self {
            LoadError::NoImagePath => Some("No image path found".to_owned()),
            LoadError::PathNotFound => Some("Path not found".to_owned()),
            LoadError::OpenFailed => None,
        }
    }
}

impl Lifecycle {
    /// The view that is shown, if one is.
    pub open spec fn shown(self) -> Option<ImageView> {
        match self {
            Lifecycle::Loaded(view) => Some(view),
            Lifecycle::Serializing(view) => Some(view),
            _ => None,
        }
    }

    /// The state after `event`, and what the host is to do.
    ///
    /// A closed view takes note of nothing, so what arrives for it late is
    /// dropped. Closing writes nothing. A failed restore leaves the view
    /// unloaded. An event that the state does not wait for changes nothing.
    pub open spec fn next(self, event: HostEvent) -> (Lifecycle, Action) {
        match (self, event) {
            (Lifecycle::Closed, _) => (Lifecycle::Closed, Action::Idle),
            (_, HostEvent::Close) => (Lifecycle::Closed, Action::Idle),
            (Lifecycle::Unloaded, HostEvent::Deserialize { project, stored_path }) => {
                match stored_path {
                    Some(abs_path) => (
                        Lifecycle::Loading { project, stage: LoadStage::ResolvingRoot },
                        Action::ResolveRoot { abs_path, visible: false },
                    ),
                    None => (Lifecycle::Unloaded, Action::Fail(LoadError::NoImagePath)),
                }
            },
            (
                Lifecycle::Loading { project, stage: LoadStage::ResolvingRoot },
                HostEvent::RootResolved(found),
            ) => {
                match found {
                    Some((worktree_id, path)) => (
                        Lifecycle::Loading { project, stage: LoadStage::OpeningImage },
                        Action::OpenImage(ProjectPath { worktree_id, path }),
                    ),
                    None => (Lifecycle::Unloaded, Action::Fail(LoadError::PathNotFound)),
                }
            },
            (
                Lifecycle::Loading { project, stage: LoadStage::OpeningImage },
                HostEvent::ImageOpened { image_item, focus_handle },
            ) => {
                match image_item {
                    Some(image_item) => {
                        let view = ImageView { image_item, project, focus_handle };
                        (Lifecycle::Loaded(view), Action::Present(view))
                    },
                    None => (Lifecycle::Unloaded, Action::Fail(LoadError::OpenFailed)),
                }
            },
            (state, HostEvent::Serialize { workspace_id, item_id, closing, abs_path }) => {
                match (state.shown(), row_to_persist(workspace_id, item_id, abs_path)) {
                    (Some(view), Some(row)) => (Lifecycle::Serializing(view), Action::Persist(row)),
                    _ => (state, Action::Idle),
                }
            },
            (Lifecycle::Serializing(view), HostEvent::Persisted) => (
                Lifecycle::Loaded(view),
                Action::Idle,
            ),
            (state, HostEvent::Split { workspace_id, focus_handle }) => {
                match state.shown() {
                    Some(view) => (
                        state,
                        Action::Present(
                            ImageView {
                                image_item: view.image_item,
                                project: view.project,
                                focus_handle,
                            },
                        ),
                    ),
                    None => (state, Action::Idle),
                }
            },
            (state, _) => (state, Action::Idle),
        }
    }

    /// Takes `event` in: the state that follows, and what the host is to do.
    pub fn step(self, event: HostEvent) -> (r: (Lifecycle, Action))
        ensures
            r == self.next(event),
    {
        match (self, event) {
            (Lifecycle::Closed, _) => (Lifecycle::Closed, Action::Idle),
            (_, HostEvent::Close) => (Lifecycle::Closed, Action::Idle),
            (Lifecycle::Unloaded, HostEvent::Deserialize { project, stored_path }) => {
                match stored_path {
                    Some(abs_path) => (
                        Lifecycle::Loading { project, stage: LoadStage::ResolvingRoot },
                        Action::ResolveRoot { abs_path, visible: false },
                    ),
                    None => (Lifecycle::Unloaded, Action::Fail(LoadError::NoImagePath)),
                }
            },
            (
                Lifecycle::Loading { project, stage: LoadStage::ResolvingRoot },
                HostEvent::RootResolved(found),
            ) => {
                match found {
                    Some((worktree_id, path)) => (
                        Lifecycle::Loading { project, stage: LoadStage::OpeningImage },
                        Action::OpenImage(ProjectPath { worktree_id, path }),
                    ),
                    None => (Lifecycle::Unloaded, Action::Fail(LoadError::PathNotFound)),
                }
            },
            (
                Lifecycle::Loading { project, stage: LoadStage::OpeningImage },
                HostEvent::ImageOpened { image_item, focus_handle },
            ) => {
                match image_item {
                    Some(image_item) => {
                        let view = ImageView::new(image_item, project, focus_handle);
                        (Lifecycle::Loaded(view), Action::Present(view))
                    },
                    None => (Lifecycle::Unloaded, Action::Fail(LoadError::OpenFailed)),
                }
            },
            (Lifecycle::Loaded(view), HostEvent::Serialize { workspace_id, item_id, closing, abs_path })
            | (
                Lifecycle::Serializing(view),
                HostEvent::Serialize { workspace_id, item_id, closing, abs_path },
            ) => {
                match view.serialize(workspace_id, item_id, closing, abs_path) {
                    Some(row) => (Lifecycle::Serializing(view), Action::Persist(row)),
                    None => (self, Action::Idle),
                }
            },
            (Lifecycle::Serializing(view), HostEvent::Persisted) => (
                Lifecycle::Loaded(view),
                Action::Idle,
            ),
            (Lifecycle::Loaded(view), HostEvent::Split { workspace_id, focus_handle })
            | (Lifecycle::Serializing(view), HostEvent::Split { workspace_id, focus_handle }) => {
                match view.clone_on_split(workspace_id, focus_handle) {
                    Some(twin) => (self, Action::Present(twin)),
                    None => (self, Action::Idle),
                }
            },
            (state, _) => (state, Action::Idle),
        }
    }
}

impl ImageView {
    /// Begins the restore of the item `item_id` of `workspace_id` within
    /// `project`: looks the stored path up and asks for its tracked root.
    /// Without a stored path the restore fails at once and no view is made.
    /// An error of the store is handed on as it is; reading never gives one.
    pub fn deserialize(
        store: &ImageViewerDb,
        project: EntityId,
        workspace_id: WorkspaceId,
        item_id: ItemId,
    ) -> (r: Result<(Lifecycle, Action), StoreError>)
        requires
            store.wf(),
        ensures
            r is Ok,
            match store@.lookup(item_id, workspace_id) {
                Some(path) => {
                    &&& r->Ok_0.0 == (Lifecycle::Loading { project, stage: LoadStage::ResolvingRoot })
                    &&& r->Ok_0.1 matches Action::ResolveRoot { abs_path, visible }
                    &&& abs_path@ == path
                    &&& !visible
                },
                None => r->Ok_0 == (Lifecycle::Unloaded, Action::Fail(LoadError::NoImagePath)),
            },
    {
        match store.get_image_path(item_id, workspace_id) {
            Ok(stored_path) => Ok(
                Lifecycle::Unloaded.step(HostEvent::Deserialize { project, stored_path }),
            ),
            Err(error) => Err(error),
        }
    }

    /// Reconciles the store with the items of `workspace_id` that are still
    /// open, once the workspace is loaded: rows of other items of that
    /// workspace go.
    pub fn cleanup(store: &mut ImageViewerDb, workspace_id: WorkspaceId, alive_items: Vec<ItemId>) -> (r:
        Result<(), StoreError>)
        requires
            old(store).wf(),
        ensures
            final(store).wf(),
            r is Ok,
            final(store)@ == old(store)@.delete_unloaded(workspace_id, alive_items@),
    {
        store.delete_unloaded_items(workspace_id, alive_items)
    }
}

} // verus!
