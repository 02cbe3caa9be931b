//! The mathematical model of the viewer's table.
//!
//! The table maps an item to the workspace that owns it and to the path of
//! the image it showed. An item occurs at most once in the whole table, so the
//! rows are a map keyed by the item alone. Every row belongs to a registered
//! workspace, and a workspace takes its rows with it when it is deleted.

use vstd::prelude::*;
use crate::ids::{ItemId, WorkspaceId};

verus! {

/// What the table records for one item.
pub struct StoredPath {
    pub workspace_id: WorkspaceId,
    pub image_path: Seq<u8>,
}

/// The registered workspaces and the rows of the table.
pub struct Table {
    pub workspaces: Set<WorkspaceId>,
    pub rows: Map<ItemId, StoredPath>,
}

impl Table {
    /// No workspace and no row.
    pub open spec fn empty() -> Table {
        Table { workspaces: Set::empty(), rows: Map::empty() }
    }

    /// Every row refers to a registered workspace, and both parts are finite.
    pub open spec fn valid(self) -> bool {
        &&& self.workspaces.finite()
        &&& self.rows.dom().finite()
        &&& forall|item: ItemId| #[trigger]
            self.rows.contains_key(item) ==> self.workspaces.contains(
                self.rows[item].workspace_id,
            )
    }

    /// The row of `item_id`, if it exists and lies under `workspace_id`.
    pub open spec fn has_row(self, item_id: ItemId, workspace_id: WorkspaceId) -> bool {
        self.rows.contains_key(item_id) && self.rows[item_id].workspace_id == workspace_id
    }

    /// The path stored for `item_id` under `workspace_id`.
    pub open spec fn lookup(self, item_id: ItemId, workspace_id: WorkspaceId) -> Option<Seq<u8>> {
        if self.has_row(item_id, workspace_id) {
            Some(self.rows[item_id].image_path)
        } else {
            None
        }
    }

    /// Insert-or-replace: the row of `item_id` becomes `(workspace_id, path)`,
    /// whatever it was. An unregistered workspace leaves the table as it is.
    pub open spec fn save(self, item_id: ItemId, workspace_id: WorkspaceId, path: Seq<u8>) -> Table {
        if self.workspaces.contains(workspace_id) {
            Table {
                workspaces: self.workspaces,
                rows: self.rows.insert(
                    item_id,
                    StoredPath { workspace_id, image_path: path },
                ),
            }
        } else {
            self
        }
    }

    /// `item_id` has a row under `workspace` and is not among the live items.
    pub open spec fn is_unloaded(
        self,
        item_id: ItemId,
        workspace: WorkspaceId,
        alive: Seq<ItemId>,
    ) -> bool {
        self.has_row(item_id, workspace) && !alive.contains(item_id)
    }

    /// The table without the rows of `workspace` whose item is not alive.
    pub open spec fn delete_unloaded(self, workspace: WorkspaceId, alive: Seq<ItemId>) -> Table {
        Table {
            workspaces: self.workspaces,
            rows: self.rows.remove_keys(
                Set::new(|item_id: ItemId| self.is_unloaded(item_id, workspace, alive)),
            ),
        }
    }

    /// Re-keying the row `(old_id, item_id)` to `new_id` is refused: the row
    /// exists and `new_id` is not registered.
    pub open spec fn rekey_refused(
        self,
        new_id: WorkspaceId,
        old_id: WorkspaceId,
        item_id: ItemId,
    ) -> bool {
        self.has_row(item_id, old_id) && !self.workspaces.contains(new_id)
    }

    /// The row `(old_id, item_id)` moves under `new_id` and keeps its path.
    /// Without such a row, or where the move is refused, nothing changes.
    pub open spec fn rekey(self, new_id: WorkspaceId, old_id: WorkspaceId, item_id: ItemId) -> Table {
        if self.has_row(item_id, old_id) && self.workspaces.contains(new_id) {
            Table {
                workspaces: self.workspaces,
                rows: self.rows.insert(
                    item_id,
                    StoredPath { workspace_id: new_id, image_path: self.rows[item_id].image_path },
                ),
            }
        } else {
            self
        }
    }

    /// The table with `workspace` registered.
    pub open spec fn add_workspace(self, workspace: WorkspaceId) -> Table {
        Table { workspaces: self.workspaces.insert(workspace), rows: self.rows }
    }

    /// The table without `workspace` and without every row that referred to it.
    pub open spec fn delete_workspace(self, workspace: WorkspaceId) -> Table {
        Table {
            workspaces: self.workspaces.remove(workspace),
            rows: self.rows.remove_keys(
                Set::new(|item_id: ItemId| self.has_row(item_id, workspace)),
            ),
        }
    }
}

} // verus!
