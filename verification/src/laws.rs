//! What holds of the table and of a view's life, whatever the inputs.

use vstd::prelude::*;
use crate::ids::{FocusId, ItemId, WorkspaceId};
use crate::image_view::ImageView;
use crate::lifecycle::{Action, HostEvent, Lifecycle, LoadStage};
use crate::table::{StoredPath, Table};

verus! {

/// Saving is idempotent: the same row saved twice leaves the table as it was
/// after the first save. Where the workspace is registered, the item then has
/// that one row, and the table has grown by at most that row.
pub proof fn save_is_idempotent(
    table: Table,
    item_id: ItemId,
    workspace_id: WorkspaceId,
    path: Seq<u8>,
)
    requires
        table.valid(),
    ensures
        table.save(item_id, workspace_id, path).save(item_id, workspace_id, path) == table.save(
            item_id,
            workspace_id,
            path,
        ),
        table.workspaces.contains(workspace_id) ==> {
            let saved = table.save(item_id, workspace_id, path);
            &&& saved.rows.contains_key(item_id)
            &&& saved.rows[item_id] == (StoredPath { workspace_id, image_path: path })
            &&& saved.rows.len() == if table.rows.contains_key(item_id) {
                table.rows.len()
            } else {
                table.rows.len() + 1
            }
        },
{
    let saved = table.save(item_id, workspace_id, path);
    assert(saved.save(item_id, workspace_id, path).rows =~= saved.rows);
    if table.workspaces.contains(workspace_id) && table.rows.contains_key(item_id) {
        assert(saved.rows.dom() =~= table.rows.dom());
    }
}

/// The last write wins: of two saves of one item, only the second shows,
/// where its workspace is registered.
pub proof fn last_write_wins(
    table: Table,
    item_id: ItemId,
    first_workspace: WorkspaceId,
    first_path: Seq<u8>,
    workspace_id: WorkspaceId,
    path: Seq<u8>,
)
    requires
        table.workspaces.contains(workspace_id),
    ensures
        table.save(item_id, first_workspace, first_path).save(item_id, workspace_id, path)
            == table.save(item_id, workspace_id, path),
{
    let first = table.save(item_id, first_workspace, first_path);
    assert(first.save(item_id, workspace_id, path).rows =~= table.save(
        item_id,
        workspace_id,
        path,
    ).rows);
}

/// Reconciliation leaves exactly the rows of other workspaces and the rows
/// of live items, each as it was, and registers or deletes no workspace.
pub proof fn reconciliation_keeps_the_alive(table: Table, workspace: WorkspaceId, alive: Seq<ItemId>)
    ensures
        ({
            let after = table.delete_unloaded(workspace, alive);
            &&& after.workspaces == table.workspaces
            &&& forall|item_id: ItemId| #[trigger]
                after.rows.contains_key(item_id) <==> table.rows.contains_key(item_id) && (
                table.rows[item_id].workspace_id != workspace || alive.contains(item_id))
            &&& forall|item_id: ItemId| #[trigger]
                after.rows.contains_key(item_id) ==> after.rows[item_id] == table.rows[item_id]
        }),
{
}

/// Reconciliation with no live item leaves no row of the workspace.
pub proof fn reconciliation_without_alive_clears_workspace(table: Table, workspace: WorkspaceId)
    ensures
        forall|item_id: ItemId|
            !(#[trigger] table.delete_unloaded(workspace, Seq::empty()).has_row(item_id, workspace)),
{
}

/// Reconciliation is idempotent: run again with the same live items, it
/// changes nothing.
pub proof fn reconciliation_is_idempotent(table: Table, workspace: WorkspaceId, alive: Seq<ItemId>)
    ensures
        table.delete_unloaded(workspace, alive).delete_unloaded(workspace, alive)
            == table.delete_unloaded(workspace, alive),
{
    let once = table.delete_unloaded(workspace, alive);
    assert(once.delete_unloaded(workspace, alive).rows =~= once.rows);
}

/// What was saved under a registered workspace is read back.
pub proof fn saved_path_is_read_back(
    table: Table,
    item_id: ItemId,
    workspace_id: WorkspaceId,
    path: Seq<u8>,
)
    requires
        table.workspaces.contains(workspace_id),
    ensures
        table.save(item_id, workspace_id, path).lookup(item_id, workspace_id) == Some(path),
{
}

/// An item that has no row is read as `None`, under every workspace.
pub proof fn unseen_item_reads_none(table: Table, item_id: ItemId, workspace_id: WorkspaceId)
    requires
        !table.rows.contains_key(item_id),
    ensures
        table.lookup(item_id, workspace_id) is None,
{
}

/// An item never has two rows. Saving an item that is bound to another
/// workspace either is refused and changes nothing, or moves the item: the
/// row under the other workspace is gone, and the table has as many rows as
/// before.
pub proof fn save_never_doubles_an_item(
    table: Table,
    item_id: ItemId,
    workspace_id: WorkspaceId,
    bound_to: WorkspaceId,
    path: Seq<u8>,
)
    requires
        table.valid(),
        table.has_row(item_id, bound_to),
        bound_to != workspace_id,
    ensures
        !table.workspaces.contains(workspace_id) ==> table.save(item_id, workspace_id, path)
            == table,
        table.workspaces.contains(workspace_id) ==> {
            let saved = table.save(item_id, workspace_id, path);
            &&& saved.lookup(item_id, workspace_id) == Some(path)
            &&& saved.lookup(item_id, bound_to) is None
            &&& saved.rows.len() == table.rows.len()
        },
{
    if table.workspaces.contains(workspace_id) {
        assert(table.save(item_id, workspace_id, path).rows.dom() =~= table.rows.dom());
    }
}

/// Re-keying moves a row and nothing else: the table keeps its items, the
/// moved row keeps its path, and every other row stays as it was.
pub proof fn rekey_keeps_items_unique(
    table: Table,
    new_id: WorkspaceId,
    old_id: WorkspaceId,
    item_id: ItemId,
)
    ensures
        table.rekey(new_id, old_id, item_id).rows.dom() == table.rows.dom(),
        table.rekey(new_id, old_id, item_id).workspaces == table.workspaces,
        forall|other: ItemId|
            other != item_id && #[trigger] table.rows.contains_key(other) ==> table.rekey(
                new_id,
                old_id,
                item_id,
            ).rows[other] == table.rows[other],
        table.has_row(item_id, old_id) && table.workspaces.contains(new_id) ==> table.rekey(
            new_id,
            old_id,
            item_id,
        ).lookup(item_id, new_id) == Some(table.rows[item_id].image_path),
        table.rekey_refused(new_id, old_id, item_id) ==> table.rekey(new_id, old_id, item_id)
            == table,
{
    assert(table.rekey(new_id, old_id, item_id).rows.dom() =~= table.rows.dom());
}

/// Deleting a workspace leaves no orphan: no row refers to it any more, the
/// rows of the other workspaces stay as they were, and the table is valid.
pub proof fn workspace_delete_cascades(table: Table, workspace: WorkspaceId)
    requires
        table.valid(),
    ensures
        ({
            let after = table.delete_workspace(workspace);
            &&& after.valid()
            &&& !after.workspaces.contains(workspace)
            &&& forall|item_id: ItemId| #[trigger]
                after.rows.contains_key(item_id) ==> after.rows[item_id].workspace_id != workspace
            &&& forall|item_id: ItemId| #[trigger]
                table.rows.contains_key(item_id) && table.rows[item_id].workspace_id != workspace
                    ==> after.rows.contains_key(item_id) && after.rows[item_id]
                    == table.rows[item_id]
        }),
{
    let after = table.delete_workspace(workspace);
    let gone = Set::new(|item_id: ItemId| table.has_row(item_id, workspace));
    assert(after.rows.dom() =~= table.rows.dom().difference(gone));
}

/// Every statement keeps the table valid: whatever is done to it, each row
/// refers to a registered workspace.
pub proof fn statements_keep_table_valid(
    table: Table,
    item_id: ItemId,
    workspace_id: WorkspaceId,
    other_id: WorkspaceId,
    path: Seq<u8>,
    alive: Seq<ItemId>,
)
    requires
        table.valid(),
    ensures
        Table::empty().valid(),
        table.add_workspace(workspace_id).valid(),
        table.save(item_id, workspace_id, path).valid(),
        table.rekey(workspace_id, other_id, item_id).valid(),
        table.delete_unloaded(workspace_id, alive).valid(),
        table.delete_workspace(workspace_id).valid(),
{
    assert(table.rekey(workspace_id, other_id, item_id).rows.dom() =~= table.rows.dom());
    let unloaded = Set::new(|item: ItemId| table.is_unloaded(item, workspace_id, alive));
    assert(table.delete_unloaded(workspace_id, alive).rows.dom() =~= table.rows.dom().difference(
        unloaded,
    ));
    workspace_delete_cascades(table, workspace_id);
}

/// A closed view takes note of nothing: whatever arrives for it, it stays
/// closed and asks nothing of the host.
pub proof fn closed_is_final(event: HostEvent)
    ensures
        Lifecycle::Closed.next(event) == (Lifecycle::Closed, Action::Idle),
{
}

/// A view comes to be shown in one way only: its restore was opening the
/// image, and the image was opened.
pub proof fn only_an_opened_image_loads(state: Lifecycle, event: HostEvent)
    requires
        state.shown() is None,
        state.next(event).0.shown() is Some,
    ensures
        state matches Lifecycle::Loading { stage: LoadStage::OpeningImage, .. },
        event matches HostEvent::ImageOpened { image_item: Some(_), .. },
{
}

/// A row is written at a save point of a shown view only, and only where the
/// workspace has an identity and the image a local path. Closing writes
/// nothing.
pub proof fn only_a_save_point_persists(state: Lifecycle, event: HostEvent)
    requires
        state.next(event).1 is Persist,
    ensures
        state.shown() is Some,
        event matches HostEvent::Serialize { workspace_id: Some(_), abs_path: Some(_), .. },
{
}

/// The view made by a split shows the same image record within the same
/// project as the view that was split. Closing that view afterwards asks nothing of
/// the host, so nothing is done to the record on its account.
pub proof fn split_twin_shares_the_record(
    view: ImageView,
    workspace_id: Option<WorkspaceId>,
    focus_handle: FocusId,
)
    ensures
        ({
            let (split, action) = Lifecycle::Loaded(view).next(
                HostEvent::Split { workspace_id, focus_handle },
            );
            &&& split == Lifecycle::Loaded(view)
            &&& action matches Action::Present(twin)
            &&& twin.image_item == view.image_item
            &&& twin.project == view.project
            &&& twin.focus_handle == focus_handle
            &&& split.next(HostEvent::Close) == (Lifecycle::Closed, Action::Idle)
        }),
{
}

} // verus!
