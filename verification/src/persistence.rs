//! The store that remembers which image each item showed.

use vstd::prelude::*;
use crate::ids::{ItemId, WorkspaceId};
use crate::table::{StoredPath, Table};

verus! {

/// One row of the table: the image that `item_id` showed in `workspace_id`.
/// The path is a byte string, since a file name need not be valid UTF-8.
#[derive(Clone, Debug, PartialEq, Eq)]
pub struct PersistedRow {
    pub workspace_id: WorkspaceId,
    pub item_id: ItemId,
    pub image_path: Vec<u8>,
}

/// Why the store refused a statement.
#[derive(Clone, Copy, Debug, PartialEq, Eq, Structural)]
pub enum StoreError {
    /// The row would refer to a workspace that is not registered.
    ForeignKeyViolation,
}

/// The store of the image viewer: the registered workspaces and the rows.
pub struct ImageViewerDb {
    workspaces: Vec<WorkspaceId>,
    rows: Vec<PersistedRow>,
}

/// What a row says of its item.
spec fn stored(row: PersistedRow) -> StoredPath {
    StoredPath { workspace_id: row.workspace_id, image_path: row.image_path@ }
}

/// Some row of `rows` belongs to `item_id`.
spec fn holds(rows: Seq<PersistedRow>, item_id: ItemId) -> bool {
    exists|i: int| 0 <= i < rows.len() && (#[trigger] rows[i]).item_id == item_id
}

/// The place of a row of `item_id` in `rows`.
spec fn index_of(rows: Seq<PersistedRow>, item_id: ItemId) -> int {
    choose|i: int| 0 <= i < rows.len() && (#[trigger] rows[i]).item_id == item_id
}

/// No item has two rows.
spec fn distinct_items(rows: Seq<PersistedRow>) -> bool {
    forall|i: int, j: int|
        0 <= i < j < rows.len() ==> (#[trigger] rows[i]).item_id != (#[trigger] rows[j]).item_id
}

/// The rows as a map from the item to what is stored for it.
spec fn row_map(rows: Seq<PersistedRow>) -> Map<ItemId, StoredPath> {
    Map::new(
        |item_id: ItemId| holds(rows, item_id),
        |item_id: ItemId| stored(rows[index_of(rows, item_id)]),
    )
}

/// In a table without doubled items, the row at `i` is the entry of its item.
proof fn lemma_row_at(rows: Seq<PersistedRow>, i: int)
    requires
        distinct_items(rows),
        0 <= i < rows.len(),
    ensures
        row_map(rows).contains_key(rows[i].item_id),
        row_map(rows)[rows[i].item_id] == stored(rows[i]),
        index_of(rows, rows[i].item_id) == i,
{
    let item_id = rows[i].item_id;
    assert(holds(rows, item_id));
    let j = index_of(rows, item_id);
    assert(0 <= j < rows.len() && rows[j].item_id == item_id);
    if j < i {
        assert(rows[j].item_id != rows[i].item_id);
    } else if i < j {
        assert(rows[i].item_id != rows[j].item_id);
    }
}

/// Appending a row of a new item adds its entry to the map.
proof fn lemma_push(rows: Seq<PersistedRow>, row: PersistedRow)
    requires
        distinct_items(rows),
        !holds(rows, row.item_id),
    ensures
        distinct_items(rows.push(row)),
        row_map(rows.push(row)) == row_map(rows).insert(row.item_id, stored(row)),
{
    let after = rows.push(row);
    assert forall|i: int, j: int| 0 <= i < j < after.len() implies (#[trigger] after[i]).item_id
        != (#[trigger] after[j]).item_id by {
        if j == rows.len() {
            assert(rows[i].item_id != row.item_id);
        } else {
            assert(rows[i].item_id != rows[j].item_id);
        }
    }
    assert forall|item_id: ItemId| #[trigger]
        row_map(after).contains_key(item_id) <==> row_map(rows).insert(
            row.item_id,
            stored(row),
        ).contains_key(item_id) by {
        if holds(after, item_id) {
            let i = index_of(after, item_id);
            if i < rows.len() {
                assert(rows[i].item_id == item_id);
            }
        }
        if holds(rows, item_id) {
            let i = index_of(rows, item_id);
            assert(after[i].item_id == item_id);
        }
        if item_id == row.item_id {
            assert(after[rows.len() as int].item_id == item_id);
        }
    }
    assert forall|item_id: ItemId| #[trigger] row_map(after).contains_key(item_id) implies row_map(
        after,
    )[item_id] == row_map(rows).insert(row.item_id, stored(row))[item_id] by {
        let i = index_of(after, item_id);
        lemma_row_at(after, i);
        if i < rows.len() {
            lemma_row_at(rows, i);
        }
    }
    assert(row_map(after) =~= row_map(rows).insert(row.item_id, stored(row)));
}

/// Taking the row at `i` away removes the entry of its item from the map.
proof fn lemma_remove(rows: Seq<PersistedRow>, i: int)
    requires
        distinct_items(rows),
        0 <= i < rows.len(),
    ensures
        distinct_items(rows.remove(i)),
        row_map(rows.remove(i)) == row_map(rows).remove(rows[i].item_id),
{
    let after = rows.remove(i);
    assert forall|a: int, b: int| 0 <= a < b < after.len() implies (#[trigger] after[a]).item_id
        != (#[trigger] after[b]).item_id by {
        let a0 = if a < i { a } else { a + 1 };
        let b0 = if b < i { b } else { b + 1 };
        assert(after[a] == rows[a0] && after[b] == rows[b0]);
        assert(rows[a0].item_id != rows[b0].item_id);
    }
    assert forall|item_id: ItemId| #[trigger]
        row_map(after).contains_key(item_id) <==> row_map(rows).remove(
            rows[i].item_id,
        ).contains_key(item_id) by {
        if holds(after, item_id) {
            let a = index_of(after, item_id);
            let a0 = if a < i { a } else { a + 1 };
            assert(after[a] == rows[a0]);
            assert(rows[a0].item_id == item_id);
            if a0 < i {
                assert(rows[a0].item_id != rows[i].item_id);
            } else {
                assert(rows[i].item_id != rows[a0].item_id);
            }
        }
        if holds(rows, item_id) && item_id != rows[i].item_id {
            let a0 = index_of(rows, item_id);
            let a = if a0 < i { a0 } else { a0 - 1 };
            assert(after[a] == rows[a0]);
            assert(after[a].item_id == item_id);
        }
    }
    assert forall|item_id: ItemId| #[trigger] row_map(after).contains_key(item_id) implies row_map(
        after,
    )[item_id] == row_map(rows).remove(rows[i].item_id)[item_id] by {
        let a = index_of(after, item_id);
        let a0 = if a < i { a } else { a + 1 };
        assert(after[a] == rows[a0]);
        lemma_row_at(after, a);
        lemma_row_at(rows, a0);
    }
    assert(row_map(after) =~= row_map(rows).remove(rows[i].item_id));
}

/// Replacing the row at `i` by another row of the same item replaces the
/// entry of that item.
proof fn lemma_update(rows: Seq<PersistedRow>, i: int, row: PersistedRow)
    requires
        distinct_items(rows),
        0 <= i < rows.len(),
        row.item_id == rows[i].item_id,
    ensures
        distinct_items(rows.update(i, row)),
        row_map(rows.update(i, row)) == row_map(rows).insert(row.item_id, stored(row)),
{
    let after = rows.update(i, row);
    assert forall|a: int, b: int| 0 <= a < b < after.len() implies (#[trigger] after[a]).item_id
        != (#[trigger] after[b]).item_id by {
        assert(rows[a].item_id != rows[b].item_id);
    }
    assert forall|item_id: ItemId| #[trigger]
        row_map(after).contains_key(item_id) <==> row_map(rows).insert(
            row.item_id,
            stored(row),
        ).contains_key(item_id) by {
        if holds(after, item_id) {
            let a = index_of(after, item_id);
            assert(rows[a].item_id == item_id);
        }
        if holds(rows, item_id) {
            let a = index_of(rows, item_id);
            assert(after[a].item_id == item_id);
        }
        if item_id == row.item_id {
            assert(after[i].item_id == item_id);
        }
    }
    assert forall|item_id: ItemId| #[trigger] row_map(after).contains_key(item_id) implies row_map(
        after,
    )[item_id] == row_map(rows).insert(row.item_id, stored(row))[item_id] by {
        let a = index_of(after, item_id);
        lemma_row_at(after, a);
        lemma_row_at(rows, a);
    }
    assert(row_map(after) =~= row_map(rows).insert(row.item_id, stored(row)));
}

/// A table without doubled items has as many entries as rows.
proof fn lemma_len(rows: Seq<PersistedRow>)
    requires
        distinct_items(rows),
    ensures
        row_map(rows).dom().finite(),
        row_map(rows).dom().len() == rows.len(),
    decreases rows.len(),
{
    if rows.len() == 0 {
        assert(row_map(rows).dom() =~= Set::empty());
    } else {
        let front = rows.drop_last();
        let last = rows.last();
        assert forall|i: int, j: int| 0 <= i < j < front.len() implies (#[trigger] front[i]).item_id
            != (#[trigger] front[j]).item_id by {
            assert(rows[i].item_id != rows[j].item_id);
        }
        if holds(front, last.item_id) {
            let i = index_of(front, last.item_id);
            assert(rows[i].item_id != rows[rows.len() - 1].item_id);
        }
        lemma_len(front);
        lemma_push(front, last);
        assert(front.push(last) =~= rows);
        assert(row_map(rows).dom() =~= row_map(front).dom().insert(last.item_id));
    }
}

/// The live items that a purge spares, as a sequence.
spec fn alive_view(alive: Option<&Vec<ItemId>>) -> Option<Seq<ItemId>> {
    match alive {
        Some(ids) => Some(ids@),
        None => None,
    }
}

/// Whether a purge of `workspace` takes the entry of `item_id`: it lies under
/// `workspace` and, where live items are given, `item_id` is none of them.
spec fn doomed(
    entry: StoredPath,
    item_id: ItemId,
    workspace: WorkspaceId,
    alive: Option<Seq<ItemId>>,
) -> bool {
    entry.workspace_id == workspace && match alive {
        Some(ids) => !ids.contains(item_id),
        None => true,
    }
}

/// Whether `item_id` occurs in `items`.
fn contains_item(items: &Vec<ItemId>, item_id: ItemId) -> (found: bool)
    ensures
        found == items@.contains(item_id),
{
    let mut i: usize = 0;
    while i < items.len()
        invariant
            i <= items.len(),
            forall|k: int| 0 <= k < i ==> items@[k] != item_id,
        decreases items.len() - i,
    {
        if items[i] == item_id {
            return true;
        }
        i += 1;
    }
    false
}

impl View for ImageViewerDb {
    type V = Table;

    closed spec fn view(&self) -> Table {
        Table { workspaces: self.workspaces@.to_set(), rows: row_map(self.rows@) }
    }
}

impl ImageViewerDb {
    /// The store's invariant: no item has two rows, no workspace is
    /// registered twice, and every row refers to a registered workspace.
    pub closed spec fn wf(&self) -> bool {
        &&& distinct_items(self.rows@)
        &&& self.workspaces@.no_duplicates()
        &&& forall|i: int|
            0 <= i < self.rows@.len() ==> self.workspaces@.contains(
                (#[trigger] self.rows@[i]).workspace_id,
            )
    }

    /// A store with no workspace and no row.
    pub fn new() -> (db: ImageViewerDb)
        ensures
            db.wf(),
            db@ == Table::empty(),
    {
        let db = ImageViewerDb { workspaces: Vec::new(), rows: Vec::new() };
        assert(db@.workspaces =~= Set::empty());
        assert(db@.rows =~= Map::empty());
        db
    }

    /// The place of `workspace` in the list of registered workspaces.
    fn workspace_position(&self, workspace: WorkspaceId) -> (found: Option<usize>)
        ensures
            match found {
                Some(p) => p < self.workspaces@.len() && self.workspaces@[p as int] == workspace,
                None => !self.workspaces@.contains(workspace),
            },
    {
        let mut i: usize = 0;
        while i < self.workspaces.len()
            invariant
                i <= self.workspaces.len(),
                forall|k: int| 0 <= k < i ==> self.workspaces@[k] != workspace,
            decreases self.workspaces.len() - i,
        {
            if self.workspaces[i] == workspace {
                return Some(i);
            }
            i += 1;
        }
        None
    }

    /// Whether `workspace` is registered.
    pub fn has_workspace(&self, workspace: WorkspaceId) -> (found: bool)
        ensures
            found == self@.workspaces.contains(workspace),
    {
        self.workspace_position(workspace).is_some()
    }

    /// The place of the row of `item_id`, if it has one.
    fn position(&self, item_id: ItemId) -> (found: Option<usize>)
        ensures
            match found {
                Some(i) => i < self.rows@.len() && self.rows@[i as int].item_id == item_id,
                None => !holds(self.rows@, item_id),
            },
    {
        let mut i: usize = 0;
        while i < self.rows.len()
            invariant
                i <= self.rows.len(),
                forall|k: int| 0 <= k < i ==> (#[trigger] self.rows@[k]).item_id != item_id,
            decreases self.rows.len() - i,
        {
            if self.rows[i].item_id == item_id {
                return Some(i);
            }
            i += 1;
        }
        None
    }

    /// The number of rows.
    pub fn len(&self) -> (n: usize)
        requires
            self.wf(),
        ensures
            n == self@.rows.len(),
    {
        proof {
            lemma_len(self.rows@);
        }
        self.rows.len()
    }

    /// A well-formed store holds a valid table.
    pub proof fn lemma_valid(&self)
        requires
            self.wf(),
        ensures
            self@.valid(),
    {
        vstd::seq_lib::seq_to_set_is_finite(self.workspaces@);
        lemma_len(self.rows@);
        assert forall|item_id: ItemId| #[trigger] self@.rows.contains_key(item_id) implies self@
            .workspaces.contains(self@.rows[item_id].workspace_id) by {
            let i = index_of(self.rows@, item_id);
            lemma_row_at(self.rows@, i);
            assert(self.workspaces@.contains(self.rows@[i].workspace_id));
        }
    }

    /// Registers `workspace`, so that rows may refer to it.
    pub fn add_workspace(&mut self, workspace: WorkspaceId)
        requires
            old(self).wf(),
        ensures
            final(self).wf(),
            final(self)@ == old(self)@.add_workspace(workspace),
    {
        if !self.has_workspace(workspace) {
            self.workspaces.push(workspace);
            proof {
                let before = old(self).workspaces@;
                let after = self.workspaces@;
                assert(after[before.len() as int] == workspace);
                assert forall|w: WorkspaceId| after.contains(w) <==> before.to_set().insert(
                    workspace,
                ).contains(w) by {
                    if before.contains(w) {
                        let k = choose|k: int| 0 <= k < before.len() && before[k] == w;
                        assert(after[k] == w);
                    }
                }
                assert(after.to_set() =~= before.to_set().insert(workspace));
                assert forall|i: int| 0 <= i < self.rows@.len() implies after.contains(
                    (#[trigger] self.rows@[i]).workspace_id,
                ) by {
                    let w = self.rows@[i].workspace_id;
                    assert(before.contains(w));
                    let k = choose|k: int| 0 <= k < before.len() && before[k] == w;
                    assert(after[k] == w);
                }
            }
        } else {
            assert(self@.workspaces =~= old(self)@.workspaces.insert(workspace));
        }
    }

    /// Writes the row `(workspace_id, item_id, image_path)`, replacing the row
    /// that `item_id` had, under whatever workspace. A workspace that is not
    /// registered is refused, and the store stays as it was.
    pub fn save_image_path(
        &mut self,
        item_id: ItemId,
        workspace_id: WorkspaceId,
        image_path: Vec<u8>,
    ) -> (r: Result<(), StoreError>)
        requires
            old(self).wf(),
        ensures
            final(self).wf(),
            r is Ok <==> old(self)@.workspaces.contains(workspace_id),
            r is Err ==> r == Err::<(), StoreError>(StoreError::ForeignKeyViolation),
            final(self)@ == old(self)@.save(item_id, workspace_id, image_path@),
    {
        if !self.has_workspace(workspace_id) {
            return Err(StoreError::ForeignKeyViolation);
        }
        match self.position(item_id) {
            Some(i) => {
                proof {
                    lemma_row_at(self.rows@, i as int);
                    lemma_remove(self.rows@, i as int);
                }
                self.rows.remove(i);
            },
            None => {},
        }
        let ghost cleared = self.rows@;
        assert(row_map(cleared) =~= row_map(old(self).rows@).remove(item_id));
        let row = PersistedRow { workspace_id, item_id, image_path };
        proof {
            lemma_push(cleared, row);
        }
        self.rows.push(row);
        assert(self@.rows =~= old(self)@.rows.insert(item_id, stored(row)));
        Ok(())
    }

    /// The path stored for `item_id` under `workspace_id`; `None` where there
    /// is no such row. Reading never fails.
    pub fn get_image_path(&self, item_id: ItemId, workspace_id: WorkspaceId) -> (r: Result<
        Option<Vec<u8>>,
        StoreError,
    >)
        requires
            self.wf(),
        ensures
            r is Ok,
            match r->Ok_0 {
                Some(path) => self@.lookup(item_id, workspace_id) == Some(path@),
                None => self@.lookup(item_id, workspace_id) is None,
            },
    {
        match self.position(item_id) {
            Some(i) => {
                proof {
                    lemma_row_at(self.rows@, i as int);
                }
                if self.rows[i].workspace_id == workspace_id {
                    let path = self.rows[i].image_path.clone();
                    assert(path@ =~= self.rows@[i as int].image_path@);
                    Ok(Some(path))
                } else {
                    Ok(None)
                }
            },
            None => Ok(None),
        }
    }

    /// Moves the row `(old_id, item_id)` under `new_id`. Without such a row
    /// nothing happens. The move is refused, and the store stays as it was,
    /// where the row exists and `new_id` is not registered.
    pub fn update_workspace_id(
        &mut self,
        new_id: WorkspaceId,
        old_id: WorkspaceId,
        item_id: ItemId,
    ) -> (r: Result<(), StoreError>)
        requires
            old(self).wf(),
        ensures
            final(self).wf(),
            r is Err <==> old(self)@.rekey_refused(new_id, old_id, item_id),
            r is Err ==> r == Err::<(), StoreError>(StoreError::ForeignKeyViolation),
            final(self)@ == old(self)@.rekey(new_id, old_id, item_id),
    {
        match self.position(item_id) {
            Some(i) => {
                proof {
                    lemma_row_at(self.rows@, i as int);
                }
                if self.rows[i].workspace_id == old_id {
                    if !self.has_workspace(new_id) {
                        return Err(StoreError::ForeignKeyViolation);
                    }
                    self.rows[i].workspace_id = new_id;
                    proof {
                        lemma_update(old(self).rows@, i as int, self.rows@[i as int]);
                        assert(self.rows@ =~= old(self).rows@.update(i as int, self.rows@[i as int]));
                    }
                }
            },
            None => {},
        }
        Ok(())
    }

    /// Removes every row under `workspace` whose item is not in `alive`; with
    /// no list of live items, every row under `workspace`.
    fn purge(&mut self, workspace: WorkspaceId, alive: Option<&Vec<ItemId>>)
        requires
            old(self).wf(),
        ensures
            final(self).wf(),
            final(self).workspaces@ == old(self).workspaces@,
            forall|k: int|
                0 <= k < final(self).rows@.len() ==> !doomed(
                    stored(#[trigger] final(self).rows@[k]),
                    final(self).rows@[k].item_id,
                    workspace,
                    alive_view(alive),
                ),
            final(self)@.rows == old(self)@.rows.remove_keys(
                Set::new(
                    |item_id: ItemId|
                        old(self)@.rows.contains_key(item_id) && doomed(
                            old(self)@.rows[item_id],
                            item_id,
                            workspace,
                            alive_view(alive),
                        ),
                ),
            ),
    {
        let ghost all = row_map(self.rows@);
        let ghost ids = alive_view(alive);
        let mut i: usize = 0;
        while i < self.rows.len()
            invariant
                i <= self.rows.len(),
                ids == alive_view(alive),
                distinct_items(self.rows@),
                self.workspaces@ == old(self).workspaces@,
                forall|k: int|
                    0 <= k < self.rows@.len() ==> self.workspaces@.contains(
                        (#[trigger] self.rows@[k]).workspace_id,
                    ),
                forall|k: int|
                    0 <= k < i ==> !doomed(
                        stored(#[trigger] self.rows@[k]),
                        self.rows@[k].item_id,
                        workspace,
                        ids,
                    ),
                forall|item_id: ItemId| #[trigger]
                    row_map(self.rows@).contains_key(item_id) ==> all.contains_key(item_id)
                        && all[item_id] == row_map(self.rows@)[item_id],
                forall|item_id: ItemId|
                    all.contains_key(item_id) && !doomed(all[item_id], item_id, workspace, ids)
                        ==> #[trigger] row_map(self.rows@).contains_key(item_id),
            decreases self.rows.len() - i,
        {
            let gone = self.rows[i].workspace_id == workspace && match alive {
                Some(items) => !contains_item(items, self.rows[i].item_id),
                None => true,
            };
            if gone {
                proof {
                    lemma_row_at(self.rows@, i as int);
                    lemma_remove(self.rows@, i as int);
                }
                self.rows.remove(i);
            } else {
                i += 1;
            }
        }
        proof {
            let kept = row_map(self.rows@);
            let taken = Set::new(
                |item_id: ItemId| all.contains_key(item_id) && doomed(all[item_id], item_id, workspace, ids),
            );
            assert forall|item_id: ItemId| #[trigger] kept.contains_key(item_id) implies !taken.contains(
                item_id,
            ) by {
                lemma_row_at(self.rows@, index_of(self.rows@, item_id));
            }
            assert(kept =~= all.remove_keys(taken));
        }
    }

    /// Reconciles the rows of `workspace` with the items that are still open:
    /// every row under `workspace` whose item is not in `alive_items` goes,
    /// every other row stays. With no live item, every row of `workspace`
    /// goes. This never fails.
    pub fn delete_unloaded_items(&mut self, workspace: WorkspaceId, alive_items: Vec<ItemId>) -> (r:
        Result<(), StoreError>)
        requires
            old(self).wf(),
        ensures
            final(self).wf(),
            r is Ok,
            final(self)@ == old(self)@.delete_unloaded(workspace, alive_items@),
    {
        self.purge(workspace, Some(&alive_items));
        proof {
            let before = old(self)@;
            let taken = Set::new(
                |item_id: ItemId|
                    before.rows.contains_key(item_id) && doomed(
                        before.rows[item_id],
                        item_id,
                        workspace,
                        Some(alive_items@),
                    ),
            );
            assert(taken =~= Set::new(
                |item_id: ItemId| before.is_unloaded(item_id, workspace, alive_items@),
            ));
        }
        Ok(())
    }

    /// Deletes `workspace` and, with it, every row that refers to it.
    pub fn delete_workspace(&mut self, workspace: WorkspaceId)
        requires
            old(self).wf(),
        ensures
            final(self).wf(),
            final(self)@ == old(self)@.delete_workspace(workspace),
    {
        self.purge(workspace, None);
        proof {
            let before = old(self)@;
            let taken = Set::new(
                |item_id: ItemId|
                    before.rows.contains_key(item_id) && doomed(
                        before.rows[item_id],
                        item_id,
                        workspace,
                        None,
                    ),
            );
            assert(taken =~= Set::new(|item_id: ItemId| before.has_row(item_id, workspace)));
        }
        let ghost listed = self.workspaces@;
        match self.workspace_position(workspace) {
            Some(p) => {
                self.workspaces.remove(p);
                proof {
                    let after = self.workspaces@;
                    assert forall|a: int, b: int|
                        0 <= a < after.len() && 0 <= b < after.len() && a != b implies after[a]
                        != after[b] by {
                        let a0 = if a < p { a } else { a + 1 };
                        let b0 = if b < p { b } else { b + 1 };
                        assert(after[a] == listed[a0] && after[b] == listed[b0]);
                    }
                    assert forall|w: WorkspaceId| after.contains(w) <==> listed.to_set().remove(
                        workspace,
                    ).contains(w) by {
                        if after.contains(w) {
                            let a = choose|a: int| 0 <= a < after.len() && after[a] == w;
                            let a0 = if a < p { a } else { a + 1 };
                            assert(after[a] == listed[a0]);
                            assert(listed[a0] != listed[p as int]);
                        }
                        if listed.contains(w) && w != workspace {
                            let a0 = choose|a0: int| 0 <= a0 < listed.len() && listed[a0] == w;
                            let a = if a0 < p { a0 } else { a0 - 1 };
                            assert(after[a] == w);
                        }
                    }
                    assert(after.to_set() =~= listed.to_set().remove(workspace));
                    assert forall|k: int| 0 <= k < self.rows@.len() implies after.contains(
                        (#[trigger] self.rows@[k]).workspace_id,
                    ) by {
                        let w = self.rows@[k].workspace_id;
                        assert(!doomed(stored(self.rows@[k]), self.rows@[k].item_id, workspace, None));
                        assert(listed.contains(w));
                    }
                }
            },
            None => {
                assert(listed.to_set() =~= listed.to_set().remove(workspace));
            },
        }
    }

}

} // verus!
