use image_viewer::ids::WorkspaceId;
use image_viewer::persistence::{ImageViewerDb, StoreError};

fn store_with(workspaces: &[i64]) -> ImageViewerDb {
    let mut db = ImageViewerDb::new();
    for w in workspaces {
        db.add_workspace(WorkspaceId(*w));
    }
    db
}

fn path(text: &str) -> Vec<u8> {
    text.as_bytes().to_vec()
}

#[test]
fn new_store_is_empty() {
    let db = ImageViewerDb::new();
    assert_eq!(db.len(), 0);
    assert!(!db.has_workspace(WorkspaceId(1)));
    assert_eq!(db.get_image_path(1, WorkspaceId(1)), Ok(None));
}

#[test]
fn add_workspace_registers_once() {
    let mut db = ImageViewerDb::new();
    db.add_workspace(WorkspaceId(4));
    db.add_workspace(WorkspaceId(4));
    assert!(db.has_workspace(WorkspaceId(4)));
    assert!(!db.has_workspace(WorkspaceId(5)));
    db.delete_workspace(WorkspaceId(4));
    assert!(!db.has_workspace(WorkspaceId(4)));
}

#[test]
fn upsert_twice_leaves_one_row() {
    let mut db = store_with(&[1]);
    assert_eq!(db.save_image_path(1, WorkspaceId(1), path("/a")), Ok(()));
    assert_eq!(db.save_image_path(1, WorkspaceId(1), path("/a")), Ok(()));
    assert_eq!(db.len(), 1);
    assert_eq!(db.get_image_path(1, WorkspaceId(1)), Ok(Some(path("/a"))));
}

#[test]
fn upsert_replaces_the_path() {
    let mut db = store_with(&[1]);
    assert_eq!(db.save_image_path(1, WorkspaceId(1), path("/a")), Ok(()));
    assert_eq!(db.save_image_path(1, WorkspaceId(1), path("/b")), Ok(()));
    assert_eq!(db.len(), 1);
    assert_eq!(db.get_image_path(1, WorkspaceId(1)), Ok(Some(path("/b"))));
}

#[test]
fn round_trip_returns_the_saved_path() {
    let mut db = store_with(&[1]);
    let p = vec![b'/', 0xff, 0xfe, b'.', b'p', b'n', b'g'];
    assert_eq!(db.save_image_path(7, WorkspaceId(1), p.clone()), Ok(()));
    assert_eq!(db.get_image_path(7, WorkspaceId(1)), Ok(Some(p)));
    assert_eq!(db.get_image_path(99, WorkspaceId(1)), Ok(None));
}

#[test]
fn get_under_another_workspace_is_none() {
    let mut db = store_with(&[1, 2]);
    assert_eq!(db.save_image_path(7, WorkspaceId(1), path("/a")), Ok(()));
    assert_eq!(db.get_image_path(7, WorkspaceId(2)), Ok(None));
}

#[test]
fn save_under_unregistered_workspace_is_refused() {
    let mut db = store_with(&[1]);
    assert_eq!(
        db.save_image_path(7, WorkspaceId(2), path("/a")),
        Err(StoreError::ForeignKeyViolation)
    );
    assert_eq!(db.len(), 0);
    assert_eq!(db.get_image_path(7, WorkspaceId(2)), Ok(None));
}

#[test]
fn refused_save_keeps_the_old_row() {
    let mut db = store_with(&[1]);
    assert_eq!(db.save_image_path(7, WorkspaceId(1), path("/a")), Ok(()));
    assert_eq!(
        db.save_image_path(7, WorkspaceId(2), path("/b")),
        Err(StoreError::ForeignKeyViolation)
    );
    assert_eq!(db.len(), 1);
    assert_eq!(db.get_image_path(7, WorkspaceId(1)), Ok(Some(path("/a"))));
}

#[test]
fn save_under_another_workspace_moves_the_item() {
    let mut db = store_with(&[1, 2]);
    assert_eq!(db.save_image_path(7, WorkspaceId(1), path("/a")), Ok(()));
    assert_eq!(db.save_image_path(7, WorkspaceId(2), path("/b")), Ok(()));
    assert_eq!(db.len(), 1);
    assert_eq!(db.get_image_path(7, WorkspaceId(1)), Ok(None));
    assert_eq!(db.get_image_path(7, WorkspaceId(2)), Ok(Some(path("/b"))));
}

#[test]
fn reconciliation_keeps_only_alive_items() {
    let mut db = store_with(&[1]);
    for id in [1u64, 2, 3] {
        assert_eq!(db.save_image_path(id, WorkspaceId(1), path("/img")), Ok(()));
    }
    assert_eq!(db.delete_unloaded_items(WorkspaceId(1), vec![2]), Ok(()));
    assert_eq!(db.len(), 1);
    assert_eq!(db.get_image_path(1, WorkspaceId(1)), Ok(None));
    assert_eq!(db.get_image_path(2, WorkspaceId(1)), Ok(Some(path("/img"))));
    assert_eq!(db.get_image_path(3, WorkspaceId(1)), Ok(None));
}

#[test]
fn reconciliation_with_no_alive_item_clears_the_workspace() {
    let mut db = store_with(&[1]);
    for id in [1u64, 2, 3] {
        assert_eq!(db.save_image_path(id, WorkspaceId(1), path("/img")), Ok(()));
    }
    assert_eq!(db.delete_unloaded_items(WorkspaceId(1), vec![]), Ok(()));
    assert_eq!(db.len(), 0);
}

#[test]
fn reconciliation_twice_changes_nothing_more() {
    let mut db = store_with(&[1]);
    for id in [1u64, 2, 3] {
        assert_eq!(db.save_image_path(id, WorkspaceId(1), vec![b'/', id as u8]), Ok(()));
    }
    assert_eq!(db.delete_unloaded_items(WorkspaceId(1), vec![3, 1]), Ok(()));
    assert_eq!(db.len(), 2);
    assert_eq!(db.delete_unloaded_items(WorkspaceId(1), vec![3, 1]), Ok(()));
    assert_eq!(db.len(), 2);
    assert_eq!(db.get_image_path(1, WorkspaceId(1)), Ok(Some(vec![b'/', 1])));
    assert_eq!(db.get_image_path(2, WorkspaceId(1)), Ok(None));
    assert_eq!(db.get_image_path(3, WorkspaceId(1)), Ok(Some(vec![b'/', 3])));
}

#[test]
fn reconciliation_spares_other_workspaces() {
    let mut db = store_with(&[1, 2]);
    assert_eq!(db.save_image_path(1, WorkspaceId(1), path("/a")), Ok(()));
    assert_eq!(db.save_image_path(2, WorkspaceId(2), path("/b")), Ok(()));
    assert_eq!(db.save_image_path(3, WorkspaceId(1), path("/c")), Ok(()));
    assert_eq!(db.delete_unloaded_items(WorkspaceId(1), vec![]), Ok(()));
    assert_eq!(db.len(), 1);
    assert_eq!(db.get_image_path(2, WorkspaceId(2)), Ok(Some(path("/b"))));
}

#[test]
fn reconciliation_ignores_alive_items_without_rows() {
    let mut db = store_with(&[1]);
    assert_eq!(db.save_image_path(1, WorkspaceId(1), path("/a")), Ok(()));
    assert_eq!(db.delete_unloaded_items(WorkspaceId(1), vec![1, 50, 60]), Ok(()));
    assert_eq!(db.len(), 1);
    assert_eq!(db.get_image_path(50, WorkspaceId(1)), Ok(None));
}

#[test]
fn update_workspace_id_moves_the_row() {
    let mut db = store_with(&[1, 2]);
    assert_eq!(db.save_image_path(7, WorkspaceId(1), path("/a")), Ok(()));
    assert_eq!(db.update_workspace_id(WorkspaceId(2), WorkspaceId(1), 7), Ok(()));
    assert_eq!(db.len(), 1);
    assert_eq!(db.get_image_path(7, WorkspaceId(1)), Ok(None));
    assert_eq!(db.get_image_path(7, WorkspaceId(2)), Ok(Some(path("/a"))));
}

#[test]
fn update_workspace_id_without_row_does_nothing() {
    let mut db = store_with(&[1, 2]);
    assert_eq!(db.save_image_path(7, WorkspaceId(1), path("/a")), Ok(()));
    assert_eq!(db.update_workspace_id(WorkspaceId(1), WorkspaceId(2), 7), Ok(()));
    assert_eq!(db.update_workspace_id(WorkspaceId(2), WorkspaceId(1), 8), Ok(()));
    assert_eq!(db.update_workspace_id(WorkspaceId(9), WorkspaceId(3), 7), Ok(()));
    assert_eq!(db.len(), 1);
    assert_eq!(db.get_image_path(7, WorkspaceId(1)), Ok(Some(path("/a"))));
}

#[test]
fn update_workspace_id_to_unregistered_workspace_is_refused() {
    let mut db = store_with(&[1]);
    assert_eq!(db.save_image_path(7, WorkspaceId(1), path("/a")), Ok(()));
    assert_eq!(
        db.update_workspace_id(WorkspaceId(2), WorkspaceId(1), 7),
        Err(StoreError::ForeignKeyViolation)
    );
    assert_eq!(db.get_image_path(7, WorkspaceId(1)), Ok(Some(path("/a"))));
}

#[test]
fn deleting_a_workspace_takes_its_rows() {
    let mut db = store_with(&[1, 2]);
    assert_eq!(db.save_image_path(1, WorkspaceId(1), path("/a")), Ok(()));
    assert_eq!(db.save_image_path(2, WorkspaceId(2), path("/b")), Ok(()));
    assert_eq!(db.save_image_path(3, WorkspaceId(1), path("/c")), Ok(()));
    db.delete_workspace(WorkspaceId(1));
    assert_eq!(db.len(), 1);
    assert!(!db.has_workspace(WorkspaceId(1)));
    assert_eq!(db.get_image_path(1, WorkspaceId(1)), Ok(None));
    assert_eq!(db.get_image_path(3, WorkspaceId(1)), Ok(None));
    assert_eq!(db.get_image_path(2, WorkspaceId(2)), Ok(Some(path("/b"))));
    assert_eq!(
        db.save_image_path(1, WorkspaceId(1), path("/a")),
        Err(StoreError::ForeignKeyViolation)
    );
}

#[test]
fn deleting_an_unknown_workspace_changes_nothing() {
    let mut db = store_with(&[1]);
    assert_eq!(db.save_image_path(1, WorkspaceId(1), path("/a")), Ok(()));
    db.delete_workspace(WorkspaceId(2));
    assert_eq!(db.len(), 1);
    assert!(db.has_workspace(WorkspaceId(1)));
}

#[test]
fn workspace_id_gives_its_integer() {
    assert_eq!(WorkspaceId(-3).to_i64(), -3);
}
