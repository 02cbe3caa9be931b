use image_viewer::ids::WorkspaceId;
use image_viewer::statement::{delete_unloaded_statement, SqlValue};

#[test]
fn statement_without_alive_items_has_an_empty_list() {
    let statement = delete_unloaded_statement(WorkspaceId(5), &vec![]);
    assert_eq!(
        statement.sql,
        "DELETE FROM image_viewers WHERE workspace_id = ? AND item_id NOT IN ()"
    );
    assert_eq!(statement.bindings, vec![SqlValue::Workspace(WorkspaceId(5))]);
}

#[test]
fn statement_with_one_alive_item() {
    let statement = delete_unloaded_statement(WorkspaceId(5), &vec![42]);
    assert_eq!(
        statement.sql,
        "DELETE FROM image_viewers WHERE workspace_id = ? AND item_id NOT IN (?)"
    );
    assert_eq!(
        statement.bindings,
        vec![SqlValue::Workspace(WorkspaceId(5)), SqlValue::Item(42)]
    );
}

#[test]
fn statement_binds_every_alive_item_in_order() {
    let statement = delete_unloaded_statement(WorkspaceId(1), &vec![9, 3, 7]);
    assert_eq!(
        statement.sql,
        "DELETE FROM image_viewers WHERE workspace_id = ? AND item_id NOT IN (?, ?, ?)"
    );
    assert_eq!(
        statement.bindings,
        vec![
            SqlValue::Workspace(WorkspaceId(1)),
            SqlValue::Item(9),
            SqlValue::Item(3),
            SqlValue::Item(7),
        ]
    );
}

#[test]
fn statement_has_one_placeholder_for_each_binding() {
    for n in [0usize, 1, 2, 10, 100] {
        let alive: Vec<u64> = (0..n as u64).collect();
        let statement = delete_unloaded_statement(WorkspaceId(1), &alive);
        let marks = statement.sql.chars().filter(|c| *c == '?').count();
        assert_eq!(marks, n + 1);
        assert_eq!(statement.bindings.len(), n + 1);
    }
}

#[test]
fn statement_text_does_not_depend_on_the_identities() {
    let a = delete_unloaded_statement(WorkspaceId(1), &vec![1, 2]);
    let b = delete_unloaded_statement(WorkspaceId(77), &vec![u64::MAX, 0]);
    assert_eq!(a.sql, b.sql);
}
