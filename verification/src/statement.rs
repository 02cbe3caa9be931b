//! The statement that reconciles the table in a database.
//!
//! The text holds one placeholder for the workspace and one for each live
//! item. No identity is written into the text: each is bound as a parameter.

use vstd::prelude::*;
use crate::ids::{ItemId, WorkspaceId};

verus! {

/// A value bound to a placeholder.
#[derive(Clone, Copy, Debug, PartialEq, Eq, Structural)]
pub enum SqlValue {
    Workspace(WorkspaceId),
    Item(ItemId),
}

/// A statement and its parameters: `bindings[k]` is bound to the placeholder
/// `k + 1`, counting the placeholders of the text from the left.
#[derive(Clone, Debug, PartialEq, Eq)]
pub struct Statement {
    pub sql: String,
    pub bindings: Vec<SqlValue>,
}

/// `count` placeholders, separated by a comma and a space.
pub open spec fn placeholders(count: nat) -> Seq<char>
    decreases count,
{
    if count == 0 {
        Seq::empty()
    } else if count == 1 {
        seq!['?']
    } else {
        placeholders((count - 1) as nat) + seq![',', ' ', '?']
    }
}

/// The statement's text up to the list of live items.
pub open spec fn delete_unloaded_head() -> Seq<char> {
    "DELETE FROM image_viewers WHERE workspace_id = ? AND item_id NOT IN ("@
}

/// The text of the statement that spares `alive_count` items.
pub open spec fn delete_unloaded_sql(alive_count: nat) -> Seq<char> {
    delete_unloaded_head() + placeholders(alive_count) + seq![')']
}

/// The parameters of the statement: the workspace, then the live items in
/// their order.
pub open spec fn delete_unloaded_bindings(workspace: WorkspaceId, alive: Seq<ItemId>) -> Seq<
    SqlValue,
> {
    seq![SqlValue::Workspace(workspace)] + Seq::new(
        alive.len(),
        |k: int| SqlValue::Item(alive[k]),
    )
}

/// The statement that deletes every row of `workspace` whose item is not
/// among `alive_items`, with its parameters.
pub fn delete_unloaded_statement(workspace: WorkspaceId, alive_items: &Vec<ItemId>) -> (statement:
    Statement)
    ensures
        statement.sql@ == delete_unloaded_sql(alive_items@.len()),
        statement.bindings@ == delete_unloaded_bindings(workspace, alive_items@),
{
    let mut sql = "DELETE FROM image_viewers WHERE workspace_id = ? AND item_id NOT IN (".to_owned();
    let mut bindings: Vec<SqlValue> = Vec::new();
    bindings.push(SqlValue::Workspace(workspace));
    let mut i: usize = 0;
    while i < alive_items.len()
        invariant
            i <= alive_items.len(),
            sql@ == delete_unloaded_head() + placeholders(i as nat),
            bindings@ == seq![SqlValue::Workspace(workspace)] + Seq::new(
                i as nat,
                |k: int| SqlValue::Item(alive_items@[k]),
            ),
        decreases alive_items.len() - i,
    {
        if i == 0 {
            proof {
                reveal_strlit("?");
                assert("?"@ =~= seq!['?']);
            }
            sql.append("?");
        } else {
            proof {
                reveal_strlit(", ?");
                assert(", ?"@ =~= seq![',', ' ', '?']);
            }
            sql.append(", ?");
        }
        bindings.push(SqlValue::Item(alive_items[i]));
        i += 1;
    }
    proof {
        reveal_strlit(")");
        assert(")"@ =~= seq![')']);
    }
    sql.append(")");
    Statement { sql, bindings }
}

/// The number of placeholders in a text.
pub open spec fn placeholder_count(text: Seq<char>) -> nat
    decreases text.len(),
{
    if text.len() == 0 {
        0
    } else {
        placeholder_count(text.drop_last()) + if text.last() == '?' {
            1nat
        } else {
            0nat
        }
    }
}

/// The placeholders of two texts add up when the texts are joined.
proof fn lemma_count_joined(a: Seq<char>, b: Seq<char>)
    ensures
        placeholder_count(a + b) == placeholder_count(a) + placeholder_count(b),
    decreases b.len(),
{
    if b.len() == 0 {
        assert(a + b =~= a);
    } else {
        assert((a + b).drop_last() =~= a + b.drop_last());
        lemma_count_joined(a, b.drop_last());
    }
}

/// A text in which no character is a question mark has no placeholder.
proof fn lemma_count_none(text: Seq<char>)
    requires
        forall|i: int| 0 <= i < text.len() ==> text[i] != '?',
    ensures
        placeholder_count(text) == 0,
    decreases text.len(),
{
    if text.len() > 0 {
        lemma_count_none(text.drop_last());
    }
}

/// The head of the statement has one placeholder, that of the workspace.
proof fn lemma_count_head()
    ensures
        placeholder_count(delete_unloaded_head()) == 1,
{
    let head = delete_unloaded_head();
    reveal_strlit("DELETE FROM image_viewers WHERE workspace_id = ? AND item_id NOT IN (");
    let before = head.subrange(0, 47);
    let after = head.subrange(48, head.len() as int);
    let mark = seq!['?'];
    assert(head =~= before + mark + after);
    assert forall|i: int| 0 <= i < before.len() implies before[i] != '?' by {
        assert(before[i] == head[i]);
    }
    assert forall|i: int| 0 <= i < after.len() implies after[i] != '?' by {
        assert(after[i] == head[i + 48]);
    }
    lemma_count_none(before);
    lemma_count_none(after);
    lemma_count_joined(before + mark, after);
    lemma_count_joined(before, mark);
    assert(mark.drop_last() =~= Seq::<char>::empty());
    assert(placeholder_count(mark.drop_last()) == 0);
}

/// A list for `count` items has `count` placeholders.
proof fn lemma_count_list(count: nat)
    ensures
        placeholder_count(placeholders(count)) == count,
    decreases count,
{
    let mark = seq!['?'];
    assert(mark.drop_last() =~= Seq::<char>::empty());
    assert(placeholder_count(mark.drop_last()) == 0);
    if count > 1 {
        let next = seq![',', ' ', '?'];
        assert(next =~= seq![',', ' '] + mark);
        lemma_count_none(seq![',', ' ']);
        lemma_count_joined(seq![',', ' '], mark);
        lemma_count_list((count - 1) as nat);
        lemma_count_joined(placeholders((count - 1) as nat), next);
    }
}

/// Every identity is bound, none is written into the text: the statement has
/// one placeholder for each of its parameters, which are the workspace and
/// the live items, and its text is the same for any identities.
pub proof fn placeholders_match_bindings(workspace: WorkspaceId, alive: Seq<ItemId>)
    ensures
        placeholder_count(delete_unloaded_sql(alive.len())) == delete_unloaded_bindings(
            workspace,
            alive,
        ).len(),
        delete_unloaded_bindings(workspace, alive).len() == alive.len() + 1,
{
    let close = seq![')'];
    lemma_count_head();
    lemma_count_list(alive.len());
    lemma_count_none(close);
    lemma_count_joined(delete_unloaded_head(), placeholders(alive.len()));
    lemma_count_joined(delete_unloaded_head() + placeholders(alive.len()), close);
}

} // verus!
