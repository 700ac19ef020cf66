use crate::handlers::{create_reply, delete_reply, get_reply, update_reply, HttpReply, ReplyBody};
use crate::models::{StoreError, Todo};
use crate::store::{has_id, index_of, lookup, TableModel};
use vstd::prelude::*;

verus! {

/// The state after creating one record per title, in order.
pub open spec fn creates(s: TableModel, titles: Seq<String>) -> TableModel
    decreases titles.len(),
{
    if titles.len() == 0 {
        s
    } else {
        creates(s, titles.drop_last()).create(titles.last())
    }
}

/// In rows whose identifiers strictly increase, the row found for `id` is
/// the one at any position that carries `id`.
pub proof fn lemma_index_unique(rows: Seq<Todo>, id: i32, i: int)
    requires
        forall|a: int, b: int| 0 <= a < b < rows.len() ==> #[trigger] rows[a].id < #[trigger] rows[b].id,
        0 <= i < rows.len(),
        rows[i].id == id,
    ensures
        has_id(rows, id),
        index_of(rows, id) == i,
        lookup(rows, id) == Some(rows[i]),
{
    assert(has_id(rows, id));
    let j = index_of(rows, id);
    if j < i {
        assert(rows[j].id < rows[i].id);
    } else if j > i {
        assert(rows[i].id < rows[j].id);
    }
}

/// Starting from an empty table with enough identifiers left, creating one
/// record per title leaves exactly one row per creation: in order, each with
/// its title, not completed, and the identifier that creation assigned.
pub proof fn lemma_list_after_creates(s: TableModel, titles: Seq<String>)
    requires
        s.wf(),
        s.rows.len() == 0,
        s.next_id + titles.len() <= i32::MAX,
    ensures
        creates(s, titles).rows.len() == titles.len(),
        creates(s, titles).next_id == s.next_id + titles.len(),
        forall|i: int|
            0 <= i < titles.len() ==> #[trigger] creates(s, titles).rows[i] == (Todo {
                id: (s.next_id + i) as i32,
                title: titles[i],
                completed: false,
            }),
    decreases titles.len(),
{
    if titles.len() > 0 {
        let prev = titles.drop_last();
        lemma_list_after_creates(s, prev);
        let p = creates(s, prev);
        assert(p.can_create());
        let e = creates(s, titles);
        assert(e == p.create(titles.last()));
        assert forall|i: int| 0 <= i < titles.len() implies #[trigger] e.rows[i] == (Todo {
            id: (s.next_id + i) as i32,
            title: titles[i],
            completed: false,
        }) by {
            if i < prev.len() {
                assert(e.rows[i] == p.rows[i]);
                assert(creates(s, prev).rows[i] == p.rows[i]);
                assert(prev[i] == titles[i]);
            }
        }
    }
}

/// An identifier that the table never assigned (not positive, or not yet
/// reached) is not found: a get on it answers 404.
pub proof fn lemma_get_unassigned_not_found(s: TableModel, id: i32)
    requires
        s.wf(),
        id < 1 || id >= s.next_id,
    ensures
        lookup(s.rows, id) is None,
        get_reply(Ok::<Option<Todo>, StoreError>(lookup(s.rows, id))).status == 404,
{
    if has_id(s.rows, id) {
        let j = index_of(s.rows, id);
        assert(1 <= s.rows[j].id < s.next_id);
    }
}

/// Updating an existing record changes its title only: its identifier and
/// `completed` stay, every other row stays, and the reply carries the new
/// title at once.
pub proof fn lemma_update_changes_title_only(s: TableModel, id: i32, title: String)
    requires
        s.wf(),
        has_id(s.rows, id),
    ensures
        s.update(id, title).wf(),
        s.update(id, title).next_id == s.next_id,
        s.update(id, title).rows.len() == s.rows.len(),
        forall|k: int|
            0 <= k < s.rows.len() && s.rows[k].id != id ==> #[trigger] s.update(id, title).rows[k]
                == s.rows[k],
        lookup(s.update(id, title).rows, id) == Some(
            Todo { id, title, completed: lookup(s.rows, id).unwrap().completed },
        ),
        update_reply(Ok::<Option<Todo>, StoreError>(lookup(s.update(id, title).rows, id))) == (
        HttpReply {
            status: 200,
            body: ReplyBody::Record(
                Todo { id, title, completed: lookup(s.rows, id).unwrap().completed },
            ),
        }),
{
    let i = index_of(s.rows, id);
    let s2 = s.update(id, title);
    assert(s.rows[i].id == id);
    assert(forall|k: int| 0 <= k < s2.rows.len() ==> s2.rows[k].id == s.rows[k].id);
    lemma_index_unique(s2.rows, id, i);
}

/// Updating an identifier that no row carries answers 404 and creates nothing.
pub proof fn lemma_update_missing(s: TableModel, id: i32, title: String)
    requires
        !has_id(s.rows, id),
    ensures
        s.update(id, title) == s,
        !has_id(s.update(id, title).rows, id),
        update_reply(Ok::<Option<Todo>, StoreError>(lookup(s.update(id, title).rows, id))).status
            == 404,
{
}

/// Deleting an existing record affects one row and answers success; a later
/// get on the same identifier answers 404.
pub proof fn lemma_delete_then_get(s: TableModel, id: i32)
    requires
        s.wf(),
        has_id(s.rows, id),
    ensures
        s.delete_count(id) == 1,
        delete_reply(Ok::<usize, StoreError>(s.delete_count(id) as usize)).status == 200,
        s.delete(id).wf(),
        lookup(s.delete(id).rows, id) is None,
        get_reply(Ok::<Option<Todo>, StoreError>(lookup(s.delete(id).rows, id))).status == 404,
{
    let i = index_of(s.rows, id);
    let rows = s.delete(id).rows;
    assert(s.rows[i].id == id);
    assert forall|k: int| 0 <= k < rows.len() implies #[trigger] rows[k] == (if k < i {
        s.rows[k]
    } else {
        s.rows[k + 1]
    }) by {}
    assert forall|a: int, b: int| 0 <= a < b < rows.len() implies rows[a].id < rows[b].id by {
        let a0 = if a < i { a } else { a + 1 };
        let b0 = if b < i { b } else { b + 1 };
        assert(rows[a] == s.rows[a0]);
        assert(rows[b] == s.rows[b0]);
        assert(s.rows[a0].id < s.rows[b0].id);
    }
    assert forall|k: int| 0 <= k < rows.len() implies 1 <= #[trigger] rows[k].id < s.next_id by {
        if k < i {
            assert(rows[k] == s.rows[k]);
        } else {
            assert(rows[k] == s.rows[k + 1]);
        }
    }
    if has_id(rows, id) {
        let j = index_of(rows, id);
        if j < i {
            assert(rows[j] == s.rows[j]);
            assert(s.rows[j].id < s.rows[i].id);
        } else {
            assert(rows[j] == s.rows[j + 1]);
            assert(s.rows[i].id < s.rows[j + 1].id);
        }
    }
}

/// Deleting an identifier that no row carries affects no row, changes
/// nothing and answers 404.
pub proof fn lemma_delete_missing(s: TableModel, id: i32)
    requires
        !has_id(s.rows, id),
    ensures
        s.delete_count(id) == 0,
        s.delete(id) == s,
        delete_reply(Ok::<usize, StoreError>(s.delete_count(id) as usize)).status == 404,
{
}

/// A get by the identifier that a creation returned finds exactly the record
/// that the creation returned, and answers with the same reply.
pub proof fn lemma_create_then_get(s: TableModel, title: String)
    requires
        s.wf(),
        s.can_create(),
    ensures
        s.new_record(title).id >= 1,
        s.create(title).wf(),
        lookup(s.create(title).rows, s.new_record(title).id) == Some(s.new_record(title)),
        get_reply(
            Ok::<Option<Todo>, StoreError>(
                lookup(s.create(title).rows, s.new_record(title).id),
            ),
        ) == create_reply(Ok::<Todo, StoreError>(s.new_record(title))),
{
    let s2 = s.create(title);
    let n = s.rows.len() as int;
    assert(forall|k: int| 0 <= k < n ==> s2.rows[k] == s.rows[k]);
    assert forall|a: int, b: int| 0 <= a < b < s2.rows.len() implies s2.rows[a].id
        < s2.rows[b].id by {
        assert(s2.rows[a] == s.rows[a]);
        if b < n {
            assert(s2.rows[b] == s.rows[b]);
        }
    }
    assert forall|k: int| 0 <= k < s2.rows.len() implies 1 <= #[trigger] s2.rows[k].id
        < s2.next_id by {
        if k < n {
            assert(s2.rows[k] == s.rows[k]);
        }
    }
    lemma_index_unique(s2.rows, s.new_record(title).id, n);
}

} // verus!
