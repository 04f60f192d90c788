//! Tables of records keyed by id, as sequences with unique keys.
use vstd::prelude::*;
use crate::ids::Id;
use crate::models::{Cluster, Node, Operation};

verus! {

/// A record with an id.
pub trait Keyed {
    spec fn key(&self) -> Id;

    fn id_of(&self) -> (r: Id)
        ensures
            r == self.key(),
    ;
}

impl Keyed for Cluster {
    open spec fn key(&self) -> Id {
        self.id
    }

    fn id_of(&self) -> (r: Id) {
        self.id
    }
}

impl Keyed for Node {
    open spec fn key(&self) -> Id {
        self.id
    }

    fn id_of(&self) -> (r: Id) {
        self.id
    }
}

impl Keyed for Operation {
    open spec fn key(&self) -> Id {
        self.id
    }

    fn id_of(&self) -> (r: Id) {
        self.id
    }
}

/// Some row of `rows` has the id `id`.
pub open spec fn has_key<V: Keyed>(rows: Seq<V>, id: Id) -> bool {
    exists|i: int| 0 <= i < rows.len() && (#[trigger] rows[i]).key() == id
}

/// No two rows of `rows` share an id.
pub open spec fn keys_unique<V: Keyed>(rows: Seq<V>) -> bool {
    forall|i: int, j: int|
        0 <= i < rows.len() && 0 <= j < rows.len() && i != j ==> (#[trigger] rows[i]).key()
            != (#[trigger] rows[j]).key()
}

/// The place of a row with id `id`, when there is one.
pub open spec fn index_of<V: Keyed>(rows: Seq<V>, id: Id) -> int {
    choose|i: int| 0 <= i < rows.len() && (#[trigger] rows[i]).key() == id
}

/// The row with id `id`, if any.
pub open spec fn row_for<V: Keyed>(rows: Seq<V>, id: Id) -> Option<V> {
    if has_key(rows, id) {
        Some(rows[index_of(rows, id)])
    } else {
        None
    }
}

/// The rows without the one that has id `id`.
pub open spec fn without_key<V: Keyed>(rows: Seq<V>, id: Id) -> Seq<V> {
    if has_key(rows, id) {
        rows.remove(index_of(rows, id))
    } else {
        rows
    }
}

/// In a table with unique ids, the row at `i` is the row for its id.
pub proof fn lemma_row_at<V: Keyed>(rows: Seq<V>, i: int)
    requires
        keys_unique(rows),
        0 <= i < rows.len(),
    ensures
        has_key(rows, rows[i].key()),
        index_of(rows, rows[i].key()) == i,
        row_for(rows, rows[i].key()) == Some(rows[i]),
{
    assert(has_key(rows, rows[i].key()));
}

/// Appending a row with a new id keeps ids unique, makes it the row for its
/// id, and leaves every other id's row as it was.
pub proof fn lemma_push_new<V: Keyed>(rows: Seq<V>, v: V)
    requires
        keys_unique(rows),
        !has_key(rows, v.key()),
    ensures
        keys_unique(rows.push(v)),
        row_for(rows.push(v), v.key()) == Some(v),
        forall|k: Id| k != v.key() ==> #[trigger] row_for(rows.push(v), k) == row_for(rows, k),
{
    let s = rows.push(v);
    assert forall|i: int, j: int|
        0 <= i < s.len() && 0 <= j < s.len() && i != j implies (#[trigger] s[i]).key() != (
        #[trigger] s[j]).key() by {
        if i < rows.len() && j < rows.len() {
            assert(s[i] == rows[i] && s[j] == rows[j]);
        } else if i < rows.len() {
            assert(s[i] == rows[i]);
        } else {
            assert(s[j] == rows[j]);
        }
    }
    lemma_row_at(s, rows.len() as int);
    assert forall|k: Id| k != v.key() implies #[trigger] row_for(s, k) == row_for(rows, k) by {
        if has_key(rows, k) {
            let i = index_of(rows, k);
            assert(s[i] == rows[i]);
            lemma_row_at(rows, i);
            lemma_row_at(s, i);
        } else {
            if has_key(s, k) {
                let i = index_of(s, k);
                assert(s[i] == rows[i]);
            }
        }
    }
}

/// Replacing the row at `i` by a row with the same id keeps ids unique and
/// changes only that id's row.
pub proof fn lemma_update_same_key<V: Keyed>(rows: Seq<V>, i: int, v: V)
    requires
        keys_unique(rows),
        0 <= i < rows.len(),
        rows[i].key() == v.key(),
    ensures
        keys_unique(rows.update(i, v)),
        row_for(rows.update(i, v), v.key()) == Some(v),
        forall|k: Id| k != v.key() ==> #[trigger] row_for(rows.update(i, v), k) == row_for(rows, k),
{
    let s = rows.update(i, v);
    lemma_row_at(rows, i);
    assert forall|a: int, b: int|
        0 <= a < s.len() && 0 <= b < s.len() && a != b implies (#[trigger] s[a]).key() != (
        #[trigger] s[b]).key() by {
        assert(s[a].key() == rows[a].key());
        assert(s[b].key() == rows[b].key());
    }
    lemma_row_at(s, i);
    assert forall|k: Id| k != v.key() implies #[trigger] row_for(s, k) == row_for(rows, k) by {
        if has_key(rows, k) {
            let j = index_of(rows, k);
            lemma_row_at(rows, j);
            assert(s[j] == rows[j]);
            lemma_row_at(s, j);
        } else {
            if has_key(s, k) {
                let j = index_of(s, k);
                assert(s[j].key() == rows[j].key());
            }
        }
    }
}

/// Removing the row at `i` keeps ids unique, leaves no row for its id, and
/// leaves every other id's row as it was.
pub proof fn lemma_remove_at<V: Keyed>(rows: Seq<V>, i: int)
    requires
        keys_unique(rows),
        0 <= i < rows.len(),
    ensures
        keys_unique(rows.remove(i)),
        without_key(rows, rows[i].key()) == rows.remove(i),
        !has_key(rows.remove(i), rows[i].key()),
        forall|k: Id|
            k != rows[i].key() ==> #[trigger] row_for(rows.remove(i), k) == row_for(rows, k),
{
    let s = rows.remove(i);
    let id = rows[i].key();
    lemma_row_at(rows, i);
    assert forall|a: int, b: int|
        0 <= a < s.len() && 0 <= b < s.len() && a != b implies (#[trigger] s[a]).key() != (
        #[trigger] s[b]).key() by {
        let a0 = if a < i { a } else { a + 1 };
        let b0 = if b < i { b } else { b + 1 };
        assert(s[a] == rows[a0]);
        assert(s[b] == rows[b0]);
    }
    if has_key(s, id) {
        let a = index_of(s, id);
        let a0 = if a < i { a } else { a + 1 };
        assert(s[a] == rows[a0]);
    }
    assert forall|k: Id| k != id implies #[trigger] row_for(s, k) == row_for(rows, k) by {
        if has_key(rows, k) {
            let j = index_of(rows, k);
            lemma_row_at(rows, j);
            let j1 = if j < i { j } else { j - 1 };
            assert(s[j1] == rows[j]);
            lemma_row_at(s, j1);
        } else {
            if has_key(s, k) {
                let a = index_of(s, k);
                let a0 = if a < i { a } else { a + 1 };
                assert(s[a] == rows[a0]);
            }
        }
    }
}

/// The place of the row with id `id` in `rows`, if any.
pub fn position<V: Keyed>(rows: &Vec<V>, id: Id) -> (r: Option<usize>)
    ensures
        r matches Some(i) ==> i < rows@.len() && rows@[i as int].key() == id,
        r is None <==> !has_key(rows@, id),
{
    let mut i: usize = 0;
    while i < rows.len()
        invariant
            i <= rows@.len(),
            forall|j: int| 0 <= j < i ==> (#[trigger] rows@[j]).key() != id,
        decreases rows@.len() - i,
    {
        if rows[i].id_of() == id {
            return Some(i);
        }
        i = i + 1;
    }
    None
}

} // verus!
