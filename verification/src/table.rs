//! Tables: rows of records, each with an identifier, in the order of their insertion.
use vstd::prelude::*;

use crate::record::Record;
use crate::text::same_text;

verus! {

/// A record that is found by its identifier.
pub trait Entity: Record {
    /// The identifier of a record.
    spec fn key(model: Self::V) -> Seq<char>;

    fn id_text(&self) -> (r: &str)
        ensures
            r@ == Self::key(self.deep_view()),
    ;
}

/// The place of the first row with the given identifier; the number of rows where there
/// is none.
pub open spec fn index_of<E: Entity>(rows: Seq<E::V>, id: Seq<char>) -> int
    decreases rows.len(),
{
    if rows.len() == 0 {
        0
    } else if E::key(rows[0]) == id {
        0
    } else {
        1 + index_of::<E>(rows.drop_first(), id)
    }
}

/// The row with the given identifier.
pub open spec fn lookup<E: Entity>(rows: Seq<E::V>, id: Seq<char>) -> Option<E::V> {
    if index_of::<E>(rows, id) < rows.len() {
        Some(rows[index_of::<E>(rows, id)])
    } else {
        None
    }
}

/// There is a row with the given identifier.
pub open spec fn holds<E: Entity>(rows: Seq<E::V>, id: Seq<char>) -> bool {
    lookup::<E>(rows, id) is Some
}

/// No two rows have the same identifier.
pub open spec fn unique<E: Entity>(rows: Seq<E::V>) -> bool {
    forall|i: int, j: int|
        0 <= i < j < rows.len() ==> E::key(#[trigger] rows[i]) != E::key(#[trigger] rows[j])
}

pub proof fn lemma_index_of<E: Entity>(rows: Seq<E::V>, id: Seq<char>)
    ensures
        0 <= index_of::<E>(rows, id) <= rows.len(),
        index_of::<E>(rows, id) < rows.len() ==> E::key(rows[index_of::<E>(rows, id)]) == id,
        forall|j: int|
            0 <= j < index_of::<E>(rows, id) ==> E::key(#[trigger] rows[j]) != id,
    decreases rows.len(),
{
    if rows.len() > 0 && E::key(rows[0]) != id {
        let tail = rows.drop_first();
        lemma_index_of::<E>(tail, id);
        assert forall|j: int| 0 <= j < index_of::<E>(rows, id) implies E::key(#[trigger] rows[j])
            != id by {
            if j > 0 {
                assert(rows[j] == tail[j - 1]);
            }
        }
    }
}

/// The first place that has the identifier is the place of the identifier.
pub proof fn lemma_index_of_is<E: Entity>(rows: Seq<E::V>, id: Seq<char>, at: int)
    requires
        0 <= at <= rows.len(),
        at < rows.len() ==> E::key(rows[at]) == id,
        forall|j: int| 0 <= j < at ==> E::key(#[trigger] rows[j]) != id,
    ensures
        index_of::<E>(rows, id) == at,
{
    lemma_index_of::<E>(rows, id);
    let found = index_of::<E>(rows, id);
    if found < at {
        assert(E::key(rows[found]) != id);
    }
    if at < found {
        assert(E::key(rows[at]) != id);
    }
}

/// In rows without a repeated identifier, the place of an identifier is the only one.
pub proof fn lemma_index_of_is_only<E: Entity>(rows: Seq<E::V>, id: Seq<char>, at: int)
    requires
        unique::<E>(rows),
        0 <= at < rows.len(),
        E::key(rows[at]) == id,
    ensures
        index_of::<E>(rows, id) == at,
{
    lemma_index_of_is::<E>(rows, id, at);
}

/// Where identifiers are unique, any row is found by its identifier.
pub proof fn lemma_lookup_row<E: Entity>(rows: Seq<E::V>, at: int)
    requires
        unique::<E>(rows),
        0 <= at < rows.len(),
    ensures
        lookup::<E>(rows, E::key(rows[at])) == Some(rows[at]),
{
    lemma_index_of_is::<E>(rows, E::key(rows[at]), at);
}

/// A row added at the end is found unless an earlier row has its identifier; all other
/// rows are found as before.
pub proof fn lemma_lookup_push<E: Entity>(rows: Seq<E::V>, row: E::V, id: Seq<char>)
    ensures
        lookup::<E>(rows.push(row), id) == (if holds::<E>(rows, id) {
            lookup::<E>(rows, id)
        } else if E::key(row) == id {
            Some(row)
        } else {
            None
        }),
{
    lemma_index_of::<E>(rows, id);
    let at = index_of::<E>(rows, id);
    let longer = rows.push(row);
    if at < rows.len() {
        assert forall|j: int| 0 <= j < at implies E::key(#[trigger] longer[j]) != id by {
            assert(longer[j] == rows[j]);
        }
        lemma_index_of_is::<E>(longer, id, at);
    } else {
        assert forall|j: int| 0 <= j < rows.len() implies E::key(#[trigger] longer[j]) != id by {
            assert(longer[j] == rows[j]);
        }
        if E::key(row) == id {
            lemma_index_of_is::<E>(longer, id, rows.len() as int);
        } else {
            lemma_index_of_is::<E>(longer, id, longer.len() as int);
        }
    }
}

/// Adding a row with a new identifier keeps identifiers unique.
pub proof fn lemma_unique_push<E: Entity>(rows: Seq<E::V>, row: E::V)
    requires
        unique::<E>(rows),
        !holds::<E>(rows, E::key(row)),
    ensures
        unique::<E>(rows.push(row)),
{
    lemma_index_of::<E>(rows, E::key(row));
    let longer = rows.push(row);
    assert forall|i: int, j: int| 0 <= i < j < longer.len() implies E::key(#[trigger] longer[i])
        != E::key(#[trigger] longer[j]) by {
        assert(longer[i] == rows[i]);
        if j < rows.len() {
            assert(longer[j] == rows[j]);
        }
    }
}

/// Replacing a row by one with the same identifier changes what is found by that
/// identifier, and nothing else.
pub proof fn lemma_lookup_replace<E: Entity>(rows: Seq<E::V>, row: E::V, id: Seq<char>)
    requires
        holds::<E>(rows, E::key(row)),
    ensures
        ({
            let at = index_of::<E>(rows, E::key(row));
            &&& 0 <= at < rows.len()
            &&& lookup::<E>(rows.update(at, row), id) == (if E::key(row) == id {
                Some(row)
            } else {
                lookup::<E>(rows, id)
            })
        }),
{
    let at = index_of::<E>(rows, E::key(row));
    lemma_index_of::<E>(rows, E::key(row));
    lemma_index_of::<E>(rows, id);
    let changed = rows.update(at, row);
    let found = index_of::<E>(rows, id);
    assert forall|j: int| 0 <= j < found implies E::key(#[trigger] changed[j]) != id by {
        assert(E::key(rows[j]) != id);
    }
    lemma_index_of_is::<E>(changed, id, found);
}

pub proof fn lemma_unique_replace<E: Entity>(rows: Seq<E::V>, row: E::V)
    requires
        unique::<E>(rows),
        holds::<E>(rows, E::key(row)),
    ensures
        unique::<E>(rows.update(index_of::<E>(rows, E::key(row)), row)),
{
    let at = index_of::<E>(rows, E::key(row));
    lemma_index_of::<E>(rows, E::key(row));
    let changed = rows.update(at, row);
    assert forall|i: int, j: int| 0 <= i < j < changed.len() implies E::key(#[trigger] changed[i])
        != E::key(#[trigger] changed[j]) by {
        assert(E::key(rows[i]) != E::key(rows[j]));
    }
}

pub fn position<E: Entity>(rows: &Vec<E>, id: &str) -> (r: usize)
    ensures
        r == index_of::<E>(rows.deep_view(), id@),
        r <= rows.len(),
{
    let mut i: usize = 0;
    let ghost model = rows.deep_view();
    while i < rows.len()
        invariant
            i <= rows.len(),
            model == rows.deep_view(),
            forall|j: int| 0 <= j < i ==> E::key(#[trigger] model[j]) != id@,
        decreases rows.len() - i,
    {
        assert(model[i as int] == rows[i as int].deep_view());
        if same_text(rows[i].id_text(), id) {
            proof {
                lemma_index_of_is::<E>(model, id@, i as int);
            }
            return i;
        }
        i += 1;
    }
    proof {
        lemma_index_of_is::<E>(model, id@, i as int);
    }
    i
}

pub fn find<'a, E: Entity>(rows: &'a Vec<E>, id: &str) -> (r: Option<&'a E>)
    ensures
        r.deep_view() == lookup::<E>(rows.deep_view(), id@),
{
    let at: usize = position(rows, id);
    if at < rows.len() {
        Some(&rows[at])
    } else {
        None
    }
}

pub fn contains<E: Entity>(rows: &Vec<E>, id: &str) -> (r: bool)
    ensures
        r == holds::<E>(rows.deep_view(), id@),
{
    position(rows, id) < rows.len()
}

} // verus!
