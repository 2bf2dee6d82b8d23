//! Row-sequence helpers shared by the engine: first-match lookup and
//! first-match removal over a table's rows, with the laws that make
//! delete-by-id idempotent and insert-then-find a round trip.

use vstd::prelude::*;

verus! {

/// The first row satisfying `p`, if any.
pub open spec fn find_first_where<T>(rows: Seq<T>, p: spec_fn(T) -> bool) -> Option<T>
    decreases rows.len(),
{
    if rows.len() == 0 {
        None
    } else if p(rows[0]) {
        Some(rows[0])
    } else {
        find_first_where(rows.drop_first(), p)
    }
}

/// `rows` with the first row satisfying `p` removed, if any.
pub open spec fn remove_first_where<T>(rows: Seq<T>, p: spec_fn(T) -> bool) -> Seq<T>
    decreases rows.len(),
{
    if rows.len() == 0 {
        rows
    } else if p(rows[0]) {
        rows.drop_first()
    } else {
        seq![rows[0]] + remove_first_where(rows.drop_first(), p)
    }
}

/// Whether some row satisfies `p`.
pub open spec fn exists_where<T>(rows: Seq<T>, p: spec_fn(T) -> bool) -> bool {
    exists|i: int| 0 <= i < rows.len() && p(rows[i])
}

/// Whether at most one row satisfies `p`.
pub open spec fn at_most_one_where<T>(rows: Seq<T>, p: spec_fn(T) -> bool) -> bool {
    forall|i: int, j: int|
        0 <= i < rows.len() && 0 <= j < rows.len() && p(rows[i]) && p(rows[j]) ==> i == j
}

/// When the first row satisfying `p` stands at index `i`, the first-match
/// lookup returns exactly that row.
pub proof fn lemma_find_first_at<T>(rows: Seq<T>, p: spec_fn(T) -> bool, i: int)
    requires
        0 <= i < rows.len(),
        p(rows[i]),
        forall|j: int| 0 <= j < i ==> !p(rows[j]),
    ensures
        find_first_where(rows, p) == Some(rows[i]),
    decreases i,
{
    if i > 0 {
        assert forall|j: int| 0 <= j < i - 1 implies !p(rows.drop_first()[j]) by {
            assert(rows.drop_first()[j] == rows[j + 1]);
        }
        assert(rows.drop_first()[i - 1] == rows[i]);
        lemma_find_first_at(rows.drop_first(), p, i - 1);
    }
}

/// When no row satisfies `p`, the first-match lookup finds nothing.
pub proof fn lemma_find_first_none<T>(rows: Seq<T>, p: spec_fn(T) -> bool)
    requires
        forall|j: int| 0 <= j < rows.len() ==> !p(rows[j]),
    ensures
        find_first_where(rows, p) == None::<T>,
    decreases rows.len(),
{
    if rows.len() > 0 {
        assert forall|j: int| 0 <= j < rows.drop_first().len() implies !p(
            rows.drop_first()[j],
        ) by {
            assert(rows.drop_first()[j] == rows[j + 1]);
        }
        lemma_find_first_none(rows.drop_first(), p);
    }
}

/// When the first row satisfying `p` stands at index `i`, the first-match
/// removal removes exactly that row.
pub proof fn lemma_remove_first_at<T>(rows: Seq<T>, p: spec_fn(T) -> bool, i: int)
    requires
        0 <= i < rows.len(),
        p(rows[i]),
        forall|j: int| 0 <= j < i ==> !p(rows[j]),
    ensures
        remove_first_where(rows, p) == rows.remove(i),
    decreases i,
{
    if i == 0 {
        assert(remove_first_where(rows, p) =~= rows.remove(0));
    } else {
        assert forall|j: int| 0 <= j < i - 1 implies !p(rows.drop_first()[j]) by {
            assert(rows.drop_first()[j] == rows[j + 1]);
        }
        assert(rows.drop_first()[i - 1] == rows[i]);
        lemma_remove_first_at(rows.drop_first(), p, i - 1);
        assert(seq![rows[0]] + rows.drop_first().remove(i - 1) =~= rows.remove(i));
    }
}

/// When no row satisfies `p`, the first-match removal leaves the rows
/// unchanged.
pub proof fn lemma_remove_first_absent<T>(rows: Seq<T>, p: spec_fn(T) -> bool)
    requires
        !exists_where(rows, p),
    ensures
        remove_first_where(rows, p) == rows,
    decreases rows.len(),
{
    if rows.len() > 0 {
        assert(!p(rows[0]));
        assert forall|j: int| !(0 <= j < rows.drop_first().len() && p(
            rows.drop_first()[j],
        )) by {
            if 0 <= j < rows.drop_first().len() {
                assert(rows.drop_first()[j] == rows[j + 1]);
            }
        }
        lemma_remove_first_absent(rows.drop_first(), p);
        assert(seq![rows[0]] + rows.drop_first() =~= rows);
    }
}

/// Removing the row that satisfies `p` leaves no row satisfying `p`, as
/// long as at most one row satisfied it to begin with. This is what makes
/// delete-by-id idempotent on a table with unique ids: a second delete of
/// the same id finds nothing.
pub proof fn lemma_remove_first_none_left<T>(rows: Seq<T>, p: spec_fn(T) -> bool)
    requires
        at_most_one_where(rows, p),
    ensures
        !exists_where(remove_first_where(rows, p), p),
    decreases rows.len(),
{
    if rows.len() == 0 {
    } else if p(rows[0]) {
        assert forall|k: int| !(0 <= k < rows.drop_first().len() && p(
            rows.drop_first()[k],
        )) by {
            if 0 <= k < rows.drop_first().len() {
                assert(rows.drop_first()[k] == rows[k + 1]);
            }
        }
    } else {
        assert forall|a: int, b: int|
            0 <= a < rows.drop_first().len() && 0 <= b < rows.drop_first().len() && p(
                rows.drop_first()[a],
            ) && p(rows.drop_first()[b]) implies a == b by {
            assert(rows.drop_first()[a] == rows[a + 1]);
            assert(rows.drop_first()[b] == rows[b + 1]);
        }
        lemma_remove_first_none_left(rows.drop_first(), p);
        let rest = remove_first_where(rows.drop_first(), p);
        assert forall|k: int| !(0 <= k < remove_first_where(rows, p).len() && p(
            remove_first_where(rows, p)[k],
        )) by {
            if 0 <= k < remove_first_where(rows, p).len() {
                if k == 0 {
                    assert(remove_first_where(rows, p)[0] == rows[0]);
                } else {
                    assert(remove_first_where(rows, p)[k] == rest[k - 1]);
                    if p(rest[k - 1]) {
                        assert(exists_where(rest, p));
                    }
                }
            }
        }
    }
}

/// Looking up a freshly appended row by a predicate nothing else
/// satisfies returns exactly that row. This is what makes insert followed
/// by fetch-by-id a round trip: the fetched entity is the inserted one,
/// field for field.
pub proof fn lemma_find_first_pushed<T>(rows: Seq<T>, t: T, p: spec_fn(T) -> bool)
    requires
        forall|j: int| 0 <= j < rows.len() ==> !p(rows[j]),
        p(t),
    ensures
        find_first_where(rows.push(t), p) == Some(t),
{
    assert forall|j: int| 0 <= j < rows.len() implies !p(rows.push(t)[j]) by {
        assert(rows.push(t)[j] == rows[j]);
    }
    assert(rows.push(t)[rows.len() as int] == t);
    lemma_find_first_at(rows.push(t), p, rows.len() as int);
}

} // verus!
