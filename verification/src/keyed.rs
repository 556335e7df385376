//! Keyed rows and the lookup discipline every table shares.
//!
//! Each stored row exposes a natural key of up to three components, the
//! first of which is the owning merchant for every merchant-scoped table.
//! A table is a vector of rows with pairwise-distinct keys; [`lookup`] is the
//! mathematical content of a predicate-qualified point query, and the lemmas
//! here say how it moves across an in-place update or an insert.

use vstd::prelude::*;

verus! {

/// A row stored under a natural key of up to three `u64` components.
/// Unused trailing components are zero. For merchant-scoped tables the
/// first component is always the merchant id.
pub trait Keyed: Sized {
    /// The row's natural key.
    spec fn key_spec(&self) -> (u64, u64, u64);

    /// The natural key, executably.
    fn key(&self) -> (k: (u64, u64, u64))
        ensures
            k == self.key_spec(),
    ;
}

/// Pairwise-distinct keys: the well-formedness of every table.
pub open spec fn unique_keys<T: Keyed>(rows: Seq<T>) -> bool {
    forall|i: int, j: int|
        0 <= i < j < rows.len() ==> (#[trigger] rows[i].key_spec()) != (#[trigger] rows[j].key_spec())
}

/// Some row carries the key.
pub open spec fn contains_key<T: Keyed>(rows: Seq<T>, k: (u64, u64, u64)) -> bool {
    exists|i: int| 0 <= i < rows.len() && (#[trigger] rows[i].key_spec()) == k
}

/// The position of the row carrying the key; meaningful under
/// [`unique_keys`] when [`contains_key`] holds.
pub open spec fn idx_of<T: Keyed>(rows: Seq<T>, k: (u64, u64, u64)) -> int {
    choose|i: int| 0 <= i < rows.len() && (#[trigger] rows[i].key_spec()) == k
}

/// The row a point query scoped to key `k` returns.
pub open spec fn lookup<T: Keyed>(rows: Seq<T>, k: (u64, u64, u64)) -> Option<T> {
    if contains_key(rows, k) {
        Some(rows[idx_of(rows, k)])
    } else {
        None
    }
}

/// A found row carries the queried key: a lookup scoped to one merchant can
/// never surface a row owned by another, however entity ids collide.
pub proof fn lemma_lookup_scoped<T: Keyed>(rows: Seq<T>, k: (u64, u64, u64))
    ensures
        lookup(rows, k) matches Some(r) ==> r.key_spec() == k,
{
}

/// Under unique keys, the row at a matching position is the lookup result.
pub proof fn lemma_lookup_at<T: Keyed>(rows: Seq<T>, k: (u64, u64, u64), i: int)
    requires
        unique_keys(rows),
        0 <= i < rows.len(),
        rows[i].key_spec() == k,
    ensures
        contains_key(rows, k),
        idx_of(rows, k) == i,
        lookup(rows, k) == Some(rows[i]),
{
    assert(contains_key(rows, k));
    let j = idx_of(rows, k);
    assert(0 <= j < rows.len() && rows[j].key_spec() == k);
    if i != j {
        assert(rows[i].key_spec() != rows[j].key_spec());
    }
}

/// Replacing the row at the key's position with a row of the same key
/// preserves uniqueness, makes the new row the lookup result, and leaves
/// every other key's lookup untouched.
pub proof fn lemma_lookup_update<T: Keyed>(rows: Seq<T>, i: int, r2: T)
    requires
        unique_keys(rows),
        0 <= i < rows.len(),
        r2.key_spec() == rows[i].key_spec(),
    ensures
        unique_keys(rows.update(i, r2)),
        lookup(rows.update(i, r2), r2.key_spec()) == Some(r2),
        forall|k2: (u64, u64, u64)|
            k2 != r2.key_spec() ==> #[trigger] lookup(rows.update(i, r2), k2) == lookup(rows, k2),
{
    let rows2 = rows.update(i, r2);
    assert forall|a: int, b: int| 0 <= a < b < rows2.len() implies (#[trigger] rows2[a].key_spec())
        != (#[trigger] rows2[b].key_spec()) by {
        assert(rows2[a].key_spec() == rows[a].key_spec());
        assert(rows2[b].key_spec() == rows[b].key_spec());
    }
    lemma_lookup_at(rows2, r2.key_spec(), i);
    assert forall|k2: (u64, u64, u64)| k2 != r2.key_spec() implies #[trigger] lookup(rows2, k2)
        == lookup(rows, k2) by {
        assert(forall|j: int|
            0 <= j < rows.len() ==> (#[trigger] rows2[j].key_spec()) == rows[j].key_spec());
        if contains_key(rows, k2) {
            let j = idx_of(rows, k2);
            assert(rows2[j].key_spec() == k2);
            lemma_lookup_at(rows2, k2, j);
            lemma_lookup_at(rows, k2, j);
            assert(j != i);
            assert(rows2[j] == rows[j]);
        } else {
            if contains_key(rows2, k2) {
                let j = choose|j: int| 0 <= j < rows2.len() && (#[trigger] rows2[j].key_spec()) == k2;
                assert(rows[j].key_spec() == k2);
            }
        }
    }
}

/// Appending a row under a fresh key preserves uniqueness, makes the new row
/// the lookup result for its key, and leaves every other key's lookup
/// untouched.
pub proof fn lemma_lookup_push<T: Keyed>(rows: Seq<T>, r: T)
    requires
        unique_keys(rows),
        !contains_key(rows, r.key_spec()),
    ensures
        unique_keys(rows.push(r)),
        lookup(rows.push(r), r.key_spec()) == Some(r),
        forall|k2: (u64, u64, u64)|
            k2 != r.key_spec() ==> #[trigger] lookup(rows.push(r), k2) == lookup(rows, k2),
{
    let rows2 = rows.push(r);
    assert forall|a: int, b: int| 0 <= a < b < rows2.len() implies (#[trigger] rows2[a].key_spec())
        != (#[trigger] rows2[b].key_spec()) by {
        if b < rows.len() {
            assert(rows2[a] == rows[a] && rows2[b] == rows[b]);
        } else {
            assert(rows2[b] == r && rows2[a] == rows[a]);
            assert(rows[a].key_spec() != r.key_spec());
        }
    }
    lemma_lookup_at(rows2, r.key_spec(), rows.len() as int);
    assert forall|k2: (u64, u64, u64)| k2 != r.key_spec() implies #[trigger] lookup(rows2, k2)
        == lookup(rows, k2) by {
        if contains_key(rows, k2) {
            let j = idx_of(rows, k2);
            assert(rows2[j] == rows[j]);
            lemma_lookup_at(rows2, k2, j);
            lemma_lookup_at(rows, k2, j);
        } else {
            if contains_key(rows2, k2) {
                let j = choose|j: int| 0 <= j < rows2.len() && (#[trigger] rows2[j].key_spec()) == k2;
                assert(j == rows.len());
            }
        }
    }
}

/// The first row satisfying a predicate: the row a non-unique
/// predicate-qualified point query returns.
pub open spec fn first_match<T>(rows: Seq<T>, p: spec_fn(T) -> bool) -> Option<T>
    decreases rows.len(),
{
    if rows.len() == 0 {
        None
    } else if p(rows[0]) {
        Some(rows[0])
    } else {
        first_match(rows.drop_first(), p)
    }
}

/// When no row satisfies the predicate, there is no first match.
pub proof fn lemma_first_match_none<T>(rows: Seq<T>, p: spec_fn(T) -> bool)
    requires
        forall|j: int| 0 <= j < rows.len() ==> !p(#[trigger] rows[j]),
    ensures
        first_match(rows, p) is None,
    decreases rows.len(),
{
    if rows.len() > 0 {
        assert(!p(rows[0]));
        assert(forall|j: int|
            0 <= j < rows.drop_first().len() ==> #[trigger] rows.drop_first()[j] == rows[j + 1]);
        lemma_first_match_none(rows.drop_first(), p);
    }
}

/// A satisfying row before which no row satisfies the predicate is the
/// first match.
pub proof fn lemma_first_match_at<T>(rows: Seq<T>, p: spec_fn(T) -> bool, i: int)
    requires
        0 <= i < rows.len(),
        p(rows[i]),
        forall|j: int| 0 <= j < i ==> !p(#[trigger] rows[j]),
    ensures
        first_match(rows, p) == Some(rows[i]),
    decreases i,
{
    if i == 0 {
    } else {
        assert(!p(rows[0]));
        assert(forall|j: int|
            0 <= j < rows.drop_first().len() ==> #[trigger] rows.drop_first()[j] == rows[j + 1]);
        lemma_first_match_at(rows.drop_first(), p, i - 1);
    }
}

/// The position of the row carrying key `k`, or `None` when no row does.
pub fn find_index<T: Keyed>(rows: &Vec<T>, k: (u64, u64, u64)) -> (r: Option<usize>)
    ensures
        match r {
            Some(i) => i < rows.len() && rows@[i as int].key_spec() == k,
            None => !contains_key(rows@, k),
        },
{
    let mut i: usize = 0;
    while i < rows.len()
        invariant
            i <= rows.len(),
            forall|j: int| 0 <= j < i ==> (#[trigger] rows@[j].key_spec()) != k,
        decreases rows.len() - i,
    {
        let rk = rows[i].key();
        if rk.0 == k.0 && rk.1 == k.1 && rk.2 == k.2 {
            return Some(i);
        }
        i = i + 1;
    }
    None
}

} // verus!
