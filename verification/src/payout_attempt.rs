//! Queries and updates on payout attempts, and the filter facets of a
//! payout listing.
//!
//! Every query is scoped by merchant id on top of whatever other column it
//! names. Updates lower to a change set first: an empty change set is
//! success with the unmodified entity on every update here, mirroring a
//! storage layer that refuses to build a write with no columns and whose
//! refusal is never surfaced to a caller.

use vstd::pervasive::VecAdditionalExecFns;
use vstd::prelude::*;

use crate::enums::{Currency, PayoutStatus, PayoutType};
use crate::errors::StorageError;
use crate::keyed::{
    find_index, first_match, lemma_first_match_at, lemma_first_match_none, lemma_lookup_at,
    lemma_lookup_update, lookup, Keyed,
};
use crate::records::{PayoutAttempt, Payouts};
use crate::store::{same_except, Store, TableId};
use crate::updates::{
    apply_payout_attempt_update, apply_payout_attempt_update_exec, is_empty_change_set,
    payout_attempt_update_internal, payout_attempt_update_internal_exec, PayoutAttemptUpdate,
};

verus! {

broadcast use vstd::seq_lib::lemma_seq_contains_after_push;

/// Rows of a payout's attempt history: scoped to the merchant and payout.
pub open spec fn by_payout(merchant_id: u64, payout_id: u64) -> spec_fn(PayoutAttempt) -> bool {
    |a: PayoutAttempt| a.merchant_id == merchant_id && a.payout_id == payout_id
}

/// Rows carrying a connector-assigned reference, scoped to the merchant.
pub open spec fn by_connector_payout_id(
    merchant_id: u64,
    connector_payout_id: Seq<char>,
) -> spec_fn(PayoutAttempt) -> bool {
    |a: PayoutAttempt|
        a.merchant_id == merchant_id && (a.connector_payout_id matches Some(c) && c@
            == connector_payout_id)
}

/// Rows carrying a merchant-supplied order reference, scoped to the merchant.
pub open spec fn by_merchant_order_reference_id(
    merchant_id: u64,
    merchant_order_reference_id: Seq<char>,
) -> spec_fn(PayoutAttempt) -> bool {
    |a: PayoutAttempt|
        a.merchant_id == merchant_id && (a.merchant_order_reference_id matches Some(m) && m@
            == merchant_order_reference_id)
}

/// One of the listed payouts has this payout id and attempt count: the row
/// carrying them is a *current* attempt row.
pub open spec fn is_current_attempt_key(
    payouts: Seq<Payouts>,
    payout_id: u64,
    attempt_count: u32,
) -> bool {
    exists|i: int|
        0 <= i < payouts.len() && (#[trigger] payouts[i]).payout_id == payout_id
            && payouts[i].attempt_count == attempt_count
}

/// One of the listed payouts has this payout id.
pub open spec fn payouts_contain_id(payouts: Seq<Payouts>, payout_id: u64) -> bool {
    exists|i: int| 0 <= i < payouts.len() && (#[trigger] payouts[i]).payout_id == payout_id
}

/// Attempt row `j` contributes connector label `s` to the connector facet:
/// it belongs to the merchant, it is the current attempt of a listed payout,
/// and routing assigned it that connector.
pub open spec fn qualifying_connector(
    rows: Seq<PayoutAttempt>,
    payouts: Seq<Payouts>,
    merchant_id: u64,
    j: int,
    s: Seq<char>,
) -> bool {
    &&& 0 <= j < rows.len()
    &&& rows[j].merchant_id == merchant_id
    &&& is_current_attempt_key(payouts, rows[j].payout_id, rows[j].attempt_count)
    &&& rows[j].connector matches Some(c) && c@ == s
}

/// Payout row `j` contributes currency `c` to the currency facet: it belongs
/// to the merchant and is one of the listed payouts.
pub open spec fn qualifying_currency(
    rows: Seq<Payouts>,
    payouts: Seq<Payouts>,
    merchant_id: u64,
    j: int,
    c: Currency,
) -> bool {
    &&& 0 <= j < rows.len()
    &&& rows[j].merchant_id == merchant_id
    &&& payouts_contain_id(payouts, rows[j].payout_id)
    &&& rows[j].destination_currency == c
}

/// Payout row `j` contributes payout type `t` to the payout-type facet.
pub open spec fn qualifying_payout_type(
    rows: Seq<Payouts>,
    payouts: Seq<Payouts>,
    merchant_id: u64,
    j: int,
    t: PayoutType,
) -> bool {
    &&& 0 <= j < rows.len()
    &&& rows[j].merchant_id == merchant_id
    &&& payouts_contain_id(payouts, rows[j].payout_id)
    &&& rows[j].payout_type == Some(t)
}

/// Merchant scoping of the filter facets, as a law: a row that contributes
/// to the connector, currency or payout-type facet always belongs to the
/// given merchant, however payout or attempt ids collide across merchants.
/// The status facet derives from the caller's already-loaded payout list,
/// so its scoping is the caller's.
pub proof fn lemma_facets_merchant_scoped(
    attempt_rows: Seq<PayoutAttempt>,
    payout_rows: Seq<Payouts>,
    payouts: Seq<Payouts>,
    merchant_id: u64,
    j: int,
    s: Seq<char>,
    c: Currency,
    t: PayoutType,
)
    ensures
        qualifying_connector(attempt_rows, payouts, merchant_id, j, s)
            ==> attempt_rows[j].merchant_id == merchant_id,
        qualifying_currency(payout_rows, payouts, merchant_id, j, c) ==> payout_rows[j].merchant_id
            == merchant_id,
        qualifying_payout_type(payout_rows, payouts, merchant_id, j, t)
            ==> payout_rows[j].merchant_id == merchant_id,
{
}

/// The string vector holds an element with this view.
pub open spec fn string_seq_has(v: Seq<String>, s: Seq<char>) -> bool {
    exists|x: int| 0 <= x < v.len() && (#[trigger] v[x])@ == s
}

/// Some attempt row among the first `n` contributes connector label `s`.
pub open spec fn connector_facet_has(
    rows: Seq<PayoutAttempt>,
    payouts: Seq<Payouts>,
    merchant_id: u64,
    n: int,
    s: Seq<char>,
) -> bool {
    exists|j: int| j < n && #[trigger] qualifying_connector(rows, payouts, merchant_id, j, s)
}

/// Whether one of the listed payouts carries this payout id and attempt
/// count.
fn payouts_have_attempt_key(payouts: &Vec<Payouts>, payout_id: u64, attempt_count: u32) -> (r: bool)
    ensures
        r == is_current_attempt_key(payouts@, payout_id, attempt_count),
{
    let mut i: usize = 0;
    while i < payouts.len()
        invariant
            i <= payouts.len(),
            forall|j: int|
                0 <= j < i ==> !((#[trigger] payouts@[j]).payout_id == payout_id
                    && payouts@[j].attempt_count == attempt_count),
        decreases payouts.len() - i,
    {
        if payouts[i].payout_id == payout_id && payouts[i].attempt_count == attempt_count {
            return true;
        }
        i = i + 1;
    }
    false
}

/// Whether one of the listed payouts carries this payout id.
fn payouts_have_id(payouts: &Vec<Payouts>, payout_id: u64) -> (r: bool)
    ensures
        r == payouts_contain_id(payouts@, payout_id),
{
    let mut i: usize = 0;
    while i < payouts.len()
        invariant
            i <= payouts.len(),
            forall|j: int| 0 <= j < i ==> (#[trigger] payouts@[j]).payout_id != payout_id,
        decreases payouts.len() - i,
    {
        if payouts[i].payout_id == payout_id {
            return true;
        }
        i = i + 1;
    }
    false
}

/// Whether the vector holds a string with this view.
fn contains_string_view(v: &Vec<String>, s: &String) -> (r: bool)
    ensures
        r == exists|i: int| 0 <= i < v@.len() && (#[trigger] v@[i])@ == s@,
{
    let mut i: usize = 0;
    while i < v.len()
        invariant
            i <= v.len(),
            forall|j: int| 0 <= j < i ==> (#[trigger] v@[j])@ != s@,
        decreases v.len() - i,
    {
        if v[i].eq(s) {
            return true;
        }
        i = i + 1;
    }
    false
}

/// Whether the vector holds this currency.
fn contains_currency(v: &Vec<Currency>, c: Currency) -> (r: bool)
    ensures
        r == v@.contains(c),
{
    let mut i: usize = 0;
    while i < v.len()
        invariant
            i <= v.len(),
            forall|j: int| 0 <= j < i ==> (#[trigger] v@[j]) != c,
        decreases v.len() - i,
    {
        if v[i] == c {
            return true;
        }
        i = i + 1;
    }
    false
}

/// Whether the vector holds this payout status.
fn contains_payout_status(v: &Vec<PayoutStatus>, s: PayoutStatus) -> (r: bool)
    ensures
        r == v@.contains(s),
{
    let mut i: usize = 0;
    while i < v.len()
        invariant
            i <= v.len(),
            forall|j: int| 0 <= j < i ==> (#[trigger] v@[j]) != s,
        decreases v.len() - i,
    {
        if v[i] == s {
            return true;
        }
        i = i + 1;
    }
    false
}

/// Whether the vector holds this payout type.
fn contains_payout_type(v: &Vec<PayoutType>, t: PayoutType) -> (r: bool)
    ensures
        r == v@.contains(t),
{
    let mut i: usize = 0;
    while i < v.len()
        invariant
            i <= v.len(),
            forall|j: int| 0 <= j < i ==> (#[trigger] v@[j]) != t,
        decreases v.len() - i,
    {
        if v[i] == t {
            return true;
        }
        i = i + 1;
    }
    false
}

impl PayoutAttempt {
    /// Inserts this attempt under its merchant-scoped key; refuses a taken
    /// key.
    pub fn insert(self, store: &mut Store) -> (r: Result<PayoutAttempt, StorageError>)
        requires
            old(store).wf(),
        ensures
            final(store).wf(),
            same_except(*old(store), *final(store), TableId::PayoutAttempts),
            match old(store).payout_attempt_for(
                self.merchant_id,
                self.payout_id,
                self.attempt_count as u64,
            ) {
                Some(_) => r == Err::<PayoutAttempt, StorageError>(StorageError::UniqueViolation)
                    && final(store).payout_attempts@ == old(store).payout_attempts@,
                None => r == Ok::<PayoutAttempt, StorageError>(self) && final(store).payout_attempt_for(self.merchant_id, self.payout_id, self.attempt_count as u64)
                    == Some(self) && (forall|k2: (u64, u64, u64)|
                    k2 != (self.merchant_id, self.payout_id, self.attempt_count as u64)
                        ==> #[trigger] lookup(final(store).payout_attempts@, k2) == lookup(
                        old(store).payout_attempts@,
                        k2,
                    )),
            },
    {
        let k = (self.merchant_id, self.payout_id, self.attempt_count as u64);
        match find_index(&store.payout_attempts, k) {
            Some(i) => {
                proof {
                    crate::keyed::lemma_lookup_at(store.payout_attempts@, k, i as int);
                }
                Err(StorageError::UniqueViolation)
            },
            None => {
                let ret = self.cloned();
                proof {
                    crate::keyed::lemma_lookup_push(store.payout_attempts@, self);
                }
                store.payout_attempts.push(self);
                Ok(ret)
            },
        }
    }

    /// Updates the row under this attempt's own key. An update lowering to
    /// an empty change set is success with the unmodified entity — the
    /// storage layer refuses to build a write with no columns, and that
    /// refusal is never surfaced to the caller.
    pub fn update_with_attempt_id(
        self,
        store: &mut Store,
        payout_attempt_update: PayoutAttemptUpdate,
    ) -> (r: Result<PayoutAttempt, StorageError>)
        requires
            old(store).wf(),
        ensures
            final(store).wf(),
            same_except(*old(store), *final(store), TableId::PayoutAttempts),
            ({
                let internal = payout_attempt_update_internal(payout_attempt_update);
                if is_empty_change_set(internal) {
                    r == Ok::<PayoutAttempt, StorageError>(self) && final(store).payout_attempts@
                        == old(store).payout_attempts@
                } else {
                    match old(store).payout_attempt_for(
                        self.merchant_id,
                        self.payout_id,
                        self.attempt_count as u64,
                    ) {
                        None => r == Err::<PayoutAttempt, StorageError>(StorageError::NotFound)
                            && final(store).payout_attempts@ == old(store).payout_attempts@,
                        Some(cur) => r == Ok::<PayoutAttempt, StorageError>(
                            apply_payout_attempt_update(cur, internal),
                        ) && final(store).payout_attempt_for(
                            self.merchant_id,
                            self.payout_id,
                            self.attempt_count as u64,
                        ) == Some(apply_payout_attempt_update(cur, internal)) && (forall|
                            k2: (u64, u64, u64),
                        |
                            k2 != (self.merchant_id, self.payout_id, self.attempt_count as u64)
                                ==> #[trigger] lookup(final(store).payout_attempts@, k2) == lookup(
                                old(store).payout_attempts@,
                                k2,
                            )),
                    }
                }
            }),
    {
        let internal = payout_attempt_update_internal_exec(&payout_attempt_update);
        if internal.is_empty() {
            return Ok(self);
        }
        let k = (self.merchant_id, self.payout_id, self.attempt_count as u64);
        match find_index(&store.payout_attempts, k) {
            Some(i) => {
                let applied = apply_payout_attempt_update_exec(&store.payout_attempts[i], &internal);
                let ret = applied.cloned();
                proof {
                    lemma_lookup_at(store.payout_attempts@, k, i as int);
                    lemma_lookup_update(store.payout_attempts@, i as int, applied);
                }
                store.payout_attempts.set(i, applied);
                Ok(ret)
            },
            None => Err(StorageError::NotFound),
        }
    }

    /// The first attempt of a payout, scoped to the owning merchant.
    pub fn find_by_merchant_id_payout_id(
        store: &Store,
        merchant_id: u64,
        payout_id: u64,
    ) -> (r: Result<PayoutAttempt, StorageError>)
        ensures
            match r {
                Ok(row) => first_match(store.payout_attempts@, by_payout(merchant_id, payout_id))
                    == Some(row) && row.merchant_id == merchant_id && row.payout_id == payout_id,
                Err(e) => e == StorageError::NotFound && first_match(
                    store.payout_attempts@,
                    by_payout(merchant_id, payout_id),
                ) is None,
            },
    {
        let ghost p = by_payout(merchant_id, payout_id);
        let mut i: usize = 0;
        while i < store.payout_attempts.len()
            invariant
                i <= store.payout_attempts.len(),
                p == by_payout(merchant_id, payout_id),
                forall|j: int| 0 <= j < i ==> !p(#[trigger] store.payout_attempts@[j]),
            decreases store.payout_attempts.len() - i,
        {
            if store.payout_attempts[i].merchant_id == merchant_id && store.payout_attempts[i].payout_id == payout_id {
                proof {
                    lemma_first_match_at(store.payout_attempts@, p, i as int);
                }
                return Ok(store.payout_attempts[i].cloned());
            }
            i = i + 1;
        }
        proof {
            lemma_first_match_none(store.payout_attempts@, p);
        }
        Err(StorageError::NotFound)
    }

    /// Point query under the attempt's unique key: the payout and the
    /// position of this attempt in its attempt sequence.
    pub fn find_by_merchant_id_payout_attempt_id(
        store: &Store,
        merchant_id: u64,
        payout_id: u64,
        attempt_count: u32,
    ) -> (r: Result<PayoutAttempt, StorageError>)
        requires
            store.wf(),
        ensures
            match r {
                Ok(row) => store.payout_attempt_for(merchant_id, payout_id, attempt_count as u64)
                    == Some(row) && row.merchant_id == merchant_id && row.payout_id == payout_id
                    && row.attempt_count == attempt_count,
                Err(e) => e == StorageError::NotFound && store.payout_attempt_for(
                    merchant_id,
                    payout_id,
                    attempt_count as u64,
                ) is None,
            },
    {
        let k = (merchant_id, payout_id, attempt_count as u64);
        match find_index(&store.payout_attempts, k) {
            Some(i) => {
                proof {
                    lemma_lookup_at(store.payout_attempts@, k, i as int);
                }
                Ok(store.payout_attempts[i].cloned())
            },
            None => Err(StorageError::NotFound),
        }
    }

    /// The first attempt carrying the connector-assigned reference, scoped
    /// to the owning merchant.
    pub fn find_by_merchant_id_connector_payout_id(
        store: &Store,
        merchant_id: u64,
        connector_payout_id: &String,
    ) -> (r: Result<PayoutAttempt, StorageError>)
        ensures
            match r {
                Ok(row) => first_match(
                    store.payout_attempts@,
                    by_connector_payout_id(merchant_id, connector_payout_id@),
                ) == Some(row) && row.merchant_id == merchant_id,
                Err(e) => e == StorageError::NotFound && first_match(
                    store.payout_attempts@,
                    by_connector_payout_id(merchant_id, connector_payout_id@),
                ) is None,
            },
    {
        let ghost p = by_connector_payout_id(merchant_id, connector_payout_id@);
        let mut i: usize = 0;
        while i < store.payout_attempts.len()
            invariant
                i <= store.payout_attempts.len(),
                p == by_connector_payout_id(merchant_id, connector_payout_id@),
                forall|j: int| 0 <= j < i ==> !p(#[trigger] store.payout_attempts@[j]),
            decreases store.payout_attempts.len() - i,
        {
            let hit = store.payout_attempts[i].merchant_id == merchant_id && (match &store.payout_attempts[i].connector_payout_id {
                Some(c) => c.eq(connector_payout_id),
                None => false,
            });
            if hit {
                proof {
                    lemma_first_match_at(store.payout_attempts@, p, i as int);
                }
                return Ok(store.payout_attempts[i].cloned());
            }
            i = i + 1;
        }
        proof {
            lemma_first_match_none(store.payout_attempts@, p);
        }
        Err(StorageError::NotFound)
    }

    /// The first attempt carrying the merchant-supplied order reference,
    /// scoped to the owning merchant.
    pub fn find_by_merchant_id_merchant_order_reference_id(
        store: &Store,
        merchant_id_input: u64,
        merchant_order_reference_id_input: &String,
    ) -> (r: Result<PayoutAttempt, StorageError>)
        ensures
            match r {
                Ok(row) => first_match(
                    store.payout_attempts@,
                    by_merchant_order_reference_id(
                        merchant_id_input,
                        merchant_order_reference_id_input@,
                    ),
                ) == Some(row) && row.merchant_id == merchant_id_input,
                Err(e) => e == StorageError::NotFound && first_match(
                    store.payout_attempts@,
                    by_merchant_order_reference_id(
                        merchant_id_input,
                        merchant_order_reference_id_input@,
                    ),
                ) is None,
            },
    {
        let ghost p = by_merchant_order_reference_id(
            merchant_id_input,
            merchant_order_reference_id_input@,
        );
        let mut i: usize = 0;
        while i < store.payout_attempts.len()
            invariant
                i <= store.payout_attempts.len(),
                p == by_merchant_order_reference_id(
                    merchant_id_input,
                    merchant_order_reference_id_input@,
                ),
                forall|j: int| 0 <= j < i ==> !p(#[trigger] store.payout_attempts@[j]),
            decreases store.payout_attempts.len() - i,
        {
            let hit = store.payout_attempts[i].merchant_id == merchant_id_input && (
            match &store.payout_attempts[i].merchant_order_reference_id {
                Some(m) => m.eq(merchant_order_reference_id_input),
                None => false,
            });
            if hit {
                proof {
                    lemma_first_match_at(store.payout_attempts@, p, i as int);
                }
                return Ok(store.payout_attempts[i].cloned());
            }
            i = i + 1;
        }
        proof {
            lemma_first_match_none(store.payout_attempts@, p);
        }
        Err(StorageError::NotFound)
    }

    /// Applies the update to every attempt of the payout and returns the
    /// first updated row; `NotFound` when the payout has no attempts. An
    /// update lowering to an empty change set is success with the first
    /// matching row unmodified: the storage layer's refusal to write zero
    /// columns is never surfaced to the caller.
    pub fn update_by_merchant_id_payout_id(
        store: &mut Store,
        merchant_id: u64,
        payout_id: u64,
        payout: PayoutAttemptUpdate,
    ) -> (r: Result<PayoutAttempt, StorageError>)
        requires
            old(store).wf(),
        ensures
            final(store).wf(),
            same_except(*old(store), *final(store), TableId::PayoutAttempts),
            ({
                let internal = payout_attempt_update_internal(payout);
                let p = by_payout(merchant_id, payout_id);
                if is_empty_change_set(internal) {
                    final(store).payout_attempts@ == old(store).payout_attempts@ && (
                    match first_match(old(store).payout_attempts@, p) {
                        Some(row) => r == Ok::<PayoutAttempt, StorageError>(row),
                        None => r == Err::<PayoutAttempt, StorageError>(StorageError::NotFound),
                    })
                } else {
                    final(store).payout_attempts@.len() == old(store).payout_attempts@.len()
                        && (forall|j: int|
                        0 <= j < old(store).payout_attempts@.len()
                            ==> #[trigger] final(store).payout_attempts@[j] == (
                        if p(old(store).payout_attempts@[j]) {
                            apply_payout_attempt_update(old(store).payout_attempts@[j], internal)
                        } else {
                            old(store).payout_attempts@[j]
                        })) && (match first_match(old(store).payout_attempts@, p) {
                        Some(row) => r == Ok::<PayoutAttempt, StorageError>(
                            apply_payout_attempt_update(row, internal),
                        ),
                        None => r == Err::<PayoutAttempt, StorageError>(StorageError::NotFound),
                    })
                }
            }),
    {
        let internal = payout_attempt_update_internal_exec(&payout);
        if internal.is_empty() {
            // The storage layer refuses to build a write with no columns;
            // that refusal is success with the unmodified entity, never a
            // caller-visible error.
            return Self::find_by_merchant_id_payout_id(store, merchant_id, payout_id);
        }
        let ghost orig = store.payout_attempts@;
        let ghost p = by_payout(merchant_id, payout_id);
        let mut result: Option<PayoutAttempt> = None;
        let ghost mut first_i: int = 0;
        let mut i: usize = 0;
        while i < store.payout_attempts.len()
            invariant
                old(store).wf(),
                i <= store.payout_attempts@.len(),
                store.payout_attempts@.len() == orig.len(),
                p == by_payout(merchant_id, payout_id),
                internal == payout_attempt_update_internal(payout),
                same_except(*old(store), *store, TableId::PayoutAttempts),
                orig == old(store).payout_attempts@,
                forall|j: int|
                    0 <= j < i ==> #[trigger] store.payout_attempts@[j] == (if p(orig[j]) {
                        apply_payout_attempt_update(orig[j], internal)
                    } else {
                        orig[j]
                    }),
                forall|j: int| i <= j < orig.len() ==> #[trigger] store.payout_attempts@[j] == orig[j],
                result is None ==> forall|j: int| 0 <= j < i ==> !p(#[trigger] orig[j]),
                result matches Some(x) ==> 0 <= first_i < i && p(orig[first_i]) && (forall|j: int|
                    0 <= j < first_i ==> !p(#[trigger] orig[j])) && x == apply_payout_attempt_update(
                    orig[first_i],
                    internal,
                ),
            decreases store.payout_attempts@.len() - i,
        {
            let row_merchant = store.payout_attempts[i].merchant_id;
            let row_payout = store.payout_attempts[i].payout_id;
            if row_merchant == merchant_id && row_payout == payout_id {
                let applied = apply_payout_attempt_update_exec(&store.payout_attempts[i], &internal);
                if result.is_none() {
                    result = Some(applied.cloned());
                    proof {
                        first_i = i as int;
                    }
                }
                store.payout_attempts.set(i, applied);
            }
            i = i + 1;
        }
        proof {
            assert forall|a: int, b: int|
                0 <= a < b < store.payout_attempts@.len() implies (
            #[trigger] store.payout_attempts@[a].key_spec()) != (
            #[trigger] store.payout_attempts@[b].key_spec()) by {
                assert(store.payout_attempts@[a].key_spec() == orig[a].key_spec());
                assert(store.payout_attempts@[b].key_spec() == orig[b].key_spec());
            }
        }
        match result {
            Some(row) => {
                proof {
                    lemma_first_match_at(orig, p, first_i);
                }
                Ok(row)
            },
            None => {
                proof {
                    lemma_first_match_none(orig, p);
                }
                Err(StorageError::NotFound)
            },
        }
    }

    /// Applies the update to the attempt under its unique key and returns
    /// the updated row; `NotFound` when it is absent. An update lowering to
    /// an empty change set is success with the stored row unmodified: the
    /// storage layer's refusal to write zero columns is never surfaced to
    /// the caller.
    pub fn update_by_merchant_id_payout_attempt_id(
        store: &mut Store,
        merchant_id: u64,
        payout_id: u64,
        attempt_count: u32,
        payout: PayoutAttemptUpdate,
    ) -> (r: Result<PayoutAttempt, StorageError>)
        requires
            old(store).wf(),
        ensures
            final(store).wf(),
            same_except(*old(store), *final(store), TableId::PayoutAttempts),
            ({
                let internal = payout_attempt_update_internal(payout);
                if is_empty_change_set(internal) {
                    final(store).payout_attempts@ == old(store).payout_attempts@ && (
                    match old(store).payout_attempt_for(merchant_id, payout_id, attempt_count as u64) {
                        Some(cur) => r == Ok::<PayoutAttempt, StorageError>(cur),
                        None => r == Err::<PayoutAttempt, StorageError>(StorageError::NotFound),
                    })
                } else {
                    match old(store).payout_attempt_for(merchant_id, payout_id, attempt_count as u64) {
                        None => r == Err::<PayoutAttempt, StorageError>(StorageError::NotFound)
                            && final(store).payout_attempts@ == old(store).payout_attempts@,
                        Some(cur) => r == Ok::<PayoutAttempt, StorageError>(
                            apply_payout_attempt_update(cur, internal),
                        ) && final(store).payout_attempt_for(
                            merchant_id,
                            payout_id,
                            attempt_count as u64,
                        ) == Some(apply_payout_attempt_update(cur, internal)) && (forall|
                            k2: (u64, u64, u64),
                        |
                            k2 != (merchant_id, payout_id, attempt_count as u64) ==> #[trigger] lookup(
                                final(store).payout_attempts@,
                                k2,
                            ) == lookup(old(store).payout_attempts@, k2)),
                    }
                }
            }),
    {
        let internal = payout_attempt_update_internal_exec(&payout);
        if internal.is_empty() {
            // The storage layer refuses to build a write with no columns;
            // that refusal is success with the unmodified entity, never a
            // caller-visible error.
            return Self::find_by_merchant_id_payout_attempt_id(
                store,
                merchant_id,
                payout_id,
                attempt_count,
            );
        }
        let k = (merchant_id, payout_id, attempt_count as u64);
        match find_index(&store.payout_attempts, k) {
            Some(i) => {
                let applied = apply_payout_attempt_update_exec(&store.payout_attempts[i], &internal);
                let ret = applied.cloned();
                proof {
                    lemma_lookup_at(store.payout_attempts@, k, i as int);
                    lemma_lookup_update(store.payout_attempts@, i as int, applied);
                }
                store.payout_attempts.set(i, applied);
                Ok(ret)
            },
            None => Err(StorageError::NotFound),
        }
    }

    /// The filter facets of a payout listing: distinct connectors, distinct
    /// destination currencies, distinct statuses and distinct payout types.
    ///
    /// The connector facet is computed from each payout's *current* attempt
    /// row only (the row whose attempt count matches the payout's); the
    /// currency and payout-type facets from the stored payout rows of the
    /// listed ids; and the status facet in memory, by deduplicating the
    /// already-loaded payouts, without a further query. Everything is scoped
    /// to the given merchant.
    pub fn get_filters_for_payouts(
        store: &Store,
        payouts: &Vec<Payouts>,
        merchant_id: u64,
    ) -> (r: (Vec<String>, Vec<Currency>, Vec<PayoutStatus>, Vec<PayoutType>))
        ensures
            forall|s: Seq<char>|
                #![trigger string_seq_has(r.0@, s)]
                #![trigger connector_facet_has(store.payout_attempts@, payouts@, merchant_id, store.payout_attempts@.len() as int, s)]
                string_seq_has(r.0@, s) <==> connector_facet_has(
                    store.payout_attempts@,
                    payouts@,
                    merchant_id,
                    store.payout_attempts@.len() as int,
                    s,
                ),
            forall|x: int, y: int| 0 <= x < y < r.0@.len() ==> (#[trigger] r.0@[x])@ != (#[trigger] r.0@[y])@,
            forall|c: Currency|
                r.1@.contains(c) <==> (exists|j: int|
                    #[trigger] qualifying_currency(store.payouts@, payouts@, merchant_id, j, c)),
            forall|x: int, y: int| 0 <= x < y < r.1@.len() ==> r.1@[x] != r.1@[y],
            forall|s: PayoutStatus|
                r.2@.contains(s) <==> (exists|i: int|
                    0 <= i < payouts@.len() && (#[trigger] payouts@[i]).status == s),
            forall|x: int, y: int| 0 <= x < y < r.2@.len() ==> r.2@[x] != r.2@[y],
            forall|t: PayoutType|
                r.3@.contains(t) <==> (exists|j: int|
                    #[trigger] qualifying_payout_type(store.payouts@, payouts@, merchant_id, j, t)),
            forall|x: int, y: int| 0 <= x < y < r.3@.len() ==> r.3@[x] != r.3@[y],
    {
        let mut filter_connector: Vec<String> = Vec::new();
        let mut i: usize = 0;
        while i < store.payout_attempts.len()
            invariant
                i <= store.payout_attempts@.len(),
                forall|s: Seq<char>|
                    #![trigger string_seq_has(filter_connector@, s)]
                    #![trigger connector_facet_has(store.payout_attempts@, payouts@, merchant_id, i as int, s)]
                    string_seq_has(filter_connector@, s) <==> connector_facet_has(
                        store.payout_attempts@,
                        payouts@,
                        merchant_id,
                        i as int,
                        s,
                    ),
                forall|x: int, y: int|
                    0 <= x < y < filter_connector@.len() ==> (#[trigger] filter_connector@[x])@ != (
                    #[trigger] filter_connector@[y])@,
            decreases store.payout_attempts@.len() - i,
        {
            let ghost rows = store.payout_attempts@;
            let row_payout_id = store.payout_attempts[i].payout_id;
            let row_attempt_count = store.payout_attempts[i].attempt_count;
            if store.payout_attempts[i].merchant_id == merchant_id && payouts_have_attempt_key(
                payouts,
                row_payout_id,
                row_attempt_count,
            ) {
                match &store.payout_attempts[i].connector {
                    Some(c) => {
                        if !contains_string_view(&filter_connector, c) {
                            let ghost before = filter_connector@;
                            assert(!string_seq_has(before, c@));
                            filter_connector.push(c.clone());
                            assert(qualifying_connector(rows, payouts@, merchant_id, i as int, c@));
                            assert forall|s: Seq<char>| #[trigger] string_seq_has(filter_connector@, s)
                                <==> connector_facet_has(
                                rows,
                                payouts@,
                                merchant_id,
                                i + 1 as int,
                                s,
                            ) by {
                                assert(forall|x: int|
                                    0 <= x < before.len() ==> #[trigger] filter_connector@[x]
                                        == before[x]);
                                if s == c@ {
                                    assert(filter_connector@[filter_connector@.len() - 1]@ == s);
                                    assert(string_seq_has(filter_connector@, s));
                                    assert(connector_facet_has(
                                        rows,
                                        payouts@,
                                        merchant_id,
                                        i + 1 as int,
                                        s,
                                    ));
                                } else {
                                    if string_seq_has(filter_connector@, s) {
                                        let x = choose|x: int|
                                            0 <= x < filter_connector@.len() && (
                                            #[trigger] filter_connector@[x])@ == s;
                                        assert(x < before.len() && before[x]@ == s);
                                        assert(string_seq_has(before, s));
                                    }
                                    if connector_facet_has(rows, payouts@, merchant_id, i + 1 as int, s) {
                                        let j = choose|j: int|
                                            j < i + 1 && #[trigger] qualifying_connector(
                                                rows,
                                                payouts@,
                                                merchant_id,
                                                j,
                                                s,
                                            );
                                        assert(j != i);
                                        assert(connector_facet_has(rows, payouts@, merchant_id, i as int, s));
                                        assert(string_seq_has(before, s));
                                        let x = choose|x: int|
                                            0 <= x < before.len() && (#[trigger] before[x])@ == s;
                                        assert(filter_connector@[x]@ == s);
                                        assert(string_seq_has(filter_connector@, s));
                                    }
                                }
                            }
                            assert forall|x: int, y: int|
                                0 <= x < y < filter_connector@.len() implies (
                            #[trigger] filter_connector@[x])@ != (#[trigger] filter_connector@[y])@ by {
                                if y == filter_connector@.len() - 1 {
                                    assert(filter_connector@[x] == before[x]);
                                    assert(!string_seq_has(before, c@));
                                    assert(before[x]@ != c@);
                                }
                            }
                        } else {
                            assert(string_seq_has(filter_connector@, c@));
                            assert(qualifying_connector(rows, payouts@, merchant_id, i as int, c@));
                            assert forall|s: Seq<char>| #[trigger] string_seq_has(filter_connector@, s)
                                <==> connector_facet_has(
                                rows,
                                payouts@,
                                merchant_id,
                                i + 1 as int,
                                s,
                            ) by {
                                if connector_facet_has(rows, payouts@, merchant_id, i + 1 as int, s) {
                                    let j = choose|j: int|
                                        j < i + 1 && #[trigger] qualifying_connector(
                                            rows,
                                            payouts@,
                                            merchant_id,
                                            j,
                                            s,
                                        );
                                    if j == i {
                                        assert(s == c@);
                                    } else {
                                        assert(connector_facet_has(rows, payouts@, merchant_id, i as int, s));
                                    }
                                }
                            }
                        }
                    },
                    None => {
                        assert forall|s: Seq<char>| #[trigger] string_seq_has(filter_connector@, s)
                            <==> connector_facet_has(
                            rows,
                            payouts@,
                            merchant_id,
                            i + 1 as int,
                            s,
                        ) by {
                            if connector_facet_has(rows, payouts@, merchant_id, i + 1 as int, s) {
                                let j = choose|j: int|
                                    j < i + 1 && #[trigger] qualifying_connector(
                                        rows,
                                        payouts@,
                                        merchant_id,
                                        j,
                                        s,
                                    );
                                assert(j != i);
                                assert(connector_facet_has(rows, payouts@, merchant_id, i as int, s));
                            }
                        }
                    },
                }
            } else {
                assert forall|s: Seq<char>| #[trigger] string_seq_has(filter_connector@, s)
                    <==> connector_facet_has(rows, payouts@, merchant_id, i + 1 as int, s) by {
                    if connector_facet_has(rows, payouts@, merchant_id, i + 1 as int, s) {
                        let j = choose|j: int|
                            j < i + 1 && #[trigger] qualifying_connector(
                                rows,
                                payouts@,
                                merchant_id,
                                j,
                                s,
                            );
                        assert(j != i);
                        assert(connector_facet_has(rows, payouts@, merchant_id, i as int, s));
                    }
                }
            }
            i = i + 1;
        }

        let mut filter_currency: Vec<Currency> = Vec::new();
        let mut i2: usize = 0;
        while i2 < store.payouts.len()
            invariant
                i2 <= store.payouts@.len(),
                forall|c: Currency|
                    filter_currency@.contains(c) <==> (exists|j: int|
                        j < i2 && #[trigger] qualifying_currency(
                            store.payouts@,
                            payouts@,
                            merchant_id,
                            j,
                            c,
                        )),
                forall|x: int, y: int|
                    0 <= x < y < filter_currency@.len() ==> filter_currency@[x] != filter_currency@[y],
            decreases store.payouts@.len() - i2,
        {
            let row_payout_id = store.payouts[i2].payout_id;
            if store.payouts[i2].merchant_id == merchant_id && payouts_have_id(
                payouts,
                row_payout_id,
            ) {
                let c = store.payouts[i2].destination_currency;
                if !contains_currency(&filter_currency, c) {
                    let ghost before = filter_currency@;
                    filter_currency.push(c);
                    assert(qualifying_currency(store.payouts@, payouts@, merchant_id, i2 as int, c));
                    assert(filter_currency@.contains(c)) by {
                        assert(filter_currency@[filter_currency@.len() - 1] == c);
                    }
                    assert(forall|c2: Currency|
                        c2 != c ==> (filter_currency@.contains(c2) <==> before.contains(c2)));
                } else {
                    assert(qualifying_currency(store.payouts@, payouts@, merchant_id, i2 as int, c));
                }
            }
            i2 = i2 + 1;
        }

        let mut payout_status: Vec<PayoutStatus> = Vec::new();
        let mut i3: usize = 0;
        while i3 < payouts.len()
            invariant
                i3 <= payouts@.len(),
                forall|s: PayoutStatus|
                    payout_status@.contains(s) <==> (exists|j: int|
                        0 <= j < i3 && (#[trigger] payouts@[j]).status == s),
                forall|x: int, y: int|
                    0 <= x < y < payout_status@.len() ==> payout_status@[x] != payout_status@[y],
            decreases payouts@.len() - i3,
        {
            let s = payouts[i3].status;
            if !contains_payout_status(&payout_status, s) {
                let ghost before = payout_status@;
                payout_status.push(s);
                assert(payout_status@.contains(s)) by {
                    assert(payout_status@[payout_status@.len() - 1] == s);
                }
                assert(forall|s2: PayoutStatus|
                    s2 != s ==> (payout_status@.contains(s2) <==> before.contains(s2)));
            }
            i3 = i3 + 1;
        }

        let mut filter_payout_method: Vec<PayoutType> = Vec::new();
        let mut i4: usize = 0;
        while i4 < store.payouts.len()
            invariant
                i4 <= store.payouts@.len(),
                forall|t: PayoutType|
                    filter_payout_method@.contains(t) <==> (exists|j: int|
                        j < i4 && #[trigger] qualifying_payout_type(
                            store.payouts@,
                            payouts@,
                            merchant_id,
                            j,
                            t,
                        )),
                forall|x: int, y: int|
                    0 <= x < y < filter_payout_method@.len() ==> filter_payout_method@[x]
                        != filter_payout_method@[y],
            decreases store.payouts@.len() - i4,
        {
            let row_payout_id = store.payouts[i4].payout_id;
            if store.payouts[i4].merchant_id == merchant_id && payouts_have_id(
                payouts,
                row_payout_id,
            ) {
                match store.payouts[i4].payout_type {
                    Some(t) => {
                        if !contains_payout_type(&filter_payout_method, t) {
                            let ghost before = filter_payout_method@;
                            filter_payout_method.push(t);
                            assert(qualifying_payout_type(
                                store.payouts@,
                                payouts@,
                                merchant_id,
                                i4 as int,
                                t,
                            ));
                            assert(filter_payout_method@.contains(t)) by {
                                assert(filter_payout_method@[filter_payout_method@.len() - 1] == t);
                            }
                            assert(forall|t2: PayoutType|
                                t2 != t ==> (filter_payout_method@.contains(t2) <==> before.contains(
                                    t2,
                                )));
                        } else {
                            assert(qualifying_payout_type(
                                store.payouts@,
                                payouts@,
                                merchant_id,
                                i4 as int,
                                t,
                            ));
                        }
                    },
                    None => (),
                }
            }
            i4 = i4 + 1;
        }

        (filter_connector, filter_currency, payout_status, filter_payout_method)
    }
}

} // verus!
