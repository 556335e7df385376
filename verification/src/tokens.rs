//! Payment-method tokens and the expiring key-value side store they live in.
//!
//! A token is stored under a composed string key scoping it to the parent
//! token and the payment method. Whether the token outlives a payment
//! depends on the intent's final status: a payment parked for customer or
//! merchant action keeps its token so the flow can resume.

use vstd::pervasive::VecAdditionalExecFns;
use vstd::prelude::*;
use vstd::string::StringExecFns;

use crate::enums::{payment_method_label, IntentStatus, PaymentMethod};
use crate::records::{PaymentTokenData, TokenEntry};
use crate::store::Store;

verus! {

/// Pairwise-distinct token keys: the well-formedness of the token store.
pub open spec fn unique_token_keys(rows: Seq<TokenEntry>) -> bool {
    forall|i: int, j: int|
        0 <= i < j < rows.len() ==> (#[trigger] rows[i].key@) != (#[trigger] rows[j].key@)
}

/// Some entry carries the key.
pub open spec fn token_contains(rows: Seq<TokenEntry>, k: Seq<char>) -> bool {
    exists|i: int| 0 <= i < rows.len() && (#[trigger] rows[i].key@) == k
}

/// The position of the entry carrying the key; meaningful under
/// [`unique_token_keys`] when [`token_contains`] holds.
pub open spec fn token_idx(rows: Seq<TokenEntry>, k: Seq<char>) -> int {
    choose|i: int| 0 <= i < rows.len() && (#[trigger] rows[i].key@) == k
}

/// The entry a key-value read returns.
pub open spec fn token_lookup(rows: Seq<TokenEntry>, k: Seq<char>) -> Option<TokenEntry> {
    if token_contains(rows, k) {
        Some(rows[token_idx(rows, k)])
    } else {
        None
    }
}

/// Under unique keys, the entry at a matching position is the lookup result.
pub proof fn lemma_token_lookup_at(rows: Seq<TokenEntry>, k: Seq<char>, i: int)
    requires
        unique_token_keys(rows),
        0 <= i < rows.len(),
        rows[i].key@ == k,
    ensures
        token_contains(rows, k),
        token_idx(rows, k) == i,
        token_lookup(rows, k) == Some(rows[i]),
{
    assert(token_contains(rows, k));
    let j = token_idx(rows, k);
    if i != j {
        assert(rows[i].key@ != rows[j].key@);
    }
}

/// Overwriting the entry at the key's position with an entry of the same key
/// preserves uniqueness, makes the new entry the lookup result, and leaves
/// every other key's lookup untouched.
pub proof fn lemma_token_lookup_update(rows: Seq<TokenEntry>, i: int, e2: TokenEntry)
    requires
        unique_token_keys(rows),
        0 <= i < rows.len(),
        e2.key@ == rows[i].key@,
    ensures
        unique_token_keys(rows.update(i, e2)),
        token_lookup(rows.update(i, e2), e2.key@) == Some(rows.update(i, e2)[i]),
        rows.update(i, e2)[i] == e2,
        forall|k2: Seq<char>|
            k2 != e2.key@ ==> #[trigger] token_lookup(rows.update(i, e2), k2) == token_lookup(
                rows,
                k2,
            ),
{
    let rows2 = rows.update(i, e2);
    assert forall|a: int, b: int| 0 <= a < b < rows2.len() implies (#[trigger] rows2[a].key@)
        != (#[trigger] rows2[b].key@) by {
        assert(rows2[a].key@ == rows[a].key@);
        assert(rows2[b].key@ == rows[b].key@);
    }
    lemma_token_lookup_at(rows2, e2.key@, i);
    assert forall|k2: Seq<char>| k2 != e2.key@ implies #[trigger] token_lookup(rows2, k2)
        == token_lookup(rows, k2) by {
        assert(forall|j: int| 0 <= j < rows.len() ==> (#[trigger] rows2[j].key@) == rows[j].key@);
        if token_contains(rows, k2) {
            let j = token_idx(rows, k2);
            assert(rows2[j].key@ == k2);
            lemma_token_lookup_at(rows2, k2, j);
            lemma_token_lookup_at(rows, k2, j);
            assert(j != i);
            assert(rows2[j] == rows[j]);
        } else {
            if token_contains(rows2, k2) {
                let j = choose|j: int| 0 <= j < rows2.len() && (#[trigger] rows2[j].key@) == k2;
                assert(rows[j].key@ == k2);
            }
        }
    }
}

/// Appending an entry under a fresh key preserves uniqueness, makes the new
/// entry the lookup result for its key, and leaves every other key's lookup
/// untouched.
pub proof fn lemma_token_lookup_push(rows: Seq<TokenEntry>, e: TokenEntry)
    requires
        unique_token_keys(rows),
        !token_contains(rows, e.key@),
    ensures
        unique_token_keys(rows.push(e)),
        token_lookup(rows.push(e), e.key@) == Some(rows.push(e)[rows.len() as int]),
        rows.push(e)[rows.len() as int] == e,
        forall|k2: Seq<char>|
            k2 != e.key@ ==> #[trigger] token_lookup(rows.push(e), k2) == token_lookup(rows, k2),
{
    let rows2 = rows.push(e);
    assert forall|a: int, b: int| 0 <= a < b < rows2.len() implies (#[trigger] rows2[a].key@)
        != (#[trigger] rows2[b].key@) by {
        if b < rows.len() {
            assert(rows2[a] == rows[a] && rows2[b] == rows[b]);
        } else {
            assert(rows2[b] == e && rows2[a] == rows[a]);
            assert(rows[a].key@ != e.key@);
        }
    }
    lemma_token_lookup_at(rows2, e.key@, rows.len() as int);
    assert forall|k2: Seq<char>| k2 != e.key@ implies #[trigger] token_lookup(rows2, k2)
        == token_lookup(rows, k2) by {
        if token_contains(rows, k2) {
            let j = token_idx(rows, k2);
            assert(rows2[j] == rows[j]);
            lemma_token_lookup_at(rows2, k2, j);
            lemma_token_lookup_at(rows, k2, j);
        } else {
            if token_contains(rows2, k2) {
                let j = choose|j: int| 0 <= j < rows2.len() && (#[trigger] rows2[j].key@) == k2;
                assert(j == rows.len());
            }
        }
    }
}

/// Removing the entry at position `i` preserves uniqueness, erases its key,
/// and leaves every other key's lookup untouched.
pub proof fn lemma_token_lookup_remove(rows: Seq<TokenEntry>, i: int)
    requires
        unique_token_keys(rows),
        0 <= i < rows.len(),
    ensures
        unique_token_keys(rows.remove(i)),
        token_lookup(rows.remove(i), rows[i].key@) == None::<TokenEntry>,
        forall|k2: Seq<char>|
            k2 != rows[i].key@ ==> #[trigger] token_lookup(rows.remove(i), k2) == token_lookup(
                rows,
                k2,
            ),
{
    let rows2 = rows.remove(i);
    assert(forall|j: int| 0 <= j < i ==> rows2[j] == rows[j]);
    assert(forall|j: int| i <= j < rows2.len() ==> rows2[j] == rows[j + 1]);
    assert forall|a: int, b: int| 0 <= a < b < rows2.len() implies (#[trigger] rows2[a].key@)
        != (#[trigger] rows2[b].key@) by {}
    if token_contains(rows2, rows[i].key@) {
        let j = choose|j: int| 0 <= j < rows2.len() && (#[trigger] rows2[j].key@) == rows[i].key@;
        if j < i {
            assert(rows[j].key@ == rows[i].key@);
        } else {
            assert(rows[j + 1].key@ == rows[i].key@);
        }
        assert(false);
    }
    assert forall|k2: Seq<char>| k2 != rows[i].key@ implies #[trigger] token_lookup(rows2, k2)
        == token_lookup(rows, k2) by {
        if token_contains(rows, k2) {
            let j = token_idx(rows, k2);
            assert(rows[j].key@ == k2);
            assert(j != i);
            if j < i {
                lemma_token_lookup_at(rows2, k2, j);
            } else {
                assert(rows2[j - 1] == rows[j]);
                lemma_token_lookup_at(rows2, k2, j - 1);
            }
            lemma_token_lookup_at(rows, k2, j);
        } else {
            if token_contains(rows2, k2) {
                let j = choose|j: int| 0 <= j < rows2.len() && (#[trigger] rows2[j].key@) == k2;
                if j < i {
                    assert(rows[j].key@ == k2);
                } else {
                    assert(rows[j + 1].key@ == k2);
                }
                assert(false);
            }
        }
    }
}

/// The position of the entry carrying key `k`, or `None` when no entry does.
pub fn find_token_index(rows: &Vec<TokenEntry>, k: &String) -> (r: Option<usize>)
    ensures
        match r {
            Some(i) => i < rows.len() && rows@[i as int].key@ == k@,
            None => !token_contains(rows@, k@),
        },
{
    let mut i: usize = 0;
    while i < rows.len()
        invariant
            i <= rows.len(),
            forall|j: int| 0 <= j < i ==> (#[trigger] rows@[j].key@) != k@,
        decreases rows.len() - i,
    {
        if rows[i].key.eq(k) {
            return Some(i);
        }
        i = i + 1;
    }
    None
}

/// The key a token is stored under: the parent token and the payment method,
/// wrapped in the store's namespace markers.
pub open spec fn token_key(parent_pm_token: Seq<char>, payment_method: PaymentMethod) -> Seq<char> {
    "pm_token_"@ + parent_pm_token + "_"@ + payment_method_label(payment_method) + "_hyperswitch"@
}

/// A handle on the token a payment method is stored under for the duration
/// of a payment.
#[derive(Clone, Debug)]
pub struct ParentPaymentMethodToken {
    key_for_token: String,
}

impl ParentPaymentMethodToken {
    /// The key this handle addresses.
    pub closed spec fn key_spec(&self) -> Seq<char> {
        self.key_for_token@
    }

    /// Composes the storage key for a parent token and payment method.
    pub fn create_key_for_token(key_source: (&String, PaymentMethod)) -> (r: Self)
        ensures
            r.key_spec() == token_key(key_source.0@, key_source.1),
    {
        let (parent_pm_token, payment_method) = key_source;
        let mut key = String::from_str("pm_token_");
        key.append(parent_pm_token.as_str());
        key.append("_");
        key.append(payment_method.as_str());
        key.append("_hyperswitch");
        ParentPaymentMethodToken { key_for_token: key }
    }

    /// The composed storage key itself.
    pub fn return_key_for_token(key_source: (&String, PaymentMethod)) -> (r: String)
        ensures
            r@ == token_key(key_source.0@, key_source.1),
    {
        let token = Self::create_key_for_token(key_source);
        token.key_for_token
    }

    /// Stores token data under this handle's key with the given expiry,
    /// overwriting any previous entry.
    pub fn insert(&self, fulfillment_time: i64, token: PaymentTokenData, store: &mut Store)
        requires
            old(store).wf(),
        ensures
            final(store).wf(),
            crate::store::same_except(*old(store), *final(store), crate::store::TableId::Tokens),
            token_lookup(final(store).tokens@, self.key_spec()) matches Some(e) && e.key@
                == self.key_spec() && e.token == token && e.expiry_seconds == fulfillment_time,
            forall|k2: Seq<char>|
                k2 != self.key_spec() ==> #[trigger] token_lookup(final(store).tokens@, k2)
                    == token_lookup(old(store).tokens@, k2),
    {
        let entry = TokenEntry {
            key: self.key_for_token.clone(),
            token,
            expiry_seconds: fulfillment_time,
        };
        match find_token_index(&store.tokens, &self.key_for_token) {
            Some(i) => {
                proof {
                    lemma_token_lookup_update(store.tokens@, i as int, entry);
                }
                store.tokens.set(i, entry);
            },
            None => {
                proof {
                    lemma_token_lookup_push(store.tokens@, entry);
                }
                store.tokens.push(entry);
            },
        }
    }

    /// A token is kept while the intent awaits customer or merchant action,
    /// so a resumed payment can still reach it; any other outcome deletes it.
    pub fn should_delete_payment_method_token(&self, status: IntentStatus) -> (r: bool)
        ensures
            r == (status != IntentStatus::RequiresCustomerAction && status
                != IntentStatus::RequiresMerchantAction),
    {
        match status {
            IntentStatus::RequiresCustomerAction => false,
            IntentStatus::RequiresMerchantAction => false,
            _ => true,
        }
    }

    /// Removes the entry under this handle's key. Deleting an absent key is
    /// success: the delete is fire-and-forget in every flow that uses it.
    pub fn delete(&self, store: &mut Store)
        requires
            old(store).wf(),
        ensures
            final(store).wf(),
            crate::store::same_except(*old(store), *final(store), crate::store::TableId::Tokens),
            token_lookup(final(store).tokens@, self.key_spec()) == None::<TokenEntry>,
            forall|k2: Seq<char>|
                k2 != self.key_spec() ==> #[trigger] token_lookup(final(store).tokens@, k2)
                    == token_lookup(old(store).tokens@, k2),
    {
        match find_token_index(&store.tokens, &self.key_for_token) {
            Some(i) => {
                proof {
                    lemma_token_lookup_remove(store.tokens@, i as int);
                }
                store.tokens.remove(i);
            },
            None => (),
        }
    }
}

} // verus!
