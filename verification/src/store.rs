//! The storage collaborator, modelled as an in-memory table set.
//!
//! Every table is a vector of rows with pairwise-distinct natural keys, and
//! every operation is predicate-qualified: a point query or update names the
//! owning merchant together with the entity's key, so a row owned by another
//! merchant is unreachable however entity ids collide. An update applies a
//! typed change to whatever row currently matches — a lost race against a
//! concurrent writer surfaces as `NotFound`, never as corrupted state — and
//! an insert refuses a key that is already taken.

use vstd::pervasive::VecAdditionalExecFns;
use vstd::prelude::*;

use crate::errors::StorageError;
use crate::keyed::{
    find_index, lemma_lookup_at, lemma_lookup_push, lemma_lookup_update, lookup, unique_keys,
};
use crate::records::{
    Address, BusinessProfile, ConfigEntry, MerchantAccount, PaymentAttempt, PaymentIntent,
    PayoutAttempt, Payouts, ProcessTracker, TokenEntry,
};
use crate::tokens::unique_token_keys;
use crate::updates::{
    apply_intent_update, apply_intent_update_exec, apply_attempt_update, apply_attempt_update_exec,
    apply_payouts_update, apply_payouts_update_exec, PaymentAttemptUpdate, PaymentIntentUpdate,
    PayoutsUpdate,
};

verus! {

/// Names one table of the store, for framing what an operation may touch.
pub enum TableId {
    Intents,
    Attempts,
    Addresses,
    Profiles,
    Merchants,
    Configs,
    Tokens,
    Payouts,
    PayoutAttempts,
    Processes,
}

/// The persistent state every pipeline invocation reads and writes.
pub struct Store {
    pub intents: Vec<PaymentIntent>,
    pub attempts: Vec<PaymentAttempt>,
    pub addresses: Vec<Address>,
    pub profiles: Vec<BusinessProfile>,
    pub merchants: Vec<MerchantAccount>,
    pub configs: Vec<ConfigEntry>,
    pub tokens: Vec<TokenEntry>,
    pub payouts: Vec<Payouts>,
    pub payout_attempts: Vec<PayoutAttempt>,
    pub processes: Vec<ProcessTracker>,
}

/// Every table except the named one is unchanged between `a` and `b`.
pub open spec fn same_except(a: Store, b: Store, t: TableId) -> bool {
    &&& !(t is Intents) ==> a.intents@ == b.intents@
    &&& !(t is Attempts) ==> a.attempts@ == b.attempts@
    &&& !(t is Addresses) ==> a.addresses@ == b.addresses@
    &&& !(t is Profiles) ==> a.profiles@ == b.profiles@
    &&& !(t is Merchants) ==> a.merchants@ == b.merchants@
    &&& !(t is Configs) ==> a.configs@ == b.configs@
    &&& !(t is Tokens) ==> a.tokens@ == b.tokens@
    &&& !(t is Payouts) ==> a.payouts@ == b.payouts@
    &&& !(t is PayoutAttempts) ==> a.payout_attempts@ == b.payout_attempts@
    &&& !(t is Processes) ==> a.processes@ == b.processes@
}

/// No table differs between `a` and `b`.
pub open spec fn unchanged(a: Store, b: Store) -> bool {
    &&& a.intents@ == b.intents@
    &&& a.attempts@ == b.attempts@
    &&& a.addresses@ == b.addresses@
    &&& a.profiles@ == b.profiles@
    &&& a.merchants@ == b.merchants@
    &&& a.configs@ == b.configs@
    &&& a.tokens@ == b.tokens@
    &&& a.payouts@ == b.payouts@
    &&& a.payout_attempts@ == b.payout_attempts@
    &&& a.processes@ == b.processes@
}

/// Merchant scoping, as a law: a lookup by one merchant's id never returns
/// a row owned by another merchant, even when the entity id collides across
/// merchants — the merchant id is part of every natural key.
pub proof fn lemma_lookup_never_crosses_merchants(
    store: Store,
    merchant_a: u64,
    merchant_b: u64,
    entity_id: u64,
)
    requires
        merchant_a != merchant_b,
    ensures
        store.intent_for(merchant_a, entity_id) matches Some(row) ==> row.merchant_id == merchant_a
            && row.merchant_id != merchant_b,
        store.payout_for(merchant_a, entity_id) matches Some(row) ==> row.merchant_id == merchant_a
            && row.merchant_id != merchant_b,
        store.profile_for(merchant_a, entity_id) matches Some(row) ==> row.merchant_id == merchant_a
            && row.merchant_id != merchant_b,
        store.address_for(merchant_a, entity_id) matches Some(row) ==> row.merchant_id == merchant_a
            && row.merchant_id != merchant_b,
{
}

impl Store {
    /// Every table carries pairwise-distinct keys.
    pub open spec fn wf(self) -> bool {
        &&& unique_keys(self.intents@)
        &&& unique_keys(self.attempts@)
        &&& unique_keys(self.addresses@)
        &&& unique_keys(self.profiles@)
        &&& unique_keys(self.merchants@)
        &&& unique_keys(self.payouts@)
        &&& unique_keys(self.payout_attempts@)
        &&& unique_keys(self.processes@)
        &&& unique_token_keys(self.tokens@)
    }

    /// The intent stored for a merchant and payment id.
    pub open spec fn intent_for(self, merchant_id: u64, payment_id: u64) -> Option<PaymentIntent> {
        lookup(self.intents@, (merchant_id, payment_id, 0))
    }

    /// The attempt stored for a merchant, payment id and attempt id.
    pub open spec fn attempt_for(
        self,
        merchant_id: u64,
        payment_id: u64,
        attempt_id: u64,
    ) -> Option<PaymentAttempt> {
        lookup(self.attempts@, (merchant_id, payment_id, attempt_id))
    }

    /// The address stored for a merchant and address id.
    pub open spec fn address_for(self, merchant_id: u64, address_id: u64) -> Option<Address> {
        lookup(self.addresses@, (merchant_id, address_id, 0))
    }

    /// The business profile stored for a merchant and profile id.
    pub open spec fn profile_for(self, merchant_id: u64, profile_id: u64) -> Option<BusinessProfile> {
        lookup(self.profiles@, (merchant_id, profile_id, 0))
    }

    /// The account stored for a merchant.
    pub open spec fn merchant_for(self, merchant_id: u64) -> Option<MerchantAccount> {
        lookup(self.merchants@, (merchant_id, 0, 0))
    }

    /// The payout stored for a merchant and payout id.
    pub open spec fn payout_for(self, merchant_id: u64, payout_id: u64) -> Option<Payouts> {
        lookup(self.payouts@, (merchant_id, payout_id, 0))
    }

    /// The payout attempt stored for a merchant, payout id and attempt count.
    pub open spec fn payout_attempt_for(
        self,
        merchant_id: u64,
        payout_id: u64,
        attempt_count: u64,
    ) -> Option<PayoutAttempt> {
        lookup(self.payout_attempts@, (merchant_id, payout_id, attempt_count))
    }

    /// The background job stored for an id.
    pub open spec fn process_for(self, id: u64) -> Option<ProcessTracker> {
        lookup(self.processes@, (id, 0, 0))
    }

    /// An empty, well-formed store.
    pub fn new() -> (r: Store)
        ensures
            r.wf(),
            r.intents@.len() == 0,
            r.attempts@.len() == 0,
            r.addresses@.len() == 0,
            r.profiles@.len() == 0,
            r.merchants@.len() == 0,
            r.configs@.len() == 0,
            r.tokens@.len() == 0,
            r.payouts@.len() == 0,
            r.payout_attempts@.len() == 0,
            r.processes@.len() == 0,
    {
        Store {
            intents: Vec::new(),
            attempts: Vec::new(),
            addresses: Vec::new(),
            profiles: Vec::new(),
            merchants: Vec::new(),
            configs: Vec::new(),
            tokens: Vec::new(),
            payouts: Vec::new(),
            payout_attempts: Vec::new(),
            processes: Vec::new(),
        }
    }

    /// Point query for an intent, scoped to the owning merchant.
    pub fn find_payment_intent_by_payment_id_merchant_id(
        &self,
        payment_id: u64,
        merchant_id: u64,
    ) -> (r: Result<PaymentIntent, StorageError>)
        requires
            self.wf(),
        ensures
            match r {
                Ok(row) => self.intent_for(merchant_id, payment_id) == Some(row)
                    && row.merchant_id == merchant_id && row.payment_id == payment_id,
                Err(e) => e == StorageError::NotFound && self.intent_for(merchant_id, payment_id)
                    is None,
            },
    {
        match find_index(&self.intents, (merchant_id, payment_id, 0)) {
            Some(i) => {
                proof {
                    lemma_lookup_at(self.intents@, (merchant_id, payment_id, 0), i as int);
                }
                Ok(self.intents[i])
            },
            None => Err(StorageError::NotFound),
        }
    }

    /// Point query for an attempt, scoped to the owning merchant.
    pub fn find_payment_attempt_by_payment_id_merchant_id_attempt_id(
        &self,
        payment_id: u64,
        merchant_id: u64,
        attempt_id: u64,
    ) -> (r: Result<PaymentAttempt, StorageError>)
        requires
            self.wf(),
        ensures
            match r {
                Ok(row) => self.attempt_for(merchant_id, payment_id, attempt_id) == Some(row)
                    && row.merchant_id == merchant_id && row.payment_id == payment_id
                    && row.attempt_id == attempt_id,
                Err(e) => e == StorageError::NotFound && self.attempt_for(
                    merchant_id,
                    payment_id,
                    attempt_id,
                ) is None,
            },
    {
        match find_index(&self.attempts, (merchant_id, payment_id, attempt_id)) {
            Some(i) => {
                proof {
                    lemma_lookup_at(self.attempts@, (merchant_id, payment_id, attempt_id), i as int);
                }
                Ok(self.attempts[i].cloned())
            },
            None => Err(StorageError::NotFound),
        }
    }

    /// Point query for an address, scoped to the owning merchant; an absent
    /// address is an ordinary outcome, not an error.
    pub fn find_address_by_merchant_id_address_id(
        &self,
        merchant_id: u64,
        address_id: u64,
    ) -> (r: Option<Address>)
        requires
            self.wf(),
        ensures
            r == self.address_for(merchant_id, address_id),
    {
        match find_index(&self.addresses, (merchant_id, address_id, 0)) {
            Some(i) => {
                proof {
                    lemma_lookup_at(self.addresses@, (merchant_id, address_id, 0), i as int);
                }
                Some(self.addresses[i].cloned())
            },
            None => None,
        }
    }

    /// Point query for a business profile, scoped to the owning merchant.
    pub fn find_business_profile_by_profile_id(
        &self,
        merchant_id: u64,
        profile_id: u64,
    ) -> (r: Result<BusinessProfile, StorageError>)
        requires
            self.wf(),
        ensures
            match r {
                Ok(row) => self.profile_for(merchant_id, profile_id) == Some(row)
                    && row.merchant_id == merchant_id && row.profile_id == profile_id,
                Err(e) => e == StorageError::NotFound && self.profile_for(merchant_id, profile_id)
                    is None,
            },
    {
        match find_index(&self.profiles, (merchant_id, profile_id, 0)) {
            Some(i) => {
                proof {
                    lemma_lookup_at(self.profiles@, (merchant_id, profile_id, 0), i as int);
                }
                Ok(self.profiles[i])
            },
            None => Err(StorageError::NotFound),
        }
    }

    /// Point query for a merchant account.
    pub fn find_merchant_account_by_merchant_id(&self, merchant_id: u64) -> (r: Result<
        MerchantAccount,
        StorageError,
    >)
        requires
            self.wf(),
        ensures
            match r {
                Ok(row) => self.merchant_for(merchant_id) == Some(row) && row.merchant_id
                    == merchant_id,
                Err(e) => e == StorageError::NotFound && self.merchant_for(merchant_id) is None,
            },
    {
        match find_index(&self.merchants, (merchant_id, 0, 0)) {
            Some(i) => {
                proof {
                    lemma_lookup_at(self.merchants@, (merchant_id, 0, 0), i as int);
                }
                Ok(self.merchants[i])
            },
            None => Err(StorageError::NotFound),
        }
    }

    /// Point query for a payout, scoped to the owning merchant.
    pub fn find_payout_by_merchant_id_payout_id(
        &self,
        merchant_id: u64,
        payout_id: u64,
    ) -> (r: Result<Payouts, StorageError>)
        requires
            self.wf(),
        ensures
            match r {
                Ok(row) => self.payout_for(merchant_id, payout_id) == Some(row) && row.merchant_id
                    == merchant_id && row.payout_id == payout_id,
                Err(e) => e == StorageError::NotFound && self.payout_for(merchant_id, payout_id)
                    is None,
            },
    {
        match find_index(&self.payouts, (merchant_id, payout_id, 0)) {
            Some(i) => {
                proof {
                    lemma_lookup_at(self.payouts@, (merchant_id, payout_id, 0), i as int);
                }
                Ok(self.payouts[i])
            },
            None => Err(StorageError::NotFound),
        }
    }

    /// Point query for a background job.
    pub fn find_process_by_id(&self, id: u64) -> (r: Option<ProcessTracker>)
        requires
            self.wf(),
        ensures
            r == self.process_for(id),
    {
        match find_index(&self.processes, (id, 0, 0)) {
            Some(i) => {
                proof {
                    lemma_lookup_at(self.processes@, (id, 0, 0), i as int);
                }
                Some(self.processes[i])
            },
            None => None,
        }
    }

    /// Predicate-qualified update of an intent: applies the typed change to
    /// whatever row currently matches the intent's merchant-scoped key, and
    /// reports `NotFound` when none does.
    pub fn update_payment_intent(
        &mut self,
        intent: &PaymentIntent,
        update: &PaymentIntentUpdate,
    ) -> (r: Result<PaymentIntent, StorageError>)
        requires
            old(self).wf(),
        ensures
            final(self).wf(),
            same_except(*old(self), *final(self), TableId::Intents),
            match old(self).intent_for(intent.merchant_id, intent.payment_id) {
                None => r == Err::<PaymentIntent, StorageError>(StorageError::NotFound)
                    && final(self).intents@ == old(self).intents@,
                Some(cur) => r == Ok::<PaymentIntent, StorageError>(apply_intent_update(cur, *update))
                    && final(self).intent_for(intent.merchant_id, intent.payment_id) == Some(
                    apply_intent_update(cur, *update),
                ) && (forall|k2: (u64, u64, u64)|
                    k2 != (intent.merchant_id, intent.payment_id, 0u64) ==> #[trigger] lookup(
                        final(self).intents@,
                        k2,
                    ) == lookup(old(self).intents@, k2)),
            },
    {
        let k = (intent.merchant_id, intent.payment_id, 0u64);
        match find_index(&self.intents, k) {
            Some(i) => {
                let applied = apply_intent_update_exec(&self.intents[i], update);
                proof {
                    lemma_lookup_at(self.intents@, k, i as int);
                    lemma_lookup_update(self.intents@, i as int, applied);
                }
                self.intents.set(i, applied);
                Ok(applied)
            },
            None => Err(StorageError::NotFound),
        }
    }

    /// Predicate-qualified update of an attempt, keyed by the attempt's own
    /// merchant-scoped key.
    pub fn update_payment_attempt_with_attempt_id(
        &mut self,
        attempt: &PaymentAttempt,
        update: &PaymentAttemptUpdate,
    ) -> (r: Result<PaymentAttempt, StorageError>)
        requires
            old(self).wf(),
        ensures
            final(self).wf(),
            same_except(*old(self), *final(self), TableId::Attempts),
            match old(self).attempt_for(attempt.merchant_id, attempt.payment_id, attempt.attempt_id) {
                None => r == Err::<PaymentAttempt, StorageError>(StorageError::NotFound)
                    && final(self).attempts@ == old(self).attempts@,
                Some(cur) => r == Ok::<PaymentAttempt, StorageError>(apply_attempt_update(cur, *update))
                    && final(self).attempt_for(
                    attempt.merchant_id,
                    attempt.payment_id,
                    attempt.attempt_id,
                ) == Some(apply_attempt_update(cur, *update)) && (forall|k2: (u64, u64, u64)|
                    k2 != (attempt.merchant_id, attempt.payment_id, attempt.attempt_id)
                        ==> #[trigger] lookup(final(self).attempts@, k2) == lookup(
                        old(self).attempts@,
                        k2,
                    )),
            },
    {
        let k = (attempt.merchant_id, attempt.payment_id, attempt.attempt_id);
        match find_index(&self.attempts, k) {
            Some(i) => {
                let applied = apply_attempt_update_exec(&self.attempts[i], update);
                let ret = applied.cloned();
                proof {
                    lemma_lookup_at(self.attempts@, k, i as int);
                    lemma_lookup_update(self.attempts@, i as int, applied);
                }
                self.attempts.set(i, applied);
                Ok(ret)
            },
            None => Err(StorageError::NotFound),
        }
    }

    /// Predicate-qualified update of a payout row.
    pub fn update_payout_by_merchant_id_payout_id(
        &mut self,
        merchant_id: u64,
        payout_id: u64,
        update: &PayoutsUpdate,
    ) -> (r: Result<Payouts, StorageError>)
        requires
            old(self).wf(),
        ensures
            final(self).wf(),
            same_except(*old(self), *final(self), TableId::Payouts),
            match old(self).payout_for(merchant_id, payout_id) {
                None => r == Err::<Payouts, StorageError>(StorageError::NotFound) && final(self).payouts@ == old(self).payouts@,
                Some(cur) => r == Ok::<Payouts, StorageError>(apply_payouts_update(cur, *update))
                    && final(self).payout_for(merchant_id, payout_id) == Some(
                    apply_payouts_update(cur, *update),
                ) && (forall|k2: (u64, u64, u64)|
                    k2 != (merchant_id, payout_id, 0u64) ==> #[trigger] lookup(
                        final(self).payouts@,
                        k2,
                    ) == lookup(old(self).payouts@, k2)),
            },
    {
        let k = (merchant_id, payout_id, 0u64);
        match find_index(&self.payouts, k) {
            Some(i) => {
                let applied = apply_payouts_update_exec(&self.payouts[i], update);
                proof {
                    lemma_lookup_at(self.payouts@, k, i as int);
                    lemma_lookup_update(self.payouts@, i as int, applied);
                }
                self.payouts.set(i, applied);
                Ok(applied)
            },
            None => Err(StorageError::NotFound),
        }
    }

    /// Replaces the stored job row with `updated`, which carries the same id;
    /// `NotFound` when the job is absent.
    pub fn update_process_tracker(&mut self, updated: &ProcessTracker) -> (r: Result<
        ProcessTracker,
        StorageError,
    >)
        requires
            old(self).wf(),
        ensures
            final(self).wf(),
            same_except(*old(self), *final(self), TableId::Processes),
            match old(self).process_for(updated.id) {
                None => r == Err::<ProcessTracker, StorageError>(StorageError::NotFound) && final(self).processes@ == old(self).processes@,
                Some(_) => r == Ok::<ProcessTracker, StorageError>(*updated) && final(self).process_for(updated.id) == Some(*updated) && (forall|k2: (u64, u64, u64)|
                    k2 != (updated.id, 0u64, 0u64) ==> #[trigger] lookup(final(self).processes@, k2)
                        == lookup(old(self).processes@, k2)),
            },
    {
        let k = (updated.id, 0u64, 0u64);
        match find_index(&self.processes, k) {
            Some(i) => {
                proof {
                    lemma_lookup_at(self.processes@, k, i as int);
                    lemma_lookup_update(self.processes@, i as int, *updated);
                }
                self.processes.set(i, *updated);
                Ok(*updated)
            },
            None => Err(StorageError::NotFound),
        }
    }

    /// Inserts an intent under a fresh key; refuses a taken key.
    pub fn insert_payment_intent(&mut self, row: PaymentIntent) -> (r: Result<
        PaymentIntent,
        StorageError,
    >)
        requires
            old(self).wf(),
        ensures
            final(self).wf(),
            same_except(*old(self), *final(self), TableId::Intents),
            match old(self).intent_for(row.merchant_id, row.payment_id) {
                Some(_) => r == Err::<PaymentIntent, StorageError>(StorageError::UniqueViolation)
                    && final(self).intents@ == old(self).intents@,
                None => r == Ok::<PaymentIntent, StorageError>(row) && final(self).intent_for(
                    row.merchant_id,
                    row.payment_id,
                ) == Some(row) && (forall|k2: (u64, u64, u64)|
                    k2 != (row.merchant_id, row.payment_id, 0u64) ==> #[trigger] lookup(
                        final(self).intents@,
                        k2,
                    ) == lookup(old(self).intents@, k2)),
            },
    {
        match find_index(&self.intents, (row.merchant_id, row.payment_id, 0u64)) {
            Some(i) => {
                proof {
                    lemma_lookup_at(self.intents@, (row.merchant_id, row.payment_id, 0u64), i as int);
                }
                Err(StorageError::UniqueViolation)
            },
            None => {
                proof {
                    lemma_lookup_push(self.intents@, row);
                }
                self.intents.push(row);
                Ok(row)
            },
        }
    }

    /// Inserts an attempt under a fresh key; refuses a taken key.
    pub fn insert_payment_attempt(&mut self, row: PaymentAttempt) -> (r: Result<
        PaymentAttempt,
        StorageError,
    >)
        requires
            old(self).wf(),
        ensures
            final(self).wf(),
            same_except(*old(self), *final(self), TableId::Attempts),
            match old(self).attempt_for(row.merchant_id, row.payment_id, row.attempt_id) {
                Some(_) => r == Err::<PaymentAttempt, StorageError>(StorageError::UniqueViolation)
                    && final(self).attempts@ == old(self).attempts@,
                None => r == Ok::<PaymentAttempt, StorageError>(row) && final(self).attempt_for(
                    row.merchant_id,
                    row.payment_id,
                    row.attempt_id,
                ) == Some(row) && (forall|k2: (u64, u64, u64)|
                    k2 != (row.merchant_id, row.payment_id, row.attempt_id) ==> #[trigger] lookup(
                        final(self).attempts@,
                        k2,
                    ) == lookup(old(self).attempts@, k2)),
            },
    {
        match find_index(&self.attempts, (row.merchant_id, row.payment_id, row.attempt_id)) {
            Some(i) => {
                proof {
                    lemma_lookup_at(
                        self.attempts@,
                        (row.merchant_id, row.payment_id, row.attempt_id),
                        i as int,
                    );
                }
                Err(StorageError::UniqueViolation)
            },
            None => {
                let ret = row.cloned();
                proof {
                    lemma_lookup_push(self.attempts@, row);
                }
                self.attempts.push(row);
                Ok(ret)
            },
        }
    }

    /// Inserts an address under a fresh key; refuses a taken key.
    pub fn insert_address(&mut self, row: Address) -> (r: Result<Address, StorageError>)
        requires
            old(self).wf(),
        ensures
            final(self).wf(),
            same_except(*old(self), *final(self), TableId::Addresses),
            match old(self).address_for(row.merchant_id, row.address_id) {
                Some(_) => r == Err::<Address, StorageError>(StorageError::UniqueViolation) && final(self).addresses@ == old(self).addresses@,
                None => r == Ok::<Address, StorageError>(row) && final(self).address_for(
                    row.merchant_id,
                    row.address_id,
                ) == Some(row) && (forall|k2: (u64, u64, u64)|
                    k2 != (row.merchant_id, row.address_id, 0u64) ==> #[trigger] lookup(
                        final(self).addresses@,
                        k2,
                    ) == lookup(old(self).addresses@, k2)),
            },
    {
        match find_index(&self.addresses, (row.merchant_id, row.address_id, 0u64)) {
            Some(i) => {
                proof {
                    lemma_lookup_at(self.addresses@, (row.merchant_id, row.address_id, 0u64), i as int);
                }
                Err(StorageError::UniqueViolation)
            },
            None => {
                let ret = row.cloned();
                proof {
                    lemma_lookup_push(self.addresses@, row);
                }
                self.addresses.push(row);
                Ok(ret)
            },
        }
    }

    /// Inserts a business profile under a fresh key; refuses a taken key.
    pub fn insert_business_profile(&mut self, row: BusinessProfile) -> (r: Result<
        BusinessProfile,
        StorageError,
    >)
        requires
            old(self).wf(),
        ensures
            final(self).wf(),
            same_except(*old(self), *final(self), TableId::Profiles),
            match old(self).profile_for(row.merchant_id, row.profile_id) {
                Some(_) => r == Err::<BusinessProfile, StorageError>(StorageError::UniqueViolation)
                    && final(self).profiles@ == old(self).profiles@,
                None => r == Ok::<BusinessProfile, StorageError>(row) && final(self).profile_for(
                    row.merchant_id,
                    row.profile_id,
                ) == Some(row) && (forall|k2: (u64, u64, u64)|
                    k2 != (row.merchant_id, row.profile_id, 0u64) ==> #[trigger] lookup(
                        final(self).profiles@,
                        k2,
                    ) == lookup(old(self).profiles@, k2)),
            },
    {
        match find_index(&self.profiles, (row.merchant_id, row.profile_id, 0u64)) {
            Some(i) => {
                proof {
                    lemma_lookup_at(self.profiles@, (row.merchant_id, row.profile_id, 0u64), i as int);
                }
                Err(StorageError::UniqueViolation)
            },
            None => {
                proof {
                    lemma_lookup_push(self.profiles@, row);
                }
                self.profiles.push(row);
                Ok(row)
            },
        }
    }

    /// Inserts a merchant account under a fresh key; refuses a taken key.
    pub fn insert_merchant_account(&mut self, row: MerchantAccount) -> (r: Result<
        MerchantAccount,
        StorageError,
    >)
        requires
            old(self).wf(),
        ensures
            final(self).wf(),
            same_except(*old(self), *final(self), TableId::Merchants),
            match old(self).merchant_for(row.merchant_id) {
                Some(_) => r == Err::<MerchantAccount, StorageError>(StorageError::UniqueViolation)
                    && final(self).merchants@ == old(self).merchants@,
                None => r == Ok::<MerchantAccount, StorageError>(row) && final(self).merchant_for(
                    row.merchant_id,
                ) == Some(row) && (forall|k2: (u64, u64, u64)|
                    k2 != (row.merchant_id, 0u64, 0u64) ==> #[trigger] lookup(
                        final(self).merchants@,
                        k2,
                    ) == lookup(old(self).merchants@, k2)),
            },
    {
        match find_index(&self.merchants, (row.merchant_id, 0u64, 0u64)) {
            Some(i) => {
                proof {
                    lemma_lookup_at(self.merchants@, (row.merchant_id, 0u64, 0u64), i as int);
                }
                Err(StorageError::UniqueViolation)
            },
            None => {
                proof {
                    lemma_lookup_push(self.merchants@, row);
                }
                self.merchants.push(row);
                Ok(row)
            },
        }
    }

    /// Inserts a payout under a fresh key; refuses a taken key.
    pub fn insert_payout(&mut self, row: Payouts) -> (r: Result<Payouts, StorageError>)
        requires
            old(self).wf(),
        ensures
            final(self).wf(),
            same_except(*old(self), *final(self), TableId::Payouts),
            match old(self).payout_for(row.merchant_id, row.payout_id) {
                Some(_) => r == Err::<Payouts, StorageError>(StorageError::UniqueViolation) && final(self).payouts@ == old(self).payouts@,
                None => r == Ok::<Payouts, StorageError>(row) && final(self).payout_for(
                    row.merchant_id,
                    row.payout_id,
                ) == Some(row) && (forall|k2: (u64, u64, u64)|
                    k2 != (row.merchant_id, row.payout_id, 0u64) ==> #[trigger] lookup(
                        final(self).payouts@,
                        k2,
                    ) == lookup(old(self).payouts@, k2)),
            },
    {
        match find_index(&self.payouts, (row.merchant_id, row.payout_id, 0u64)) {
            Some(i) => {
                proof {
                    lemma_lookup_at(self.payouts@, (row.merchant_id, row.payout_id, 0u64), i as int);
                }
                Err(StorageError::UniqueViolation)
            },
            None => {
                proof {
                    lemma_lookup_push(self.payouts@, row);
                }
                self.payouts.push(row);
                Ok(row)
            },
        }
    }

    /// Inserts a background job under a fresh key; refuses a taken key.
    pub fn insert_process_tracker(&mut self, row: ProcessTracker) -> (r: Result<
        ProcessTracker,
        StorageError,
    >)
        requires
            old(self).wf(),
        ensures
            final(self).wf(),
            same_except(*old(self), *final(self), TableId::Processes),
            match old(self).process_for(row.id) {
                Some(_) => r == Err::<ProcessTracker, StorageError>(StorageError::UniqueViolation)
                    && final(self).processes@ == old(self).processes@,
                None => r == Ok::<ProcessTracker, StorageError>(row) && final(self).process_for(
                    row.id,
                ) == Some(row) && (forall|k2: (u64, u64, u64)|
                    k2 != (row.id, 0u64, 0u64) ==> #[trigger] lookup(final(self).processes@, k2)
                        == lookup(old(self).processes@, k2)),
            },
    {
        match find_index(&self.processes, (row.id, 0u64, 0u64)) {
            Some(i) => {
                proof {
                    lemma_lookup_at(self.processes@, (row.id, 0u64, 0u64), i as int);
                }
                Err(StorageError::UniqueViolation)
            },
            None => {
                proof {
                    lemma_lookup_push(self.processes@, row);
                }
                self.processes.push(row);
                Ok(row)
            },
        }
    }

    /// Records a caller-supplied connector-credential override. The config
    /// log is append-only.
    pub fn insert_config(&mut self, entry: ConfigEntry)
        requires
            old(self).wf(),
        ensures
            final(self).wf(),
            same_except(*old(self), *final(self), TableId::Configs),
            final(self).configs@ == old(self).configs@.push(entry),
    {
        self.configs.push(entry);
    }
}

} // verus!
