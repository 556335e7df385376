//! The stored entities of the transaction core.
//!
//! An *intent* is the merchant-scoped logical transaction; an *attempt* is
//! one concrete connector-facing try under it, exactly one of which is
//! active at a time. A *payout* and its attempts are the analogous pair for
//! outbound disbursements, with attempts keyed by an incrementing
//! attempt-count per payout. A *process* is a persisted background job that
//! re-enters a flow asynchronously.

use vstd::prelude::*;

use crate::enums::{
    AttemptStatus, Currency, IntentStatus, MerchantStorageScheme, PayoutStatus, PayoutType,
};
use crate::keyed::Keyed;

verus! {

/// Clones an optional string, preserving its value exactly.
pub fn clone_opt_string(o: &Option<String>) -> (r: Option<String>)
    ensures
        r == *o,
{
    match o {
        Some(s) => Some(s.clone()),
        None => None,
    }
}

/// A merchant-scoped logical payment transaction. Created once at
/// initiation, mutated by every flow's update stage, never deleted.
#[derive(Clone, Copy, Debug)]
pub struct PaymentIntent {
    pub payment_id: u64,
    pub merchant_id: u64,
    pub status: IntentStatus,
    pub amount: i64,
    /// The merchant sub-configuration this intent was created under.
    pub profile_id: Option<u64>,
    /// The one attempt currently driving this intent.
    pub active_attempt_id: u64,
    pub shipping_address_id: Option<u64>,
    pub billing_address_id: Option<u64>,
    pub incremental_authorization_allowed: Option<bool>,
    /// The storage scheme that last wrote this row.
    pub updated_by: MerchantStorageScheme,
}

impl Keyed for PaymentIntent {
    open spec fn key_spec(&self) -> (u64, u64, u64) {
        (self.merchant_id, self.payment_id, 0)
    }

    fn key(&self) -> (u64, u64, u64) {
        (self.merchant_id, self.payment_id, 0)
    }
}

/// One connector-facing try belonging to an intent.
#[derive(Clone, Debug)]
pub struct PaymentAttempt {
    pub attempt_id: u64,
    pub payment_id: u64,
    pub merchant_id: u64,
    pub status: AttemptStatus,
    pub amount: i64,
    pub currency: Option<Currency>,
    pub cancellation_reason: Option<String>,
    pub payment_method_billing_address_id: Option<u64>,
    /// The storage scheme that last wrote this row.
    pub updated_by: MerchantStorageScheme,
}

impl PaymentAttempt {
    /// A copy that is spec-equal to the original.
    pub fn cloned(&self) -> (r: Self)
        ensures
            r == *self,
    {
        PaymentAttempt {
            attempt_id: self.attempt_id,
            payment_id: self.payment_id,
            merchant_id: self.merchant_id,
            status: self.status,
            amount: self.amount,
            currency: self.currency,
            cancellation_reason: clone_opt_string(&self.cancellation_reason),
            payment_method_billing_address_id: self.payment_method_billing_address_id,
            updated_by: self.updated_by,
        }
    }
}

impl Keyed for PaymentAttempt {
    open spec fn key_spec(&self) -> (u64, u64, u64) {
        (self.merchant_id, self.payment_id, self.attempt_id)
    }

    fn key(&self) -> (u64, u64, u64) {
        (self.merchant_id, self.payment_id, self.attempt_id)
    }
}

/// A stored postal address, merchant-scoped like every other entity.
#[derive(Clone, Debug)]
pub struct Address {
    pub address_id: u64,
    pub merchant_id: u64,
    pub city: Option<String>,
    pub country: Option<String>,
}

impl Address {
    /// A copy that is spec-equal to the original.
    pub fn cloned(&self) -> (r: Self)
        ensures
            r == *self,
    {
        Address {
            address_id: self.address_id,
            merchant_id: self.merchant_id,
            city: clone_opt_string(&self.city),
            country: clone_opt_string(&self.country),
        }
    }
}

impl Keyed for Address {
    open spec fn key_spec(&self) -> (u64, u64, u64) {
        (self.merchant_id, self.address_id, 0)
    }

    fn key(&self) -> (u64, u64, u64) {
        (self.merchant_id, self.address_id, 0)
    }
}

/// Clones an optional address, preserving its value exactly.
pub fn clone_opt_address(o: &Option<Address>) -> (r: Option<Address>)
    ensures
        r == *o,
{
    match o {
        Some(a) => Some(a.cloned()),
        None => None,
    }
}

/// Read-only merchant sub-configuration, fetched once per request.
#[derive(Clone, Copy, Debug)]
pub struct BusinessProfile {
    pub profile_id: u64,
    pub merchant_id: u64,
    /// When set, the billing address also serves as the payment-method
    /// billing address unless one was supplied explicitly.
    pub use_billing_as_payment_method_billing: Option<bool>,
}

impl Keyed for BusinessProfile {
    open spec fn key_spec(&self) -> (u64, u64, u64) {
        (self.merchant_id, self.profile_id, 0)
    }

    fn key(&self) -> (u64, u64, u64) {
        (self.merchant_id, self.profile_id, 0)
    }
}

/// A merchant's account record.
#[derive(Clone, Copy, Debug)]
pub struct MerchantAccount {
    pub merchant_id: u64,
    pub storage_scheme: MerchantStorageScheme,
}

impl Keyed for MerchantAccount {
    open spec fn key_spec(&self) -> (u64, u64, u64) {
        (self.merchant_id, 0, 0)
    }

    fn key(&self) -> (u64, u64, u64) {
        (self.merchant_id, 0, 0)
    }
}

/// The merchant context a pipeline invocation runs under; constant for the
/// duration of one invocation.
#[derive(Clone, Copy, Debug)]
pub struct MerchantContext {
    pub merchant_account: MerchantAccount,
}

impl MerchantContext {
    /// The account this context was resolved from.
    pub fn get_merchant_account(&self) -> (r: &MerchantAccount)
        ensures
            *r == self.merchant_account,
    {
        &self.merchant_account
    }
}

/// A caller-supplied connector-credential override persisted during the
/// fetch stage of a pipeline.
#[derive(Clone, Debug)]
pub struct ConfigEntry {
    pub merchant_id: u64,
    pub creds_identifier: String,
    pub encoded_creds: Option<String>,
}

/// A merchant-scoped outbound disbursement.
#[derive(Clone, Copy, Debug)]
pub struct Payouts {
    pub payout_id: u64,
    pub merchant_id: u64,
    pub status: PayoutStatus,
    pub amount: i64,
    pub destination_currency: Currency,
    pub payout_type: Option<PayoutType>,
    /// How many attempts exist; the current attempt carries this count.
    pub attempt_count: u32,
}

impl Keyed for Payouts {
    open spec fn key_spec(&self) -> (u64, u64, u64) {
        (self.merchant_id, self.payout_id, 0)
    }

    fn key(&self) -> (u64, u64, u64) {
        (self.merchant_id, self.payout_id, 0)
    }
}

/// One try at fulfilling a payout, keyed by its position in the payout's
/// attempt sequence.
#[derive(Clone, Debug)]
pub struct PayoutAttempt {
    pub payout_id: u64,
    pub attempt_count: u32,
    pub merchant_id: u64,
    pub status: PayoutStatus,
    /// The connector chosen for this attempt, once routing ran.
    pub connector: Option<String>,
    /// The reference the connector assigned to this attempt.
    pub connector_payout_id: Option<String>,
    /// The merchant-supplied order reference.
    pub merchant_order_reference_id: Option<String>,
    pub error_message: Option<String>,
}

impl PayoutAttempt {
    /// A copy that is spec-equal to the original.
    pub fn cloned(&self) -> (r: Self)
        ensures
            r == *self,
    {
        PayoutAttempt {
            payout_id: self.payout_id,
            attempt_count: self.attempt_count,
            merchant_id: self.merchant_id,
            status: self.status,
            connector: clone_opt_string(&self.connector),
            connector_payout_id: clone_opt_string(&self.connector_payout_id),
            merchant_order_reference_id: clone_opt_string(&self.merchant_order_reference_id),
            error_message: clone_opt_string(&self.error_message),
        }
    }
}

impl Keyed for PayoutAttempt {
    open spec fn key_spec(&self) -> (u64, u64, u64) {
        (self.merchant_id, self.payout_id, self.attempt_count as u64)
    }

    fn key(&self) -> (u64, u64, u64) {
        (self.merchant_id, self.payout_id, self.attempt_count as u64)
    }
}

/// What a stored payment-method token refers to.
#[derive(Clone, Debug)]
pub enum PaymentTokenData {
    /// A short-lived token naming vaulted data directly.
    TemporaryGeneric { token: String },
    /// A reference to a permanently stored payment method.
    PermanentCard { payment_method_id: u64 },
}

impl PaymentTokenData {
    /// A copy that is spec-equal to the original.
    pub fn cloned(&self) -> (r: Self)
        ensures
            r == *self,
    {
        match self {
            PaymentTokenData::TemporaryGeneric { token } => PaymentTokenData::TemporaryGeneric {
                token: token.clone(),
            },
            PaymentTokenData::PermanentCard { payment_method_id } => {
                PaymentTokenData::PermanentCard { payment_method_id: *payment_method_id }
            },
        }
    }
}

/// One entry of the expiring key-value side store for payment-method tokens.
#[derive(Clone, Debug)]
pub struct TokenEntry {
    pub key: String,
    pub token: PaymentTokenData,
    pub expiry_seconds: i64,
}

impl TokenEntry {
    /// A copy that is spec-equal to the original.
    pub fn cloned(&self) -> (r: Self)
        ensures
            r == *self,
    {
        TokenEntry {
            key: self.key.clone(),
            token: self.token.cloned(),
            expiry_seconds: self.expiry_seconds,
        }
    }
}

/// The kinds of background job the scheduler can run.
#[derive(Clone, Copy, Debug, PartialEq, Eq, Structural)]
pub enum JobKind {
    /// Re-enter the payout-retrieve flow to attach the payout account.
    AttachPayoutAccount,
}

/// The request a payout-retrieve job reconstructs for the pipeline.
#[derive(Clone, Copy, Debug)]
pub struct PayoutRetrieveRequest {
    pub payout_id: u64,
    pub force_sync: Option<bool>,
    pub merchant_id: Option<u64>,
}

/// A job's tracking payload: a tagged union keyed by job kind, each variant
/// owning its strongly-typed request.
#[derive(Clone, Copy, Debug)]
pub enum TrackingPayload {
    PayoutRetrieve(PayoutRetrieveRequest),
}

/// Scheduler-facing status of a background job.
#[derive(Clone, Copy, Debug, PartialEq, Eq, Structural)]
pub enum ProcessStatus {
    New,
    Pending,
    ProcessStarted,
    Finish,
}

/// Outcome recorded when a job reaches a terminal state.
#[derive(Clone, Copy, Debug, PartialEq, Eq, Structural)]
pub enum BusinessStatus {
    Pending,
    Completed,
    /// Permanently failed: the retry budget is exhausted or the failure was
    /// fatal; the job is never requeued again.
    GlobalFailure,
}

/// A persisted background job record.
#[derive(Clone, Copy, Debug)]
pub struct ProcessTracker {
    pub id: u64,
    pub name: JobKind,
    pub tracking_data: TrackingPayload,
    pub schedule_time: i64,
    pub retry_count: u32,
    pub status: ProcessStatus,
    pub business_status: BusinessStatus,
}

impl Keyed for ProcessTracker {
    open spec fn key_spec(&self) -> (u64, u64, u64) {
        (self.id, 0, 0)
    }

    fn key(&self) -> (u64, u64, u64) {
        (self.id, 0, 0)
    }
}

/// A job is terminal once the scheduler has finished it; terminal jobs are
/// never picked up or requeued again.
pub open spec fn is_terminal(p: ProcessTracker) -> bool {
    p.status is Finish
}

} // verus!
