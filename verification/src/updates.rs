//! Typed storage updates and how they apply to rows.
//!
//! Updates are expressed as typed variants so the storage layer writes a
//! minimal changed-column set instead of blindly overwriting the row. A
//! variant never touches the row's key columns, so a predicate-qualified
//! write can only change the row it matched. A payout-attempt update first
//! lowers to an internal change set of optional columns; when every column
//! is absent the change set is *empty*, and the storage layer reports
//! `NoFieldsToUpdate` rather than issuing a write.

use vstd::prelude::*;

use crate::enums::{AttemptStatus, IntentStatus, MerchantStorageScheme, PayoutStatus};
use crate::records::{clone_opt_string, PaymentAttempt, PaymentIntent, PayoutAttempt, Payouts};

verus! {

/// A typed update of a payment intent.
#[derive(Clone, Copy, Debug)]
pub enum PaymentIntentUpdate {
    /// Move the intent to a terminal or intermediate status.
    PGStatusUpdate {
        status: IntentStatus,
        updated_by: MerchantStorageScheme,
        incremental_authorization_allowed: Option<bool>,
    },
}

/// The row a payment-intent update turns `row` into.
pub open spec fn apply_intent_update(row: PaymentIntent, upd: PaymentIntentUpdate) -> PaymentIntent {
    match upd {
        PaymentIntentUpdate::PGStatusUpdate { status, updated_by, incremental_authorization_allowed } => {
            PaymentIntent { status, updated_by, incremental_authorization_allowed, ..row }
        },
    }
}

/// Applies a payment-intent update; never touches the key columns.
pub fn apply_intent_update_exec(row: &PaymentIntent, upd: &PaymentIntentUpdate) -> (r: PaymentIntent)
    ensures
        r == apply_intent_update(*row, *upd),
{
    match upd {
        PaymentIntentUpdate::PGStatusUpdate { status, updated_by, incremental_authorization_allowed } => {
            PaymentIntent {
                status: *status,
                updated_by: *updated_by,
                incremental_authorization_allowed: *incremental_authorization_allowed,
                ..*row
            }
        },
    }
}

/// A typed update of a payment attempt.
#[derive(Clone, Debug)]
pub enum PaymentAttemptUpdate {
    /// Record the outcome of a void, together with the caller-supplied
    /// cancellation reason.
    VoidUpdate {
        status: AttemptStatus,
        cancellation_reason: Option<String>,
        updated_by: MerchantStorageScheme,
    },
}

/// The row a payment-attempt update turns `row` into.
pub open spec fn apply_attempt_update(row: PaymentAttempt, upd: PaymentAttemptUpdate) -> PaymentAttempt {
    match upd {
        PaymentAttemptUpdate::VoidUpdate { status, cancellation_reason, updated_by } => {
            PaymentAttempt { status, cancellation_reason, updated_by, ..row }
        },
    }
}

/// Applies a payment-attempt update; never touches the key columns.
pub fn apply_attempt_update_exec(row: &PaymentAttempt, upd: &PaymentAttemptUpdate) -> (r: PaymentAttempt)
    ensures
        r == apply_attempt_update(*row, *upd),
{
    match upd {
        PaymentAttemptUpdate::VoidUpdate { status, cancellation_reason, updated_by } => {
            PaymentAttempt {
                status: *status,
                cancellation_reason: clone_opt_string(cancellation_reason),
                updated_by: *updated_by,
                attempt_id: row.attempt_id,
                payment_id: row.payment_id,
                merchant_id: row.merchant_id,
                amount: row.amount,
                currency: row.currency,
                payment_method_billing_address_id: row.payment_method_billing_address_id,
            }
        },
    }
}

/// A typed update of a payout row.
#[derive(Clone, Copy, Debug)]
pub enum PayoutsUpdate {
    /// Record the status the connector reported for the payout.
    StatusUpdate { status: PayoutStatus },
}

/// The row a payouts update turns `row` into.
pub open spec fn apply_payouts_update(row: Payouts, upd: PayoutsUpdate) -> Payouts {
    match upd {
        PayoutsUpdate::StatusUpdate { status } => Payouts { status, ..row },
    }
}

/// Applies a payouts update; never touches the key columns.
pub fn apply_payouts_update_exec(row: &Payouts, upd: &PayoutsUpdate) -> (r: Payouts)
    ensures
        r == apply_payouts_update(*row, *upd),
{
    match upd {
        PayoutsUpdate::StatusUpdate { status } => Payouts { status: *status, ..*row },
    }
}

/// A typed update of a payout attempt.
#[derive(Clone, Debug)]
pub enum PayoutAttemptUpdate {
    /// Record the status the connector reported, with its reference and any
    /// error text.
    StatusUpdate {
        connector_payout_id: Option<String>,
        status: PayoutStatus,
        error_message: Option<String>,
    },
    /// Record which connector routing chose for this attempt.
    UpdateRouting { connector: String },
    /// Attach or amend the merchant-supplied order reference.
    MerchantOrderReferenceIdUpdate { merchant_order_reference_id: Option<String> },
}

/// The change set a payout-attempt update lowers to: one optional value per
/// mutable column; absent columns are left as they are.
#[derive(Clone, Debug)]
pub struct PayoutAttemptUpdateInternal {
    pub status: Option<PayoutStatus>,
    pub connector: Option<String>,
    pub connector_payout_id: Option<String>,
    pub error_message: Option<String>,
    pub merchant_order_reference_id: Option<String>,
}

/// The change set each typed variant lowers to.
pub open spec fn payout_attempt_update_internal(upd: PayoutAttemptUpdate) -> PayoutAttemptUpdateInternal {
    match upd {
        PayoutAttemptUpdate::StatusUpdate { connector_payout_id, status, error_message } => {
            PayoutAttemptUpdateInternal {
                status: Some(status),
                connector: None,
                connector_payout_id,
                error_message,
                merchant_order_reference_id: None,
            }
        },
        PayoutAttemptUpdate::UpdateRouting { connector } => PayoutAttemptUpdateInternal {
            status: None,
            connector: Some(connector),
            connector_payout_id: None,
            error_message: None,
            merchant_order_reference_id: None,
        },
        PayoutAttemptUpdate::MerchantOrderReferenceIdUpdate { merchant_order_reference_id } => {
            PayoutAttemptUpdateInternal {
                status: None,
                connector: None,
                connector_payout_id: None,
                error_message: None,
                merchant_order_reference_id,
            }
        },
    }
}

/// Lowers a typed payout-attempt update to its change set.
pub fn payout_attempt_update_internal_exec(upd: &PayoutAttemptUpdate) -> (r: PayoutAttemptUpdateInternal)
    ensures
        r == payout_attempt_update_internal(*upd),
{
    match upd {
        PayoutAttemptUpdate::StatusUpdate { connector_payout_id, status, error_message } => {
            PayoutAttemptUpdateInternal {
                status: Some(*status),
                connector: None,
                connector_payout_id: clone_opt_string(connector_payout_id),
                error_message: clone_opt_string(error_message),
                merchant_order_reference_id: None,
            }
        },
        PayoutAttemptUpdate::UpdateRouting { connector } => PayoutAttemptUpdateInternal {
            status: None,
            connector: Some(connector.clone()),
            connector_payout_id: None,
            error_message: None,
            merchant_order_reference_id: None,
        },
        PayoutAttemptUpdate::MerchantOrderReferenceIdUpdate { merchant_order_reference_id } => {
            PayoutAttemptUpdateInternal {
                status: None,
                connector: None,
                connector_payout_id: None,
                error_message: None,
                merchant_order_reference_id: clone_opt_string(merchant_order_reference_id),
            }
        },
    }
}

/// An empty change set: no column would be written.
pub open spec fn is_empty_change_set(i: PayoutAttemptUpdateInternal) -> bool {
    i.status is None && i.connector is None && i.connector_payout_id is None
        && i.error_message is None && i.merchant_order_reference_id is None
}

impl PayoutAttemptUpdateInternal {
    /// Executable test for [`is_empty_change_set`].
    pub fn is_empty(&self) -> (r: bool)
        ensures
            r == is_empty_change_set(*self),
    {
        self.status.is_none() && self.connector.is_none() && self.connector_payout_id.is_none()
            && self.error_message.is_none() && self.merchant_order_reference_id.is_none()
    }
}

/// The row a payout-attempt change set turns `row` into: present columns are
/// written, absent ones kept.
pub open spec fn apply_payout_attempt_update(
    row: PayoutAttempt,
    i: PayoutAttemptUpdateInternal,
) -> PayoutAttempt {
    PayoutAttempt {
        status: if i.status is Some { i.status->0 } else { row.status },
        connector: if i.connector is Some { i.connector } else { row.connector },
        connector_payout_id: if i.connector_payout_id is Some {
            i.connector_payout_id
        } else {
            row.connector_payout_id
        },
        error_message: if i.error_message is Some { i.error_message } else { row.error_message },
        merchant_order_reference_id: if i.merchant_order_reference_id is Some {
            i.merchant_order_reference_id
        } else {
            row.merchant_order_reference_id
        },
        ..row
    }
}

/// Applies a payout-attempt change set; never touches the key columns.
pub fn apply_payout_attempt_update_exec(
    row: &PayoutAttempt,
    i: &PayoutAttemptUpdateInternal,
) -> (r: PayoutAttempt)
    ensures
        r == apply_payout_attempt_update(*row, *i),
{
    PayoutAttempt {
        payout_id: row.payout_id,
        attempt_count: row.attempt_count,
        merchant_id: row.merchant_id,
        status: match &i.status {
            Some(s) => *s,
            None => row.status,
        },
        connector: match &i.connector {
            Some(c) => Some(c.clone()),
            None => clone_opt_string(&row.connector),
        },
        connector_payout_id: match &i.connector_payout_id {
            Some(c) => Some(c.clone()),
            None => clone_opt_string(&row.connector_payout_id),
        },
        error_message: match &i.error_message {
            Some(e) => Some(e.clone()),
            None => clone_opt_string(&row.error_message),
        },
        merchant_order_reference_id: match &i.merchant_order_reference_id {
            Some(m) => Some(m.clone()),
            None => clone_opt_string(&row.merchant_order_reference_id),
        },
    }
}

} // verus!
