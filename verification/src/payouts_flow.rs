//! The payout-retrieve flow: the pipeline a background job re-enters.
//!
//! The fetch stage loads the payout and its *current* attempt — the one
//! whose attempt count matches the payout's — scoped to the owning
//! merchant. The core stage reconciles the stored status with whatever the
//! connector reported: the connector's answer arrives as a plain value, and
//! the reconciliation is exact for every value it may take.

use vstd::prelude::*;

use crate::enums::PayoutStatus;
use crate::errors::ApiError;
use crate::records::{MerchantContext, PayoutAttempt, PayoutRetrieveRequest, Payouts};
use crate::store::{unchanged, Store};
use crate::updates::{
    apply_payout_attempt_update, payout_attempt_update_internal, PayoutAttemptUpdate, PayoutsUpdate,
};

verus! {

/// The request a payout flow runs on; one variant per payout operation this
/// core implements.
#[derive(Clone, Copy, Debug)]
pub enum PayoutRequest {
    PayoutRetrieveRequest(PayoutRetrieveRequest),
}

/// The working aggregate of a payout flow.
#[derive(Clone, Debug)]
pub struct PayoutData {
    pub payouts: Payouts,
    pub payout_attempt: PayoutAttempt,
}

/// The attempt update the retrieve flow persists when the connector reports
/// a new status: the status column alone changes.
pub open spec fn retrieve_status_update(status: PayoutStatus) -> PayoutAttemptUpdate {
    PayoutAttemptUpdate::StatusUpdate { connector_payout_id: None, status, error_message: None }
}

/// Assembles the payout aggregate: the payout row and its current attempt,
/// both scoped to the merchant the context carries.
pub fn make_payout_data(
    store: &Store,
    merchant_context: &MerchantContext,
    request: &PayoutRequest,
) -> (r: Result<PayoutData, ApiError>)
    requires
        store.wf(),
    ensures
        ({
            let m = merchant_context.merchant_account.merchant_id;
            match *request {
                PayoutRequest::PayoutRetrieveRequest(req) => match store.payout_for(m, req.payout_id) {
                    None => r matches Err(ApiError::PayoutNotFound),
                    Some(payout) => match store.payout_attempt_for(
                        m,
                        req.payout_id,
                        payout.attempt_count as u64,
                    ) {
                        None => r matches Err(ApiError::PayoutNotFound),
                        Some(attempt) => r matches Ok(d) && d.payouts == payout && d.payout_attempt
                            == attempt,
                    },
                },
            }
        }),
{
    let merchant_id = merchant_context.get_merchant_account().merchant_id;
    match request {
        PayoutRequest::PayoutRetrieveRequest(req) => {
            let payout = match store.find_payout_by_merchant_id_payout_id(merchant_id, req.payout_id) {
                Ok(p) => p,
                Err(_) => {
                    return Err(ApiError::PayoutNotFound);
                },
            };
            let payout_attempt = match PayoutAttempt::find_by_merchant_id_payout_attempt_id(
                store,
                merchant_id,
                req.payout_id,
                payout.attempt_count,
            ) {
                Ok(a) => a,
                Err(_) => {
                    return Err(ApiError::PayoutNotFound);
                },
            };
            Ok(PayoutData { payouts: payout, payout_attempt })
        },
    }
}

/// The core of the retrieve flow: reconciles the stored payout and its
/// current attempt with the status the connector reported. No report, or a
/// report matching the stored status, is a no-op; a differing report is
/// persisted on both rows through predicate-qualified writes — the payout
/// first, then the attempt, with no rollback in between.
pub fn payouts_core(
    store: &mut Store,
    merchant_context: &MerchantContext,
    payout_data: &mut PayoutData,
    reported_status: Option<PayoutStatus>,
) -> (r: Result<(), ApiError>)
    requires
        old(store).wf(),
    ensures
        final(store).wf(),
        final(store).intents@ == old(store).intents@,
        final(store).attempts@ == old(store).attempts@,
        final(store).addresses@ == old(store).addresses@,
        final(store).profiles@ == old(store).profiles@,
        final(store).merchants@ == old(store).merchants@,
        final(store).configs@ == old(store).configs@,
        final(store).tokens@ == old(store).tokens@,
        final(store).processes@ == old(store).processes@,
        ({
            let m = merchant_context.merchant_account.merchant_id;
            let pid = old(payout_data).payouts.payout_id;
            let am = old(payout_data).payout_attempt.merchant_id;
            let apid = old(payout_data).payout_attempt.payout_id;
            let aac = old(payout_data).payout_attempt.attempt_count;
            match reported_status {
                None => r is Ok && unchanged(*old(store), *final(store)) && *final(payout_data)
                    == *old(payout_data),
                Some(status) => if status == old(payout_data).payouts.status {
                    r is Ok && unchanged(*old(store), *final(store)) && *final(payout_data) == *old(payout_data)
                } else {
                    match old(store).payout_for(m, pid) {
                        None => r matches Err(ApiError::PayoutNotFound) && unchanged(
                            *old(store),
                            *final(store),
                        ) && *final(payout_data) == *old(payout_data),
                        Some(cur_p) => {
                            let new_p = Payouts { status, ..cur_p };
                            &&& final(store).payout_for(m, pid) == Some(new_p)
                            &&& (forall|k2: (u64, u64, u64)|
                                k2 != (m, pid, 0u64) ==> #[trigger] crate::keyed::lookup(
                                    final(store).payouts@,
                                    k2,
                                ) == crate::keyed::lookup(old(store).payouts@, k2))
                            &&& match old(store).payout_attempt_for(am, apid, aac as u64) {
                                None => r matches Err(ApiError::PayoutNotFound) && final(store).payout_attempts@ == old(store).payout_attempts@ && *final(payout_data) == *old(payout_data),
                                Some(cur_a) => {
                                    let new_a = apply_payout_attempt_update(
                                        cur_a,
                                        payout_attempt_update_internal(retrieve_status_update(status)),
                                    );
                                    &&& r is Ok
                                    &&& final(store).payout_attempt_for(am, apid, aac as u64)
                                        == Some(new_a)
                                    &&& (forall|k2: (u64, u64, u64)|
                                        k2 != (am, apid, aac as u64) ==> #[trigger] crate::keyed::lookup(
                                            final(store).payout_attempts@,
                                            k2,
                                        ) == crate::keyed::lookup(old(store).payout_attempts@, k2))
                                    &&& final(payout_data).payouts == new_p
                                    &&& final(payout_data).payout_attempt == new_a
                                },
                            }
                        },
                    }
                },
            }
        }),
{
    let status = match reported_status {
        None => {
            return Ok(());
        },
        Some(s) => s,
    };
    if status == payout_data.payouts.status {
        return Ok(());
    }

    let merchant_id = merchant_context.get_merchant_account().merchant_id;
    let payout_update = PayoutsUpdate::StatusUpdate { status };
    let new_payout = match store.update_payout_by_merchant_id_payout_id(
        merchant_id,
        payout_data.payouts.payout_id,
        &payout_update,
    ) {
        Ok(p) => p,
        Err(_) => {
            return Err(ApiError::PayoutNotFound);
        },
    };

    let attempt_update = PayoutAttemptUpdate::StatusUpdate {
        connector_payout_id: None,
        status,
        error_message: None,
    };
    let new_attempt = match payout_data.payout_attempt.cloned().update_with_attempt_id(
        store,
        attempt_update,
    ) {
        Ok(a) => a,
        Err(_) => {
            return Err(ApiError::PayoutNotFound);
        },
    };

    payout_data.payouts = new_payout;
    payout_data.payout_attempt = new_attempt;
    Ok(())
}

} // verus!
