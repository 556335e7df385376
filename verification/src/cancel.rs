//! The cancel flow: the representative instance of the three-stage
//! operation pipeline.
//!
//! Every transaction-mutating flow runs the same three stages in order:
//! *validate* the request into scoping keys, *fetch* current state under the
//! flow's status guard and assemble the working aggregate, and *update* the
//! computed transition back to storage while emitting an audit event. Only
//! the guard set and the transition function belong to the flow; cancel's
//! guard refuses terminal and in-flight intents, and its transition voids
//! the attempt — synchronously when the intent was not awaiting capture,
//! asynchronously (attempt `VoidInitiated`, intent untouched) when it was.

use vstd::prelude::*;
use vstd::string::StringExecFns;

use crate::aggregate::{GetTrackerResponse, PaymentAddress, PaymentData, unified_payment_method_billing};
use crate::enums::{AttemptStatus, IntentStatus, MerchantStorageScheme};
use crate::errors::ApiError;
use crate::records::{
    clone_opt_string, Address, ConfigEntry, MerchantContext, PaymentAttempt, PaymentIntent,
};
use crate::store::{same_except, unchanged, Store, TableId};
use crate::updates::{
    apply_attempt_update, apply_intent_update, PaymentAttemptUpdate, PaymentIntentUpdate,
};

verus! {

/// A request to cancel a payment.
#[derive(Clone, Debug)]
pub struct PaymentsCancelRequest {
    pub payment_id: u64,
    pub cancellation_reason: Option<String>,
    pub merchant_connector_details: Option<MerchantConnectorDetailsWrap>,
}

/// A caller-supplied connector-credential override, valid for this request
/// and persisted for the connector call that follows.
#[derive(Clone, Debug)]
pub struct MerchantConnectorDetailsWrap {
    pub creds_identifier: String,
    pub encoded_data: Option<String>,
}

/// The scoping keys the validate stage produces.
#[derive(Clone, Copy, Debug)]
pub struct ValidateResult {
    pub merchant_id: u64,
    pub payment_id: u64,
    pub storage_scheme: MerchantStorageScheme,
    pub requeue: bool,
}

/// An audit record emitted by an update stage; the sink is fire-and-forget
/// and never fails the main flow.
#[derive(Clone, Debug)]
pub enum AuditEventType {
    PaymentCancelled { cancellation_reason: Option<String> },
}

/// One emitted audit event.
#[derive(Clone, Debug)]
pub struct AuditEvent {
    pub event_type: AuditEventType,
}

/// The intent statuses from which a cancel is refused: terminal outcomes,
/// an in-flight capture, and a payment parked for merchant review.
pub open spec fn cancel_not_allowed_statuses() -> Seq<IntentStatus> {
    seq![
        IntentStatus::Failed,
        IntentStatus::Succeeded,
        IntentStatus::Cancelled,
        IntentStatus::Processing,
        IntentStatus::RequiresMerchantAction,
    ]
}

/// Cancel's status guard refuses this intent status.
pub open spec fn cancel_disallowed(status: IntentStatus) -> bool {
    cancel_not_allowed_statuses().contains(status)
}

/// The statuses cancel refuses, as a list the guard helper can take.
pub fn cancel_not_allowed_list() -> (v: Vec<IntentStatus>)
    ensures
        v@ == cancel_not_allowed_statuses(),
{
    let mut v: Vec<IntentStatus> = Vec::new();
    v.push(IntentStatus::Failed);
    v.push(IntentStatus::Succeeded);
    v.push(IntentStatus::Cancelled);
    v.push(IntentStatus::Processing);
    v.push(IntentStatus::RequiresMerchantAction);
    proof {
        assert(v@ =~= cancel_not_allowed_statuses());
    }
    v
}

/// Copies a status list; statuses are plain values.
fn clone_status_list(v: &Vec<IntentStatus>) -> (r: Vec<IntentStatus>)
    ensures
        r@ == v@,
{
    let mut r: Vec<IntentStatus> = Vec::new();
    let mut i: usize = 0;
    while i < v.len()
        invariant
            i <= v.len(),
            r@ == v@.take(i as int),
        decreases v.len() - i,
    {
        r.push(v[i]);
        proof {
            assert(v@.take(i + 1 as int) =~= v@.take(i as int).push(v@[i as int]));
        }
        i = i + 1;
    }
    proof {
        assert(v@.take(v@.len() as int) =~= v@);
    }
    r
}

/// A flow's status guard: refuses the current status when it is in the
/// flow's disallowed set, naming the attempted action and that set.
pub fn validate_payment_status_against_not_allowed_statuses(
    intent_status: IntentStatus,
    not_allowed_statuses: &Vec<IntentStatus>,
    action: &str,
) -> (r: Result<(), ApiError>)
    ensures
        r is Ok <==> !not_allowed_statuses@.contains(intent_status),
        r matches Err(e) ==> e matches ApiError::OperationNotAllowed {
            operation,
            current_status,
            not_allowed,
        } && operation@ == action@ && current_status == intent_status && not_allowed@
            == not_allowed_statuses@,
{
    let mut i: usize = 0;
    while i < not_allowed_statuses.len()
        invariant
            i <= not_allowed_statuses.len(),
            forall|j: int| 0 <= j < i ==> (#[trigger] not_allowed_statuses@[j]) != intent_status,
        decreases not_allowed_statuses.len() - i,
    {
        if not_allowed_statuses[i] == intent_status {
            return Err(ApiError::OperationNotAllowed {
                operation: String::from_str(action),
                current_status: intent_status,
                not_allowed: clone_status_list(not_allowed_statuses),
            });
        }
        i = i + 1;
    }
    Ok(())
}

/// The address stored under an optional reference; no reference, no address.
pub open spec fn address_for_opt(store: Store, merchant_id: u64, address_id: Option<u64>) -> Option<
    Address,
> {
    match address_id {
        None => None,
        Some(id) => store.address_for(merchant_id, id),
    }
}

/// Resolves an optional address reference, scoped to the owning merchant.
pub fn get_address_by_id(store: &Store, address_id: Option<u64>, merchant_id: u64) -> (r: Option<
    Address,
>)
    requires
        store.wf(),
    ensures
        r == address_for_opt(*store, merchant_id, address_id),
{
    match address_id {
        None => None,
        Some(id) => store.find_address_by_merchant_id_address_id(merchant_id, id),
    }
}

/// Persists a caller-supplied connector-credential override for the
/// connector call that follows.
pub fn insert_merchant_connector_creds_to_config(
    store: &mut Store,
    merchant_id: u64,
    mcd: &MerchantConnectorDetailsWrap,
)
    requires
        old(store).wf(),
    ensures
        final(store).wf(),
        same_except(*old(store), *final(store), TableId::Configs),
        final(store).configs@ == old(store).configs@.push(
            ConfigEntry {
                merchant_id,
                creds_identifier: mcd.creds_identifier,
                encoded_creds: mcd.encoded_data,
            },
        ),
{
    let entry = ConfigEntry {
        merchant_id,
        creds_identifier: mcd.creds_identifier.clone(),
        encoded_creds: clone_opt_string(&mcd.encoded_data),
    };
    store.insert_config(entry);
}

/// Cancel's transition function: the new intent status (when it changes)
/// and the new attempt status, from the current intent status. A payment
/// not awaiting capture voids synchronously and terminally; one awaiting
/// capture starts an asynchronous void and leaves the intent untouched
/// until the connector confirms.
pub open spec fn cancel_transition(current: IntentStatus) -> (Option<IntentStatus>, AttemptStatus) {
    if current != IntentStatus::RequiresCapture {
        (Some(IntentStatus::Cancelled), AttemptStatus::Voided)
    } else {
        (None, AttemptStatus::VoidInitiated)
    }
}

/// Executable form of [`cancel_transition`].
pub fn cancel_transition_exec(current: IntentStatus) -> (r: (Option<IntentStatus>, AttemptStatus))
    ensures
        r == cancel_transition(current),
{
    if current != IntentStatus::RequiresCapture {
        (Some(IntentStatus::Cancelled), AttemptStatus::Voided)
    } else {
        (None, AttemptStatus::VoidInitiated)
    }
}

/// The fetched state suffices for cancel's update stage: the active attempt
/// exists and carries a currency, and the intent names an existing profile.
pub open spec fn cancel_ready(store: Store, merchant_id: u64, pi: PaymentIntent) -> bool {
    &&& store.attempt_for(merchant_id, pi.payment_id, pi.active_attempt_id) matches Some(pa)
        && pa.currency is Some
    &&& pi.profile_id matches Some(profile_id) && store.profile_for(merchant_id, profile_id) is Some
}

/// The cancel flow: one unit per pipeline, carrying cancel's guard set and
/// transition function through the three stages.
#[derive(Clone, Copy, Debug)]
pub struct PaymentCancel;

impl PaymentCancel {
    /// The validate stage: a cancel request always carries its scoping keys,
    /// so validation extracts them and never fails.
    pub fn validate_request(
        &self,
        request: &PaymentsCancelRequest,
        merchant_context: &MerchantContext,
    ) -> (r: Result<ValidateResult, ApiError>)
        ensures
            r matches Ok(v) && v == (ValidateResult {
                merchant_id: merchant_context.merchant_account.merchant_id,
                payment_id: request.payment_id,
                storage_scheme: merchant_context.merchant_account.storage_scheme,
                requeue: false,
            }),
    {
        Ok(ValidateResult {
            merchant_id: merchant_context.get_merchant_account().merchant_id,
            payment_id: request.payment_id,
            storage_scheme: merchant_context.get_merchant_account().storage_scheme,
            requeue: false,
        })
    }

    /// The fetch stage: loads the intent and its active attempt under the
    /// status guard, resolves addresses and profile, copies the caller's
    /// cancellation reason onto the attempt, persists a supplied credential
    /// override, and assembles the working aggregate. Aborts before any
    /// mutation on every guard or lookup failure; the one write it may make
    /// is the credential override.
    pub fn get_trackers(
        &self,
        store: &mut Store,
        payment_id: u64,
        request: &PaymentsCancelRequest,
        merchant_context: &MerchantContext,
    ) -> (r: Result<GetTrackerResponse, ApiError>)
        requires
            old(store).wf(),
        ensures
            final(store).wf(),
            same_except(*old(store), *final(store), TableId::Configs),
            ({
                let m = merchant_context.merchant_account.merchant_id;
                match old(store).intent_for(m, payment_id) {
                    None => r matches Err(ApiError::PaymentNotFound) && unchanged(
                        *old(store),
                        *final(store),
                    ),
                    Some(pi) => if cancel_disallowed(pi.status) {
                        (r matches Err(e) && e matches ApiError::OperationNotAllowed {
                            operation,
                            current_status,
                            not_allowed,
                        } && operation@ == "cancel"@ && current_status == pi.status && not_allowed@
                            == cancel_not_allowed_statuses()) && unchanged(*old(store), *final(store))
                    } else {
                        match old(store).attempt_for(m, pi.payment_id, pi.active_attempt_id) {
                            None => r matches Err(ApiError::PaymentNotFound) && unchanged(
                                *old(store),
                                *final(store),
                            ),
                            Some(pa) => match pa.currency {
                                None => (r matches Err(e) && e matches ApiError::MissingRequiredField {
                                    field_name,
                                } && field_name@ == "currency"@) && unchanged(
                                    *old(store),
                                    *final(store),
                                ),
                                Some(currency) => (match request.merchant_connector_details {
                                    Some(mcd) => final(store).configs@ == old(store).configs@.push(
                                        ConfigEntry {
                                            merchant_id: m,
                                            creds_identifier: mcd.creds_identifier,
                                            encoded_creds: mcd.encoded_data,
                                        },
                                    ),
                                    None => final(store).configs@ == old(store).configs@,
                                }) && (match pi.profile_id {
                                    None => r matches Err(ApiError::InternalServerError),
                                    Some(profile_id) => match old(store).profile_for(m, profile_id) {
                                        None => r matches Err(e)
                                            && e matches ApiError::ProfileNotFound { profile_id: p }
                                            && p == profile_id,
                                        Some(profile) => r matches Ok(resp) && resp.business_profile
                                            == profile && resp.payment_data == (PaymentData {
                                            payment_intent: pi,
                                            payment_attempt: PaymentAttempt {
                                                cancellation_reason: request.cancellation_reason,
                                                ..pa
                                            },
                                            currency,
                                            amount: pa.amount,
                                            email: None,
                                            mandate_id: None,
                                            address: PaymentAddress {
                                                shipping: address_for_opt(
                                                    *old(store),
                                                    m,
                                                    pi.shipping_address_id,
                                                ),
                                                billing: address_for_opt(
                                                    *old(store),
                                                    m,
                                                    pi.billing_address_id,
                                                ),
                                                unified_payment_method_billing: unified_payment_method_billing(
                                                    address_for_opt(*old(store), m, pi.billing_address_id),
                                                    address_for_opt(
                                                        *old(store),
                                                        m,
                                                        pa.payment_method_billing_address_id,
                                                    ),
                                                    profile.use_billing_as_payment_method_billing
                                                        == Some(true),
                                                ),
                                            },
                                            confirm: None,
                                            force_sync: None,
                                            creds_identifier: match request.merchant_connector_details {
                                                Some(mcd) => Some(mcd.creds_identifier),
                                                None => None,
                                            },
                                        }),
                                    },
                                }),
                            },
                        }
                    },
                }
            }),
    {
        let merchant_id = merchant_context.get_merchant_account().merchant_id;

        let payment_intent = match store.find_payment_intent_by_payment_id_merchant_id(
            payment_id,
            merchant_id,
        ) {
            Ok(pi) => pi,
            Err(_) => {
                return Err(ApiError::PaymentNotFound);
            },
        };

        let not_allowed = cancel_not_allowed_list();
        match validate_payment_status_against_not_allowed_statuses(
            payment_intent.status,
            &not_allowed,
            "cancel",
        ) {
            Ok(()) => (),
            Err(e) => {
                return Err(e);
            },
        }

        let mut payment_attempt = match store.find_payment_attempt_by_payment_id_merchant_id_attempt_id(
            payment_intent.payment_id,
            merchant_id,
            payment_intent.active_attempt_id,
        ) {
            Ok(pa) => pa,
            Err(_) => {
                return Err(ApiError::PaymentNotFound);
            },
        };

        let shipping_address = get_address_by_id(
            store,
            payment_intent.shipping_address_id,
            merchant_id,
        );
        let billing_address = get_address_by_id(store, payment_intent.billing_address_id, merchant_id);
        let payment_method_billing = get_address_by_id(
            store,
            payment_attempt.payment_method_billing_address_id,
            merchant_id,
        );

        let currency = match payment_attempt.currency {
            Some(c) => c,
            None => {
                return Err(ApiError::MissingRequiredField {
                    field_name: String::from_str("currency"),
                });
            },
        };
        let amount = payment_attempt.amount;

        payment_attempt.cancellation_reason = clone_opt_string(&request.cancellation_reason);

        let creds_identifier = match &request.merchant_connector_details {
            Some(mcd) => Some(mcd.creds_identifier.clone()),
            None => None,
        };
        match &request.merchant_connector_details {
            Some(mcd) => {
                insert_merchant_connector_creds_to_config(store, merchant_id, mcd);
            },
            None => (),
        }

        let profile_id = match payment_intent.profile_id {
            Some(p) => p,
            None => {
                return Err(ApiError::InternalServerError);
            },
        };

        let business_profile = match store.find_business_profile_by_profile_id(
            merchant_id,
            profile_id,
        ) {
            Ok(bp) => bp,
            Err(_) => {
                return Err(ApiError::ProfileNotFound { profile_id });
            },
        };

        let address = PaymentAddress::new(
            shipping_address,
            billing_address,
            payment_method_billing,
            business_profile.use_billing_as_payment_method_billing,
        );

        let payment_data = PaymentData {
            payment_intent,
            payment_attempt,
            currency,
            amount,
            email: None,
            mandate_id: None,
            address,
            confirm: None,
            force_sync: None,
            creds_identifier,
        };

        Ok(GetTrackerResponse { payment_data, business_profile })
    }

    /// The update stage: computes cancel's transition from the fetched
    /// intent status, persists it through predicate-qualified writes —
    /// the intent first, then the attempt, with no rollback in between —
    /// and emits the audit event once both writes succeeded.
    pub fn update_trackers(
        &self,
        store: &mut Store,
        payment_data: PaymentData,
        storage_scheme: MerchantStorageScheme,
        events: &mut Vec<AuditEvent>,
    ) -> (r: Result<PaymentData, ApiError>)
        requires
            old(store).wf(),
        ensures
            final(store).wf(),
            final(store).addresses@ == old(store).addresses@,
            final(store).profiles@ == old(store).profiles@,
            final(store).merchants@ == old(store).merchants@,
            final(store).configs@ == old(store).configs@,
            final(store).tokens@ == old(store).tokens@,
            final(store).payouts@ == old(store).payouts@,
            final(store).payout_attempts@ == old(store).payout_attempts@,
            final(store).processes@ == old(store).processes@,
            ({
                let m = payment_data.payment_intent.merchant_id;
                let pid = payment_data.payment_intent.payment_id;
                let am = payment_data.payment_attempt.merchant_id;
                let apid = payment_data.payment_attempt.payment_id;
                let aid = payment_data.payment_attempt.attempt_id;
                let reason = payment_data.payment_attempt.cancellation_reason;
                let void_update = |status: AttemptStatus| PaymentAttemptUpdate::VoidUpdate {
                    status,
                    cancellation_reason: reason,
                    updated_by: storage_scheme,
                };
                if payment_data.payment_intent.status == IntentStatus::RequiresCapture {
                    final(store).intents@ == old(store).intents@ && (match old(store).attempt_for(
                        am,
                        apid,
                        aid,
                    ) {
                        None => r matches Err(ApiError::PaymentNotFound) && final(store).attempts@
                            == old(store).attempts@ && final(events)@ == old(events)@,
                        Some(cur_pa) => r matches Ok(pd) && pd == payment_data && final(store).attempt_for(am, apid, aid) == Some(
                            apply_attempt_update(cur_pa, void_update(AttemptStatus::VoidInitiated)),
                        ) && (forall|k2: (u64, u64, u64)|
                            k2 != (am, apid, aid) ==> #[trigger] crate::keyed::lookup(
                                final(store).attempts@,
                                k2,
                            ) == crate::keyed::lookup(old(store).attempts@, k2)) && final(events)@
                            == old(events)@.push(
                            AuditEvent {
                                event_type: AuditEventType::PaymentCancelled {
                                    cancellation_reason: reason,
                                },
                            },
                        ),
                    })
                } else {
                    match old(store).intent_for(m, pid) {
                        None => r matches Err(ApiError::PaymentNotFound) && final(store).intents@
                            == old(store).intents@ && final(store).attempts@ == old(store).attempts@
                            && final(events)@ == old(events)@,
                        Some(cur_pi) => {
                            let new_pi = apply_intent_update(
                                cur_pi,
                                PaymentIntentUpdate::PGStatusUpdate {
                                    status: IntentStatus::Cancelled,
                                    updated_by: storage_scheme,
                                    incremental_authorization_allowed: None,
                                },
                            );
                            final(store).intent_for(m, pid) == Some(new_pi) && (forall|
                                k2: (u64, u64, u64),
                            |
                                k2 != (m, pid, 0u64) ==> #[trigger] crate::keyed::lookup(
                                    final(store).intents@,
                                    k2,
                                ) == crate::keyed::lookup(old(store).intents@, k2)) && (
                            match old(store).attempt_for(am, apid, aid) {
                                None => r matches Err(ApiError::PaymentNotFound) && final(store).attempts@ == old(store).attempts@ && final(events)@ == old(events)@,
                                Some(cur_pa) => r matches Ok(pd) && pd == (PaymentData {
                                    payment_intent: new_pi,
                                    ..payment_data
                                }) && final(store).attempt_for(am, apid, aid) == Some(
                                    apply_attempt_update(cur_pa, void_update(AttemptStatus::Voided)),
                                ) && (forall|k2: (u64, u64, u64)|
                                    k2 != (am, apid, aid) ==> #[trigger] crate::keyed::lookup(
                                        final(store).attempts@,
                                        k2,
                                    ) == crate::keyed::lookup(old(store).attempts@, k2)) && final(events)@ == old(events)@.push(
                                    AuditEvent {
                                        event_type: AuditEventType::PaymentCancelled {
                                            cancellation_reason: reason,
                                        },
                                    },
                                ),
                            })
                        },
                    }
                }
            }),
    {
        let mut payment_data = payment_data;
        let cancellation_reason = clone_opt_string(&payment_data.payment_attempt.cancellation_reason);

        let (intent_status_update, attempt_status) = cancel_transition_exec(
            payment_data.payment_intent.status,
        );

        match intent_status_update {
            Some(status) => {
                let intent_update = PaymentIntentUpdate::PGStatusUpdate {
                    status,
                    updated_by: storage_scheme,
                    incremental_authorization_allowed: None,
                };
                payment_data.payment_intent = match store.update_payment_intent(
                    &payment_data.payment_intent,
                    &intent_update,
                ) {
                    Ok(pi) => pi,
                    Err(_) => {
                        return Err(ApiError::PaymentNotFound);
                    },
                };
            },
            None => (),
        }

        let void_update = PaymentAttemptUpdate::VoidUpdate {
            status: attempt_status,
            cancellation_reason: clone_opt_string(&cancellation_reason),
            updated_by: storage_scheme,
        };
        match store.update_payment_attempt_with_attempt_id(&payment_data.payment_attempt, &void_update) {
            Ok(_) => (),
            Err(_) => {
                return Err(ApiError::PaymentNotFound);
            },
        }

        events.push(AuditEvent {
            event_type: AuditEventType::PaymentCancelled { cancellation_reason },
        });
        Ok(payment_data)
    }
}

/// Runs cancel's three stages strictly in order: validate, fetch under the
/// guard, update. No stage is skippable, and a failure in validate or fetch
/// aborts before any status mutation.
///
/// The contract carries the flow's laws: a cancel against an intent in the
/// disallowed set fails with `OperationNotAllowed` and writes nothing; a
/// cancel of an intent awaiting capture voids asynchronously (attempt
/// `VoidInitiated`, intent untouched); any other permitted cancel is
/// synchronous and terminal (intent `Cancelled`, attempt `Voided`). The
/// caller's cancellation reason is persisted on the attempt together with
/// the transition, and the audit event is emitted exactly on success.
pub fn payments_cancel_core(
    store: &mut Store,
    merchant_context: &MerchantContext,
    request: &PaymentsCancelRequest,
    events: &mut Vec<AuditEvent>,
) -> (r: Result<PaymentData, ApiError>)
    requires
        old(store).wf(),
    ensures
        final(store).wf(),
        final(store).addresses@ == old(store).addresses@,
        final(store).profiles@ == old(store).profiles@,
        final(store).merchants@ == old(store).merchants@,
        final(store).tokens@ == old(store).tokens@,
        final(store).payouts@ == old(store).payouts@,
        final(store).payout_attempts@ == old(store).payout_attempts@,
        final(store).processes@ == old(store).processes@,
        ({
            let m = merchant_context.merchant_account.merchant_id;
            let scheme = merchant_context.merchant_account.storage_scheme;
            let pid = request.payment_id;
            let reason = request.cancellation_reason;
            &&& (r is Ok <==> (old(store).intent_for(m, pid) matches Some(pi)
                && !cancel_disallowed(pi.status) && cancel_ready(*old(store), m, pi)))
            &&& match old(store).intent_for(m, pid) {
                None => r matches Err(ApiError::PaymentNotFound) && unchanged(
                    *old(store),
                    *final(store),
                ) && final(events)@ == old(events)@,
                Some(pi) => {
                    &&& (cancel_disallowed(pi.status) ==> (r matches Err(e)
                        && e matches ApiError::OperationNotAllowed {
                        operation,
                        current_status,
                        not_allowed,
                    } && operation@ == "cancel"@ && current_status == pi.status && not_allowed@
                        == cancel_not_allowed_statuses()) && unchanged(*old(store), *final(store))
                        && final(events)@ == old(events)@)
                    &&& ((!cancel_disallowed(pi.status) && cancel_ready(*old(store), m, pi)
                        && pi.status == IntentStatus::RequiresCapture) ==> ({
                        let pa = old(store).attempt_for(m, pi.payment_id, pi.active_attempt_id)->0;
                        &&& final(store).intents@ == old(store).intents@
                        &&& final(store).attempt_for(m, pi.payment_id, pi.active_attempt_id) == Some(
                            apply_attempt_update(
                                pa,
                                PaymentAttemptUpdate::VoidUpdate {
                                    status: AttemptStatus::VoidInitiated,
                                    cancellation_reason: reason,
                                    updated_by: scheme,
                                },
                            ),
                        )
                        &&& (forall|k2: (u64, u64, u64)|
                            k2 != (m, pi.payment_id, pi.active_attempt_id)
                                ==> #[trigger] crate::keyed::lookup(final(store).attempts@, k2)
                                == crate::keyed::lookup(old(store).attempts@, k2))
                        &&& final(events)@ == old(events)@.push(
                            AuditEvent {
                                event_type: AuditEventType::PaymentCancelled {
                                    cancellation_reason: reason,
                                },
                            },
                        )
                    }))
                    &&& ((!cancel_disallowed(pi.status) && cancel_ready(*old(store), m, pi)
                        && pi.status != IntentStatus::RequiresCapture) ==> ({
                        let pa = old(store).attempt_for(m, pi.payment_id, pi.active_attempt_id)->0;
                        let new_pi = apply_intent_update(
                            pi,
                            PaymentIntentUpdate::PGStatusUpdate {
                                status: IntentStatus::Cancelled,
                                updated_by: scheme,
                                incremental_authorization_allowed: None,
                            },
                        );
                        &&& final(store).intent_for(m, pid) == Some(new_pi)
                        &&& (forall|k2: (u64, u64, u64)|
                            k2 != (m, pid, 0u64) ==> #[trigger] crate::keyed::lookup(
                                final(store).intents@,
                                k2,
                            ) == crate::keyed::lookup(old(store).intents@, k2))
                        &&& final(store).attempt_for(m, pi.payment_id, pi.active_attempt_id) == Some(
                            apply_attempt_update(
                                pa,
                                PaymentAttemptUpdate::VoidUpdate {
                                    status: AttemptStatus::Voided,
                                    cancellation_reason: reason,
                                    updated_by: scheme,
                                },
                            ),
                        )
                        &&& (forall|k2: (u64, u64, u64)|
                            k2 != (m, pi.payment_id, pi.active_attempt_id)
                                ==> #[trigger] crate::keyed::lookup(final(store).attempts@, k2)
                                == crate::keyed::lookup(old(store).attempts@, k2))
                        &&& final(events)@ == old(events)@.push(
                            AuditEvent {
                                event_type: AuditEventType::PaymentCancelled {
                                    cancellation_reason: reason,
                                },
                            },
                        )
                    }))
                },
            }
        }),
{
    let operation = PaymentCancel;

    let validate_result = match operation.validate_request(request, merchant_context) {
        Ok(v) => v,
        Err(e) => {
            return Err(e);
        },
    };

    let tracker_response = match operation.get_trackers(
        store,
        validate_result.payment_id,
        request,
        merchant_context,
    ) {
        Ok(t) => t,
        Err(e) => {
            return Err(e);
        },
    };

    operation.update_trackers(
        store,
        tracker_response.payment_data,
        validate_result.storage_scheme,
        events,
    )
}

} // verus!
