use payment_flows::cancel::{
    payments_cancel_core, AuditEvent, AuditEventType, MerchantConnectorDetailsWrap, PaymentCancel,
    PaymentsCancelRequest,
};
use payment_flows::enums::{
    AttemptStatus, Currency, IntentStatus, MerchantStorageScheme,
};
use payment_flows::errors::ApiError;
use payment_flows::records::{
    Address, BusinessProfile, MerchantAccount, MerchantContext, PaymentAttempt, PaymentIntent,
};
use payment_flows::store::Store;

const MERCHANT: u64 = 1;
const PAYMENT: u64 = 100;
const ATTEMPT: u64 = 7;
const PROFILE: u64 = 10;

fn merchant_context() -> MerchantContext {
    MerchantContext {
        merchant_account: MerchantAccount {
            merchant_id: MERCHANT,
            storage_scheme: MerchantStorageScheme::PostgresOnly,
        },
    }
}

fn seeded_store(intent_status: IntentStatus) -> Store {
    let mut store = Store::new();
    store
        .insert_merchant_account(MerchantAccount {
            merchant_id: MERCHANT,
            storage_scheme: MerchantStorageScheme::PostgresOnly,
        })
        .unwrap();
    store
        .insert_business_profile(BusinessProfile {
            profile_id: PROFILE,
            merchant_id: MERCHANT,
            use_billing_as_payment_method_billing: None,
        })
        .unwrap();
    store
        .insert_payment_intent(PaymentIntent {
            payment_id: PAYMENT,
            merchant_id: MERCHANT,
            status: intent_status,
            amount: 500,
            profile_id: Some(PROFILE),
            active_attempt_id: ATTEMPT,
            shipping_address_id: None,
            billing_address_id: None,
            incremental_authorization_allowed: None,
            updated_by: MerchantStorageScheme::PostgresOnly,
        })
        .unwrap();
    store
        .insert_payment_attempt(PaymentAttempt {
            attempt_id: ATTEMPT,
            payment_id: PAYMENT,
            merchant_id: MERCHANT,
            status: AttemptStatus::Authorized,
            amount: 500,
            currency: Some(Currency::USD),
            cancellation_reason: None,
            payment_method_billing_address_id: None,
            updated_by: MerchantStorageScheme::PostgresOnly,
        })
        .unwrap();
    store
}

fn cancel_request(reason: Option<&str>) -> PaymentsCancelRequest {
    PaymentsCancelRequest {
        payment_id: PAYMENT,
        cancellation_reason: reason.map(|r| r.to_string()),
        merchant_connector_details: None,
    }
}

fn run_cancel(
    store: &mut Store,
    request: &PaymentsCancelRequest,
) -> (Result<payment_flows::aggregate::PaymentData, ApiError>, Vec<AuditEvent>) {
    let mut events: Vec<AuditEvent> = Vec::new();
    let r = payments_cancel_core(store, &merchant_context(), request, &mut events);
    (r, events)
}

fn assert_guard_refused(status: IntentStatus) {
    let mut store = seeded_store(status);
    let request = cancel_request(Some("requested_by_customer"));
    let (r, events) = run_cancel(&mut store, &request);
    match r {
        Err(ApiError::OperationNotAllowed { operation, current_status, not_allowed }) => {
            assert_eq!(operation, "cancel");
            assert_eq!(current_status, status);
            assert_eq!(not_allowed.len(), 5);
            assert!(not_allowed.contains(&IntentStatus::Failed));
            assert!(not_allowed.contains(&IntentStatus::Succeeded));
            assert!(not_allowed.contains(&IntentStatus::Cancelled));
            assert!(not_allowed.contains(&IntentStatus::Processing));
            assert!(not_allowed.contains(&IntentStatus::RequiresMerchantAction));
        },
        other => panic!("expected OperationNotAllowed, got {:?}", other),
    }
    // No write happened: both rows still carry their original statuses.
    let intent = store
        .find_payment_intent_by_payment_id_merchant_id(PAYMENT, MERCHANT)
        .unwrap();
    assert_eq!(intent.status, status);
    let attempt = store
        .find_payment_attempt_by_payment_id_merchant_id_attempt_id(PAYMENT, MERCHANT, ATTEMPT)
        .unwrap();
    assert_eq!(attempt.status, AttemptStatus::Authorized);
    assert_eq!(attempt.cancellation_reason, None);
    assert!(events.is_empty());
}

#[test]
fn cancel_refused_for_failed_intent() {
    assert_guard_refused(IntentStatus::Failed);
}

#[test]
fn cancel_refused_for_succeeded_intent() {
    assert_guard_refused(IntentStatus::Succeeded);
}

#[test]
fn cancel_refused_for_cancelled_intent() {
    assert_guard_refused(IntentStatus::Cancelled);
}

#[test]
fn cancel_refused_for_processing_intent() {
    assert_guard_refused(IntentStatus::Processing);
}

#[test]
fn cancel_refused_for_requires_merchant_action_intent() {
    assert_guard_refused(IntentStatus::RequiresMerchantAction);
}

#[test]
fn cancel_of_requires_capture_is_async_void() {
    let mut store = seeded_store(IntentStatus::RequiresCapture);
    let request = cancel_request(Some("duplicate_order"));
    let (r, events) = run_cancel(&mut store, &request);
    assert!(r.is_ok());

    // The intent stays as it was; only the attempt moves, to VoidInitiated.
    let intent = store
        .find_payment_intent_by_payment_id_merchant_id(PAYMENT, MERCHANT)
        .unwrap();
    assert_eq!(intent.status, IntentStatus::RequiresCapture);
    let attempt = store
        .find_payment_attempt_by_payment_id_merchant_id_attempt_id(PAYMENT, MERCHANT, ATTEMPT)
        .unwrap();
    assert_eq!(attempt.status, AttemptStatus::VoidInitiated);
    assert_eq!(attempt.cancellation_reason, Some("duplicate_order".to_string()));
    assert_eq!(events.len(), 1);
    let AuditEventType::PaymentCancelled { cancellation_reason } = &events[0].event_type;
    assert_eq!(cancellation_reason, &Some("duplicate_order".to_string()));
}

#[test]
fn cancel_of_permitted_intent_is_terminal() {
    let mut store = seeded_store(IntentStatus::RequiresConfirmation);
    let request = cancel_request(Some("requested_by_customer"));
    let (r, events) = run_cancel(&mut store, &request);
    assert!(r.is_ok());

    let intent = store
        .find_payment_intent_by_payment_id_merchant_id(PAYMENT, MERCHANT)
        .unwrap();
    assert_eq!(intent.status, IntentStatus::Cancelled);
    let attempt = store
        .find_payment_attempt_by_payment_id_merchant_id_attempt_id(PAYMENT, MERCHANT, ATTEMPT)
        .unwrap();
    assert_eq!(attempt.status, AttemptStatus::Voided);
    assert_eq!(attempt.cancellation_reason, Some("requested_by_customer".to_string()));
    assert_eq!(events.len(), 1);
}

#[test]
fn cancel_from_requires_payment_method_is_terminal() {
    let mut store = seeded_store(IntentStatus::RequiresPaymentMethod);
    let request = cancel_request(None);
    let (r, _) = run_cancel(&mut store, &request);
    assert!(r.is_ok());
    let intent = store
        .find_payment_intent_by_payment_id_merchant_id(PAYMENT, MERCHANT)
        .unwrap();
    assert_eq!(intent.status, IntentStatus::Cancelled);
    let attempt = store
        .find_payment_attempt_by_payment_id_merchant_id_attempt_id(PAYMENT, MERCHANT, ATTEMPT)
        .unwrap();
    assert_eq!(attempt.status, AttemptStatus::Voided);
    assert_eq!(attempt.cancellation_reason, None);
}

#[test]
fn cancel_of_missing_payment_reports_not_found() {
    let mut store = Store::new();
    let request = cancel_request(None);
    let (r, events) = run_cancel(&mut store, &request);
    assert!(matches!(r, Err(ApiError::PaymentNotFound)));
    assert!(events.is_empty());
}

#[test]
fn cancel_without_attempt_currency_reports_missing_field() {
    let mut store2 = Store::new();
    store2
        .insert_payment_intent(PaymentIntent {
            payment_id: PAYMENT,
            merchant_id: MERCHANT,
            status: IntentStatus::RequiresCapture,
            amount: 500,
            profile_id: Some(PROFILE),
            active_attempt_id: ATTEMPT,
            shipping_address_id: None,
            billing_address_id: None,
            incremental_authorization_allowed: None,
            updated_by: MerchantStorageScheme::PostgresOnly,
        })
        .unwrap();
    store2
        .insert_payment_attempt(PaymentAttempt {
            attempt_id: ATTEMPT,
            payment_id: PAYMENT,
            merchant_id: MERCHANT,
            status: AttemptStatus::Authorized,
            amount: 500,
            currency: None,
            cancellation_reason: None,
            payment_method_billing_address_id: None,
            updated_by: MerchantStorageScheme::PostgresOnly,
        })
        .unwrap();
    let request = cancel_request(None);
    let (r, _) = run_cancel(&mut store2, &request);
    match r {
        Err(ApiError::MissingRequiredField { field_name }) => assert_eq!(field_name, "currency"),
        other => panic!("expected MissingRequiredField, got {:?}", other),
    }
}

#[test]
fn cancel_without_profile_row_reports_profile_not_found() {
    let mut store = Store::new();
    store
        .insert_payment_intent(PaymentIntent {
            payment_id: PAYMENT,
            merchant_id: MERCHANT,
            status: IntentStatus::RequiresConfirmation,
            amount: 500,
            profile_id: Some(PROFILE),
            active_attempt_id: ATTEMPT,
            shipping_address_id: None,
            billing_address_id: None,
            incremental_authorization_allowed: None,
            updated_by: MerchantStorageScheme::PostgresOnly,
        })
        .unwrap();
    store
        .insert_payment_attempt(PaymentAttempt {
            attempt_id: ATTEMPT,
            payment_id: PAYMENT,
            merchant_id: MERCHANT,
            status: AttemptStatus::Authorized,
            amount: 500,
            currency: Some(Currency::USD),
            cancellation_reason: None,
            payment_method_billing_address_id: None,
            updated_by: MerchantStorageScheme::PostgresOnly,
        })
        .unwrap();
    let request = cancel_request(None);
    let (r, _) = run_cancel(&mut store, &request);
    match r {
        Err(ApiError::ProfileNotFound { profile_id }) => assert_eq!(profile_id, PROFILE),
        other => panic!("expected ProfileNotFound, got {:?}", other),
    }
}

#[test]
fn cancel_persists_supplied_credential_override() {
    let mut store = seeded_store(IntentStatus::RequiresConfirmation);
    let request = PaymentsCancelRequest {
        payment_id: PAYMENT,
        cancellation_reason: None,
        merchant_connector_details: Some(MerchantConnectorDetailsWrap {
            creds_identifier: "creds_1".to_string(),
            encoded_data: Some("SECRET-REDACTED".to_string()),
        }),
    };
    let (r, _) = run_cancel(&mut store, &request);
    assert!(r.is_ok());
    assert_eq!(store.configs.len(), 1);
    assert_eq!(store.configs[0].merchant_id, MERCHANT);
    assert_eq!(store.configs[0].creds_identifier, "creds_1");
    assert_eq!(
        r.unwrap().creds_identifier,
        Some("creds_1".to_string())
    );
}

#[test]
fn cancel_never_touches_another_merchants_intent() {
    // Two merchants share the payment id; cancelling under merchant 2 must
    // leave merchant 1's rows alone and fail (merchant 2 has no such row
    // beyond its own).
    let mut store = seeded_store(IntentStatus::RequiresConfirmation);
    store
        .insert_payment_intent(PaymentIntent {
            payment_id: PAYMENT,
            merchant_id: 2,
            status: IntentStatus::Succeeded,
            amount: 900,
            profile_id: None,
            active_attempt_id: 1,
            shipping_address_id: None,
            billing_address_id: None,
            incremental_authorization_allowed: None,
            updated_by: MerchantStorageScheme::PostgresOnly,
        })
        .unwrap();
    let request = cancel_request(None);
    let mut events: Vec<AuditEvent> = Vec::new();
    let other_context = MerchantContext {
        merchant_account: MerchantAccount {
            merchant_id: 2,
            storage_scheme: MerchantStorageScheme::PostgresOnly,
        },
    };
    // Merchant 2's intent is Succeeded, so its own cancel is refused; the
    // guard saw merchant 2's row, not merchant 1's.
    let r = payments_cancel_core(&mut store, &other_context, &request, &mut events);
    assert!(matches!(r, Err(ApiError::OperationNotAllowed { .. })));
    // Merchant 1's intent is untouched and still cancellable.
    let intent = store
        .find_payment_intent_by_payment_id_merchant_id(PAYMENT, MERCHANT)
        .unwrap();
    assert_eq!(intent.status, IntentStatus::RequiresConfirmation);
}

#[test]
fn credential_override_survives_a_late_fetch_failure() {
    // The credential override is persisted before the profile is resolved;
    // a missing profile row fails the fetch stage afterwards, but the
    // config write stands — recovery is by retry, not rollback.
    let mut store = Store::new();
    store
        .insert_payment_intent(PaymentIntent {
            payment_id: PAYMENT,
            merchant_id: MERCHANT,
            status: IntentStatus::RequiresConfirmation,
            amount: 500,
            profile_id: Some(PROFILE),
            active_attempt_id: ATTEMPT,
            shipping_address_id: None,
            billing_address_id: None,
            incremental_authorization_allowed: None,
            updated_by: MerchantStorageScheme::PostgresOnly,
        })
        .unwrap();
    store
        .insert_payment_attempt(PaymentAttempt {
            attempt_id: ATTEMPT,
            payment_id: PAYMENT,
            merchant_id: MERCHANT,
            status: AttemptStatus::Authorized,
            amount: 500,
            currency: Some(Currency::USD),
            cancellation_reason: None,
            payment_method_billing_address_id: None,
            updated_by: MerchantStorageScheme::PostgresOnly,
        })
        .unwrap();
    let request = PaymentsCancelRequest {
        payment_id: PAYMENT,
        cancellation_reason: None,
        merchant_connector_details: Some(MerchantConnectorDetailsWrap {
            creds_identifier: "creds_1".to_string(),
            encoded_data: None,
        }),
    };
    let (r, _) = run_cancel(&mut store, &request);
    assert!(matches!(r, Err(ApiError::ProfileNotFound { .. })));
    assert_eq!(store.configs.len(), 1);
}

#[test]
fn fetch_stage_resolves_and_unifies_addresses() {
    // The intent references a billing address, and the profile asks for the
    // billing address to serve as the payment-method billing address.
    let mut store = {
        let mut s = Store::new();
        s.insert_merchant_account(MerchantAccount {
            merchant_id: MERCHANT,
            storage_scheme: MerchantStorageScheme::PostgresOnly,
        })
        .unwrap();
        s.insert_business_profile(BusinessProfile {
            profile_id: PROFILE,
            merchant_id: MERCHANT,
            use_billing_as_payment_method_billing: Some(true),
        })
        .unwrap();
        s.insert_address(Address {
            address_id: 31,
            merchant_id: MERCHANT,
            city: Some("Berlin".to_string()),
            country: Some("DE".to_string()),
        })
        .unwrap();
        s.insert_payment_intent(PaymentIntent {
            payment_id: PAYMENT,
            merchant_id: MERCHANT,
            status: IntentStatus::RequiresConfirmation,
            amount: 500,
            profile_id: Some(PROFILE),
            active_attempt_id: ATTEMPT,
            shipping_address_id: None,
            billing_address_id: Some(31),
            incremental_authorization_allowed: None,
            updated_by: MerchantStorageScheme::PostgresOnly,
        })
        .unwrap();
        s.insert_payment_attempt(PaymentAttempt {
            attempt_id: ATTEMPT,
            payment_id: PAYMENT,
            merchant_id: MERCHANT,
            status: AttemptStatus::Authorized,
            amount: 500,
            currency: Some(Currency::USD),
            cancellation_reason: None,
            payment_method_billing_address_id: None,
            updated_by: MerchantStorageScheme::PostgresOnly,
        })
        .unwrap();
        s
    };
    let request = cancel_request(None);
    let (r, _) = run_cancel(&mut store, &request);
    let data = r.unwrap();
    // The profile asked for unification and no payment-method billing was
    // supplied, so the billing address serves as it.
    let billing = data.address.billing.clone().unwrap();
    assert_eq!(billing.address_id, 31);
    let unified = data.address.unified_payment_method_billing.unwrap();
    assert_eq!(unified.address_id, 31);
    assert_eq!(unified.city, Some("Berlin".to_string()));
    assert!(data.address.shipping.is_none());
}

#[test]
fn validate_request_extracts_scoping_keys() {
    let request = cancel_request(None);
    let operation = PaymentCancel;
    let v = operation.validate_request(&request, &merchant_context()).unwrap();
    assert_eq!(v.merchant_id, MERCHANT);
    assert_eq!(v.payment_id, PAYMENT);
    assert_eq!(v.storage_scheme, MerchantStorageScheme::PostgresOnly);
    assert!(!v.requeue);
}
