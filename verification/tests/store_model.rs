use payment_flows::enums::{
    AttemptStatus, Currency, IntentStatus, MerchantStorageScheme, PayoutStatus, PayoutType,
};
use payment_flows::errors::{ApiError, StorageError};
use payment_flows::payouts_flow::{make_payout_data, payouts_core, PayoutData, PayoutRequest};
use payment_flows::records::{
    MerchantAccount, MerchantContext, PaymentAttempt, PaymentIntent, PayoutAttempt,
    PayoutRetrieveRequest, Payouts,
};
use payment_flows::store::Store;
use payment_flows::updates::PaymentIntentUpdate;

fn intent(merchant_id: u64, payment_id: u64, status: IntentStatus) -> PaymentIntent {
    PaymentIntent {
        payment_id,
        merchant_id,
        status,
        amount: 100,
        profile_id: None,
        active_attempt_id: 1,
        shipping_address_id: None,
        billing_address_id: None,
        incremental_authorization_allowed: None,
        updated_by: MerchantStorageScheme::PostgresOnly,
    }
}

fn context(merchant_id: u64) -> MerchantContext {
    MerchantContext {
        merchant_account: MerchantAccount {
            merchant_id,
            storage_scheme: MerchantStorageScheme::PostgresOnly,
        },
    }
}

#[test]
fn intent_lookup_is_scoped_by_merchant() {
    let mut store = Store::new();
    store.insert_payment_intent(intent(1, 100, IntentStatus::Processing)).unwrap();
    store.insert_payment_intent(intent(2, 100, IntentStatus::Succeeded)).unwrap();

    let a = store.find_payment_intent_by_payment_id_merchant_id(100, 1).unwrap();
    assert_eq!(a.merchant_id, 1);
    assert_eq!(a.status, IntentStatus::Processing);

    let b = store.find_payment_intent_by_payment_id_merchant_id(100, 2).unwrap();
    assert_eq!(b.merchant_id, 2);
    assert_eq!(b.status, IntentStatus::Succeeded);

    // A merchant with no such row sees nothing, even though the id exists.
    let r = store.find_payment_intent_by_payment_id_merchant_id(100, 3);
    assert!(matches!(r, Err(StorageError::NotFound)));
}

#[test]
fn attempt_lookup_is_scoped_by_merchant() {
    let mut store = Store::new();
    let row = |m: u64| PaymentAttempt {
        attempt_id: 1,
        payment_id: 100,
        merchant_id: m,
        status: AttemptStatus::Started,
        amount: 100,
        currency: Some(Currency::USD),
        cancellation_reason: None,
        payment_method_billing_address_id: None,
        updated_by: MerchantStorageScheme::PostgresOnly,
    };
    store.insert_payment_attempt(row(1)).unwrap();
    store.insert_payment_attempt(row(2)).unwrap();
    let a = store
        .find_payment_attempt_by_payment_id_merchant_id_attempt_id(100, 1, 1)
        .unwrap();
    assert_eq!(a.merchant_id, 1);
    let r = store.find_payment_attempt_by_payment_id_merchant_id_attempt_id(100, 3, 1);
    assert!(matches!(r, Err(StorageError::NotFound)));
}

#[test]
fn duplicate_intent_insert_is_refused() {
    let mut store = Store::new();
    store.insert_payment_intent(intent(1, 100, IntentStatus::Processing)).unwrap();
    let r = store.insert_payment_intent(intent(1, 100, IntentStatus::Failed));
    assert!(matches!(r, Err(StorageError::UniqueViolation)));
    assert_eq!(store.intents.len(), 1);
}

#[test]
fn update_of_absent_intent_reports_not_found() {
    let mut store = Store::new();
    let update = PaymentIntentUpdate::PGStatusUpdate {
        status: IntentStatus::Cancelled,
        updated_by: MerchantStorageScheme::PostgresOnly,
        incremental_authorization_allowed: None,
    };
    let r = store.update_payment_intent(&intent(1, 100, IntentStatus::Processing), &update);
    assert!(matches!(r, Err(StorageError::NotFound)));
}

#[test]
fn update_applies_to_the_currently_stored_row() {
    let mut store = Store::new();
    store.insert_payment_intent(intent(1, 100, IntentStatus::RequiresCapture)).unwrap();
    let update = PaymentIntentUpdate::PGStatusUpdate {
        status: IntentStatus::Cancelled,
        updated_by: MerchantStorageScheme::RedisKv,
        incremental_authorization_allowed: None,
    };
    // The caller hands in a stale copy; the write applies to the stored row
    // under the same key.
    let updated = store
        .update_payment_intent(&intent(1, 100, IntentStatus::Processing), &update)
        .unwrap();
    assert_eq!(updated.status, IntentStatus::Cancelled);
    assert_eq!(updated.updated_by, MerchantStorageScheme::RedisKv);
    let stored = store.find_payment_intent_by_payment_id_merchant_id(100, 1).unwrap();
    assert_eq!(stored.status, IntentStatus::Cancelled);
}

fn seeded_payout_store() -> Store {
    let mut store = Store::new();
    store
        .insert_payout(Payouts {
            payout_id: 5,
            merchant_id: 1,
            status: PayoutStatus::Pending,
            amount: 1000,
            destination_currency: Currency::USD,
            payout_type: Some(PayoutType::Bank),
            attempt_count: 1,
        })
        .unwrap();
    PayoutAttempt {
        payout_id: 5,
        attempt_count: 1,
        merchant_id: 1,
        status: PayoutStatus::Pending,
        connector: None,
        connector_payout_id: None,
        merchant_order_reference_id: None,
        error_message: None,
    }
    .insert(&mut store)
    .unwrap();
    store
}

fn retrieve_request(payout_id: u64) -> PayoutRequest {
    PayoutRequest::PayoutRetrieveRequest(PayoutRetrieveRequest {
        payout_id,
        force_sync: Some(true),
        merchant_id: Some(1),
    })
}

#[test]
fn make_payout_data_loads_the_payout_and_its_current_attempt() {
    let store = seeded_payout_store();
    let d = make_payout_data(&store, &context(1), &retrieve_request(5)).unwrap();
    assert_eq!(d.payouts.payout_id, 5);
    assert_eq!(d.payout_attempt.attempt_count, 1);
}

#[test]
fn make_payout_data_reports_an_absent_payout() {
    let store = seeded_payout_store();
    let r = make_payout_data(&store, &context(1), &retrieve_request(6));
    assert!(matches!(r, Err(ApiError::PayoutNotFound)));
    // Another merchant cannot see the payout either.
    let r2 = make_payout_data(&store, &context(2), &retrieve_request(5));
    assert!(matches!(r2, Err(ApiError::PayoutNotFound)));
}

#[test]
fn payouts_core_is_a_no_op_when_the_report_matches() {
    let mut store = seeded_payout_store();
    let mut d: PayoutData = make_payout_data(&store, &context(1), &retrieve_request(5)).unwrap();
    payouts_core(&mut store, &context(1), &mut d, Some(PayoutStatus::Pending)).unwrap();
    let payout = store.find_payout_by_merchant_id_payout_id(1, 5).unwrap();
    assert_eq!(payout.status, PayoutStatus::Pending);
}

#[test]
fn payouts_core_persists_a_differing_report_on_both_rows() {
    let mut store = seeded_payout_store();
    let mut d: PayoutData = make_payout_data(&store, &context(1), &retrieve_request(5)).unwrap();
    payouts_core(&mut store, &context(1), &mut d, Some(PayoutStatus::Failed)).unwrap();
    assert_eq!(d.payouts.status, PayoutStatus::Failed);
    assert_eq!(d.payout_attempt.status, PayoutStatus::Failed);
    let payout = store.find_payout_by_merchant_id_payout_id(1, 5).unwrap();
    assert_eq!(payout.status, PayoutStatus::Failed);
    let attempt =
        PayoutAttempt::find_by_merchant_id_payout_attempt_id(&store, 1, 5, 1).unwrap();
    assert_eq!(attempt.status, PayoutStatus::Failed);
}
