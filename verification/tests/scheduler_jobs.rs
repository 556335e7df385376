use payment_flows::enums::{Currency, MerchantStorageScheme, PayoutStatus, PayoutType};
use payment_flows::errors::WorkflowError;
use payment_flows::records::{
    BusinessStatus, JobKind, MerchantAccount, PayoutAttempt, PayoutRetrieveRequest, Payouts,
    ProcessStatus, ProcessTracker, TrackingPayload,
};
use payment_flows::scheduler::{
    consumer_run_process, retry_budget, retry_delay, AttachPayoutAccountWorkflow, ConsumerOutcome,
};
use payment_flows::store::Store;

const MERCHANT: u64 = 1;
const PAYOUT: u64 = 5;
const JOB: u64 = 900;

fn job(merchant_id: Option<u64>) -> ProcessTracker {
    ProcessTracker {
        id: JOB,
        name: JobKind::AttachPayoutAccount,
        tracking_data: TrackingPayload::PayoutRetrieve(PayoutRetrieveRequest {
            payout_id: PAYOUT,
            force_sync: Some(true),
            merchant_id,
        }),
        schedule_time: 0,
        retry_count: 0,
        status: ProcessStatus::New,
        business_status: BusinessStatus::Pending,
    }
}

fn store_with_job(with_merchant: bool, with_payout: bool) -> Store {
    let mut store = Store::new();
    if with_merchant {
        store
            .insert_merchant_account(MerchantAccount {
                merchant_id: MERCHANT,
                storage_scheme: MerchantStorageScheme::PostgresOnly,
            })
            .unwrap();
    }
    if with_payout {
        store
            .insert_payout(Payouts {
                payout_id: PAYOUT,
                merchant_id: MERCHANT,
                status: PayoutStatus::Pending,
                amount: 1000,
                destination_currency: Currency::USD,
                payout_type: Some(PayoutType::Bank),
                attempt_count: 1,
            })
            .unwrap();
        PayoutAttempt {
            payout_id: PAYOUT,
            attempt_count: 1,
            merchant_id: MERCHANT,
            status: PayoutStatus::Pending,
            connector: Some("adyen".to_string()),
            connector_payout_id: None,
            merchant_order_reference_id: None,
            error_message: None,
        }
        .insert(&mut store)
        .unwrap();
    }
    store.insert_process_tracker(job(Some(MERCHANT))).unwrap();
    store
}

#[test]
fn successful_run_marks_the_job_finished_and_syncs_the_payout() {
    let mut store = store_with_job(true, true);
    let r = consumer_run_process(&mut store, JOB, 10, Some(PayoutStatus::Success));
    assert_eq!(r, ConsumerOutcome::Completed);

    let process = store.find_process_by_id(JOB).unwrap();
    assert_eq!(process.status, ProcessStatus::Finish);
    assert_eq!(process.business_status, BusinessStatus::Completed);

    // The reported status was persisted on the payout and its current attempt.
    let payout = store.find_payout_by_merchant_id_payout_id(MERCHANT, PAYOUT).unwrap();
    assert_eq!(payout.status, PayoutStatus::Success);
    let attempt =
        PayoutAttempt::find_by_merchant_id_payout_attempt_id(&store, MERCHANT, PAYOUT, 1).unwrap();
    assert_eq!(attempt.status, PayoutStatus::Success);
    // Columns the report did not carry were kept.
    assert_eq!(attempt.connector, Some("adyen".to_string()));
}

#[test]
fn run_without_report_changes_nothing_but_finishes_the_job() {
    let mut store = store_with_job(true, true);
    let r = consumer_run_process(&mut store, JOB, 10, None);
    assert_eq!(r, ConsumerOutcome::Completed);
    let payout = store.find_payout_by_merchant_id_payout_id(MERCHANT, PAYOUT).unwrap();
    assert_eq!(payout.status, PayoutStatus::Pending);
}

#[test]
fn failing_job_is_requeued_with_backoff_until_the_budget_is_exhausted() {
    // The merchant account is missing, so every run fails with a non-fatal
    // error. Budget is three retries; the fourth failure is terminal.
    let mut store = store_with_job(false, false);
    let budget = retry_budget(JobKind::AttachPayoutAccount);
    assert_eq!(budget, 3);

    let mut now: i64 = 1_000;
    for k in 0..budget {
        let r = consumer_run_process(&mut store, JOB, now, None);
        assert_eq!(r, ConsumerOutcome::Errored);
        let process = store.find_process_by_id(JOB).unwrap();
        // Requeued: count advanced, backoff applied, not terminal.
        assert_eq!(process.status, ProcessStatus::Pending);
        assert_eq!(process.retry_count, k + 1);
        assert_eq!(
            process.schedule_time,
            now + retry_delay(JobKind::AttachPayoutAccount, k)
        );
        now = process.schedule_time;
    }

    // The failure after the budget marks the job permanently failed.
    let r = consumer_run_process(&mut store, JOB, now, None);
    assert_eq!(r, ConsumerOutcome::Errored);
    let process = store.find_process_by_id(JOB).unwrap();
    assert_eq!(process.status, ProcessStatus::Finish);
    assert_eq!(process.business_status, BusinessStatus::GlobalFailure);
    assert_eq!(process.retry_count, budget);

    // Never requeued again: the consumer skips the terminal job and the row
    // does not move.
    let r = consumer_run_process(&mut store, JOB, now + 10_000, None);
    assert_eq!(r, ConsumerOutcome::Skipped);
    let after = store.find_process_by_id(JOB).unwrap();
    assert_eq!(after.status, ProcessStatus::Finish);
    assert_eq!(after.business_status, BusinessStatus::GlobalFailure);
    assert_eq!(after.retry_count, budget);
}

#[test]
fn backoff_schedule_doubles_then_holds() {
    assert_eq!(retry_delay(JobKind::AttachPayoutAccount, 0), 60);
    assert_eq!(retry_delay(JobKind::AttachPayoutAccount, 1), 120);
    assert_eq!(retry_delay(JobKind::AttachPayoutAccount, 2), 240);
}

#[test]
fn job_is_not_picked_before_its_schedule_time() {
    let mut store = store_with_job(true, true);
    // The job is scheduled at 0; running "before" it, at a negative now,
    // must skip it.
    let r = consumer_run_process(&mut store, JOB, -1, None);
    assert_eq!(r, ConsumerOutcome::Skipped);
    let process = store.find_process_by_id(JOB).unwrap();
    assert_eq!(process.status, ProcessStatus::New);
}

#[test]
fn missing_merchant_id_in_payload_fails_the_run() {
    let mut store = Store::new();
    store.insert_process_tracker(job(None)).unwrap();
    let workflow = AttachPayoutAccountWorkflow;
    let process = store.find_process_by_id(JOB).unwrap();
    let r = workflow.execute_workflow(&mut store, &process, None);
    assert!(matches!(r, Err(WorkflowError::MissingMerchantId)));
}

#[test]
fn missing_payout_fails_the_run() {
    let mut store = store_with_job(true, false);
    let workflow = AttachPayoutAccountWorkflow;
    let process = store.find_process_by_id(JOB).unwrap();
    let r = workflow.execute_workflow(&mut store, &process, None);
    assert!(matches!(r, Err(WorkflowError::Api(_))));
}

#[test]
fn fatal_error_is_never_retried() {
    let mut store = store_with_job(true, true);
    let workflow = AttachPayoutAccountWorkflow;
    let process = store.find_process_by_id(JOB).unwrap();
    // A payload that does not decode is fatal: the handler must mark the job
    // errored at once, with no retry left behind.
    let r = workflow.error_handler(&mut store, &process, &WorkflowError::DeserializationFailed, 50);
    assert!(r.is_ok());
    let after = store.find_process_by_id(JOB).unwrap();
    assert_eq!(after.status, ProcessStatus::Finish);
    assert_eq!(after.business_status, BusinessStatus::GlobalFailure);
    assert_eq!(after.retry_count, 0);
}

#[test]
fn decode_is_exhaustive_over_the_tagged_union() {
    let p = job(Some(MERCHANT));
    let req = AttachPayoutAccountWorkflow::decode_tracking_data(&p).unwrap();
    assert_eq!(req.payout_id, PAYOUT);
    assert_eq!(req.merchant_id, Some(MERCHANT));
    assert_eq!(req.force_sync, Some(true));
}
