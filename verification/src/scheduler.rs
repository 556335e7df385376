//! Scheduler integration: background jobs that re-enter a flow's pipeline.
//!
//! A workflow is a stateless handler bound to a job kind. On invocation it
//! decodes the job's tracking payload into the flow's request, resolves the
//! merchant context from the merchant id the payload carries, and runs the
//! same fetch/core stages a synchronous request would. On success the
//! consumer marks the job `Finish`ed; on failure the generic error handler
//! applies the job kind's retry policy — a bounded retry count with a
//! backoff schedule — requeueing the job until the budget is exhausted and
//! then marking it permanently failed, never to be requeued again. A
//! payload that does not decode is fatal: the job is marked errored at once,
//! without retries.

use vstd::prelude::*;

use crate::enums::PayoutStatus;
use crate::errors::{is_fatal_workflow_error, ApiError, WorkflowError};
use crate::payouts_flow::{
    make_payout_data, payouts_core, retrieve_status_update, PayoutRequest,
};
use crate::records::{
    is_terminal, BusinessStatus, JobKind, MerchantContext, PayoutRetrieveRequest, Payouts,
    ProcessStatus, ProcessTracker, TrackingPayload,
};
use crate::store::{same_except, unchanged, Store, TableId};
use crate::updates::{apply_payout_attempt_update, payout_attempt_update_internal};

verus! {

/// How many retries a job kind is granted after its first failure.
pub open spec fn spec_retry_budget(kind: JobKind) -> u32 {
    match kind {
        JobKind::AttachPayoutAccount => 3,
    }
}

/// Executable form of [`spec_retry_budget`].
pub fn retry_budget(kind: JobKind) -> (r: u32)
    ensures
        r == spec_retry_budget(kind),
{
    match kind {
        JobKind::AttachPayoutAccount => 3,
    }
}

/// The backoff, in seconds, applied after a failure at the given retry
/// count: the schedule doubles and then holds.
pub open spec fn spec_retry_delay(kind: JobKind, retry_count: u32) -> i64 {
    if retry_count == 0 {
        60
    } else if retry_count == 1 {
        120
    } else {
        240
    }
}

/// Executable form of [`spec_retry_delay`].
pub fn retry_delay(kind: JobKind, retry_count: u32) -> (r: i64)
    ensures
        r == spec_retry_delay(kind, retry_count),
{
    if retry_count == 0 {
        60
    } else if retry_count == 1 {
        120
    } else {
        240
    }
}

/// The job record after the generic error handler processed one failure at
/// time `now`: a terminal job is left alone; a fatal error or an exhausted
/// budget finishes the job as permanently failed; otherwise the job is
/// requeued with its retry count advanced and the backoff applied.
pub open spec fn error_transition(p: ProcessTracker, e: WorkflowError, now: i64) -> ProcessTracker {
    if is_terminal(p) {
        p
    } else if is_fatal_workflow_error(e) || p.retry_count >= spec_retry_budget(p.name) {
        ProcessTracker {
            status: ProcessStatus::Finish,
            business_status: BusinessStatus::GlobalFailure,
            ..p
        }
    } else {
        ProcessTracker {
            retry_count: (p.retry_count + 1) as u32,
            schedule_time: (now + spec_retry_delay(p.name, p.retry_count)) as i64,
            status: ProcessStatus::Pending,
            ..p
        }
    }
}

/// A terminal job is a fixed point of the error handler: once finished —
/// successfully or permanently failed — it is never requeued again.
pub proof fn lemma_terminal_never_requeued(p: ProcessTracker, e: WorkflowError, now: i64)
    requires
        is_terminal(p),
    ensures
        error_transition(p, e, now) == p,
{
}

/// The job record after `j` consecutive failures, the `k`-th of them at
/// time `times[k - 1]`.
pub open spec fn after_failures(
    p0: ProcessTracker,
    e: WorkflowError,
    times: Seq<i64>,
    j: int,
) -> ProcessTracker
    decreases j,
{
    if j <= 0 {
        p0
    } else {
        error_transition(after_failures(p0, e, times, j - 1), e, times[j - 1])
    }
}

/// The retry budget, exactly: a job failing on every attempt with a
/// non-fatal error is requeued after each of its first `budget` failures —
/// its retry count advancing by one and its schedule time set to the
/// failure time plus the backoff for that count — and the failure after
/// that marks it permanently failed, a state the handler never leaves.
pub proof fn lemma_retry_budget_exhaustion(
    p0: ProcessTracker,
    e: WorkflowError,
    times: Seq<i64>,
    j: int,
)
    requires
        !is_terminal(p0),
        p0.retry_count == 0,
        !is_fatal_workflow_error(e),
        times.len() >= spec_retry_budget(p0.name) + 1,
        0 <= j <= spec_retry_budget(p0.name) + 1,
    ensures
        j <= spec_retry_budget(p0.name) ==> {
            let pj = after_failures(p0, e, times, j);
            &&& !is_terminal(pj)
            &&& pj.retry_count == j
            &&& pj.name == p0.name
            &&& pj.id == p0.id
            &&& (j > 0 ==> pj.status == ProcessStatus::Pending && pj.schedule_time == (times[j - 1]
                + spec_retry_delay(p0.name, (j - 1) as u32)) as i64)
        },
        j == spec_retry_budget(p0.name) + 1 ==> {
            let pj = after_failures(p0, e, times, j);
            &&& is_terminal(pj)
            &&& pj.status == ProcessStatus::Finish
            &&& pj.business_status == BusinessStatus::GlobalFailure
            &&& pj.retry_count == spec_retry_budget(p0.name)
            &&& pj.id == p0.id
            &&& forall|e2: WorkflowError, t2: i64| #[trigger] error_transition(pj, e2, t2) == pj
        },
    decreases j,
{
    if j > 0 {
        lemma_retry_budget_exhaustion(p0, e, times, j - 1);
    }
}

/// The fatal class, exactly: a job whose failure is fatal is marked
/// permanently failed by its first failure, whatever retry budget it had
/// left.
pub proof fn lemma_fatal_error_never_retried(p: ProcessTracker, e: WorkflowError, now: i64)
    requires
        !is_terminal(p),
        is_fatal_workflow_error(e),
    ensures
        is_terminal(error_transition(p, e, now)),
        error_transition(p, e, now).business_status == BusinessStatus::GlobalFailure,
        error_transition(p, e, now).retry_count == p.retry_count,
{
}

/// What running the payout-retrieve workflow on this job returns, from the
/// stored state alone: the payload decodes by construction, the merchant id
/// must be present and resolvable, and the payout and its current attempt
/// must exist under that merchant.
pub open spec fn workflow_outcome(store: Store, p: ProcessTracker) -> Result<(), WorkflowError> {
    match p.tracking_data {
        TrackingPayload::PayoutRetrieve(req) => match req.merchant_id {
            None => Err(WorkflowError::MissingMerchantId),
            Some(m) => match store.merchant_for(m) {
                None => Err(WorkflowError::MerchantAccountNotFound),
                Some(_) => match store.payout_for(m, req.payout_id) {
                    None => Err(WorkflowError::Api(ApiError::PayoutNotFound)),
                    Some(payout) => match store.payout_attempt_for(
                        m,
                        req.payout_id,
                        payout.attempt_count as u64,
                    ) {
                        None => Err(WorkflowError::Api(ApiError::PayoutNotFound)),
                        Some(_) => Ok(()),
                    },
                },
            },
        },
    }
}

/// The background workflow bound to [`JobKind::AttachPayoutAccount`]: it
/// reconstructs the payout-retrieve request a synchronous caller would have
/// sent and re-enters that flow's pipeline.
pub struct AttachPayoutAccountWorkflow;

impl AttachPayoutAccountWorkflow {
    /// Decodes the job's tracking payload into this workflow's request by
    /// an exhaustive match on the tagged union. Every payload tagged for
    /// this job kind decodes; an undecodable payload would be fatal.
    pub fn decode_tracking_data(process: &ProcessTracker) -> (r: Result<
        PayoutRetrieveRequest,
        WorkflowError,
    >)
        ensures
            match process.tracking_data {
                TrackingPayload::PayoutRetrieve(req) => r == Ok::<
                    PayoutRetrieveRequest,
                    WorkflowError,
                >(req),
            },
    {
        match &process.tracking_data {
            TrackingPayload::PayoutRetrieve(req) => Ok(*req),
        }
    }

    /// Runs the workflow once: decode the payload, resolve the merchant
    /// context from the merchant id it carries, rebuild the payout-retrieve
    /// request, and run the flow's fetch and core stages exactly as a
    /// synchronous request would. `reported_status` is what the connector
    /// answered for this payout, if the run asked it.
    pub fn execute_workflow(
        &self,
        store: &mut Store,
        process: &ProcessTracker,
        reported_status: Option<PayoutStatus>,
    ) -> (r: Result<(), WorkflowError>)
        requires
            old(store).wf(),
        ensures
            final(store).wf(),
            r == workflow_outcome(*old(store), *process),
            final(store).intents@ == old(store).intents@,
            final(store).attempts@ == old(store).attempts@,
            final(store).addresses@ == old(store).addresses@,
            final(store).profiles@ == old(store).profiles@,
            final(store).merchants@ == old(store).merchants@,
            final(store).configs@ == old(store).configs@,
            final(store).tokens@ == old(store).tokens@,
            final(store).processes@ == old(store).processes@,
            ({
                match process.tracking_data {
                    TrackingPayload::PayoutRetrieve(req) => {
                        if r is Err {
                            unchanged(*old(store), *final(store))
                        } else {
                            let m = req.merchant_id->0;
                            let payout = old(store).payout_for(m, req.payout_id)->0;
                            let attempt = old(store).payout_attempt_for(
                                m,
                                req.payout_id,
                                payout.attempt_count as u64,
                            )->0;
                            match reported_status {
                                None => unchanged(*old(store), *final(store)),
                                Some(status) => if status == payout.status {
                                    unchanged(*old(store), *final(store))
                                } else {
                                    &&& final(store).payout_for(m, req.payout_id) == Some(
                                        Payouts { status, ..payout },
                                    )
                                    &&& (forall|k2: (u64, u64, u64)|
                                        k2 != (m, req.payout_id, 0u64) ==> #[trigger] crate::keyed::lookup(
                                            final(store).payouts@,
                                            k2,
                                        ) == crate::keyed::lookup(old(store).payouts@, k2))
                                    &&& final(store).payout_attempt_for(
                                        m,
                                        req.payout_id,
                                        payout.attempt_count as u64,
                                    ) == Some(
                                        apply_payout_attempt_update(
                                            attempt,
                                            payout_attempt_update_internal(
                                                retrieve_status_update(status),
                                            ),
                                        ),
                                    )
                                    &&& (forall|k2: (u64, u64, u64)|
                                        k2 != (m, req.payout_id, payout.attempt_count as u64)
                                            ==> #[trigger] crate::keyed::lookup(
                                            final(store).payout_attempts@,
                                            k2,
                                        ) == crate::keyed::lookup(old(store).payout_attempts@, k2))
                                },
                            }
                        }
                    },
                }
            }),
    {
        let tracking_data = match Self::decode_tracking_data(process) {
            Ok(t) => t,
            Err(e) => {
                return Err(e);
            },
        };

        let merchant_id = match tracking_data.merchant_id {
            Some(m) => m,
            None => {
                return Err(WorkflowError::MissingMerchantId);
            },
        };

        let merchant_account = match store.find_merchant_account_by_merchant_id(merchant_id) {
            Ok(a) => a,
            Err(_) => {
                return Err(WorkflowError::MerchantAccountNotFound);
            },
        };
        let merchant_context = MerchantContext { merchant_account };

        let request = PayoutRequest::PayoutRetrieveRequest(tracking_data);

        let mut payout_data = match make_payout_data(store, &merchant_context, &request) {
            Ok(d) => d,
            Err(e) => {
                return Err(WorkflowError::Api(e));
            },
        };

        match payouts_core(store, &merchant_context, &mut payout_data, reported_status) {
            Ok(()) => Ok(()),
            Err(e) => Err(WorkflowError::Api(e)),
        }
    }

    /// The generic error handler: applies the job kind's retry policy to the
    /// failed job and persists the outcome. A terminal job is left alone.
    pub fn error_handler(
        &self,
        store: &mut Store,
        process: &ProcessTracker,
        error: &WorkflowError,
        now: i64,
    ) -> (r: Result<(), crate::errors::StorageError>)
        requires
            old(store).wf(),
            now + 240 <= i64::MAX,
        ensures
            final(store).wf(),
            same_except(*old(store), *final(store), TableId::Processes),
            is_terminal(*process) ==> r is Ok && final(store).processes@ == old(store).processes@,
            !is_terminal(*process) ==> match old(store).process_for(process.id) {
                None => r matches Err(crate::errors::StorageError::NotFound) && final(store).processes@ == old(store).processes@,
                Some(_) => r is Ok && final(store).process_for(process.id) == Some(
                    error_transition(*process, *error, now),
                ) && (forall|k2: (u64, u64, u64)|
                    k2 != (process.id, 0u64, 0u64) ==> #[trigger] crate::keyed::lookup(
                        final(store).processes@,
                        k2,
                    ) == crate::keyed::lookup(old(store).processes@, k2)),
            },
    {
        if process.status == ProcessStatus::Finish {
            return Ok(());
        }
        let budget = retry_budget(process.name);
        let updated = if error.is_fatal() || process.retry_count >= budget {
            ProcessTracker {
                status: ProcessStatus::Finish,
                business_status: BusinessStatus::GlobalFailure,
                ..*process
            }
        } else {
            let delay = retry_delay(process.name, process.retry_count);
            ProcessTracker {
                retry_count: process.retry_count + 1,
                schedule_time: now + delay,
                status: ProcessStatus::Pending,
                ..*process
            }
        };
        match store.update_process_tracker(&updated) {
            Ok(_) => Ok(()),
            Err(e) => Err(e),
        }
    }
}

/// What one consumer pass did with a job.
#[derive(Clone, Copy, Debug, PartialEq, Eq, Structural)]
pub enum ConsumerOutcome {
    /// The job is absent, already terminal, or not due yet.
    Skipped,
    /// The workflow ran and succeeded; the job is finished.
    Completed,
    /// The workflow failed; the retry policy was applied.
    Errored,
}

/// One consumer pass over one job: picks the job if it is due and not
/// terminal, runs its workflow, marks it `Finish`ed with `Completed` on
/// success, and hands a failure to the generic error handler. A terminal
/// job is never picked up, so a finished job — completed or permanently
/// failed — is never requeued.
pub fn consumer_run_process(
    store: &mut Store,
    process_id: u64,
    now: i64,
    reported_status: Option<PayoutStatus>,
) -> (r: ConsumerOutcome)
    requires
        old(store).wf(),
        now + 240 <= i64::MAX,
    ensures
        final(store).wf(),
        final(store).intents@ == old(store).intents@,
        final(store).attempts@ == old(store).attempts@,
        final(store).addresses@ == old(store).addresses@,
        final(store).profiles@ == old(store).profiles@,
        final(store).merchants@ == old(store).merchants@,
        final(store).configs@ == old(store).configs@,
        final(store).tokens@ == old(store).tokens@,
        ({
            match old(store).process_for(process_id) {
                None => r == ConsumerOutcome::Skipped && unchanged(*old(store), *final(store)),
                Some(p) => if is_terminal(p) || p.schedule_time > now {
                    r == ConsumerOutcome::Skipped && unchanged(*old(store), *final(store))
                } else if workflow_outcome(*old(store), p) is Ok {
                    &&& r == ConsumerOutcome::Completed
                    &&& final(store).process_for(process_id) == Some(
                        ProcessTracker {
                            status: ProcessStatus::Finish,
                            business_status: BusinessStatus::Completed,
                            ..p
                        },
                    )
                    &&& (forall|k2: (u64, u64, u64)|
                        k2 != (process_id, 0u64, 0u64) ==> #[trigger] crate::keyed::lookup(
                            final(store).processes@,
                            k2,
                        ) == crate::keyed::lookup(old(store).processes@, k2))
                } else {
                    &&& r == ConsumerOutcome::Errored
                    &&& final(store).process_for(process_id) == Some(
                        error_transition(p, workflow_outcome(*old(store), p)->Err_0, now),
                    )
                    &&& (forall|k2: (u64, u64, u64)|
                        k2 != (process_id, 0u64, 0u64) ==> #[trigger] crate::keyed::lookup(
                            final(store).processes@,
                            k2,
                        ) == crate::keyed::lookup(old(store).processes@, k2))
                },
            }
        }),
{
    let process = match store.find_process_by_id(process_id) {
        Some(p) => p,
        None => {
            return ConsumerOutcome::Skipped;
        },
    };
    if process.status == ProcessStatus::Finish || process.schedule_time > now {
        return ConsumerOutcome::Skipped;
    }

    let workflow = AttachPayoutAccountWorkflow;
    match workflow.execute_workflow(store, &process, reported_status) {
        Ok(()) => {
            let finished = ProcessTracker {
                status: ProcessStatus::Finish,
                business_status: BusinessStatus::Completed,
                ..process
            };
            match store.update_process_tracker(&finished) {
                Ok(_) => ConsumerOutcome::Completed,
                Err(_) => ConsumerOutcome::Completed,
            }
        },
        Err(e) => {
            let handler_result = workflow.error_handler(store, &process, &e, now);
            match handler_result {
                Ok(()) => ConsumerOutcome::Errored,
                Err(_) => ConsumerOutcome::Errored,
            }
        },
    }
}

} // verus!
