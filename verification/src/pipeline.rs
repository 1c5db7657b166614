use vstd::prelude::*;

use crate::confirm::{
    confirmation_result, run_confirmation, PollOutcome, PollV, MAX_POLL_ATTEMPTS,
};
use crate::models::{ResultV, Status, TransactionResult, Transfer, TransferV};
use crate::submit::{build_pending, pending_of, SubmitOutcome, SubmitV};

verus! {

/// The recorded interaction of the ledger with one request: what submission
/// achieved, and the oracle's answer to each status query made afterwards.
#[derive(Debug, Clone, PartialEq, Eq)]
pub struct TransferOutcome {
    pub submit: SubmitOutcome,
    pub polls: Vec<PollOutcome>,
}

/// Mathematical model of a `TransferOutcome`.
pub struct OutcomeV {
    pub submit: SubmitV,
    pub polls: Seq<PollV>,
}

impl DeepView for TransferOutcome {
    type V = OutcomeV;

    open spec fn deep_view(&self) -> OutcomeV {
        OutcomeV { submit: self.submit.deep_view(), polls: self.polls.deep_view() }
    }
}

/// An outcome has enough oracle answers recorded to drive one confirmation
/// to its terminal status, whenever the submission was accepted.
pub open spec fn polls_sufficient(o: OutcomeV) -> bool {
    o.submit is Sent ==> o.polls.len() >= MAX_POLL_ATTEMPTS
}

/// Result records of a whole batch: requests paired with their recorded
/// outcomes, dropped requests excluded, the order of the survivors kept.
pub open spec fn batch_results(reqs: Seq<TransferV>, outs: Seq<OutcomeV>) -> Seq<ResultV>
    decreases reqs.len(),
{
    if reqs.len() == 0 || outs.len() == 0 {
        Seq::empty()
    } else {
        let rest = batch_results(reqs.drop_last(), outs.drop_last());
        match pending_of(reqs.last(), outs.last().submit) {
            Some(p) => rest.push(confirmation_result(p, outs.last().polls)),
            None => rest,
        }
    }
}

/// How many requests of a batch failed before a pending transfer existed.
pub open spec fn count_failed(outs: Seq<OutcomeV>) -> nat
    decreases outs.len(),
{
    if outs.len() == 0 {
        0
    } else {
        count_failed(outs.drop_last()) + (if outs.last().submit is Failed {
            1nat
        } else {
            0nat
        })
    }
}

/// How many requests of a batch the ledger accepted for processing.
pub open spec fn count_sent(outs: Seq<OutcomeV>) -> nat
    decreases outs.len(),
{
    if outs.len() == 0 {
        0
    } else {
        count_sent(outs.drop_last()) + (if outs.last().submit is Sent {
            1nat
        } else {
            0nat
        })
    }
}

/// How many results of a batch reached the success terminal state.
pub open spec fn count_finalized(results: Seq<ResultV>) -> nat
    decreases results.len(),
{
    if results.len() == 0 {
        0
    } else {
        count_finalized(results.drop_last()) + (if results.last().status is Finalized {
            1nat
        } else {
            0nat
        })
    }
}

/// Sum of the execution times of a batch's results: submission latencies
/// only, since no result ever records polling time.
pub open spec fn total_execution_ms(results: Seq<ResultV>) -> nat
    decreases results.len(),
{
    if results.len() == 0 {
        0
    } else {
        total_execution_ms(results.drop_last()) + results.last().execution_time_ms as nat
    }
}

/// Everything a batch run hands back: the final result list, the summed
/// execution time, and the count of results that finalized.
#[derive(Debug, Clone, PartialEq, Eq)]
pub struct BatchSummary {
    pub results: Vec<TransactionResult>,
    pub total_execution_time_ms: u128,
    pub successful_count: u64,
}

/// Sums execution times and counts `Finalized` results over a result list.
/// This is the whole aggregation: recomputing either value from the list
/// always gives what a batch run reported.
pub fn aggregate_results(results: &Vec<TransactionResult>) -> (r: (u128, u64))
    ensures
        r.0 as nat == total_execution_ms(results.deep_view()),
        r.1 as nat == count_finalized(results.deep_view()),
{
    let ghost rv = results.deep_view();
    let mut total: u128 = 0;
    let mut successful: u64 = 0;
    let mut i: usize = 0;
    while i < results.len()
        invariant
            i <= results@.len(),
            rv == results.deep_view(),
            rv.len() == results@.len(),
            total as nat == total_execution_ms(rv.take(i as int)),
            successful as nat == count_finalized(rv.take(i as int)),
            total <= (i as u128) * (u64::MAX as u128),
            successful <= i,
        decreases results@.len() - i,
    {
        let r = &results[i];
        proof {
            assert(rv.take((i + 1) as int).drop_last() =~= rv.take(i as int));
            assert(rv.take((i + 1) as int).last() == rv[i as int]);
            assert(rv[i as int] == results@[i as int].deep_view());
            assert((i as u128 + 1) * (u64::MAX as u128) == (i as u128) * (u64::MAX as u128) + (
            u64::MAX as u128)) by (nonlinear_arith);
            assert((i as u128 + 1) * (u64::MAX as u128) < u128::MAX) by (nonlinear_arith)
                requires
                    i as u128 <= u64::MAX as u128,
            ;
        }
        total = total + (r.execution_time_ms as u128);
        match &r.status {
            Status::Finalized => {
                successful = successful + 1;
            },
            _ => {},
        }
        i = i + 1;
    }
    proof {
        assert(rv.take(rv.len() as int) =~= rv);
    }
    (total, successful)
}

/// Recomputes the successful count from a result list alone.
pub fn successful_count(results: &Vec<TransactionResult>) -> (n: u64)
    ensures
        n as nat == count_finalized(results.deep_view()),
{
    let (_, n) = aggregate_results(results);
    n
}

/// Runs the whole batch against recorded ledger behaviour: one submission
/// outcome per request and one oracle answer per status query. Requests
/// whose submission failed are dropped, each surviving pending transfer is
/// confirmed exactly once, and the final list is aggregated. The result list
/// is pinned exactly; it can never be longer than the batch.
pub fn run_batch(transfers: &Vec<Transfer>, outcomes: &Vec<TransferOutcome>) -> (r: BatchSummary)
    requires
        outcomes@.len() == transfers@.len(),
        forall|j: int| 0 <= j < outcomes@.len() ==> polls_sufficient(#[trigger] outcomes@[j].deep_view()),
    ensures
        r.results.deep_view() == batch_results(transfers.deep_view(), outcomes.deep_view()),
        r.total_execution_time_ms as nat == total_execution_ms(r.results.deep_view()),
        r.successful_count as nat == count_finalized(r.results.deep_view()),
        r.results@.len() <= transfers@.len(),
{
    let ghost tv = transfers.deep_view();
    let ghost ov = outcomes.deep_view();
    let mut results: Vec<TransactionResult> = Vec::new();
    let mut i: usize = 0;
    while i < transfers.len()
        invariant
            i <= transfers@.len(),
            outcomes@.len() == transfers@.len(),
            tv == transfers.deep_view(),
            ov == outcomes.deep_view(),
            tv.len() == transfers@.len(),
            ov.len() == outcomes@.len(),
            forall|j: int| 0 <= j < ov.len() ==> polls_sufficient(#[trigger] ov[j]),
            results.deep_view() == batch_results(tv.take(i as int), ov.take(i as int)),
            results@.len() <= i,
        decreases transfers@.len() - i,
    {
        let t = &transfers[i];
        let oc = &outcomes[i];
        proof {
            assert(oc.deep_view() == ov[i as int]);
            assert(t.deep_view() == tv[i as int]);
            assert(tv.take((i + 1) as int).drop_last() =~= tv.take(i as int));
            assert(ov.take((i + 1) as int).drop_last() =~= ov.take(i as int));
            assert(tv.take((i + 1) as int).last() == tv[i as int]);
            assert(ov.take((i + 1) as int).last() == ov[i as int]);
        }
        match &oc.submit {
            SubmitOutcome::Failed(_) => {},
            SubmitOutcome::Sent { source, signature, send_time_ms } => {
                let pending = build_pending(t, source.clone(), signature.clone(), *send_time_ms);
                let result = run_confirmation(pending, &oc.polls);
                results.push(result);
            },
        }
        i = i + 1;
    }
    proof {
        assert(tv.take(tv.len() as int) =~= tv);
        assert(ov.take(ov.len() as int) =~= ov);
    }
    let (total, successful) = aggregate_results(&results);
    BatchSummary { results: results, total_execution_time_ms: total, successful_count: successful }
}

/// Pipeline driver: remembers which ledger endpoint a run targets.
#[derive(Debug, Clone, PartialEq, Eq)]
pub struct TransferProcessor {
    pub rpc_url: String,
}

impl TransferProcessor {
    /// A processor aimed at the given ledger endpoint.
    pub fn new(rpc_url: &str) -> (p: Self)
        ensures
            p.rpc_url@ == rpc_url@,
    {
        TransferProcessor { rpc_url: rpc_url.to_owned() }
    }

    /// Runs a batch of transfers against recorded ledger behaviour; see
    /// `run_batch` for the exact contract.
    pub fn process_transfers(
        &self,
        transfers: &Vec<Transfer>,
        outcomes: &Vec<TransferOutcome>,
    ) -> (r: BatchSummary)
        requires
            outcomes@.len() == transfers@.len(),
            forall|j: int| 0 <= j < outcomes@.len() ==> polls_sufficient(
                #[trigger] outcomes@[j].deep_view(),
            ),
        ensures
            r.results.deep_view() == batch_results(transfers.deep_view(), outcomes.deep_view()),
            r.total_execution_time_ms as nat == total_execution_ms(r.results.deep_view()),
            r.successful_count as nat == count_finalized(r.results.deep_view()),
            r.results@.len() <= transfers@.len(),
    {
        run_batch(transfers, outcomes)
    }
}

/// A batch yields at most one result per request: exactly one for every
/// request the ledger accepted, none for a dropped request. The dropped
/// count — batch size less result count — is exactly the number of requests
/// whose submission failed (key resolution, address parsing, anchor fetch or
/// submit).
pub proof fn lemma_batch_conservation(reqs: Seq<TransferV>, outs: Seq<OutcomeV>)
    requires
        outs.len() == reqs.len(),
    ensures
        batch_results(reqs, outs).len() == count_sent(outs),
        count_sent(outs) + count_failed(outs) == outs.len(),
        batch_results(reqs, outs).len() <= reqs.len(),
        reqs.len() - batch_results(reqs, outs).len() == count_failed(outs),
    decreases reqs.len(),
{
    if reqs.len() == 0 {
    } else {
        lemma_batch_conservation(reqs.drop_last(), outs.drop_last());
    }
}

/// The successful count is exactly the number of results whose terminal
/// status is `Finalized`: counting them one way or the other always agrees.
pub proof fn lemma_success_count_is_finalized_count(results: Seq<ResultV>)
    ensures
        count_finalized(results) == results.filter(|r: ResultV| r.status is Finalized).len(),
    decreases results.len(),
{
    reveal(Seq::filter);
    if results.len() == 0 {
    } else {
        lemma_success_count_is_finalized_count(results.drop_last());
    }
}

} // verus!
