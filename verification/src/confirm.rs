use vstd::prelude::*;

use crate::models::{
    ConfirmationLevel, PendingTransaction, PendingV, ResultV, Status, StatusV, TransactionResult,
};

verus! {

/// Fixed polling budget: confirmation queries the status oracle at most this
/// many times for one transfer before giving up with `TimedOut`.
pub const MAX_POLL_ATTEMPTS: u32 = 30;

/// What one status query handed back: the client layer failed, the ledger has
/// no snapshot for the transfer yet, or a snapshot with an optional
/// confirmation level and an optional terminal error from the ledger.
#[derive(Debug, Clone, PartialEq, Eq)]
pub enum PollOutcome {
    QueryFailed,
    Missing,
    Snapshot { level: Option<ConfirmationLevel>, err: Option<String> },
}

/// Mathematical model of a `PollOutcome`.
pub enum PollV {
    QueryFailed,
    Missing,
    Snapshot { level: Option<ConfirmationLevel>, err: Option<Seq<char>> },
}

impl DeepView for PollOutcome {
    type V = PollV;

    open spec fn deep_view(&self) -> PollV {
        match self {
            PollOutcome::QueryFailed => PollV::QueryFailed,
            PollOutcome::Missing => PollV::Missing,
            PollOutcome::Snapshot { level, err } => PollV::Snapshot {
                level: *level,
                err: match err {
                    Some(reason) => Some(reason@),
                    None => None,
                },
            },
        }
    }
}

/// The terminal status that one poll outcome forces, if any: a failed query
/// collapses to `Unknown`, a reported ledger error to `Rejected`, a
/// `Finalized` level to `Finalized`; anything else keeps the machine polling.
pub open spec fn poll_terminal(o: PollV) -> Option<StatusV> {
    match o {
        PollV::QueryFailed => Some(StatusV::Unknown),
        PollV::Missing => None,
        PollV::Snapshot { level, err } => match err {
            Some(reason) => Some(StatusV::Rejected(reason)),
            None => match level {
                Some(ConfirmationLevel::Finalized) => Some(StatusV::Finalized),
                _ => None,
            },
        },
    }
}

/// Terminal status and total attempt count of the polling machine, starting
/// from attempt `i` (counted from zero). Polling stops at the first outcome
/// that forces a terminal status, or with `TimedOut` once the budget is spent.
pub open spec fn confirm_from(polls: Seq<PollV>, i: nat) -> (StatusV, nat)
    decreases MAX_POLL_ATTEMPTS - i,
{
    if i >= MAX_POLL_ATTEMPTS || i >= polls.len() {
        (StatusV::TimedOut, MAX_POLL_ATTEMPTS as nat)
    } else {
        match poll_terminal(polls[i as int]) {
            Some(s) => (s, (i + 1) as nat),
            None => {
                if i + 1 >= MAX_POLL_ATTEMPTS {
                    (StatusV::TimedOut, MAX_POLL_ATTEMPTS as nat)
                } else {
                    confirm_from(polls, (i + 1) as nat)
                }
            },
        }
    }
}

/// The terminal status confirmation reaches when the oracle answers with the
/// given sequence of outcomes, one per query.
pub open spec fn confirm_status(polls: Seq<PollV>) -> StatusV {
    confirm_from(polls, 0).0
}

/// How many queries confirmation makes when the oracle answers with the given
/// sequence of outcomes.
pub open spec fn confirm_attempts(polls: Seq<PollV>) -> nat {
    confirm_from(polls, 0).1
}

/// The result record confirmation produces for a pending transfer once its
/// terminal status is known: identifier, endpoints and amount are carried
/// over unchanged, and the execution time is the submission latency alone.
pub open spec fn result_of(p: PendingV, status: StatusV) -> ResultV {
    ResultV {
        signature: p.signature,
        source: p.source,
        destination: p.destination,
        execution_time_ms: p.send_time_ms,
        status: status,
        amount_lamports: p.amount_lamports,
    }
}

/// The result record confirmation produces for a pending transfer when the
/// oracle answers with the given outcomes.
pub open spec fn confirmation_result(p: PendingV, polls: Seq<PollV>) -> ResultV {
    result_of(p, confirm_status(polls))
}

/// State of one in-flight confirmation: how many queries were already made,
/// and the last milestone level the ledger reported, if any.
#[derive(Debug, Clone, Copy, PartialEq, Eq)]
pub struct ConfirmState {
    pub attempts: u32,
    pub last_level: Option<ConfirmationLevel>,
}

impl ConfirmState {
    /// Fresh confirmation state: no query made, no snapshot seen.
    pub fn start() -> (s: Self)
        ensures
            s.attempts == 0,
            s.last_level is None,
    {
        ConfirmState { attempts: 0, last_level: None }
    }
}

/// What the machine does after one more poll: stop with a terminal status, or
/// keep waiting in the given state.
#[derive(Debug, Clone, PartialEq, Eq)]
pub enum ConfirmStep {
    Done(Status),
    Continue(ConfirmState),
}

/// The milestone level recorded after a non-terminal poll: a reported level
/// replaces the remembered one, anything else keeps it.
pub open spec fn next_level(prev: Option<ConfirmationLevel>, o: PollV) -> Option<ConfirmationLevel> {
    match o {
        PollV::Snapshot { level: Some(l), err: None } => Some(l),
        _ => prev,
    }
}

/// One transition of the confirmation machine, fed the outcome of the poll
/// just made. Stops on a forced terminal status, or with `TimedOut` when this
/// poll was the last the budget allows; otherwise continues with the attempt
/// counted and the milestone level updated.
pub fn confirm_step(state: &ConfirmState, outcome: &PollOutcome) -> (r: ConfirmStep)
    requires
        state.attempts < MAX_POLL_ATTEMPTS,
    ensures
        ({
            let t = poll_terminal(outcome.deep_view());
            &&& (t matches Some(s) ==> (r matches ConfirmStep::Done(d) && d.deep_view() == s))
            &&& (t is None && state.attempts + 1 == MAX_POLL_ATTEMPTS ==> (r matches ConfirmStep::Done(d)
                && d.deep_view() == StatusV::TimedOut))
            &&& (t is None && state.attempts + 1 < MAX_POLL_ATTEMPTS ==> (r matches ConfirmStep::Continue(ns)
                && ns.attempts == state.attempts + 1
                && ns.last_level == next_level(state.last_level, outcome.deep_view())))
        }),
{
    let terminal: Option<Status> = match outcome {
        PollOutcome::QueryFailed => Some(Status::Unknown),
        PollOutcome::Missing => None,
        PollOutcome::Snapshot { level, err } => match err {
            Some(reason) => Some(Status::Rejected(reason.clone())),
            None => match level {
                Some(ConfirmationLevel::Finalized) => Some(Status::Finalized),
                _ => None,
            },
        },
    };
    match terminal {
        Some(s) => ConfirmStep::Done(s),
        None => {
            if state.attempts + 1 >= MAX_POLL_ATTEMPTS {
                ConfirmStep::Done(Status::TimedOut)
            } else {
                let level = match outcome {
                    PollOutcome::Snapshot { level: Some(l), err: None } => Some(*l),
                    _ => state.last_level,
                };
                ConfirmStep::Continue(ConfirmState { attempts: state.attempts + 1, last_level: level })
            }
        },
    }
}

/// Builds the immutable result record for a pending transfer whose terminal
/// status is known. The execution time is the recorded submission latency;
/// nothing about polling enters the record.
pub fn finish_confirmation(pending: PendingTransaction, status: Status) -> (r: TransactionResult)
    ensures
        r.deep_view() == result_of(pending.deep_view(), status.deep_view()),
{
    TransactionResult {
        signature: pending.signature,
        source: pending.source,
        destination: pending.destination,
        execution_time_ms: pending.send_time_ms,
        status: status,
        amount_lamports: pending.amount_lamports,
    }
}

/// Runs the whole confirmation machine for one pending transfer against a
/// recorded sequence of oracle answers, one per query the machine makes.
pub fn run_confirmation(pending: PendingTransaction, polls: &Vec<PollOutcome>) -> (r: TransactionResult)
    requires
        polls@.len() >= MAX_POLL_ATTEMPTS,
    ensures
        r.deep_view() == confirmation_result(pending.deep_view(), polls.deep_view()),
{
    let ghost pv = polls.deep_view();
    proof {
        assert(pv.len() == polls@.len());
    }
    let mut state = ConfirmState::start();
    loop
        invariant
            polls.deep_view() == pv,
            pv.len() >= MAX_POLL_ATTEMPTS,
            state.attempts < MAX_POLL_ATTEMPTS,
            confirm_from(pv, 0) == confirm_from(pv, state.attempts as nat),
        decreases MAX_POLL_ATTEMPTS - state.attempts,
    {
        let i = state.attempts as usize;
        let outcome = &polls[i];
        proof {
            assert(outcome.deep_view() == pv[i as int]);
        }
        match confirm_step(&state, outcome) {
            ConfirmStep::Done(s) => {
                proof {
                    assert(confirm_from(pv, state.attempts as nat).0 == s.deep_view());
                }
                return finish_confirmation(pending, s);
            },
            ConfirmStep::Continue(ns) => {
                proof {
                    assert(confirm_from(pv, state.attempts as nat)
                        == confirm_from(pv, (state.attempts + 1) as nat));
                }
                state = ns;
            },
        }
    }
}

/// Exec companion of `confirm_attempts`: how many queries the machine makes
/// against a recorded sequence of oracle answers.
pub fn count_poll_attempts(polls: &Vec<PollOutcome>) -> (n: u32)
    requires
        polls@.len() >= MAX_POLL_ATTEMPTS,
    ensures
        n as nat == confirm_attempts(polls.deep_view()),
        n <= MAX_POLL_ATTEMPTS,
{
    let ghost pv = polls.deep_view();
    let mut state = ConfirmState::start();
    loop
        invariant
            polls.deep_view() == pv,
            pv.len() >= MAX_POLL_ATTEMPTS,
            state.attempts < MAX_POLL_ATTEMPTS,
            confirm_from(pv, 0) == confirm_from(pv, state.attempts as nat),
        decreases MAX_POLL_ATTEMPTS - state.attempts,
    {
        let i = state.attempts as usize;
        let outcome = &polls[i];
        proof {
            assert(outcome.deep_view() == pv[i as int]);
        }
        match confirm_step(&state, outcome) {
            ConfirmStep::Done(s) => {
                let n = if state.attempts + 1 >= MAX_POLL_ATTEMPTS {
                    MAX_POLL_ATTEMPTS
                } else {
                    state.attempts + 1
                };
                proof {
                    assert(confirm_from(pv, state.attempts as nat).1 == n);
                }
                return n;
            },
            ConfirmStep::Continue(ns) => {
                proof {
                    assert(confirm_from(pv, state.attempts as nat)
                        == confirm_from(pv, (state.attempts + 1) as nat));
                }
                state = ns;
            },
        }
    }
}

/// Attempt counts stay within `(i, MAX_POLL_ATTEMPTS]` from any start.
proof fn lemma_confirm_from_bounds(polls: Seq<PollV>, i: nat)
    requires
        i < MAX_POLL_ATTEMPTS,
    ensures
        i < confirm_from(polls, i).1 <= MAX_POLL_ATTEMPTS,
    decreases MAX_POLL_ATTEMPTS - i,
{
    if i >= polls.len() {
    } else {
        match poll_terminal(polls[i as int]) {
            Some(_) => {},
            None => {
                if i + 1 < MAX_POLL_ATTEMPTS {
                    lemma_confirm_from_bounds(polls, (i + 1) as nat);
                }
            },
        }
    }
}

/// Confirmation never queries the status oracle more than the fixed budget of
/// `MAX_POLL_ATTEMPTS` times, whatever the oracle answers.
pub proof fn lemma_confirmation_within_budget(polls: Seq<PollV>)
    ensures
        1 <= confirm_attempts(polls) <= MAX_POLL_ATTEMPTS,
{
    lemma_confirm_from_bounds(polls, 0);
}

/// From any start, an oracle that never forces a terminal status spends the
/// whole budget and times out.
proof fn lemma_nonterminal_from(polls: Seq<PollV>, i: nat)
    requires
        i < MAX_POLL_ATTEMPTS,
        forall|j: int| 0 <= j < polls.len() ==> poll_terminal(#[trigger] polls[j]) is None,
    ensures
        confirm_from(polls, i) == (StatusV::TimedOut, MAX_POLL_ATTEMPTS as nat),
    decreases MAX_POLL_ATTEMPTS - i,
{
    if i >= polls.len() {
    } else if i + 1 < MAX_POLL_ATTEMPTS {
        lemma_nonterminal_from(polls, (i + 1) as nat);
    }
}

/// A status oracle that never reports a terminal outcome — for example one
/// that answers `Processed` on every query — makes confirmation time out
/// after exactly the full budget of `MAX_POLL_ATTEMPTS` queries: not earlier,
/// not later.
pub proof fn lemma_nonterminal_oracle_times_out(polls: Seq<PollV>)
    requires
        forall|j: int| 0 <= j < polls.len() ==> poll_terminal(#[trigger] polls[j]) is None,
    ensures
        confirm_status(polls) == StatusV::TimedOut,
        confirm_attempts(polls) == MAX_POLL_ATTEMPTS,
{
    lemma_nonterminal_from(polls, 0);
}

/// A transfer's reported execution time is its measured submission latency
/// alone: two confirmations of the same pending transfer report the same
/// execution time however the oracle answers either of them.
pub proof fn lemma_execution_time_polling_independent(
    p: PendingV,
    polls1: Seq<PollV>,
    polls2: Seq<PollV>,
)
    ensures
        confirmation_result(p, polls1).execution_time_ms == p.send_time_ms,
        confirmation_result(p, polls1).execution_time_ms == confirmation_result(
            p,
            polls2,
        ).execution_time_ms,
{
}

} // verus!
