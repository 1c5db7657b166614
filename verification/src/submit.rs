use vstd::prelude::*;

use crate::models::{PendingTransaction, PendingV, Transfer, TransferV};

verus! {

/// Why one request was dropped before a pending transfer existed: the
/// signing identity could not be resolved, the destination address did not
/// parse, the anchor fetch failed, or the submit call itself failed.
#[derive(Debug, Clone, Copy, PartialEq, Eq)]
pub enum SubmitFailure {
    KeyResolution,
    AddressParse,
    AnchorFetch,
    SubmitSend,
}

/// What submission achieved for one request: a local failure that drops the
/// request from the batch, or an accepted transfer with its ledger-assigned
/// identifier, the sender's address, and the measured submission latency.
#[derive(Debug, Clone, PartialEq, Eq)]
pub enum SubmitOutcome {
    Failed(SubmitFailure),
    Sent { source: String, signature: String, send_time_ms: u64 },
}

/// Mathematical model of a `SubmitOutcome`.
pub enum SubmitV {
    Failed(SubmitFailure),
    Sent { source: Seq<char>, signature: Seq<char>, send_time_ms: u64 },
}

impl DeepView for SubmitOutcome {
    type V = SubmitV;

    open spec fn deep_view(&self) -> SubmitV {
        match self {
            SubmitOutcome::Failed(f) => SubmitV::Failed(*f),
            SubmitOutcome::Sent { source, signature, send_time_ms } => SubmitV::Sent {
                source: source@,
                signature: signature@,
                send_time_ms: *send_time_ms,
            },
        }
    }
}

/// The pending transfer one request yields: none when submission failed, and
/// otherwise a record carrying the ledger-assigned identifier, the sender and
/// the request's destination and amount, and the measured submission latency.
pub open spec fn pending_of(req: TransferV, s: SubmitV) -> Option<PendingV> {
    match s {
        SubmitV::Failed(_) => None,
        SubmitV::Sent { source, signature, send_time_ms } => Some(
            PendingV {
                signature: signature,
                source: source,
                destination: req.receiver_address,
                send_time_ms: send_time_ms,
                amount_lamports: req.amount_lamports,
            },
        ),
    }
}

/// Builds the pending record for a request the ledger accepted. The record
/// carries the measured submission latency and the exact requested amount.
pub fn build_pending(transfer: &Transfer, source: String, signature: String, send_time_ms: u64) -> (r:
    PendingTransaction)
    ensures
        Some(r.deep_view()) == pending_of(
            transfer.deep_view(),
            (SubmitV::Sent { source: source@, signature: signature@, send_time_ms: send_time_ms }),
        ),
{
    PendingTransaction {
        signature: signature,
        source: source,
        destination: transfer.receiver_address.clone(),
        send_time_ms: send_time_ms,
        amount_lamports: transfer.amount_lamports,
    }
}

/// Turns what submission achieved for one request into at most one pending
/// transfer: a failed request is dropped (never retried at this layer), an
/// accepted one yields exactly one pending record.
pub fn submission_result(transfer: &Transfer, outcome: &SubmitOutcome) -> (r: Option<
    PendingTransaction,
>)
    ensures
        r.deep_view() == pending_of(transfer.deep_view(), outcome.deep_view()),
{
    match outcome {
        SubmitOutcome::Failed(_) => None,
        SubmitOutcome::Sent { source, signature, send_time_ms } => Some(
            build_pending(transfer, source.clone(), signature.clone(), *send_time_ms),
        ),
    }
}

} // verus!
