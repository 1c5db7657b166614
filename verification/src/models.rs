use vstd::prelude::*;

verus! {

/// Command-line arguments: where the transfer manifest lives.
pub struct Args {
    pub config: String,
}

/// One value-transfer request: which key signs, where the funds go, and how
/// much. The amount is denominated in the ledger's minor unit (lamports,
/// `10^-9` of the major unit), so that exact integer reasoning applies; the
/// unverified shell converts a major-unit decimal to lamports before calling
/// into the library.
#[derive(Debug, Clone, PartialEq, Eq)]
pub struct Transfer {
    pub sender_keypair_path: String,
    pub receiver_address: String,
    pub amount_lamports: u64,
}

/// The whole manifest: a batch of requests plus the ledger endpoint.
#[derive(Debug, Clone, PartialEq, Eq)]
pub struct Config {
    pub transfers: Vec<Transfer>,
    pub rpc_url: String,
}

/// Confirmation level that the status oracle may report for a transfer the
/// ledger has seen. `Processed` and `Confirmed` are progress milestones;
/// only `Finalized` ends polling.
#[derive(Debug, Clone, Copy, PartialEq, Eq)]
pub enum ConfirmationLevel {
    Processed,
    Confirmed,
    Finalized,
}

/// Outcome of confirming one transfer. `Processed` and `Confirmed` are
/// non-terminal milestones; every other variant is terminal: `Finalized` is
/// the sole success, `Rejected` carries the ledger's error, `TimedOut` means
/// the polling budget ran out, and `Unknown` means the status oracle itself
/// failed.
#[derive(Debug, Clone, PartialEq, Eq)]
pub enum Status {
    Processed,
    Confirmed,
    Finalized,
    Rejected(String),
    TimedOut,
    Unknown,
}

/// A transfer the ledger has accepted for processing but that has not yet
/// reached a terminal confirmation outcome. Created once per successful
/// submission, consumed exactly once by confirmation, never mutated.
#[derive(Debug, Clone, PartialEq, Eq)]
pub struct PendingTransaction {
    pub signature: String,
    pub source: String,
    pub destination: String,
    pub send_time_ms: u64,
    pub amount_lamports: u64,
}

/// The final record for one confirmed-or-failed transfer. `execution_time_ms`
/// is the measured submission latency alone; polling time never enters it.
#[derive(Debug, Clone, PartialEq, Eq)]
pub struct TransactionResult {
    pub signature: String,
    pub source: String,
    pub destination: String,
    pub execution_time_ms: u64,
    pub status: Status,
    pub amount_lamports: u64,
}

/// Mathematical model of a `Transfer`.
pub struct TransferV {
    pub sender_keypair_path: Seq<char>,
    pub receiver_address: Seq<char>,
    pub amount_lamports: u64,
}

/// Mathematical model of a `Status`.
pub enum StatusV {
    Processed,
    Confirmed,
    Finalized,
    Rejected(Seq<char>),
    TimedOut,
    Unknown,
}

/// Mathematical model of a `PendingTransaction`.
pub struct PendingV {
    pub signature: Seq<char>,
    pub source: Seq<char>,
    pub destination: Seq<char>,
    pub send_time_ms: u64,
    pub amount_lamports: u64,
}

/// Mathematical model of a `TransactionResult`.
pub struct ResultV {
    pub signature: Seq<char>,
    pub source: Seq<char>,
    pub destination: Seq<char>,
    pub execution_time_ms: u64,
    pub status: StatusV,
    pub amount_lamports: u64,
}

impl DeepView for Transfer {
    type V = TransferV;

    open spec fn deep_view(&self) -> TransferV {
        TransferV {
            sender_keypair_path: self.sender_keypair_path@,
            receiver_address: self.receiver_address@,
            amount_lamports: self.amount_lamports,
        }
    }
}

impl DeepView for Status {
    type V = StatusV;

    open spec fn deep_view(&self) -> StatusV {
        match self {
            Status::Processed => StatusV::Processed,
            Status::Confirmed => StatusV::Confirmed,
            Status::Finalized => StatusV::Finalized,
            Status::Rejected(reason) => StatusV::Rejected(reason@),
            Status::TimedOut => StatusV::TimedOut,
            Status::Unknown => StatusV::Unknown,
        }
    }
}

impl DeepView for PendingTransaction {
    type V = PendingV;

    open spec fn deep_view(&self) -> PendingV {
        PendingV {
            signature: self.signature@,
            source: self.source@,
            destination: self.destination@,
            send_time_ms: self.send_time_ms,
            amount_lamports: self.amount_lamports,
        }
    }
}

impl DeepView for TransactionResult {
    type V = ResultV;

    open spec fn deep_view(&self) -> ResultV {
        ResultV {
            signature: self.signature@,
            source: self.source@,
            destination: self.destination@,
            execution_time_ms: self.execution_time_ms,
            status: self.status.deep_view(),
            amount_lamports: self.amount_lamports,
        }
    }
}

} // verus!
