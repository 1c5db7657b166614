use sol_batch::confirm::PollOutcome;
use sol_batch::models::{ConfirmationLevel, Status, TransactionResult, Transfer};
use sol_batch::pipeline::{
    aggregate_results, run_batch, successful_count, TransferOutcome, TransferProcessor,
};
use sol_batch::submit::{submission_result, SubmitFailure, SubmitOutcome};

fn transfer(dest: &str, lamports: u64) -> Transfer {
    Transfer {
        sender_keypair_path: String::from("~/wallet.json"),
        receiver_address: String::from(dest),
        amount_lamports: lamports,
    }
}

fn sent(source: &str, sig: &str, ms: u64) -> SubmitOutcome {
    SubmitOutcome::Sent {
        source: String::from(source),
        signature: String::from(sig),
        send_time_ms: ms,
    }
}

fn finalized_polls() -> Vec<PollOutcome> {
    let mut polls =
        vec![PollOutcome::Snapshot { level: Some(ConfirmationLevel::Finalized), err: None }];
    polls.extend(vec![PollOutcome::Missing; 29]);
    polls
}

fn rejected_polls(reason: &str) -> Vec<PollOutcome> {
    let mut polls = vec![PollOutcome::Snapshot {
        level: Some(ConfirmationLevel::Processed),
        err: Some(String::from(reason)),
    }];
    polls.extend(vec![PollOutcome::Missing; 29]);
    polls
}

fn processed_polls() -> Vec<PollOutcome> {
    vec![PollOutcome::Snapshot { level: Some(ConfirmationLevel::Processed), err: None }; 30]
}

#[test]
fn failed_key_resolution_gives_empty_result_list() {
    let transfers = vec![transfer("bob", 10)];
    let outcomes = vec![TransferOutcome {
        submit: SubmitOutcome::Failed(SubmitFailure::KeyResolution),
        polls: Vec::new(),
    }];
    let summary = run_batch(&transfers, &outcomes);
    assert!(summary.results.is_empty());
    assert_eq!(summary.successful_count, 0);
    assert_eq!(summary.total_execution_time_ms, 0);
}

#[test]
fn mixed_batch_keeps_order_and_counts_only_finalized() {
    let transfers = vec![transfer("bob", 10), transfer("carol", 20)];
    let outcomes = vec![
        TransferOutcome { submit: sent("alice", "sig-a", 5), polls: finalized_polls() },
        TransferOutcome { submit: sent("alice", "sig-b", 8), polls: rejected_polls("bad account") },
    ];
    let summary = run_batch(&transfers, &outcomes);
    assert_eq!(summary.results.len(), 2);
    assert_eq!(summary.results[0].status, Status::Finalized);
    assert_eq!(summary.results[0].signature, "sig-a");
    assert_eq!(summary.results[0].destination, "bob");
    assert_eq!(summary.results[1].status, Status::Rejected(String::from("bad account")));
    assert_eq!(summary.results[1].signature, "sig-b");
    assert_eq!(summary.results[1].destination, "carol");
    assert_eq!(summary.successful_count, 1);
    assert_eq!(summary.total_execution_time_ms, 13);
}

#[test]
fn submitted_but_never_finalized_times_out_without_success() {
    let transfers = vec![transfer("bob", 10)];
    let outcomes =
        vec![TransferOutcome { submit: sent("alice", "sig-a", 4), polls: processed_polls() }];
    let summary = run_batch(&transfers, &outcomes);
    assert_eq!(summary.results.len(), 1);
    assert_eq!(summary.results[0].status, Status::TimedOut);
    assert_eq!(summary.successful_count, 0);
    assert_eq!(summary.total_execution_time_ms, 4);
}

#[test]
fn dropped_count_equals_submission_failures() {
    let transfers = vec![transfer("bob", 1), transfer("carol", 2), transfer("dave", 3)];
    let outcomes = vec![
        TransferOutcome { submit: sent("alice", "sig-a", 5), polls: finalized_polls() },
        TransferOutcome {
            submit: SubmitOutcome::Failed(SubmitFailure::AddressParse),
            polls: Vec::new(),
        },
        TransferOutcome { submit: sent("alice", "sig-c", 6), polls: finalized_polls() },
    ];
    let summary = run_batch(&transfers, &outcomes);
    assert_eq!(summary.results.len(), 2);
    assert_eq!(transfers.len() - summary.results.len(), 1);
    assert_eq!(summary.results[0].signature, "sig-a");
    assert_eq!(summary.results[1].signature, "sig-c");
}

#[test]
fn recomputing_successful_count_matches_batch_summary() {
    let transfers = vec![transfer("bob", 1), transfer("carol", 2), transfer("dave", 3)];
    let outcomes = vec![
        TransferOutcome { submit: sent("alice", "sig-a", 5), polls: finalized_polls() },
        TransferOutcome { submit: sent("alice", "sig-b", 6), polls: processed_polls() },
        TransferOutcome { submit: sent("alice", "sig-c", 7), polls: finalized_polls() },
    ];
    let summary = run_batch(&transfers, &outcomes);
    assert_eq!(summary.successful_count, 2);
    assert_eq!(successful_count(&summary.results), summary.successful_count);
    let (total, successful) = aggregate_results(&summary.results);
    assert_eq!(total, summary.total_execution_time_ms);
    assert_eq!(successful, summary.successful_count);
}

#[test]
fn aggregate_results_sums_times_and_counts_finalized() {
    let results = vec![
        TransactionResult {
            signature: String::from("s1"),
            source: String::from("a"),
            destination: String::from("b"),
            execution_time_ms: 100,
            status: Status::Finalized,
            amount_lamports: 1,
        },
        TransactionResult {
            signature: String::from("s2"),
            source: String::from("a"),
            destination: String::from("c"),
            execution_time_ms: 250,
            status: Status::TimedOut,
            amount_lamports: 2,
        },
        TransactionResult {
            signature: String::from("s3"),
            source: String::from("a"),
            destination: String::from("d"),
            execution_time_ms: 50,
            status: Status::Rejected(String::from("err")),
            amount_lamports: 3,
        },
    ];
    let (total, successful) = aggregate_results(&results);
    assert_eq!(total, 400);
    assert_eq!(successful, 1);
    assert_eq!(successful_count(&results), 1);
}

#[test]
fn aggregate_of_empty_list_is_zero() {
    let (total, successful) = aggregate_results(&Vec::new());
    assert_eq!(total, 0);
    assert_eq!(successful, 0);
}

#[test]
fn submission_result_builds_pending_from_accepted_request() {
    let t = transfer("bob", 77);
    let outcome = sent("alice", "sig-x", 9);
    let pending = submission_result(&t, &outcome).expect("accepted submission yields a pending");
    assert_eq!(pending.signature, "sig-x");
    assert_eq!(pending.source, "alice");
    assert_eq!(pending.destination, "bob");
    assert_eq!(pending.send_time_ms, 9);
    assert_eq!(pending.amount_lamports, 77);
}

#[test]
fn submission_result_drops_failed_request() {
    let t = transfer("bob", 77);
    for failure in [
        SubmitFailure::KeyResolution,
        SubmitFailure::AddressParse,
        SubmitFailure::AnchorFetch,
        SubmitFailure::SubmitSend,
    ] {
        let outcome = SubmitOutcome::Failed(failure);
        assert!(submission_result(&t, &outcome).is_none());
    }
}

#[test]
fn processor_keeps_endpoint_and_runs_batches() {
    let processor = TransferProcessor::new("http://localhost:8899");
    assert_eq!(processor.rpc_url, "http://localhost:8899");
    let transfers = vec![transfer("bob", 10)];
    let outcomes =
        vec![TransferOutcome { submit: sent("alice", "sig-a", 5), polls: finalized_polls() }];
    let summary = processor.process_transfers(&transfers, &outcomes);
    assert_eq!(summary.results.len(), 1);
    assert_eq!(summary.successful_count, 1);
}
