use upload_ingress::capability::Capability;
use upload_ingress::outcome::UploadOutcome;
use upload_ingress::pipeline::{
    authorize, check_quota, handle_upload, DirectoryLookup, TransferScript, WriterAcquire,
};
use upload_ingress::session::{ChunkEvent, WriteResult};

fn valid_cap() -> Capability {
    Capability::new(7, 1_000, None)
}

fn expired_cap() -> Capability {
    Capability::new(7, 100, None)
}

const NOW: u64 = 500;

fn script(chunks: Vec<ChunkEvent>, finalize_messages: Vec<String>) -> TransferScript {
    TransferScript { chunks, finalize_messages }
}

fn delivered(len: u64) -> ChunkEvent {
    ChunkEvent::Delivered { len, write: WriteResult::Persisted }
}

#[test]
fn clean_transfer_reports_all_bytes_and_no_messages() {
    let cap = valid_cap();
    let chunks = vec![delivered(300), delivered(200)];
    let (outcome, trace) = handle_upload(
        &cap,
        NOW,
        Some(500),
        &DirectoryLookup::Found { remaining_bytes: 1000 },
        &WriterAcquire::Acquired,
        script(chunks, vec![]),
    );
    match outcome {
        UploadOutcome::Completed { report } => {
            assert_eq!(report.bytes_written, 500);
            assert!(report.messages.is_empty());
        }
        _ => panic!("expected a completion"),
    }
    assert!(trace.directory_looked_up);
    assert!(trace.writer_created);
}

#[test]
fn expired_capability_rejected_before_any_lookup() {
    let cap = expired_cap();
    let (outcome, trace) = handle_upload(
        &cap,
        NOW,
        Some(10),
        &DirectoryLookup::Found { remaining_bytes: 1000 },
        &WriterAcquire::Acquired,
        script(vec![delivered(10)], vec![]),
    );
    assert_eq!(outcome.status_class(), 401);
    match outcome {
        UploadOutcome::Unauthorized { message } => assert_eq!(message, "link expired\n"),
        _ => panic!("expected an unauthorized rejection"),
    }
    assert!(!trace.directory_looked_up);
    assert!(!trace.writer_created);
}

#[test]
fn expired_and_malformed_still_reports_expired() {
    let cap = Capability::new(7, 100, Some(String::from("name pattern")));
    let (outcome, trace) = handle_upload(
        &cap,
        NOW,
        None,
        &DirectoryLookup::Found { remaining_bytes: 1000 },
        &WriterAcquire::Acquired,
        script(vec![], vec![]),
    );
    assert_eq!(outcome.status_class(), 401);
    assert!(!trace.directory_looked_up);
}

#[test]
fn invalid_capability_rejected_with_detail() {
    let cap = Capability::new(7, 1_000, Some(String::from("directory does not exist")));
    let (outcome, trace) = handle_upload(
        &cap,
        NOW,
        None,
        &DirectoryLookup::Found { remaining_bytes: 1000 },
        &WriterAcquire::Acquired,
        script(vec![], vec![]),
    );
    assert_eq!(outcome.status_class(), 400);
    match outcome {
        UploadOutcome::InvalidCapability { message } => {
            assert_eq!(message, "link data invalid: directory does not exist\n");
        }
        _ => panic!("expected an invalid-capability rejection"),
    }
    assert!(!trace.directory_looked_up);
    assert!(!trace.writer_created);
}

#[test]
fn oversized_declaration_rejected_before_writer_exists() {
    let cap = valid_cap();
    let (outcome, trace) = handle_upload(
        &cap,
        NOW,
        Some(2000),
        &DirectoryLookup::Found { remaining_bytes: 1000 },
        &WriterAcquire::Acquired,
        script(vec![delivered(100)], vec![]),
    );
    assert_eq!(outcome.status_class(), 413);
    match outcome {
        UploadOutcome::PayloadTooLarge { message } => {
            assert_eq!(message, "the data want to upload does not fit within the data limit\n");
        }
        _ => panic!("expected a payload-too-large rejection"),
    }
    assert!(trace.directory_looked_up);
    assert!(!trace.writer_created);
}

#[test]
fn declaration_equal_to_budget_is_allowed() {
    let cap = valid_cap();
    let (outcome, trace) = handle_upload(
        &cap,
        NOW,
        Some(1000),
        &DirectoryLookup::Found { remaining_bytes: 1000 },
        &WriterAcquire::Acquired,
        script(vec![delivered(1000)], vec![]),
    );
    assert_eq!(outcome.status_class(), 200);
    assert!(trace.writer_created);
}

#[test]
fn absent_content_length_passes_the_precheck() {
    let cap = valid_cap();
    let (outcome, _) = handle_upload(
        &cap,
        NOW,
        None,
        &DirectoryLookup::Found { remaining_bytes: 0 },
        &WriterAcquire::Acquired,
        script(vec![], vec![]),
    );
    assert_eq!(outcome.status_class(), 200);
}

#[test]
fn write_fault_keeps_partial_bytes_and_reports_it() {
    let cap = valid_cap();
    let chunks = vec![
        delivered(300),
        ChunkEvent::Delivered {
            len: 200,
            write: WriteResult::Faulted { persisted: 0, detail: String::from("disk full") },
        },
        delivered(999),
    ];
    let (outcome, _) = handle_upload(
        &cap,
        NOW,
        Some(500),
        &DirectoryLookup::Found { remaining_bytes: 1000 },
        &WriterAcquire::Acquired,
        script(chunks, vec![]),
    );
    assert_eq!(outcome.status_class(), 200);
    match outcome {
        UploadOutcome::Completed { report } => {
            assert_eq!(report.bytes_written, 300);
            assert_eq!(report.messages, vec!["error while writing the file: disk full"]);
        }
        _ => panic!("expected a completion"),
    }
}

#[test]
fn write_fault_counts_the_persisted_prefix_of_the_chunk() {
    let cap = valid_cap();
    let chunks = vec![
        delivered(300),
        ChunkEvent::Delivered {
            len: 200,
            write: WriteResult::Faulted { persisted: 50, detail: String::from("io error") },
        },
    ];
    let (outcome, _) = handle_upload(
        &cap,
        NOW,
        None,
        &DirectoryLookup::Found { remaining_bytes: 1000 },
        &WriterAcquire::Acquired,
        script(chunks, vec![]),
    );
    match outcome {
        UploadOutcome::Completed { report } => {
            assert_eq!(report.bytes_written, 350);
            assert_eq!(report.messages.len(), 1);
        }
        _ => panic!("expected a completion"),
    }
}

#[test]
fn receive_fault_after_300_of_500_bytes_reports_300() {
    let cap = valid_cap();
    let chunks = vec![
        delivered(300),
        ChunkEvent::ReceiveFault { detail: String::from("connection reset") },
    ];
    let (outcome, trace) = handle_upload(
        &cap,
        NOW,
        Some(500),
        &DirectoryLookup::Found { remaining_bytes: 1000 },
        &WriterAcquire::Acquired,
        script(chunks, vec![]),
    );
    assert_eq!(outcome.status_class(), 200);
    match outcome {
        UploadOutcome::Completed { report } => {
            assert_eq!(report.bytes_written, 300);
            assert_eq!(report.messages, vec!["error while receiving the file: connection reset"]);
        }
        _ => panic!("expected a completion, not a rejection"),
    }
    assert!(trace.writer_created);
}

#[test]
fn finalize_messages_are_appended_after_loop_messages() {
    let cap = valid_cap();
    let chunks = vec![ChunkEvent::ReceiveFault { detail: String::from("timeout") }];
    let (outcome, _) = handle_upload(
        &cap,
        NOW,
        None,
        &DirectoryLookup::Found { remaining_bytes: 1000 },
        &WriterAcquire::Acquired,
        script(chunks, vec![String::from("file truncated")]),
    );
    match outcome {
        UploadOutcome::Completed { report } => {
            assert_eq!(
                report.messages,
                vec!["error while receiving the file: timeout", "file truncated"]
            );
        }
        _ => panic!("expected a completion"),
    }
}

#[test]
fn lookup_failure_is_an_infrastructure_rejection() {
    let cap = valid_cap();
    let (outcome, trace) = handle_upload(
        &cap,
        NOW,
        None,
        &DirectoryLookup::Failed { detail: String::from("ledger unavailable") },
        &WriterAcquire::Acquired,
        script(vec![], vec![]),
    );
    assert_eq!(outcome.status_class(), 500);
    match outcome {
        UploadOutcome::Infrastructure { message } => assert_eq!(message, "ledger unavailable"),
        _ => panic!("expected an infrastructure rejection"),
    }
    assert!(trace.directory_looked_up);
    assert!(!trace.writer_created);
}

#[test]
fn writer_refusal_is_an_infrastructure_rejection() {
    let cap = valid_cap();
    let (outcome, trace) = handle_upload(
        &cap,
        NOW,
        None,
        &DirectoryLookup::Found { remaining_bytes: 1000 },
        &WriterAcquire::Refused { detail: String::from("no space for session") },
        script(vec![], vec![]),
    );
    assert_eq!(outcome.status_class(), 500);
    match outcome {
        UploadOutcome::Infrastructure { message } => assert_eq!(message, "no space for session"),
        _ => panic!("expected an infrastructure rejection"),
    }
    assert!(!trace.writer_created);
}

#[test]
fn authorize_orders_expiry_before_validity() {
    let cap = Capability::new(3, 10, Some(String::from("broken")));
    match authorize(&cap, 11) {
        Err(UploadOutcome::Unauthorized { message }) => assert_eq!(message, "link expired\n"),
        _ => panic!("expected the expiry rejection first"),
    }
    let cap = Capability::new(3, 10, Some(String::from("broken")));
    match authorize(&cap, 10) {
        Err(UploadOutcome::InvalidCapability { message }) => {
            assert_eq!(message, "link data invalid: broken\n");
        }
        _ => panic!("expected the validity rejection"),
    }
    let cap = Capability::new(3, 10, None);
    assert_eq!(authorize(&cap, 10).ok(), Some(3));
}

#[test]
fn check_quota_rejects_exactly_strict_excess() {
    assert!(check_quota(Some(1001), 1000).is_err());
    assert!(check_quota(Some(1000), 1000).is_ok());
    assert!(check_quota(Some(0), 0).is_ok());
    assert!(check_quota(None, 0).is_ok());
}

#[test]
fn rejection_classes_are_distinct() {
    let unauthorized = UploadOutcome::Unauthorized { message: String::new() };
    let invalid = UploadOutcome::InvalidCapability { message: String::new() };
    let too_large = UploadOutcome::PayloadTooLarge { message: String::new() };
    let infra = UploadOutcome::Infrastructure { message: String::new() };
    assert!(unauthorized.is_rejection());
    assert!(invalid.is_rejection());
    assert!(too_large.is_rejection());
    assert!(infra.is_rejection());
    let classes = [
        unauthorized.status_class(),
        invalid.status_class(),
        too_large.status_class(),
        infra.status_class(),
    ];
    assert_eq!(classes, [401, 400, 413, 500]);
}
