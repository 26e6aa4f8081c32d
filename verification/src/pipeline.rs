use vstd::prelude::*;

use crate::capability::Capability;
use crate::messages::{
    expired_message, expired_message_text, invalid_message, invalid_message_text, quota_message,
    quota_message_text,
};
use crate::outcome::{message_views, UploadOutcome, UploadReport};
use crate::session::{
    lemma_transfer_bytes_nonneg, transfer_bytes, transfer_messages, ChunkEvent, TransferSession,
    WriteResult,
};

verus! {

/// What the directory quota ledger answered when asked for the
/// capability's directory: the remaining byte budget as of the moment of
/// query, or an infrastructure fault.  For a valid, non-expired
/// capability the directory must exist, so a failed lookup is never a
/// client error.
pub enum DirectoryLookup {
    Found { remaining_bytes: u64 },
    Failed { detail: String },
}

/// Whether the storage layer produced a writer for the transfer.
pub enum WriterAcquire {
    Acquired,
    Refused { detail: String },
}

/// Everything the external collaborators feed into one transfer, in the
/// order the loop observes it: the chunk attempts, then the writer's
/// finalize-time diagnostics.
pub struct TransferScript {
    pub chunks: Vec<ChunkEvent>,
    pub finalize_messages: Vec<String>,
}

/// Which external side effects a pipeline run performed.  Rejections
/// that precede a stage leave its flag false: an expired capability is
/// turned away before the ledger is ever asked, and an oversized
/// declaration before a writer exists.
pub struct PipelineTrace {
    pub directory_looked_up: bool,
    pub writer_created: bool,
}

/// The declared length of a request body: absent counts as zero, so an
/// undeclared transfer passes the advisory pre-check and true
/// enforcement falls to the write path.
pub open spec fn declared_length(content_length: Option<u64>) -> u64 {
    match content_length {
        Some(n) => n,
        None => 0,
    }
}

/// Expiry and structural validity both hold, so resource work may begin.
pub open spec fn spec_authorized(cap: Capability, now: u64) -> bool {
    &&& !cap.spec_is_expired(now)
    &&& cap.spec_is_valid()
}

/// The authorization stage.  Expiry is checked first — an expired but
/// malformed token still reports "expired", not "invalid", so probing a
/// dead token leaks nothing of its format — then structural validity.
/// Pure decision over already-decoded data: only the `Ok`, which carries
/// the directory identifier, lets a caller go on to the ledger.
pub fn authorize(cap: &Capability, now: u64) -> (r: Result<u64, UploadOutcome>)
    ensures
        cap.spec_is_expired(now) ==> ({
            &&& r matches Err(UploadOutcome::Unauthorized { message })
            &&& message@ == expired_message()
        }),
        !cap.spec_is_expired(now) && !cap.spec_is_valid() ==> ({
            &&& r matches Err(UploadOutcome::InvalidCapability { message })
            &&& message@ == invalid_message(cap.violation->Some_0@)
        }),
        spec_authorized(*cap, now) ==> (r matches Ok(id) && id == cap.dir_id),
{
    if cap.is_expired(now) {
        return Err(UploadOutcome::Unauthorized { message: expired_message_text() });
    }
    match cap.validate() {
        Ok(()) => Ok(cap.directory_id()),
        Err(detail) => Err(
            UploadOutcome::InvalidCapability { message: invalid_message_text(detail.as_str()) },
        ),
    }
}

/// The advisory quota pre-check: compare the declared content length
/// (zero when absent) against the budget read from the ledger, and
/// reject exactly when the declaration strictly exceeds it — before any
/// writer is opened.  The read is advisory by design: concurrent uploads
/// may drain the budget after it, and the write path holds the hard
/// limit.
pub fn check_quota(content_length: Option<u64>, remaining_bytes: u64) -> (r: Result<
    (),
    UploadOutcome,
>)
    ensures
        declared_length(content_length) > remaining_bytes ==> ({
            &&& r matches Err(UploadOutcome::PayloadTooLarge { message })
            &&& message@ == quota_message()
        }),
        declared_length(content_length) <= remaining_bytes ==> r is Ok,
{
    let declared: u64 = match content_length {
        Some(n) => n,
        None => 0,
    };
    if declared > remaining_bytes {
        Err(UploadOutcome::PayloadTooLarge { message: quota_message_text() })
    } else {
        Ok(())
    }
}

/// The streaming transfer loop and its finalize: consume the chunk
/// attempts in order, one outstanding chunk at a time, and stop at the
/// first receive or write fault without failing the request; then
/// destroy the session.  The report holds exactly the committed bytes
/// and the loop-time diagnostics followed by the finalize-time ones.
pub fn run_transfer(script: TransferScript) -> (report: UploadReport)
    requires
        transfer_bytes(script.chunks@) <= u64::MAX,
    ensures
        report.bytes_written == transfer_bytes(script.chunks@),
        message_views(report.messages@) == transfer_messages(script.chunks@) + message_views(
            script.finalize_messages@,
        ),
{
    let TransferScript { chunks, finalize_messages } = script;
    let ghost s: Seq<ChunkEvent> = chunks@;
    let mut session = TransferSession::new();
    let mut i: usize = 0;
    proof {
        assert(s.skip(0) =~= s);
    }
    while i < chunks.len() && !session.halted
        invariant
            i <= chunks.len(),
            chunks@ == s,
            transfer_bytes(s) <= u64::MAX,
            !session.halted ==> ({
                &&& session.messages@.len() == 0
                &&& transfer_bytes(s) == session.bytes_written + transfer_bytes(s.skip(i as int))
                &&& transfer_messages(s) == transfer_messages(s.skip(i as int))
            }),
            session.halted ==> ({
                &&& session.bytes_written == transfer_bytes(s)
                &&& message_views(session.messages@) == transfer_messages(s)
            }),
        decreases chunks.len() - i,
    {
        proof {
            assert(s.skip(i as int)[0] == s[i as int]);
            assert(s.skip(i as int).drop_first() =~= s.skip(i as int + 1));
            lemma_transfer_bytes_nonneg(s.skip(i as int + 1));
        }
        let event = &chunks[i];
        match event {
            ChunkEvent::Delivered { len, write } => {
                match write {
                    WriteResult::Persisted => {
                        session.chunk_written(*len);
                    },
                    WriteResult::Faulted { persisted, detail } => {
                        session.write_fault(*persisted, detail.as_str());
                        proof {
                            assert(message_views(session.messages@) =~= transfer_messages(s));
                        }
                    },
                }
            },
            ChunkEvent::ReceiveFault { detail } => {
                session.receive_fault(detail.as_str());
                proof {
                    assert(message_views(session.messages@) =~= transfer_messages(s));
                }
            },
        }
        i = i + 1;
    }
    proof {
        if !session.halted {
            assert(s.skip(i as int) =~= Seq::<ChunkEvent>::empty());
            assert(message_views(session.messages@) =~= transfer_messages(s));
        }
    }
    let report = session.finalize(finalize_messages);
    proof {
        assert(message_views(report.messages@) =~= transfer_messages(s) + message_views(
            finalize_messages@,
        ));
    }
    report
}

/// The upload orchestrator: one request from decoded capability to
/// terminal outcome, along the linear chain expiry check, structural
/// validation, directory lookup, advisory quota pre-check, writer
/// acquisition, streaming transfer, finalize.  Authorization, resource
/// and quota failures are hard rejections; once a writer exists the
/// request always completes, best effort.  `directory` and `writer`
/// stand for what the ledger and the storage layer would answer if
/// asked; the returned trace says whether they were asked at all.
pub fn handle_upload(
    cap: &Capability,
    now: u64,
    content_length: Option<u64>,
    directory: &DirectoryLookup,
    writer: &WriterAcquire,
    script: TransferScript,
) -> (r: (UploadOutcome, PipelineTrace))
    requires
        transfer_bytes(script.chunks@) <= u64::MAX,
    ensures
        cap.spec_is_expired(now) ==> ({
            &&& r.0 matches UploadOutcome::Unauthorized { message }
            &&& message@ == expired_message()
            &&& !r.1.directory_looked_up
            &&& !r.1.writer_created
        }),
        !cap.spec_is_expired(now) && !cap.spec_is_valid() ==> ({
            &&& r.0 matches UploadOutcome::InvalidCapability { message }
            &&& message@ == invalid_message(cap.violation->Some_0@)
            &&& !r.1.directory_looked_up
            &&& !r.1.writer_created
        }),
        r.1.directory_looked_up == spec_authorized(*cap, now),
        spec_authorized(*cap, now) ==> (directory matches DirectoryLookup::Failed { detail } ==> ({
            &&& r.0 matches UploadOutcome::Infrastructure { message }
            &&& message@ == detail@
            &&& !r.1.writer_created
        })),
        spec_authorized(*cap, now) && (directory matches DirectoryLookup::Found { remaining_bytes }
            && declared_length(content_length) > *remaining_bytes) ==> ({
            &&& r.0 matches UploadOutcome::PayloadTooLarge { message }
            &&& message@ == quota_message()
            &&& !r.1.writer_created
        }),
        spec_authorized(*cap, now) ==> (directory matches DirectoryLookup::Found { remaining_bytes }
            && declared_length(content_length) <= *remaining_bytes ==> (writer matches
            WriterAcquire::Refused { detail } ==> ({
            &&& r.0 matches UploadOutcome::Infrastructure { message }
            &&& message@ == detail@
            &&& !r.1.writer_created
        }))),
        spec_authorized(*cap, now) && (directory matches DirectoryLookup::Found { remaining_bytes }
            && declared_length(content_length) <= *remaining_bytes) && writer is Acquired ==> ({
            &&& r.1.writer_created
            &&& r.0 matches UploadOutcome::Completed { report }
            &&& report.bytes_written == transfer_bytes(script.chunks@)
            &&& message_views(report.messages@) == transfer_messages(script.chunks@)
                + message_views(script.finalize_messages@)
        }),
        r.0 is Completed <==> ({
            &&& spec_authorized(*cap, now)
            &&& directory matches DirectoryLookup::Found { remaining_bytes }
                && declared_length(content_length) <= *remaining_bytes
            &&& writer is Acquired
        }),
{
    let mut trace = PipelineTrace { directory_looked_up: false, writer_created: false };
    match authorize(cap, now) {
        Err(outcome) => {
            return (outcome, trace);
        },
        Ok(_) => {},
    }
    trace.directory_looked_up = true;
    let remaining: u64 = match directory {
        DirectoryLookup::Failed { detail } => {
            return (UploadOutcome::Infrastructure { message: detail.clone() }, trace);
        },
        DirectoryLookup::Found { remaining_bytes } => *remaining_bytes,
    };
    match check_quota(content_length, remaining) {
        Err(outcome) => {
            return (outcome, trace);
        },
        Ok(()) => {},
    }
    match writer {
        WriterAcquire::Refused { detail } => {
            return (UploadOutcome::Infrastructure { message: detail.clone() }, trace);
        },
        WriterAcquire::Acquired => {},
    }
    trace.writer_created = true;
    let report = run_transfer(script);
    (UploadOutcome::Completed { report }, trace)
}

} // verus!
