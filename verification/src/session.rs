use vstd::prelude::*;

use crate::messages::{
    receive_fault_message, receive_fault_message_text, write_fault_message,
    write_fault_message_text,
};
use crate::outcome::{message_views, UploadReport};

verus! {

/// How the writer answered one chunk, as the transfer loop observes it.
pub enum WriteResult {
    /// The writer durably accepted the whole chunk.
    Persisted,
    /// The writer faulted after durably accepting `persisted` bytes of
    /// the chunk; `detail` describes the fault.
    Faulted { persisted: u64, detail: String },
}

/// One attempt of the transfer loop to move a chunk from the inbound
/// transport into the writer.
pub enum ChunkEvent {
    /// The transport delivered a chunk of `len` bytes and writing it
    /// ended with `write`.
    Delivered { len: u64, write: WriteResult },
    /// The transport failed to deliver the next chunk.
    ReceiveFault { detail: String },
}

/// Whether this event ends the transfer loop: any receive or write fault
/// does, a cleanly written chunk does not.
pub open spec fn event_stops(e: ChunkEvent) -> bool {
    !(e matches ChunkEvent::Delivered { write: WriteResult::Persisted, .. })
}

/// Bytes durably committed by a transfer that observes `events` in
/// order, one chunk at a time: every cleanly written chunk counts whole,
/// a chunk whose write faults counts only its persisted prefix, and
/// nothing past the first fault is read or written.
pub open spec fn transfer_bytes(events: Seq<ChunkEvent>) -> int
    decreases events.len(),
{
    if events.len() == 0 {
        0
    } else {
        match events[0] {
            ChunkEvent::Delivered { len, write: WriteResult::Persisted } => len
                + transfer_bytes(events.drop_first()),
            ChunkEvent::Delivered { len, write: WriteResult::Faulted { persisted, .. } } => {
                persisted as int
            },
            ChunkEvent::ReceiveFault { .. } => 0,
        }
    }
}

/// The loop-time diagnostics of such a transfer: empty when no fault
/// occurs, otherwise exactly one message describing the first fault.
pub open spec fn transfer_messages(events: Seq<ChunkEvent>) -> Seq<Seq<char>>
    decreases events.len(),
{
    if events.len() == 0 {
        Seq::empty()
    } else {
        match events[0] {
            ChunkEvent::Delivered { write: WriteResult::Persisted, .. } => transfer_messages(
                events.drop_first(),
            ),
            ChunkEvent::Delivered { write: WriteResult::Faulted { detail, .. }, .. } => {
                seq![write_fault_message(detail@)]
            },
            ChunkEvent::ReceiveFault { detail } => seq![receive_fault_message(detail@)],
        }
    }
}

/// The length of the whole body as the transport would deliver it: the
/// summed length of every delivered chunk.
pub open spec fn total_body_bytes(events: Seq<ChunkEvent>) -> int
    decreases events.len(),
{
    if events.len() == 0 {
        0
    } else {
        match events[0] {
            ChunkEvent::Delivered { len, .. } => len + total_body_bytes(events.drop_first()),
            ChunkEvent::ReceiveFault { .. } => total_body_bytes(events.drop_first()),
        }
    }
}

/// No event in `events` faults.
pub open spec fn clean_events(events: Seq<ChunkEvent>) -> bool {
    forall|i: int| 0 <= i < events.len() ==> !event_stops(#[trigger] events[i])
}

pub proof fn lemma_transfer_bytes_nonneg(events: Seq<ChunkEvent>)
    ensures
        transfer_bytes(events) >= 0,
    decreases events.len(),
{
    if events.len() > 0 {
        if events[0] matches ChunkEvent::Delivered { write: WriteResult::Persisted, .. } {
            lemma_transfer_bytes_nonneg(events.drop_first());
        }
    }
}

/// A transfer that meets no transport or write fault commits exactly the
/// whole delivered body and records no diagnostic.
pub proof fn lemma_clean_transfer(events: Seq<ChunkEvent>)
    requires
        clean_events(events),
    ensures
        transfer_bytes(events) == total_body_bytes(events),
        transfer_messages(events) == Seq::<Seq<char>>::empty(),
    decreases events.len(),
{
    if events.len() > 0 {
        assert(!event_stops(events[0]));
        assert forall|i: int| 0 <= i < events.drop_first().len() implies !event_stops(
            #[trigger] events.drop_first()[i],
        ) by {
            assert(events.drop_first()[i] == events[i + 1]);
        }
        lemma_clean_transfer(events.drop_first());
    }
}

/// A transfer whose first fault is a write fault, at position `k` and
/// after `persisted` bytes of that chunk went through, commits exactly
/// the clean chunks before it plus that persisted prefix — not nothing,
/// and not the whole body — and records exactly one message, the one
/// describing the write fault.
pub proof fn lemma_write_fault_transfer(
    events: Seq<ChunkEvent>,
    k: int,
    len: u64,
    persisted: u64,
    detail: String,
)
    requires
        0 <= k < events.len(),
        clean_events(events.take(k)),
        events[k] == (ChunkEvent::Delivered {
            len,
            write: WriteResult::Faulted { persisted, detail },
        }),
    ensures
        transfer_bytes(events) == total_body_bytes(events.take(k)) + persisted,
        transfer_messages(events) == seq![write_fault_message(detail@)],
    decreases k,
{
    if k == 0 {
        assert(events.take(0) =~= Seq::<ChunkEvent>::empty());
    } else {
        assert(!event_stops(events.take(k)[0]));
        assert(events.take(k)[0] == events[0]);
        let rest = events.drop_first();
        assert forall|i: int| 0 <= i < rest.take(k - 1).len() implies !event_stops(
            #[trigger] rest.take(k - 1)[i],
        ) by {
            assert(rest.take(k - 1)[i] == events.take(k)[i + 1]);
        }
        assert(rest[k - 1] == events[k]);
        lemma_write_fault_transfer(rest, k - 1, len, persisted, detail);
        assert(events.take(k).drop_first() =~= rest.take(k - 1));
    }
}

/// The receive-fault analogue: a transfer whose first fault is the
/// transport failing to deliver the chunk at position `k` commits exactly
/// the clean chunks before it and records exactly one message, the one
/// describing the receive fault.
pub proof fn lemma_receive_fault_transfer(events: Seq<ChunkEvent>, k: int, detail: String)
    requires
        0 <= k < events.len(),
        clean_events(events.take(k)),
        events[k] == (ChunkEvent::ReceiveFault { detail }),
    ensures
        transfer_bytes(events) == total_body_bytes(events.take(k)),
        transfer_messages(events) == seq![receive_fault_message(detail@)],
    decreases k,
{
    if k == 0 {
        assert(events.take(0) =~= Seq::<ChunkEvent>::empty());
    } else {
        assert(!event_stops(events.take(k)[0]));
        assert(events.take(k)[0] == events[0]);
        let rest = events.drop_first();
        assert forall|i: int| 0 <= i < rest.take(k - 1).len() implies !event_stops(
            #[trigger] rest.take(k - 1)[i],
        ) by {
            assert(rest.take(k - 1)[i] == events.take(k)[i + 1]);
        }
        assert(rest[k - 1] == events[k]);
        lemma_receive_fault_transfer(rest, k - 1, detail);
        assert(events.take(k).drop_first() =~= rest.take(k - 1));
    }
}

/// One streaming write session: the per-request state the transfer loop
/// carries between chunk attempts.
///
/// `bytes_written` counts exactly the bytes the writer has acknowledged
/// as durably committed; `messages` holds the loop-time diagnostics in
/// order; `halted` records that a fault ended the loop, after which no
/// further chunk may be recorded.  The session is destroyed by
/// `finalize`, which consumes it: once the report exists there is no
/// session left through which its byte count could change.
pub struct TransferSession {
    pub bytes_written: u64,
    pub messages: Vec<String>,
    pub halted: bool,
}

impl TransferSession {
    /// A fresh session: nothing written, nothing to report.
    pub fn new() -> (s: TransferSession)
        ensures
            s.bytes_written == 0,
            s.messages@ == Seq::<String>::empty(),
            !s.halted,
    {
        TransferSession { bytes_written: 0, messages: Vec::new(), halted: false }
    }

    /// Record a chunk the writer durably accepted in full.
    pub fn chunk_written(&mut self, len: u64)
        requires
            !old(self).halted,
            old(self).bytes_written + len <= u64::MAX,
        ensures
            final(self).bytes_written == old(self).bytes_written + len,
            final(self).messages == old(self).messages,
            !final(self).halted,
    {
        self.bytes_written = self.bytes_written + len;
    }

    /// Record a write fault: the chunk's durably persisted prefix still
    /// counts, the fault's description is appended, and the session
    /// halts.
    pub fn write_fault(&mut self, persisted: u64, detail: &str)
        requires
            !old(self).halted,
            old(self).bytes_written + persisted <= u64::MAX,
        ensures
            final(self).bytes_written == old(self).bytes_written + persisted,
            message_views(final(self).messages@) == message_views(old(self).messages@).push(
                write_fault_message(detail@),
            ),
            final(self).halted,
    {
        self.bytes_written = self.bytes_written + persisted;
        let msg = write_fault_message_text(detail);
        self.messages.push(msg);
        self.halted = true;
        proof {
            assert(message_views(self.messages@) =~= message_views(old(self).messages@).push(
                write_fault_message(detail@),
            ));
        }
    }

    /// Record a receive fault: nothing new was written, the fault's
    /// description is appended, and the session halts.
    pub fn receive_fault(&mut self, detail: &str)
        requires
            !old(self).halted,
        ensures
            final(self).bytes_written == old(self).bytes_written,
            message_views(final(self).messages@) == message_views(old(self).messages@).push(
                receive_fault_message(detail@),
            ),
            final(self).halted,
    {
        let msg = receive_fault_message_text(detail);
        self.messages.push(msg);
        self.halted = true;
        proof {
            assert(message_views(self.messages@) =~= message_views(old(self).messages@).push(
                receive_fault_message(detail@),
            ));
        }
    }

    /// Destroy the session and assemble the report: the byte count is
    /// exactly what the writer acknowledged, and the writer's own
    /// finalize-time diagnostics are appended after the loop-time ones.
    /// Because the session is consumed, the reported count can never
    /// change afterwards.
    pub fn finalize(self, finalize_messages: Vec<String>) -> (report: UploadReport)
        ensures
            report.bytes_written == self.bytes_written,
            message_views(report.messages@) == message_views(self.messages@) + message_views(
                finalize_messages@,
            ),
    {
        let TransferSession { bytes_written, mut messages, halted: _ } = self;
        let mut extra = finalize_messages;
        messages.append(&mut extra);
        proof {
            assert(message_views(messages@) =~= message_views(self.messages@) + message_views(
                finalize_messages@,
            ));
        }
        UploadReport { bytes_written, messages }
    }
}

} // verus!
