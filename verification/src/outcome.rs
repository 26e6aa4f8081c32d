use vstd::prelude::*;

verus! {

/// The character sequences of a sequence of strings, for stating what a
/// message list holds independently of `String` allocation.
pub open spec fn message_views(msgs: Seq<String>) -> Seq<Seq<char>> {
    msgs.map_values(|m: String| m@)
}

/// What a completed transfer reports back to the caller: the exact count
/// of bytes durably committed, and the ordered diagnostics gathered on
/// the way (empty on clean success).
pub struct UploadReport {
    pub bytes_written: u64,
    pub messages: Vec<String>,
}

/// The terminal state of one upload request.
///
/// Authorization, resource and quota failures are hard rejections, each a
/// distinct class; transport and write faults during an authorized
/// transfer are not: the transfer still completes, best effort, and the
/// report carries the partial byte count and the diagnostics.
pub enum UploadOutcome {
    /// The capability's validity window has elapsed.
    Unauthorized { message: String },
    /// The decoded capability violates a structural invariant.
    InvalidCapability { message: String },
    /// The declared content length exceeds the remaining byte budget.
    PayloadTooLarge { message: String },
    /// Directory lookup or writer acquisition failed.
    Infrastructure { message: String },
    /// The transfer ran, cleanly or partially; the report says how far.
    Completed { report: UploadReport },
}

impl UploadOutcome {
    /// The HTTP-style status class each terminal state maps to.
    pub open spec fn spec_status_class(self) -> u16 {
        match self {
            UploadOutcome::Unauthorized { .. } => 401,
            UploadOutcome::InvalidCapability { .. } => 400,
            UploadOutcome::PayloadTooLarge { .. } => 413,
            UploadOutcome::Infrastructure { .. } => 500,
            UploadOutcome::Completed { .. } => 200,
        }
    }

    pub fn status_class(&self) -> (status: u16)
        ensures
            status == self.spec_status_class(),
    {
        match self {
            UploadOutcome::Unauthorized { .. } => 401,
            UploadOutcome::InvalidCapability { .. } => 400,
            UploadOutcome::PayloadTooLarge { .. } => 413,
            UploadOutcome::Infrastructure { .. } => 500,
            UploadOutcome::Completed { .. } => 200,
        }
    }

    /// Whether the request was rejected before any transfer could run.
    pub open spec fn spec_is_rejection(self) -> bool {
        !(self is Completed)
    }

    pub fn is_rejection(&self) -> (r: bool)
        ensures
            r == self.spec_is_rejection(),
    {
        !matches!(self, UploadOutcome::Completed { .. })
    }
}

} // verus!
