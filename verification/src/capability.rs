use vstd::prelude::*;

verus! {

/// A decoded, immutable grant to write into exactly one directory.
///
/// The codec that decodes and verifies the signed token is an external
/// collaborator; the pipeline only reads three things from the decoded
/// value, held here as plain data: the identifier of the one directory
/// the grant targets, the end of its validity window, and the structural
/// violation the decoder found in it, if any.  A capability is never
/// mutated by the pipeline: every policy decision derives from it.
pub struct Capability {
    /// Identifier of the directory this grant authorizes writing into.
    pub dir_id: u64,
    /// Last instant, on the caller's clock, at which the grant is valid.
    pub expires_at: u64,
    /// `None` when the decoded data satisfies the capability's structural
    /// invariants; otherwise a description of the violation, surfaced
    /// verbatim to the caller on rejection.
    pub violation: Option<String>,
}

impl Capability {
    /// The validity window has elapsed at instant `now`.
    pub open spec fn spec_is_expired(self, now: u64) -> bool {
        now > self.expires_at
    }

    /// The decoded data satisfies the capability's structural invariants.
    pub open spec fn spec_is_valid(self) -> bool {
        self.violation is None
    }

    pub fn new(dir_id: u64, expires_at: u64, violation: Option<String>) -> (cap: Capability)
        ensures
            cap == (Capability { dir_id, expires_at, violation }),
    {
        Capability { dir_id, expires_at, violation }
    }

    /// Whether the validity window has elapsed at instant `now`.
    pub fn is_expired(&self, now: u64) -> (expired: bool)
        ensures
            expired == self.spec_is_expired(now),
    {
        now > self.expires_at
    }

    /// Structural validity: `Ok` exactly when the decoder recorded no
    /// violation, `Err` carrying the violation's description otherwise.
    pub fn validate(&self) -> (r: Result<(), String>)
        ensures
            r is Ok <==> self.spec_is_valid(),
            r is Err ==> self.violation == Some(r->Err_0),
    {
        match &self.violation {
            None => Ok(()),
            Some(detail) => Err(detail.clone()),
        }
    }

    /// The identifier of the one directory this capability authorizes.
    pub fn directory_id(&self) -> (id: u64)
        ensures
            id == self.dir_id,
    {
        self.dir_id
    }
}

} // verus!
