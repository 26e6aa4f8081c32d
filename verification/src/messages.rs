use vstd::prelude::*;
use vstd::string::StringExecFns;

verus! {

/// The diagnostic shown when an upload link's validity window has elapsed.
pub open spec fn expired_message() -> Seq<char> {
    "link expired\n"@
}

/// The diagnostic shown when the decoded link data violates a structural
/// invariant, carrying the violation's description.
pub open spec fn invalid_message(detail: Seq<char>) -> Seq<char> {
    "link data invalid: "@ + detail + "\n"@
}

/// The diagnostic shown when the declared content length exceeds the
/// directory's remaining byte budget.
pub open spec fn quota_message() -> Seq<char> {
    "the data want to upload does not fit within the data limit\n"@
}

/// The per-transfer diagnostic recorded when the writer fails to persist
/// a chunk.
pub open spec fn write_fault_message(detail: Seq<char>) -> Seq<char> {
    "error while writing the file: "@ + detail
}

/// The per-transfer diagnostic recorded when the inbound transport fails
/// to deliver a chunk.
pub open spec fn receive_fault_message(detail: Seq<char>) -> Seq<char> {
    "error while receiving the file: "@ + detail
}

pub fn expired_message_text() -> (r: String)
    ensures
        r@ == expired_message(),
{
    "link expired\n".to_owned()
}

pub fn invalid_message_text(detail: &str) -> (r: String)
    ensures
        r@ == invalid_message(detail@),
{
    let mut r = "link data invalid: ".to_owned();
    r.append(detail);
    r.append("\n");
    r
}

pub fn quota_message_text() -> (r: String)
    ensures
        r@ == quota_message(),
{
    "the data want to upload does not fit within the data limit\n".to_owned()
}

pub fn write_fault_message_text(detail: &str) -> (r: String)
    ensures
        r@ == write_fault_message(detail@),
{
    let mut r = "error while writing the file: ".to_owned();
    r.append(detail);
    r
}

pub fn receive_fault_message_text(detail: &str) -> (r: String)
    ensures
        r@ == receive_fault_message(detail@),
{
    let mut r = "error while receiving the file: ".to_owned();
    r.append(detail);
    r
}

} // verus!
