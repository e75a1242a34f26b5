//! Commit identifiers and the text that records a fast-forward in the
//! reference log.

use vstd::prelude::*;
use vstd::string::*;

verus! {

/// The name of a commit: the twenty bytes of its hash.
#[derive(Clone, Copy, Debug, PartialEq, Eq)]
pub struct CommitId {
    pub bytes: [u8; 20],
}

/// The lower-case hexadecimal digit for a value below sixteen.
pub open spec fn hex_digit(n: int) -> char {
    seq!['0', '1', '2', '3', '4', '5', '6', '7', '8', '9', 'a', 'b', 'c', 'd', 'e', 'f'][n]
}

/// Two lower-case hexadecimal digits for each byte, the high half first.
pub open spec fn hex_text(bytes: Seq<u8>) -> Seq<char> {
    Seq::new(
        2 * bytes.len(),
        |i: int|
            if i % 2 == 0 {
                hex_digit(bytes[i / 2] as int / 16)
            } else {
                hex_digit(bytes[i / 2] as int % 16)
            },
    )
}

/// The reference log entry for moving the branch `head_name` to the commit
/// with the hash `target`.
pub open spec fn reflog_text(head_name: Seq<char>, target: Seq<u8>) -> Seq<char> {
    "Fast-Forward by githerder: Setting "@ + head_name + " to id: "@ + hex_text(target)
}

/// Trusted: `git2::Oid::from_bytes` followed by the `Display` of the `Oid`.
/// Twenty bytes are always accepted as an `Oid`, and its `Display` writes
/// each byte as two lower-case hexadecimal digits.
#[verifier::external_body]
fn oid_hex(bytes: &[u8; 20]) -> (text: String)
    ensures
        text@ == hex_text(bytes@),
{
    match git2::Oid::from_bytes(bytes) {
        Ok(oid) => oid.to_string(),
        Err(_) => String::new(),
    }
}

impl CommitId {
    /// The commit with the given hash.
    pub fn new(bytes: [u8; 20]) -> (id: CommitId)
        ensures
            id.bytes == bytes,
    {
        CommitId { bytes }
    }

    /// The hash as forty lower-case hexadecimal digits.
    pub fn to_hex(&self) -> (text: String)
        ensures
            text@ == hex_text(self.bytes@),
            text@.len() == 40,
    {
        oid_hex(&self.bytes)
    }
}

/// The message recorded in the reference log when the branch `head_name` is
/// fast-forwarded to `target`: it names the tool, the branch and the commit.
pub fn reflog_message(head_name: &str, target: &CommitId) -> (message: String)
    ensures
        message@ == reflog_text(head_name@, target.bytes@),
{
    let hex = target.to_hex();
    let mut message = String::from_str("Fast-Forward by githerder: Setting ");
    message.append(head_name);
    message.append(" to id: ");
    message.append(hex.as_str());
    message
}

} // verus!
