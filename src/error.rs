use vstd::prelude::*;

verus! {

/// Why a protocol session ended early.
#[derive(Debug)]
pub enum TeiError {
    /// The inbound line channel closed while a line was expected.
    NoInput,
    /// The outbound channel closed; holds the line that could not be sent.
    NoOutput(String),
    /// A malformed or out-of-sequence command; holds the offending line.
    InvalidInput(String),
}

/// `e` rejects the line `line` as invalid input.
pub open spec fn rejects(e: TeiError, line: Seq<char>) -> bool {
    e matches TeiError::InvalidInput(m) && m@ == line
}

/// The error for an invalid line.
pub fn invalid_line(line: &str) -> (e: TeiError)
    ensures
        rejects(e, line@),
{
    TeiError::InvalidInput(line.to_owned())
}

} // verus!
