//! The diagnostic of a session that failed.

use vstd::prelude::*;
use vstd::string::*;

verus! {

/// The line that reports a failure of which `cause` tells the reason.
pub open spec fn diagnostic_text(cause: Seq<char>) -> Seq<char> {
    "Error: "@ + cause
}

/// Makes the line that reports a failure: the word `Error`, a colon, a space, and the
/// reason as `cause` gives it.
pub fn diagnostic(cause: &str) -> (line: String)
    ensures
        line@ == diagnostic_text(cause@),
{
    String::from_str("Error: ").concat(cause)
}

} // verus!
