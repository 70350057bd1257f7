//! The error type carried out of every native journal call that fails.
//!
//! A failing call hands back a negative return code; the error records the
//! call's name, that code, and a human-readable reason looked up from the
//! operating system (filled in by the caller that can reach it).

use vstd::prelude::*;
use crate::text::{dec_seq_signed, i64_to_dec};

verus! {

/// What went wrong in a native journal call: a message naming the call, the
/// return code it gave, and the operating system's description of that code.
#[derive(Debug, Clone)]
pub struct ClibraryError {
    pub message: String,
    pub return_code: i32,
    pub err_reason: String,
}

/// The one-line rendering of an error: the message, then the return code and
/// the reason in parentheses.
pub open spec fn display_seq(e: ClibraryError) -> Seq<char> {
    e.message@ + " (rc="@ + dec_seq_signed(e.return_code as int) + ", errno msg="@
        + e.err_reason@ + ")"@
}

impl ClibraryError {
    /// Builds an error from a call's name and its return code. The reason
    /// starts empty; whoever can ask the operating system fills it in with
    /// `with_reason`.
    pub fn new(error_msg: String, return_code: i32) -> (e: ClibraryError)
        ensures
            e.message@ == error_msg@,
            e.return_code == return_code,
            e.err_reason@ == Seq::<char>::empty(),
    {
        ClibraryError { message: error_msg, return_code, err_reason: String::new() }
    }

    /// The same error with the operating system's description of the code
    /// put in.
    pub fn with_reason(self, reason: String) -> (e: ClibraryError)
        ensures
            e.message@ == self.message@,
            e.return_code == self.return_code,
            e.err_reason@ == reason@,
    {
        ClibraryError { message: self.message, return_code: self.return_code, err_reason: reason }
    }

    /// Renders the error as one line of text.
    pub fn display_string(&self) -> (s: String)
        ensures
            s@ == display_seq(*self),
    {
        let mut s = self.message.clone();
        s.append(" (rc=");
        s.append(i64_to_dec(self.return_code as i64).as_str());
        s.append(", errno msg=");
        s.append(self.err_reason.as_str());
        s.append(")");
        proof {
            assert(s@ =~= display_seq(*self));
        }
        s
    }
}

} // verus!
