//! The journal's iteration protocol and the translation of native return
//! codes into errors and decisions.
//!
//! The native calls themselves (open, advance, wait, read, close) happen in
//! an unverified shell around this crate. Each function here takes the code
//! such a call returned and decides, exactly as the protocol demands, what
//! follows: hand out an entry, wait for more, stop, or fail with which
//! error.

use vstd::prelude::*;
use crate::error::ClibraryError;
use crate::fields::{field_value, has_eq, split_field};

verus! {

/// Flag handed to the native open call: read the local journal only.
pub const OPEN_LOCAL_ONLY: i32 = 1;

/// Wake-up codes the native wait call returns: nothing happened, entries
/// were appended, or the journal was rotated or truncated.
pub const WAIT_NOP: i32 = 0;

pub const WAIT_APPEND: i32 = 1;

pub const WAIT_INVALIDATE: i32 = 2;

/// The part of an open journal that can be reasoned about: the
/// configuration its iteration protocol reads. The native handle itself
/// stays with the unverified shell that makes the C calls and closes the
/// handle exactly once.
#[derive(Debug)]
pub struct Journal {
    /// How long a blocking wait for new entries may take, in microseconds.
    pub timeout_us: u64,
}

/// What the iteration protocol does after the advance call returns.
pub enum ReadStep {
    /// The advance call failed: hand this error out.
    Fail(ClibraryError),
    /// The cursor is at the end: wait for new entries.
    AwaitNew,
    /// The cursor moved onto an entry: read it.
    HaveEntry,
}

/// What the iteration protocol does after the wait call returns.
pub enum WaitStep {
    /// Nothing arrived within the timeout: the iteration ends.
    EndOfStream,
    /// New entries arrived or the journal changed: advance again.
    Retry,
    /// The wait call failed: hand this error out.
    Fail(ClibraryError),
}

impl Journal {
    /// A freshly opened journal waits without bound: the timeout starts at
    /// the largest value.
    pub fn new() -> (j: Journal)
        ensures
            j.timeout_us == u64::MAX,
    {
        Journal { timeout_us: u64::MAX }
    }

    /// Reads the result of the native open call: zero gives a fresh
    /// journal, anything else the open error with that code.
    pub fn open_outcome(rc: i32) -> (r: Result<Journal, ClibraryError>)
        ensures
            rc == 0 ==> (r matches Ok(j) && j.timeout_us == u64::MAX),
            rc != 0 ==> (r matches Err(e) && e.message@ == "Error on sd_journal_open"@
                && e.return_code == rc && e.err_reason@ == Seq::<char>::empty()),
    {
        if rc != 0 {
            Err(ClibraryError::new(String::from_str("Error on sd_journal_open"), rc))
        } else {
            Ok(Journal::new())
        }
    }

    /// Decides what follows the native advance call: a negative code is the
    /// advance error, zero means the cursor is at the end, a positive code
    /// means it stands on an entry.
    pub fn advance_outcome(&self, rc: i32) -> (s: ReadStep)
        ensures
            rc < 0 ==> (s matches ReadStep::Fail(e) && e.message@ == "Error on sd_journal_next"@
                && e.return_code == rc && e.err_reason@ == Seq::<char>::empty()),
            rc == 0 ==> s is AwaitNew,
            rc > 0 ==> s is HaveEntry,
    {
        if rc < 0 {
            ReadStep::Fail(ClibraryError::new(String::from_str("Error on sd_journal_next"), rc))
        } else if rc == 0 {
            ReadStep::AwaitNew
        } else {
            ReadStep::HaveEntry
        }
    }

    /// Decides what follows the native wait call: no event ends the
    /// iteration, an append or invalidate event retries the advance, any
    /// other code is the wait error.
    pub fn wait_outcome(&self, rc: i32) -> (s: WaitStep)
        ensures
            rc == WAIT_NOP ==> s is EndOfStream,
            rc == WAIT_APPEND || rc == WAIT_INVALIDATE ==> s is Retry,
            rc != WAIT_NOP && rc != WAIT_APPEND && rc != WAIT_INVALIDATE ==> (
                s matches WaitStep::Fail(e) && e.message@ == "Error on sd_journal_wait"@
                && e.return_code == rc && e.err_reason@ == Seq::<char>::empty()),
    {
        if rc == WAIT_NOP {
            WaitStep::EndOfStream
        } else if rc == WAIT_APPEND || rc == WAIT_INVALIDATE {
            WaitStep::Retry
        } else {
            WaitStep::Fail(ClibraryError::new(String::from_str("Error on sd_journal_wait"), rc))
        }
    }

    /// Reads the result of the native seek-to-tail call: a negative code is
    /// the seek error, anything else reports success.
    pub fn seek_tail_outcome(&self, rc: i32) -> (r: Result<bool, ClibraryError>)
        ensures
            rc < 0 ==> (r matches Err(e) && e.message@ == "Error on sd_journal_seek_tail"@
                && e.return_code == rc && e.err_reason@ == Seq::<char>::empty()),
            rc >= 0 ==> r == Result::<bool, ClibraryError>::Ok(true),
    {
        if rc < 0 {
            Err(ClibraryError::new(String::from_str("Error on sd_journal_seek_tail"), rc))
        } else {
            Ok(true)
        }
    }

    /// Decides what a single-field read returned. A zero code means the
    /// call filled the buffer `KEY=value`; the value is everything after
    /// the buffer's first equals sign. The code for a missing field gives
    /// the empty value; any other code is the read error.
    pub fn field_data_outcome(rc: i32, data: &[u8]) -> (r: Result<Vec<u8>, ClibraryError>)
        requires
            rc == 0 ==> has_eq(data@),
        ensures
            rc == 0 ==> (r matches Ok(v) && v@ == field_value(data@)),
            rc == -2 ==> (r matches Ok(v) && v@ == Seq::<u8>::empty()),
            rc != 0 && rc != -2 ==> (r matches Err(e)
                && e.message@ == "Error on sd_journal_get_data"@ && e.return_code == rc
                && e.err_reason@ == Seq::<char>::empty()),
    {
        if rc == 0 {
            match split_field(data) {
                Some(p) => Ok(p.1),
                None => {
                    proof {
                        assert(false);
                    }
                    Ok(Vec::new())
                },
            }
        } else if rc == -2 {
            Ok(Vec::new())
        } else {
            Err(ClibraryError::new(String::from_str("Error on sd_journal_get_data"), rc))
        }
    }

    /// Decides what follows one step of the native field enumeration: a
    /// positive code hands a buffer to collect, zero ends the entry, a
    /// negative code is the read error.
    pub fn enumerate_outcome(&self, rc: i32) -> (s: EnumerateStep)
        ensures
            rc > 0 ==> s is Collect,
            rc == 0 ==> s is Done,
            rc < 0 ==> (s matches EnumerateStep::Fail(e)
                && e.message@ == "Error on sd_journal_get_data"@ && e.return_code == rc
                && e.err_reason@ == Seq::<char>::empty()),
    {
        if rc > 0 {
            EnumerateStep::Collect
        } else if rc == 0 {
            EnumerateStep::Done
        } else {
            EnumerateStep::Fail(
                ClibraryError::new(String::from_str("Error on sd_journal_get_data"), rc),
            )
        }
    }
}

/// What the iteration protocol does after one field-enumeration call.
pub enum EnumerateStep {
    /// The call filled a buffer: keep it and ask for the next.
    Collect,
    /// The entry's fields are exhausted.
    Done,
    /// The enumeration failed: hand this error out.
    Fail(ClibraryError),
}

} // verus!
