//! Formatting of a structured message for submission to the journal.
//!
//! A message goes to the native send call as a fixed run of `KEY=value`
//! strings. This module builds that run — including the numeric priority
//! and its textual description — and reads the send call's return code.

use vstd::prelude::*;
use crate::error::ClibraryError;
use crate::text::{dec_seq, u64_to_dec};

verus! {

/// The textual description of a syslog priority level: the eight standard
/// levels by number, anything higher marked invalid.
pub open spec fn priority_desc_seq(priority: u8) -> Seq<char> {
    if priority == 0 {
        "emergency"@
    } else if priority == 1 {
        "alert"@
    } else if priority == 2 {
        "critical"@
    } else if priority == 3 {
        "error"@
    } else if priority == 4 {
        "warning"@
    } else if priority == 5 {
        "notice"@
    } else if priority == 6 {
        "info"@
    } else if priority == 7 {
        "debug"@
    } else {
        "invalid priority"@
    }
}

/// Names a syslog priority level.
pub fn priority_description(priority: u8) -> (d: &'static str)
    ensures
        d@ == priority_desc_seq(priority),
{
    match priority {
        0 => "emergency",
        1 => "alert",
        2 => "critical",
        3 => "error",
        4 => "warning",
        5 => "notice",
        6 => "info",
        7 => "debug",
        _ => "invalid priority",
    }
}

/// One `KEY=value` string: the prefix (which ends in the equals sign)
/// followed by the value.
fn format_field(prefix: &str, value: &str) -> (s: String)
    ensures
        s@ == prefix@ + value@,
{
    String::from_str(prefix).concat(value)
}

/// The ten `KEY=value` strings of one structured message, in the order the
/// native send call receives them.
pub fn build_send_fields(
    message_id: &str,
    message: &str,
    source: &str,
    source_man: &str,
    device: &str,
    device_id: &str,
    state: &str,
    priority: u8,
    details: &str,
) -> (fields: Vec<String>)
    ensures
        fields@.len() == 10,
        fields@[0]@ == "MESSAGE_ID="@ + message_id@,
        fields@[1]@ == "DEVICE="@ + device@,
        fields@[2]@ == "DEVICE_ID="@ + device_id@,
        fields@[3]@ == "STATE="@ + state@,
        fields@[4]@ == "SOURCE="@ + source@,
        fields@[5]@ == "SOURCE_MAN="@ + source_man@,
        fields@[6]@ == "DETAILS="@ + details@,
        fields@[7]@ == "PRIORITY="@ + dec_seq(priority as nat),
        fields@[8]@ == "PRIORITY_DESC="@ + priority_desc_seq(priority),
        fields@[9]@ == "MESSAGE="@ + message@,
{
    let mut fields: Vec<String> = Vec::new();
    fields.push(format_field("MESSAGE_ID=", message_id));
    fields.push(format_field("DEVICE=", device));
    fields.push(format_field("DEVICE_ID=", device_id));
    fields.push(format_field("STATE=", state));
    fields.push(format_field("SOURCE=", source));
    fields.push(format_field("SOURCE_MAN=", source_man));
    fields.push(format_field("DETAILS=", details));
    fields.push(format_field("PRIORITY=", u64_to_dec(priority as u64).as_str()));
    fields.push(format_field("PRIORITY_DESC=", priority_description(priority)));
    fields.push(format_field("MESSAGE=", message));
    fields
}

/// Reads the result of the native send call: a negative code is the send
/// error, anything else reports success.
pub fn send_outcome(rc: i32) -> (r: Result<bool, ClibraryError>)
    ensures
        rc < 0 ==> (r matches Err(e) && e.message@ == "Error on sd_journal_send"@
            && e.return_code == rc && e.err_reason@ == Seq::<char>::empty()),
        rc >= 0 ==> r == Result::<bool, ClibraryError>::Ok(true),
{
    if rc < 0 {
        Err(ClibraryError::new(String::from_str("Error on sd_journal_send"), rc))
    } else {
        Ok(true)
    }
}

} // verus!
