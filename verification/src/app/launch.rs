//! Decisions taken when the rotation is launched: the privilege check for the
//! full tunnel, and the choice among candidate locations of the core's files.
use vstd::prelude::*;

use crate::text::{decimal, decimal_chars, push_chars, push_str, string_from_chars};

verus! {

/// The name of the core's configuration file in the configuration directory.
pub const CONFIG_FILE_NAME: &'static str = "config.yaml";

/// The message of a launch refused for want of privileges.
pub open spec fn tun_refusal() -> Seq<char> {
    "Administrator privileges required to enable Wintun TUN mode on Windows!"@
}

/// The full tunnel needs an elevated process: a launch with the tunnel on and no
/// elevation is refused, every other launch may go on.
pub fn check_tun_privileges(enable_tun: bool, elevated: bool) -> (r: Result<(), String>)
    ensures
        r is Err <==> (enable_tun && !elevated),
        r matches Err(m) ==> m@ == tun_refusal(),
{
    if enable_tun && !elevated {
        let m = "Administrator privileges required to enable Wintun TUN mode on Windows!".to_string();
        proof {
            vstd::string::to_string_from_display_ensures_for_str(
                "Administrator privileges required to enable Wintun TUN mode on Windows!",
                m,
            );
        }
        Err(m)
    } else {
        Ok(())
    }
}

/// The position of the first candidate that exists.
pub open spec fn first_true(flags: Seq<bool>) -> Option<int>
    decreases flags.len(),
{
    if flags.len() == 0 {
        None
    } else if flags[0] {
        Some(0)
    } else {
        match first_true(flags.drop_first()) {
            Some(i) => Some(i + 1),
            None => None,
        }
    }
}

/// The position of the first candidate location that exists, if any.
pub fn first_existing(exists: &Vec<bool>) -> (r: Option<usize>)
    ensures
        match r {
            Some(i) => first_true(exists@) == Some(i as int),
            None => first_true(exists@) is None,
        },
{
    let mut i: usize = 0;
    assert(exists@.skip(0) =~= exists@);
    while i < exists.len()
        invariant
            i <= exists.len(),
            first_true(exists@) == match first_true(exists@.skip(i as int)) {
                Some(j) => Some(j + i),
                None => None,
            },
        decreases exists.len() - i,
    {
        assert(exists@.skip(i as int).drop_first() =~= exists@.skip(i + 1));
        if exists[i] {
            return Some(i);
        }
        i = i + 1;
    }
    None
}

/// The core's binary: the first candidate that exists, else the first candidate
/// (so that the error names where it was looked for); `None` without candidates.
pub fn choose_binary(exists: &Vec<bool>) -> (r: Option<usize>)
    ensures
        match first_true(exists@) {
            Some(i) => r == Some(i as usize),
            None => if exists@.len() > 0 {
                r == Some(0usize)
            } else {
                r is None
            },
        },
{
    match first_existing(exists) {
        Some(i) => Some(i),
        None => if exists.len() > 0 {
            Some(0)
        } else {
            None
        },
    }
}

/// The text of a panic report for the log.
pub open spec fn panic_report_text(timestamp: Seq<char>, message: Seq<char>, detail: Seq<char>, location: Seq<char>) -> Seq<char> {
    "["@ + timestamp + "] PANIC: "@ + message + "\n  detail: "@ + detail + "\n  at: "@ + location + "\n"@
}

/// The report of a panic: when, what, the payload and where.
pub fn panic_report(timestamp: &str, message: &str, detail: &str, location: &str) -> (r: String)
    ensures
        r@ == panic_report_text(timestamp@, message@, detail@, location@),
{
    let mut out: Vec<char> = Vec::new();
    push_str(&mut out, "[");
    push_str(&mut out, timestamp);
    push_str(&mut out, "] PANIC: ");
    push_str(&mut out, message);
    push_str(&mut out, "\n  detail: ");
    push_str(&mut out, detail);
    push_str(&mut out, "\n  at: ");
    push_str(&mut out, location);
    push_str(&mut out, "\n");
    string_from_chars(&out)
}

/// A source location as `file:line`.
pub fn code_location(file: &str, line: u32) -> (r: String)
    ensures
        r@ == file@ + ":"@ + decimal(line as nat),
{
    let mut out: Vec<char> = Vec::new();
    push_str(&mut out, file);
    push_str(&mut out, ":");
    let digits = decimal_chars(line as u64);
    push_chars(&mut out, &digits);
    string_from_chars(&out)
}

} // verus!
