//! The end of a run: what the hooks print, and the exit code of the process.

use vstd::prelude::*;
use vstd::string::StringExecFns;

verus! {

/// The exit code of the host after a fatal condition: the allocator could not
/// serve a request, or the guest crashed.
pub const FATAL_EXIT_CODE: i32 = 1;

/// The exit code of a run whose guest reported success although a debug
/// statement or a failed expectation was seen.
pub const DEBUG_EXIT_CODE: i32 = 1;

/// What the guest reports for success.
pub const SUCCESS_STATUS: i32 = 0;

/// What the return slot holds before the guest has written its status.
pub const UNSET_STATUS: i32 = -99;

/// What precedes the message of a debug statement on the error stream.
pub const DBG_PREFIX: &'static str = "\x1b[33mdbg:\x1b[0m ";

/// What precedes the message of a failed expectation on the error stream.
pub const EXPECT_FAILED_PREFIX: &'static str = "\x1b[33mexpect failed:\x1b[0m ";

/// What precedes the message of a crash on the error stream.
pub const CRASHED_PREFIX: &'static str = "\n\x1b[31mRoc crashed:\x1b[0m ";

/// The exit code of the process. It is the status that the guest reported,
/// except that a run which saw a debug statement or a failed expectation
/// does not end in success.
pub open spec fn exit_code_of(guest_status: i32, debug_or_expect_called: bool) -> i32 {
    if debug_or_expect_called && guest_status == SUCCESS_STATUS {
        DEBUG_EXIT_CODE
    } else {
        guest_status
    }
}

/// The exit code of the process.
#[verifier::when_used_as_spec(exit_code_of)]
pub fn final_exit_code(guest_status: i32, debug_or_expect_called: bool) -> (code: i32)
    ensures
        code == exit_code_of(guest_status, debug_or_expect_called),
{
    if debug_or_expect_called && guest_status == SUCCESS_STATUS {
        DEBUG_EXIT_CODE
    } else {
        guest_status
    }
}

/// A run that saw a debug statement or a failed expectation never ends in
/// success, and every other run ends as the guest said.
pub proof fn lemma_exit_code(guest_status: i32, debug_or_expect_called: bool)
    ensures
        debug_or_expect_called ==> exit_code_of(guest_status, debug_or_expect_called)
            != SUCCESS_STATUS,
        !debug_or_expect_called ==> exit_code_of(guest_status, debug_or_expect_called)
            == guest_status,
        guest_status != SUCCESS_STATUS ==> exit_code_of(guest_status, debug_or_expect_called)
            == guest_status,
{
}

/// The text that `str::trim` leaves of a text.
pub uninterp spec fn trimmed(text: Seq<char>) -> Seq<char>;

/// Whether `part` is a piece of `text`: some of its characters, in one run.
pub open spec fn is_piece_of(part: Seq<char>, text: Seq<char>) -> bool {
    exists|from: int, to: int| 0 <= from <= to <= text.len() && part == text.subrange(from, to)
}

/// Calls `str::trim`. The contract names what is left and says that it is a
/// part of the text, in one piece. Which characters count as white space is
/// not stated.
#[verifier::external_body]
fn trim(text: &str) -> (rest: &str)
    ensures
        rest@ == trimmed(text@),
        is_piece_of(rest@, text@),
{
    text.trim()
}

fn prefixed(prefix: &str, message: &str) -> (line: String)
    ensures
        line@ == prefix@ + message@,
{
    let mut line = prefix.to_owned();
    line.append(message);
    line
}

/// The line that the error stream gets for a debug statement.
pub fn dbg_line(message: &str) -> (line: String)
    ensures
        line@ == DBG_PREFIX@ + message@,
{
    prefixed(DBG_PREFIX, message)
}

/// The line that the error stream gets for a failed expectation: the message
/// without the white space around it, which is a piece of the message.
pub fn expect_failed_line(message: &str) -> (line: String)
    ensures
        line@ == EXPECT_FAILED_PREFIX@ + trimmed(message@),
        is_piece_of(trimmed(message@), message@),
{
    prefixed(EXPECT_FAILED_PREFIX, trim(message))
}

/// The line that the error stream gets for a crash of the guest.
pub fn crashed_line(message: &str) -> (line: String)
    ensures
        line@ == CRASHED_PREFIX@ + message@,
{
    prefixed(CRASHED_PREFIX, message)
}

} // verus!
