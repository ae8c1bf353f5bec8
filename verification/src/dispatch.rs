//! The call-through dispatcher's decision logic.
//!
//! The replacement body installed over the host's console-output function
//! delegates every decision to this module: whether to swallow a message the
//! command channel itself echoed (the suppression flag), whether to treat a
//! message as an in-band command line, and what to hand back to the host.
//! The decision is a pure step function of the hook state, the suppression
//! flag and the decoded text; the unverified boundary only decodes, forwards
//! through the continuation, and performs the chosen action.

use vstd::prelude::*;
use crate::command::{spec_parse, parse_command, Command};
use crate::wide::{decoded_of, wide_of, encode_wide, decode_wide};

verus! {

/// The color codes the host's console-output function understands.
#[derive(Clone, Copy, Debug, PartialEq, Eq, Structural)]
pub enum TextColor {
    Black,
    Grey,
    White,
    White2,
    DarkRed,
    Red,
    LightRed,
    DarkGreen,
    Green,
    LightGreen,
    DarkBlue,
    Blue,
    LightBlue,
    DarkYellow,
    Yellow,
    LightYellow,
}

impl TextColor {
    /// The numeric code the host assigns to each color.
    pub open spec fn spec_code(self) -> u32 {
        match self {
            TextColor::Black => 1,
            TextColor::Grey => 2,
            TextColor::White => 3,
            TextColor::White2 => 4,
            TextColor::DarkRed => 5,
            TextColor::Red => 6,
            TextColor::LightRed => 7,
            TextColor::DarkGreen => 8,
            TextColor::Green => 9,
            TextColor::LightGreen => 10,
            TextColor::DarkBlue => 11,
            TextColor::Blue => 12,
            TextColor::LightBlue => 13,
            TextColor::DarkYellow => 14,
            TextColor::Yellow => 15,
            TextColor::LightYellow => 16,
        }
    }

    /// The numeric code, for handing to the host.
    pub fn code(&self) -> (r: u32)
        ensures
            r == self.spec_code(),
    {
        match self {
            TextColor::Black => 1,
            TextColor::Grey => 2,
            TextColor::White => 3,
            TextColor::White2 => 4,
            TextColor::DarkRed => 5,
            TextColor::Red => 6,
            TextColor::LightRed => 7,
            TextColor::DarkGreen => 8,
            TextColor::Green => 9,
            TextColor::LightGreen => 10,
            TextColor::DarkBlue => 11,
            TextColor::Blue => 12,
            TextColor::LightBlue => 13,
            TextColor::DarkYellow => 14,
            TextColor::Yellow => 15,
            TextColor::LightYellow => 16,
        }
    }
}

/// What the replacement body must do with one intercepted console call.
#[derive(Clone, Copy, Debug, PartialEq, Eq, Structural)]
pub enum ConsoleOutcome {
    /// The message is the command channel's own pending echo: report it
    /// handled without forwarding, and do nothing else.
    Suppressed,
    /// The message was a recognized command line: run the command, report
    /// the call handled without forwarding.
    Run(Command),
    /// The message was a command line that matched no recognized form: send
    /// the usage reply through the continuation, report the call handled.
    Usage,
    /// An ordinary message: forward unchanged through the continuation and
    /// hand the host the continuation's own result.
    Forward,
}

/// The reserved prefix `"> /hax"` that marks a command line.
pub open spec fn prefix_text() -> Seq<u8> {
    seq![62u8, 32u8, 47u8, 104u8, 97u8, 120u8]
}

/// Whether decoded text is a command line: it starts with the reserved
/// prefix.
pub open spec fn is_command_text(s: Seq<u8>) -> bool {
    s.len() >= 6 && s.take(6) == prefix_text()
}

/// The command-line remainder after the reserved prefix.
pub open spec fn rest_of(s: Seq<u8>) -> Seq<u8> {
    s.skip(6)
}

/// The dispatcher's decision as a pure step function: from the console
/// hook's enabled state, the suppression flag and the decoded text to the
/// new flag and the outcome.  While the hook is disabled no replacement
/// logic runs; a set flag swallows exactly the one next call; otherwise a
/// message is a command line exactly when it starts with the reserved
/// prefix, and any other message passes through untouched.
pub open spec fn console_step(enabled: bool, flag: bool, text: Seq<u8>) -> (bool, ConsoleOutcome) {
    if !enabled {
        (flag, ConsoleOutcome::Forward)
    } else if flag {
        (false, ConsoleOutcome::Suppressed)
    } else if is_command_text(text) {
        match spec_parse(rest_of(text)) {
            Some(c) => (true, ConsoleOutcome::Run(c)),
            None => (true, ConsoleOutcome::Usage),
        }
    } else {
        (false, ConsoleOutcome::Forward)
    }
}

/// The value handed back to the host: the continuation's own result on a
/// forwarded call, and the host's "handled" value on every call the
/// dispatcher consumed.
pub open spec fn spec_console_result(out: ConsoleOutcome, forwarded: u32) -> u32 {
    if out is Forward {
        forwarded
    } else {
        1
    }
}

/// Executable mirror of `spec_console_result`: on a passthrough the host
/// receives exactly what the original function returned.
pub fn console_result(out: &ConsoleOutcome, forwarded: u32) -> (r: u32)
    ensures
        r == spec_console_result(*out, forwarded),
{
    match out {
        ConsoleOutcome::Forward => forwarded,
        _ => 1,
    }
}

/// The usage reply sent for a command line that matches no recognized form:
/// `usage: /hax circle | dump entities`.
pub open spec fn usage_text() -> Seq<u8> {
    seq![
        117u8, 115u8, 97u8, 103u8, 101u8, 58u8, 32u8, 47u8, 104u8, 97u8, 120u8, 32u8, 99u8,
        105u8, 114u8, 99u8, 108u8, 101u8, 32u8, 124u8, 32u8, 100u8, 117u8, 109u8, 112u8, 32u8,
        101u8, 110u8, 116u8, 105u8, 116u8, 105u8, 101u8, 115u8,
    ]
}

/// Builds the usage reply; it is never empty.
pub fn usage_message() -> (r: Vec<u8>)
    ensures
        r@ == usage_text(),
        r@.len() > 0,
{
    let mut r: Vec<u8> = Vec::new();
    r.push(117);
    r.push(115);
    r.push(97);
    r.push(103);
    r.push(101);
    r.push(58);
    r.push(32);
    r.push(47);
    r.push(104);
    r.push(97);
    r.push(120);
    r.push(32);
    r.push(99);
    r.push(105);
    r.push(114);
    r.push(99);
    r.push(108);
    r.push(101);
    r.push(32);
    r.push(124);
    r.push(32);
    r.push(100);
    r.push(117);
    r.push(109);
    r.push(112);
    r.push(32);
    r.push(101);
    r.push(110);
    r.push(116);
    r.push(105);
    r.push(116);
    r.push(105);
    r.push(101);
    r.push(115);
    proof {
        assert(r@ =~= usage_text());
    }
    r
}

/// The usage reply, encoded for the host's wide-character console.
pub fn usage_reply_wide() -> (r: Vec<u16>)
    ensures
        r@ == wide_of(usage_text()),
        r@.len() > 0,
{
    let msg = usage_message();
    encode_wide(&msg)
}

/// Decides one intercepted console call from already-decoded text.  `flag`
/// is the suppression flag by mutable reference; `enabled` is the console
/// hook's state.
pub fn decide_console(enabled: bool, flag: &mut bool, text: &Vec<u8>) -> (out: ConsoleOutcome)
    ensures
        (*final(flag), out) == console_step(enabled, *old(flag), text@),
{
    if !enabled {
        return ConsoleOutcome::Forward;
    }
    if *flag {
        *flag = false;
        return ConsoleOutcome::Suppressed;
    }
    let is_cmd: bool = if text.len() >= 6 {
        let m = text[0] == 62 && text[1] == 32 && text[2] == 47 && text[3] == 104 && text[4] == 97
            && text[5] == 120;
        proof {
            if m {
                assert(text@.take(6) =~= prefix_text());
            } else {
                if text@.take(6) == prefix_text() {
                    assert(text@.take(6)[0] == text@[0] && prefix_text()[0] == 62);
                    assert(text@.take(6)[1] == text@[1] && prefix_text()[1] == 32);
                    assert(text@.take(6)[2] == text@[2] && prefix_text()[2] == 47);
                    assert(text@.take(6)[3] == text@[3] && prefix_text()[3] == 104);
                    assert(text@.take(6)[4] == text@[4] && prefix_text()[4] == 97);
                    assert(text@.take(6)[5] == text@[5] && prefix_text()[5] == 120);
                }
            }
        }
        m
    } else {
        false
    };
    if !is_cmd {
        return ConsoleOutcome::Forward;
    }
    let mut rest: Vec<u8> = Vec::new();
    let mut i: usize = 6;
    while i < text.len()
        invariant
            6 <= i <= text@.len(),
            text@.len() >= 6,
            rest@ == text@.subrange(6, i as int),
        decreases text@.len() - i,
    {
        rest.push(text[i]);
        proof {
            assert(rest@ =~= text@.subrange(6, i as int + 1));
        }
        i = i + 1;
    }
    proof {
        assert(rest@ =~= rest_of(text@));
    }
    *flag = true;
    match parse_command(&rest) {
        Ok(c) => ConsoleOutcome::Run(c),
        Err(_) => ConsoleOutcome::Usage,
    }
}

/// Decides one intercepted console call from the raw wide-character message,
/// by first decoding it; the decision is exactly `console_step` on the
/// decoded text.
pub fn decide_console_wide(enabled: bool, flag: &mut bool, units: &Vec<u16>) -> (out:
    ConsoleOutcome)
    ensures
        (*final(flag), out) == console_step(enabled, *old(flag), decoded_of(units@)),
{
    let text = decode_wide(units);
    decide_console(enabled, flag, &text)
}

/// An ordinary message with the flag clear passes through untouched: the
/// dispatcher neither consumes it nor changes any state, and the host
/// receives the original function's own result.
pub proof fn lemma_passthrough_identity(enabled: bool, text: Seq<u8>, forwarded: u32)
    requires
        !is_command_text(text),
    ensures
        console_step(enabled, false, text) == (false, ConsoleOutcome::Forward),
        spec_console_result(console_step(enabled, false, text).1, forwarded) == forwarded,
{
}

/// A command line that matches no recognized form is consumed, never
/// forwarded, and answered with the non-empty usage reply.
pub proof fn lemma_unrecognized_replies(text: Seq<u8>)
    requires
        is_command_text(text),
        spec_parse(rest_of(text)) is None,
    ensures
        console_step(true, false, text) == (true, ConsoleOutcome::Usage),
        usage_text().len() > 0,
{
}

/// After a command line set the flag, the very next call is suppressed, no
/// matter its content, and the flag is clear again afterwards: one reply is
/// swallowed, exactly once.
pub proof fn lemma_suppression_single_shot(first: Seq<u8>, second: Seq<u8>)
    requires
        is_command_text(first),
    ensures
        console_step(true, false, first).0 == true,
        console_step(true, console_step(true, false, first).0, second) == (
            false,
            ConsoleOutcome::Suppressed,
        ),
{
}

} // verus!
