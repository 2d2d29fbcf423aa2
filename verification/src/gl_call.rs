//! Checking OpenGL's error flag around a call.
use vstd::prelude::*;

use crate::command::{Command, Reply};
use crate::gl;

verus! {

/// Where a call stands.
#[derive(Clone, Copy, Debug, PartialEq, Eq, Structural)]
pub enum CallPhase {
    /// Errors from before the call are being cleared.
    Clearing,
    /// The call is to be made.
    Calling,
    /// The errors of the call are being collected.
    Collecting,
    Finished,
}

/// What a call needs next.
#[derive(Clone, Copy, Debug, PartialEq, Eq, Structural)]
pub enum CallAction {
    /// Read the error flag.
    ReadError,
    /// Make the call.
    Invoke,
    /// Go on: the call raised no error.
    Succeed,
    /// Give up: the call raised an error.
    Fail,
}

/// An OpenGL call, with the error flag checked around it or not.
#[derive(Clone, Copy, Debug, PartialEq, Eq, Structural)]
pub struct GlCall {
    pub checked: bool,
    pub phase: CallPhase,
    /// Whether the call raised an error.
    pub errored: bool,
}

impl GlCall {
    /// A call that is checked or not, before anything has been done about it.
    pub open spec fn initial(checked: bool) -> GlCall {
        GlCall {
            checked,
            phase: if checked {
                CallPhase::Clearing
            } else {
                CallPhase::Calling
            },
            errored: false,
        }
    }

    /// Begins the call that a command stands for. Only a debug build checks the error
    /// flag, and only around the commands that allow it.
    pub fn new(debug: bool, command: &Command) -> (call: GlCall)
        ensures
            call == GlCall::initial(debug && command.spec_is_checked()),
    {
        let checked = debug && command.is_checked();
        GlCall {
            checked,
            phase: if checked {
                CallPhase::Clearing
            } else {
                CallPhase::Calling
            },
            errored: false,
        }
    }

    /// What the call needs next.
    pub open spec fn spec_action(self) -> CallAction {
        match self.phase {
            CallPhase::Clearing | CallPhase::Collecting => CallAction::ReadError,
            CallPhase::Calling => CallAction::Invoke,
            CallPhase::Finished => if self.errored {
                CallAction::Fail
            } else {
                CallAction::Succeed
            },
        }
    }

    /// What the call needs next.
    pub fn action(&self) -> (action: CallAction)
        ensures
            action == self.spec_action(),
    {
        match self.phase {
            CallPhase::Clearing | CallPhase::Collecting => CallAction::ReadError,
            CallPhase::Calling => CallAction::Invoke,
            CallPhase::Finished => if self.errored {
                CallAction::Fail
            } else {
                CallAction::Succeed
            },
        }
    }

    /// The call after the error flag has been read.
    pub open spec fn after_error(self, code: u32) -> GlCall {
        match self.phase {
            CallPhase::Clearing => if code == gl::NO_ERROR {
                GlCall { phase: CallPhase::Calling, ..self }
            } else {
                self
            },
            CallPhase::Collecting => if code == gl::NO_ERROR {
                GlCall { phase: CallPhase::Finished, ..self }
            } else {
                GlCall { errored: true, ..self }
            },
            _ => self,
        }
    }

    /// Whether an error code is one of the call, to be reported.
    pub open spec fn reports(self, code: u32) -> bool {
        self.phase is Collecting && code != gl::NO_ERROR
    }

    /// Takes a reading of the error flag. Errors from before the call are dropped;
    /// those of the call are handed back to be reported.
    pub fn error_read(&mut self, code: u32) -> (report: Option<u32>)
        ensures
            *final(self) == old(self).after_error(code),
            report == if old(self).reports(code) {
                Some(code)
            } else {
                None
            },
    {
        match self.phase {
            CallPhase::Clearing => {
                if code == gl::NO_ERROR {
                    self.phase = CallPhase::Calling;
                }
                None
            },
            CallPhase::Collecting => {
                if code == gl::NO_ERROR {
                    self.phase = CallPhase::Finished;
                    None
                } else {
                    self.errored = true;
                    Some(code)
                }
            },
            _ => None,
        }
    }

    /// The call after it has been made.
    pub open spec fn after_invoked(self) -> GlCall {
        if self.phase is Calling {
            GlCall {
                phase: if self.checked {
                    CallPhase::Collecting
                } else {
                    CallPhase::Finished
                },
                ..self
            }
        } else {
            self
        }
    }

    /// Notes that the call has been made.
    pub fn invoked(&mut self)
        ensures
            *final(self) == old(self).after_invoked(),
    {
        match self.phase {
            CallPhase::Calling => {
                self.phase = if self.checked {
                    CallPhase::Collecting
                } else {
                    CallPhase::Finished
                };
            },
            _ => {},
        }
    }

    /// Hands out what a call gave back, if the call came to its end without an error. A
    /// call that raised one has nothing to hand out.
    pub fn reply<'a>(&self, given: &'a Reply) -> (reply: Option<&'a Reply>)
        ensures
            reply == if self.spec_action() == CallAction::Succeed {
                Some(given)
            } else {
                None
            },
    {
        match self.action() {
            CallAction::Succeed => Some(given),
            _ => None,
        }
    }

    /// The call after a run of readings of the error flag.
    pub open spec fn after_errors(self, codes: Seq<u32>) -> GlCall
        decreases codes.len(),
    {
        if codes.len() == 0 {
            self
        } else {
            self.after_errors(codes.drop_last()).after_error(codes.last())
        }
    }

    /// The codes that are reported over a run of readings.
    pub open spec fn reported(self, codes: Seq<u32>) -> Seq<u32>
        decreases codes.len(),
    {
        if codes.len() == 0 {
            Seq::empty()
        } else if self.after_errors(codes.drop_last()).reports(codes.last()) {
            self.reported(codes.drop_last()).push(codes.last())
        } else {
            self.reported(codes.drop_last())
        }
    }

    /// A checked call at its end, with the errors that were pending before it and those
    /// that it raised.
    pub open spec fn checked_through(before: Seq<u32>, raised: Seq<u32>) -> GlCall {
        GlCall::initial(true).after_errors(before.push(gl::NO_ERROR)).after_invoked().after_errors(
            raised.push(gl::NO_ERROR),
        )
    }

    /// A checked call fails exactly if the error flag was raised by it: whatever
    /// errors were pending before are cleared and forgotten, and all of the errors
    /// raised by the call are reported, in the order in which they are read.
    pub proof fn checked_call_reports_own_errors(before: Seq<u32>, raised: Seq<u32>)
        requires
            forall|i: int| 0 <= i < before.len() ==> before[i] != gl::NO_ERROR,
            forall|i: int| 0 <= i < raised.len() ==> raised[i] != gl::NO_ERROR,
        ensures
            ({
                let call = GlCall::initial(true);
                let cleared = call.after_errors(before.push(gl::NO_ERROR));
                let collecting = cleared.after_invoked();
                let finished = GlCall::checked_through(before, raised);
                &&& call.reported(before.push(gl::NO_ERROR)) == Seq::<u32>::empty()
                &&& cleared.spec_action() == CallAction::Invoke
                &&& collecting.reported(raised.push(gl::NO_ERROR)) == raised
                &&& finished.spec_action() == if raised.len() == 0 {
                    CallAction::Succeed
                } else {
                    CallAction::Fail
                }
            }),
    {
        let call = GlCall::initial(true);
        GlCall::lemma_clearing(call, before);
        assert(before.push(gl::NO_ERROR).drop_last() =~= before);
        let collecting = GlCall { phase: CallPhase::Collecting, ..call };
        GlCall::lemma_collecting(collecting, raised);
        assert(raised.push(gl::NO_ERROR).drop_last() =~= raised);
    }

    proof fn lemma_clearing(call: GlCall, before: Seq<u32>)
        requires
            call.phase is Clearing,
            forall|i: int| 0 <= i < before.len() ==> before[i] != gl::NO_ERROR,
        ensures
            call.after_errors(before) == call,
            call.reported(before) == Seq::<u32>::empty(),
        decreases before.len(),
    {
        if before.len() > 0 {
            GlCall::lemma_clearing(call, before.drop_last());
        }
    }

    proof fn lemma_collecting(call: GlCall, raised: Seq<u32>)
        requires
            call.phase is Collecting,
            !call.errored,
            forall|i: int| 0 <= i < raised.len() ==> raised[i] != gl::NO_ERROR,
        ensures
            call.after_errors(raised) == (GlCall { errored: raised.len() > 0, ..call }),
            call.reported(raised) == raised,
        decreases raised.len(),
    {
        if raised.len() > 0 {
            GlCall::lemma_collecting(call, raised.drop_last());
            assert(raised.drop_last().push(raised.last()) =~= raised);
        }
    }

    /// An unchecked call never reads the error flag and never fails.
    pub proof fn unchecked_call_succeeds()
        ensures
            GlCall::initial(false).spec_action() == CallAction::Invoke,
            GlCall::initial(false).after_invoked().spec_action() == CallAction::Succeed,
    {
    }
}

/// The digit for a value below 16.
pub open spec fn digit(value: nat) -> char {
    if value < 10 {
        ('0' as nat + value) as char
    } else {
        ('A' as nat + (value - 10)) as char
    }
}

/// A number in upper-case hexadecimal, without leading zeros.
pub open spec fn hexadecimal(value: nat) -> Seq<char>
    decreases value,
{
    if value < 16 {
        seq![digit(value)]
    } else {
        hexadecimal(value / 16).push(digit(value % 16))
    }
}

/// A number in decimal, without leading zeros.
pub open spec fn decimal(value: nat) -> Seq<char>
    decreases value,
{
    if value < 10 {
        seq![digit(value)]
    } else {
        decimal(value / 10).push(digit(value % 10))
    }
}

fn digit_str(value: u32) -> (text: &'static str)
    requires
        value < 16,
    ensures
        text@ == seq![digit(value as nat)],
{
    proof {
        reveal_strlit("0");
        reveal_strlit("1");
        reveal_strlit("2");
        reveal_strlit("3");
        reveal_strlit("4");
        reveal_strlit("5");
        reveal_strlit("6");
        reveal_strlit("7");
        reveal_strlit("8");
        reveal_strlit("9");
        reveal_strlit("A");
        reveal_strlit("B");
        reveal_strlit("C");
        reveal_strlit("D");
        reveal_strlit("E");
        reveal_strlit("F");
    }
    if value == 0 {
        "0"
    } else if value == 1 {
        "1"
    } else if value == 2 {
        "2"
    } else if value == 3 {
        "3"
    } else if value == 4 {
        "4"
    } else if value == 5 {
        "5"
    } else if value == 6 {
        "6"
    } else if value == 7 {
        "7"
    } else if value == 8 {
        "8"
    } else if value == 9 {
        "9"
    } else if value == 10 {
        "A"
    } else if value == 11 {
        "B"
    } else if value == 12 {
        "C"
    } else if value == 13 {
        "D"
    } else if value == 14 {
        "E"
    } else {
        "F"
    }
}

fn append_hexadecimal(text: &mut String, value: u32)
    ensures
        final(text)@ == old(text)@ + hexadecimal(value as nat),
    decreases value,
{
    if value >= 16 {
        append_hexadecimal(text, value / 16);
    }
    text.append(digit_str(value % 16));
}

fn append_decimal(text: &mut String, value: u32)
    ensures
        final(text)@ == old(text)@ + decimal(value as nat),
    decreases value,
{
    if value >= 10 {
        append_decimal(text, value / 10);
    }
    text.append(digit_str(value % 10));
}

/// The report of an OpenGL error, with the place of the call that raised it.
pub fn error_message(code: u32, file: &str, line: u32) -> (message: String)
    ensures
        message@ == "OpenGL error: 0x"@ + hexadecimal(code as nat) + " at "@ + file@ + ":"@
            + decimal(line as nat),
{
    let mut message = "OpenGL error: 0x".to_owned();
    append_hexadecimal(&mut message, code);
    message.append(" at ");
    message.append(file);
    message.append(":");
    append_decimal(&mut message, line);
    message
}

/// What the demo ends with when an OpenGL call has raised an error.
pub fn failure_message(call: &str) -> (message: String)
    ensures
        message@ == "Encountered OpenGL error in "@ + call@,
{
    let mut message = "Encountered OpenGL error in ".to_owned();
    message.append(call);
    message
}

/// The value of a digit, of which those from 10 on are upper-case letters.
pub open spec fn digit_value(digit: char) -> int {
    if '0' <= digit <= '9' {
        digit as int - '0' as int
    } else {
        digit as int - 'A' as int + 10
    }
}

/// The number that digits stand for in a base.
pub open spec fn number(digits: Seq<char>, base: int) -> int
    decreases digits.len(),
{
    if digits.len() == 0 {
        0
    } else {
        base * number(digits.drop_last(), base) + digit_value(digits.last())
    }
}

/// A number in hexadecimal reads back as that number, is made of the digits 0 to 9 and A to
/// F, and has no zero in front unless it is zero.
pub proof fn hexadecimal_reads_back(value: nat)
    ensures
        number(hexadecimal(value), 16) == value,
        forall|i: int|
            0 <= i < hexadecimal(value).len() ==> {
                let digit = #[trigger] hexadecimal(value)[i];
                '0' <= digit <= '9' || 'A' <= digit <= 'F'
            },
        hexadecimal(value).len() > 0,
        hexadecimal(value)[0] == '0' ==> value == 0,
    decreases value,
{
    if value < 16 {
        assert(hexadecimal(value).drop_last() =~= Seq::<char>::empty());
        assert(number(Seq::<char>::empty(), 16) == 0);
        assert(16 * number(Seq::<char>::empty(), 16) == 0);
    } else {
        hexadecimal_reads_back(value / 16);
        assert(hexadecimal(value).drop_last() =~= hexadecimal(value / 16));
    }
}

/// A number in decimal reads back as that number, is made of the digits 0 to 9, and has no
/// zero in front unless it is zero.
pub proof fn decimal_reads_back(value: nat)
    ensures
        number(decimal(value), 10) == value,
        forall|i: int|
            0 <= i < decimal(value).len() ==> '0' <= #[trigger] decimal(value)[i] <= '9',
        decimal(value).len() > 0,
        decimal(value)[0] == '0' ==> value == 0,
    decreases value,
{
    if value < 10 {
        assert(decimal(value).drop_last() =~= Seq::<char>::empty());
        assert(number(Seq::<char>::empty(), 10) == 0);
        assert(10 * number(Seq::<char>::empty(), 10) == 0);
    } else {
        decimal_reads_back(value / 10);
        assert(decimal(value).drop_last() =~= decimal(value / 10));
    }
}

} // verus!
