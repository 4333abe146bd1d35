use vstd::prelude::*;
use vstd::string::StringExecFns;

use crate::severity::{severity_name, Severity};

verus! {

/// The character of a decimal digit `d < 10`.
pub open spec fn digit_char(d: nat) -> char {
    if d == 0 {
        '0'
    } else if d == 1 {
        '1'
    } else if d == 2 {
        '2'
    } else if d == 3 {
        '3'
    } else if d == 4 {
        '4'
    } else if d == 5 {
        '5'
    } else if d == 6 {
        '6'
    } else if d == 7 {
        '7'
    } else if d == 8 {
        '8'
    } else {
        '9'
    }
}

/// `n` written in decimal, most significant digit first, without leading zeros.
pub open spec fn decimal_digits(n: nat) -> Seq<char>
    decreases n,
{
    if n < 10 {
        seq![digit_char(n)]
    } else {
        decimal_digits(n / 10) + seq![digit_char(n % 10)]
    }
}

/// The text of one log line: `<timestamp> <LEVEL> <message>`.
pub open spec fn line_text(timestamp_ns: u64, level: Severity, message: Seq<char>) -> Seq<char> {
    decimal_digits(timestamp_ns as nat) + seq![' '] + severity_name(level) + seq![' '] + message
}

fn digit_str(d: u64) -> (r: &'static str)
    requires
        d < 10,
    ensures
        r@ == seq![digit_char(d as nat)],
{
    if d == 0 {
        proof { reveal_strlit("0"); }
        "0"
    } else if d == 1 {
        proof { reveal_strlit("1"); }
        "1"
    } else if d == 2 {
        proof { reveal_strlit("2"); }
        "2"
    } else if d == 3 {
        proof { reveal_strlit("3"); }
        "3"
    } else if d == 4 {
        proof { reveal_strlit("4"); }
        "4"
    } else if d == 5 {
        proof { reveal_strlit("5"); }
        "5"
    } else if d == 6 {
        proof { reveal_strlit("6"); }
        "6"
    } else if d == 7 {
        proof { reveal_strlit("7"); }
        "7"
    } else if d == 8 {
        proof { reveal_strlit("8"); }
        "8"
    } else {
        proof { reveal_strlit("9"); }
        "9"
    }
}

/// Writes `n` in decimal.
pub fn decimal(n: u64) -> (r: String)
    ensures
        r@ == decimal_digits(n as nat),
    decreases n,
{
    if n < 10 {
        String::from_str(digit_str(n))
    } else {
        let mut s = decimal(n / 10);
        s.append(digit_str(n % 10));
        s
    }
}

/// One event handed from a producer to the writer.
#[derive(Clone, Debug, PartialEq, Eq, Hash)]
pub struct LogEvent {
    pub timestamp_ns: u64,
    pub level: Severity,
    pub message: String,
}

impl LogEvent {
    pub fn new(timestamp_ns: u64, level: Severity, message: String) -> (r: LogEvent)
        ensures
            r.timestamp_ns == timestamp_ns,
            r.level == level,
            r.message@ == message@,
    {
        LogEvent { timestamp_ns, level, message }
    }

    /// The line that a sink receives for this event.
    pub fn line(&self) -> (r: String)
        ensures
            r@ == line_text(self.timestamp_ns, self.level, self.message@),
    {
        let mut s = decimal(self.timestamp_ns);
        proof { reveal_strlit(" "); }
        s.append(" ");
        s.append(self.level.name());
        s.append(" ");
        s.append(self.message.as_str());
        s
    }
}

/// What travels through the handoff queue: data, or one of two control signals.
/// `A` is the acknowledgement that the writer hands back once a flush is done.
pub enum Command<A> {
    Data(LogEvent),
    Flush(A),
    Shutdown,
}

} // verus!
