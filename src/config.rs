use vstd::prelude::*;

use core::num::ParseIntError;
use core::time::Duration;
use std::path::PathBuf;

verus! {

#[verifier::external_type_specification]
#[verifier::external_body]
pub struct ExParseIntError(ParseIntError);

#[verifier::external_type_specification]
#[verifier::external_body]
pub struct ExPathBuf(PathBuf);

/// Where user messages go and whether debugging output is on.
#[derive(Debug, PartialEq, Eq)]
pub struct LoggingConfig {
    /// A file that receives every user message instead of the terminal.
    pub output: Option<PathBuf>,
    pub debug: bool,
}

/// When a test stops: after a number of packets, or after a time span.
#[derive(Debug, PartialEq, Eq)]
pub struct StopConditionsConfig {
    /// Packets to send to each destination; never zero.
    pub packets_count: usize,
    pub test_duration: Duration,
}

/// What is sent: random bytes of a given length, or a file's content.
#[derive(Debug, PartialEq, Eq)]
pub struct PacketConfig {
    /// The length of a random packet; never zero when present.
    pub packet_length: Option<usize>,
    pub send_file: Option<PathBuf>,
}

/// Why a text is not a positive integer.
#[derive(Debug, PartialEq, Eq)]
pub enum NonZeroUsizeError {
    InvalidFormat(ParseIntError),
    ZeroValue,
}

pub open spec fn is_decimal_digit(c: char) -> bool {
    '0' <= c && c <= '9'
}

/// The number that a string of decimal digits writes.
pub open spec fn decimal_value(s: Seq<char>) -> nat
    decreases s.len(),
{
    if s.len() == 0 {
        0
    } else {
        decimal_value(s.drop_last()) * 10 + ((s.last() as u32) - ('0' as u32)) as nat
    }
}

/// The digits of an unsigned number: the text without one leading `+`.
pub open spec fn unsigned_digits(s: Seq<char>) -> Seq<char> {
    if s.len() > 0 && s[0] == '+' {
        s.drop_first()
    } else {
        s
    }
}

/// The text is an optional `+` followed by one or more decimal digits whose
/// value fits in a `usize`.
pub open spec fn is_usize_text(s: Seq<char>) -> bool {
    let d = unsigned_digits(s);
    &&& d.len() > 0
    &&& forall|i: int| 0 <= i < d.len() ==> is_decimal_digit(#[trigger] d[i])
    &&& decimal_value(d) <= usize::MAX
}

/// Relies on `str::parse::<usize>` (`usize::from_str`): it accepts exactly an
/// optional `+` and then decimal digits whose value is in range, and returns
/// that value.
#[verifier::external_body]
fn parse_usize(s: &str) -> (r: Result<usize, ParseIntError>)
    ensures
        r is Ok <==> is_usize_text(s@),
        r is Ok ==> r->Ok_0 == decimal_value(unsigned_digits(s@)),
{
    s.parse::<usize>()
}

/// Reads a positive decimal integer.
pub fn parse_non_zero_usize(number: &str) -> (r: Result<usize, NonZeroUsizeError>)
    ensures
        r is Ok <==> is_usize_text(number@) && decimal_value(unsigned_digits(number@)) > 0,
        r is Ok ==> r->Ok_0 == decimal_value(unsigned_digits(number@)),
        r matches Err(NonZeroUsizeError::InvalidFormat(_)) <==> !is_usize_text(number@),
        r matches Err(NonZeroUsizeError::ZeroValue) <==> is_usize_text(number@)
            && decimal_value(unsigned_digits(number@)) == 0,
{
    match parse_usize(number) {
        Err(error) => Err(NonZeroUsizeError::InvalidFormat(error)),
        Ok(value) => if value == 0 {
            Err(NonZeroUsizeError::ZeroValue)
        } else {
            Ok(value)
        },
    }
}

} // verus!
