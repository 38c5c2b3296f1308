use crate::text::{all_digits, chars_of, decimal_value, digits_value};
use vstd::prelude::*;

verus! {

/// Seconds to wait before asking for the timestamp again.
pub const RETRY_DELAY_SECS: u64 = 3;

/// The HTTP status of a successful reply.
pub const STATUS_OK: u16 = 200;

/// What one request for the server's timestamp produced.
#[derive(Clone, Debug)]
pub enum PollEvent {
    /// No response arrived.
    TransportFailed,
    /// A response arrived, with its body where it could be read as text.
    Responded { status: u16, body: Option<String> },
}

/// What to do after one request for the server's timestamp.
#[derive(Clone, Copy, Debug, PartialEq, Eq, Structural)]
pub enum PollStep {
    /// The server's timestamp.
    Done(u64),
    /// The server answered with an error status: wait, then ask again.
    ServerRestarting,
    /// No usable answer: wait, then ask again.
    Unavailable,
}

/// The digits of an unsigned integer's text, after an optional plus sign.
pub open spec fn unsigned_digits(s: Seq<char>) -> Seq<char> {
    if s.len() > 0 && s[0] == '+' {
        s.subrange(1, s.len() as int)
    } else {
        s
    }
}

/// The `u64` that the text `s` writes in decimal, as `u64::from_str` reads
/// it: an optional plus sign, then one or more digits.
pub open spec fn parsed_u64(s: Seq<char>) -> Option<u64> {
    let d = unsigned_digits(s);
    if d.len() > 0 && all_digits(d) && decimal_value(d) <= u64::MAX {
        Some(decimal_value(d) as u64)
    } else {
        None
    }
}

/// Reads an unsigned decimal integer as `u64::from_str` does.
pub fn parse_u64(s: &str) -> (r: Option<u64>)
    ensures
        r == parsed_u64(s@),
{
    let cs = chars_of(s);
    let start: usize = if cs.len() > 0 && cs[0] == '+' {
        1
    } else {
        0
    };
    if start == cs.len() {
        return None;
    }
    let mut d: Vec<char> = Vec::new();
    let mut i: usize = start;
    while i < cs.len()
        invariant
            start <= i <= cs.len(),
            d@ == cs@.subrange(start as int, i as int),
        decreases cs.len() - i,
    {
        d.push(cs[i]);
        i = i + 1;
    }
    assert(d@ == unsigned_digits(s@));
    digits_value(&d)
}

/// The next step after one request for the server's timestamp.
pub open spec fn poll_decision(event: PollEvent) -> PollStep {
    match event {
        PollEvent::TransportFailed => PollStep::Unavailable,
        PollEvent::Responded { status, body } => if status != STATUS_OK {
            PollStep::ServerRestarting
        } else {
            match body {
                Some(b) => match parsed_u64(b@) {
                    Some(v) => PollStep::Done(v),
                    None => PollStep::Unavailable,
                },
                None => PollStep::Unavailable,
            }
        },
    }
}

/// Decides what follows one request for the server's timestamp: the
/// timestamp, where the reply is a success whose body is an unsigned
/// integer; otherwise a wait of `RETRY_DELAY_SECS` and another request.
pub fn poll_step(event: &PollEvent) -> (r: PollStep)
    ensures
        r == poll_decision(*event),
{
    match event {
        PollEvent::TransportFailed => PollStep::Unavailable,
        PollEvent::Responded { status, body } => {
            if *status != STATUS_OK {
                PollStep::ServerRestarting
            } else {
                match body {
                    Some(b) => match parse_u64(b.as_str()) {
                        Some(v) => PollStep::Done(v),
                        None => PollStep::Unavailable,
                    },
                    None => PollStep::Unavailable,
                }
            }
        },
    }
}

} // verus!
