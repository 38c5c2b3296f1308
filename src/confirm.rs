use crate::chain::{trim_text, trimmed};
use crate::text::chars_of;
use vstd::prelude::*;

verus! {

/// What the confirmation prompt gave back.
#[derive(Clone, Debug)]
pub enum PromptOutcome {
    /// The text the user typed.
    Answered(String),
    /// The user dismissed the prompt.
    Canceled,
    /// The prompt failed in any other way.
    Failed,
}

/// The decision drawn from the confirmation prompt.
#[derive(Clone, Copy, Debug, PartialEq, Eq, Structural)]
pub enum Confirmation {
    /// Go on with the undelegation.
    Proceed,
    /// The user answered with something other than yes.
    Declined,
    /// The user dismissed the prompt.
    Canceled,
    /// The prompt failed.
    InvalidInput,
}

/// `c` is `lower` or `upper`.
pub open spec fn either_case(c: char, lower: char, upper: char) -> bool {
    c == lower || c == upper
}

/// The answer is "esc" in any mix of ASCII case.
pub open spec fn is_escape(t: Seq<char>) -> bool {
    &&& t.len() == 3
    &&& either_case(t[0], 'e', 'E')
    &&& either_case(t[1], 's', 'S')
    &&& either_case(t[2], 'c', 'C')
}

/// The answer is empty or a single "y" of either case.
pub open spec fn is_yes(t: Seq<char>) -> bool {
    t.len() == 0 || (t.len() == 1 && either_case(t[0], 'y', 'Y'))
}

/// The decision for an answer already trimmed of surrounding whitespace.
pub open spec fn answer_decision(t: Seq<char>) -> Confirmation {
    if is_escape(t) {
        Confirmation::Declined
    } else if is_yes(t) {
        Confirmation::Proceed
    } else {
        Confirmation::Declined
    }
}

/// The decision for a prompt outcome.
pub open spec fn confirmation_of(outcome: PromptOutcome) -> Confirmation {
    match outcome {
        PromptOutcome::Answered(s) => answer_decision(trimmed(s@)),
        PromptOutcome::Canceled => Confirmation::Canceled,
        PromptOutcome::Failed => Confirmation::InvalidInput,
    }
}

/// Decides on an answer that has already been trimmed.
pub fn decide_answer(t: &str) -> (r: Confirmation)
    ensures
        r == answer_decision(t@),
{
    let cs = chars_of(t);
    if cs.len() == 3 && (cs[0] == 'e' || cs[0] == 'E') && (cs[1] == 's' || cs[1] == 'S') && (
    cs[2] == 'c' || cs[2] == 'C') {
        Confirmation::Declined
    } else if cs.len() == 0 || (cs.len() == 1 && (cs[0] == 'y' || cs[0] == 'Y')) {
        Confirmation::Proceed
    } else {
        Confirmation::Declined
    }
}

/// Decides whether to go on from what the confirmation prompt gave back.
pub fn confirm(outcome: &PromptOutcome) -> (r: Confirmation)
    ensures
        r == confirmation_of(*outcome),
{
    match outcome {
        PromptOutcome::Answered(s) => decide_answer(trim_text(s.as_str())),
        PromptOutcome::Canceled => Confirmation::Canceled,
        PromptOutcome::Failed => Confirmation::InvalidInput,
    }
}

} // verus!
