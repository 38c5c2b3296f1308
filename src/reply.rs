use crate::text::{chars_of, same_chars};
use vstd::prelude::*;

verus! {

/// How the pool answered a submitted transaction.
#[derive(Clone, Debug, PartialEq, Eq)]
pub enum SubmissionOutcome {
    /// The pool accepted the transaction.
    Success,
    /// The pool refused it, with its reply verbatim.
    Rejected(String),
    /// No reply could be read; the request may be tried again later.
    TransientFailure,
}

/// The reply by which the pool reports success.
pub open spec fn success_reply() -> Seq<char> {
    seq!['S', 'U', 'C', 'C', 'E', 'S', 'S']
}

/// The outcome that a reply, or its absence, stands for: success only on the
/// exact success text, a rejection carrying any other text.
pub open spec fn reply_outcome(reply: Option<String>) -> SubmissionOutcome {
    match reply {
        None => SubmissionOutcome::TransientFailure,
        Some(t) => if t@ == success_reply() {
            SubmissionOutcome::Success
        } else {
            SubmissionOutcome::Rejected(t)
        },
    }
}

/// Classifies the pool's reply text, or its absence.
pub fn classify_reply(reply: Option<String>) -> (r: SubmissionOutcome)
    ensures
        r == reply_outcome(reply),
{
    match reply {
        None => SubmissionOutcome::TransientFailure,
        Some(t) => {
            let expected: Vec<char> = vec!['S', 'U', 'C', 'C', 'E', 'S', 'S'];
            assert(expected@ == success_reply());
            if same_chars(&chars_of(t.as_str()), &expected) {
                SubmissionOutcome::Success
            } else {
                SubmissionOutcome::Rejected(t)
            }
        },
    }
}

} // verus!
