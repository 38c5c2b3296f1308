//! The undelegation exchange with the pool: confirm, fetch the pool's
//! authority, its fee payer and a recent blockhash once each, submit the
//! partially signed transaction, and classify the reply.

use crate::amount::{base_units_of, DecimalAmount};
use crate::chain::{
    base64_decoded, base64_encoded, decode_base64, deserialize_hash, encode_base64,
    keypair_accepted, keypair_bytes, parse_pubkey, public_half, pubkey_from_text,
    serialize_transaction, sign_partially, signed_unboost_bytes, token_decimals,
    transaction_with_payer, undelegate_instruction,
};
use crate::confirm::{confirm, confirmation_of, Confirmation, PromptOutcome};
use crate::reply::{classify_reply, reply_outcome, SubmissionOutcome};
use solana_sdk::signature::Keypair;
use vstd::prelude::*;

verus! {

/// What the user asked for: an amount of boost tokens and their mint.
#[derive(Clone, Debug)]
pub struct UnboostArgs {
    pub amount: DecimalAmount,
    pub mint: String,
}

/// A pool endpoint that the session reads once.
#[derive(Clone, Copy, Debug, PartialEq, Eq, Structural)]
pub enum Endpoint {
    /// `/pool/authority/pubkey`
    Authority,
    /// `/pool/fee_payer/pubkey`
    FeePayer,
    /// `/latest-blockhash`
    Blockhash,
}

/// Why an undelegation stopped before the pool answered it.
#[derive(Clone, Copy, Debug, PartialEq, Eq, Structural)]
pub enum UnboostError {
    /// The endpoint gave no readable reply.
    Unreachable(Endpoint),
    /// The endpoint's reply is not a public key.
    MalformedKey(Endpoint),
    /// The blockhash reply is not base64 of a serialized hash.
    MalformedBlockhash,
    /// The amount in base units does not fit in 64 bits.
    AmountTooLarge,
    /// The mint is not a public key.
    InvalidMint,
    /// The caller's key could not sign the transaction.
    SigningFailed,
    /// The signed transaction could not be serialized; never the case for
    /// the one-instruction transactions built here.
    EncodingFailed,
}

/// Where the session stands, with what it has learned so far.
#[derive(Debug)]
pub enum Stage {
    /// Waiting for the user's confirmation.
    Confirming,
    /// Waiting for the pool's authority key.
    AwaitingAuthority,
    /// Waiting for the key of the account that pays the fees.
    AwaitingFeePayer { authority: [u8; 32] },
    /// Waiting for a recent blockhash.
    AwaitingBlockhash { authority: [u8; 32], fee_payer: [u8; 32] },
    /// Waiting for the pool's reply to the submission.
    AwaitingReply,
    /// Over; further events are ignored.
    Finished,
}

/// Something that happened outside the session.
#[derive(Clone, Debug)]
pub enum Event {
    /// The confirmation prompt returned.
    Prompted(PromptOutcome),
    /// A request returned, with its body where it could be read as text.
    Received(Option<String>),
}

/// The transaction to hand to the pool, with the query parameters that
/// restate it.
pub struct Submission {
    /// The caller's public key.
    pub staker: [u8; 32],
    pub mint: String,
    pub amount: u64,
    /// The base64 text of the serialized, partially signed transaction.
    pub body: String,
}

/// How a session ended.
pub enum Report {
    /// The user did not confirm.
    Stopped(Confirmation),
    /// The session failed before the pool answered.
    Failed(UnboostError),
    /// The pool answered the submission.
    Submitted(SubmissionOutcome),
}

/// What the session asks of its driver next.
pub enum Action {
    /// Read the endpoint and hand back its body.
    Fetch(Endpoint),
    /// Post the submission and hand back the reply's body.
    Submit(Submission),
    /// The session is over.
    Finish(Report),
    /// The event did not fit the stage and was ignored.
    Ignore,
}

/// One undelegation, from confirmation to the pool's reply.
pub struct UndelegateSession {
    pub stage: Stage,
    /// The caller's key pair: its secret key, then its public key.
    pub keypair: [u8; 64],
    pub args: UnboostArgs,
}

/// How far a stage is along the exchange; it never goes back.
pub open spec fn rank(s: Stage) -> nat {
    match s {
        Stage::Confirming => 0,
        Stage::AwaitingAuthority => 1,
        Stage::AwaitingFeePayer { .. } => 2,
        Stage::AwaitingBlockhash { .. } => 3,
        Stage::AwaitingReply => 4,
        Stage::Finished => 5,
    }
}

/// The rank of the stage that a fetch of `e` leads into.
pub open spec fn fetch_rank(e: Endpoint) -> nat {
    match e {
        Endpoint::Authority => 1,
        Endpoint::FeePayer => 2,
        Endpoint::Blockhash => 3,
    }
}

/// The action is a fetch of `e`.
pub open spec fn fetches(a: Action, e: Endpoint) -> bool {
    a matches Action::Fetch(x) && x == e
}

/// What every step keeps: the stage never goes back, and a fetch of an
/// endpoint moves from an earlier stage into the one that awaits it.
pub open spec fn step_relation(before: Stage, a: Action, after: Stage) -> bool {
    &&& rank(before) <= rank(after)
    &&& forall|e: Endpoint| #[trigger]
        fetches(a, e) ==> rank(before) < fetch_rank(e) && rank(after) == fetch_rank(e)
}

/// The first local reason why a submission cannot be built from the
/// blockhash text `t` and the arguments, in the order they are checked.
pub open spec fn submission_error(t: Seq<char>, args: UnboostArgs) -> Option<UnboostError> {
    if !(base64_decoded(t) matches Some(b) && b.len() >= 32) {
        Some(UnboostError::MalformedBlockhash)
    } else if base_units_of(args.amount.digits as nat, args.amount.scale as nat, 11) > u64::MAX {
        Some(UnboostError::AmountTooLarge)
    } else if pubkey_from_text(args.mint@) is None {
        Some(UnboostError::InvalidMint)
    } else {
        None
    }
}

/// The submission built from the key pair, the pool's keys, the blockhash
/// text and the arguments, where none of them is at fault: the caller's
/// public key, the mint and amount restated, and as body the base64 text of
/// the transaction that undelegates that amount, paid for by `fee_payer` and
/// signed by the caller alone over the blockhash.
pub open spec fn submission_made(
    s: Submission,
    keypair: [u8; 64],
    authority: [u8; 32],
    fee_payer: [u8; 32],
    t: Seq<char>,
    args: UnboostArgs,
) -> bool {
    let amount = base_units_of(args.amount.digits as nat, args.amount.scale as nat, 11) as u64;
    let mint = pubkey_from_text(args.mint@)->0;
    let blockhash = base64_decoded(t)->0.take(32);
    &&& s.staker@ == public_half(keypair@)
    &&& s.mint@ == args.mint@
    &&& s.amount == amount
    &&& s.body@ == base64_encoded(
        signed_unboost_bytes(
            public_half(keypair@),
            authority@,
            mint,
            amount,
            fee_payer@,
            keypair@,
            blockhash,
        ),
    )
}

/// Builds the undelegation transaction of `args` against the pool's
/// `authority`, names `fee_payer` as the account that pays its fees, signs
/// it with the caller's key pair alone over the blockhash that
/// `blockhash_text` encodes, and encodes it for the pool.
pub fn build_submission(
    keypair: &[u8; 64],
    authority: [u8; 32],
    fee_payer: [u8; 32],
    blockhash_text: &str,
    args: &UnboostArgs,
) -> (r: Result<Submission, UnboostError>)
    ensures
        submission_error(blockhash_text@, *args) matches Some(e) ==> r == Err::<
            Submission,
            UnboostError,
        >(e),
        submission_error(blockhash_text@, *args) is None && !keypair_accepted(keypair@) ==> r
            == Err::<Submission, UnboostError>(UnboostError::SigningFailed),
        submission_error(blockhash_text@, *args) is None && keypair_accepted(keypair@) ==> (r matches Ok(
            s,
        ) && submission_made(s, *keypair, authority, fee_payer, blockhash_text@, *args)),
{
    let hash = match decode_base64(blockhash_text) {
        Some(bytes) => match deserialize_hash(bytes.as_slice()) {
            Some(h) => h,
            None => {
                return Err(UnboostError::MalformedBlockhash);
            },
        },
        None => {
            return Err(UnboostError::MalformedBlockhash);
        },
    };
    let decimals = token_decimals();
    let amount = match args.amount.to_base_units(decimals) {
        Some(a) => a,
        None => {
            return Err(UnboostError::AmountTooLarge);
        },
    };
    let mint = match parse_pubkey(args.mint.as_str()) {
        Some(m) => m,
        None => {
            return Err(UnboostError::InvalidMint);
        },
    };
    let staker = public_key_of(keypair);
    let ix = undelegate_instruction(staker, authority, mint, amount);
    let mut tx = transaction_with_payer(ix, fee_payer);
    if !sign_partially(&mut tx, keypair, &hash) {
        return Err(UnboostError::SigningFailed);
    }
    let bytes = match serialize_transaction(&tx) {
        Some(b) => b,
        None => {
            return Err(UnboostError::EncodingFailed);
        },
    };
    let body = encode_base64(bytes.as_slice());
    Ok(Submission { staker, mint: args.mint.clone(), amount, body })
}

/// The public half of a key pair held as its 64 bytes.
pub fn public_key_of(keypair: &[u8; 64]) -> (r: [u8; 32])
    ensures
        r@ == public_half(keypair@),
{
    let mut r: [u8; 32] = [0u8; 32];
    let mut i: usize = 0;
    while i < 32
        invariant
            i <= 32,
            forall|j: int| 0 <= j < i ==> r@[j] == keypair@[32 + j],
        decreases 32 - i,
    {
        r[i] = keypair[32 + i];
        i = i + 1;
    }
    assert(r@ =~= public_half(keypair@));
    r
}

/// The session ends with `report`.
pub open spec fn ends_with(a: Action, after: Stage, report: Report) -> bool {
    a == Action::Finish(report) && after is Finished
}

/// What one step does, given the stage before it, the event and the
/// arguments: the action it asks for and the stage after it. Where the
/// signer or the serializer refuses, the session ends with that failure.
pub open spec fn step_spec(
    before: Stage,
    event: Event,
    keypair: [u8; 64],
    args: UnboostArgs,
    a: Action,
    after: Stage,
) -> bool {
    match (before, event) {
        (Stage::Confirming, Event::Prompted(o)) => if confirmation_of(o) == Confirmation::Proceed {
            fetches(a, Endpoint::Authority) && after is AwaitingAuthority
        } else {
            ends_with(a, after, Report::Stopped(confirmation_of(o)))
        },
        (Stage::AwaitingAuthority, Event::Received(body)) => match body {
            None => ends_with(a, after, Report::Failed(UnboostError::Unreachable(Endpoint::Authority))),
            Some(t) => if pubkey_from_text(t@) is Some {
                fetches(a, Endpoint::FeePayer) && (match after {
                    Stage::AwaitingFeePayer { authority } => pubkey_from_text(t@) == Some(authority@),
                    _ => false,
                })
            } else {
                ends_with(a, after, Report::Failed(UnboostError::MalformedKey(Endpoint::Authority)))
            },
        },
        (Stage::AwaitingFeePayer { authority }, Event::Received(body)) => match body {
            None => ends_with(a, after, Report::Failed(UnboostError::Unreachable(Endpoint::FeePayer))),
            Some(t) => if pubkey_from_text(t@) is Some {
                &&& fetches(a, Endpoint::Blockhash)
                &&& match after {
                    Stage::AwaitingBlockhash { authority: kept, fee_payer } => kept == authority
                        && pubkey_from_text(t@) == Some(fee_payer@),
                    _ => false,
                }
            } else {
                ends_with(a, after, Report::Failed(UnboostError::MalformedKey(Endpoint::FeePayer)))
            },
        },
        (Stage::AwaitingBlockhash { authority, fee_payer }, Event::Received(body)) => match body {
            None => ends_with(a, after, Report::Failed(UnboostError::Unreachable(Endpoint::Blockhash))),
            Some(t) => match submission_error(t@, args) {
                Some(e) => ends_with(a, after, Report::Failed(e)),
                None => if keypair_accepted(keypair@) {
                    &&& a matches Action::Submit(s) && submission_made(s, keypair, authority, fee_payer, t@, args)
                    &&& after is AwaitingReply
                } else {
                    ends_with(a, after, Report::Failed(UnboostError::SigningFailed))
                },
            },
        },
        (Stage::AwaitingReply, Event::Received(reply)) => ends_with(
            a,
            after,
            Report::Submitted(reply_outcome(reply)),
        ),
        _ => a == Action::Ignore && after == before,
    }
}

impl UndelegateSession {
    /// A session that has not yet asked for confirmation.
    pub fn new(key: &Keypair, args: UnboostArgs) -> (r: UndelegateSession)
        ensures
            r.stage is Confirming,
            r.args == args,
            keypair_accepted(r.keypair@),
    {
        UndelegateSession { stage: Stage::Confirming, keypair: keypair_bytes(key), args }
    }

    /// Whether the session is over.
    pub fn is_finished(&self) -> (r: bool)
        ensures
            r == self.stage is Finished,
    {
        match self.stage {
            Stage::Finished => true,
            _ => false,
        }
    }

    /// Takes in one event and says what to do next. Nothing is fetched
    /// before the user confirms; each endpoint is fetched at most once, in the
    /// order authority, fee payer, blockhash; then the transaction is
    /// submitted and the pool's reply ends the session.
    pub fn step(&mut self, event: Event) -> (r: Action)
        ensures
            step_relation(old(self).stage, r, final(self).stage),
            final(self).args == old(self).args,
            final(self).keypair == old(self).keypair,
            step_spec(old(self).stage, event, old(self).keypair, old(self).args, r, final(self).stage),
    {
        let mut stage = Stage::Finished;
        std::mem::swap(&mut stage, &mut self.stage);
        match (stage, event) {
            (Stage::Confirming, Event::Prompted(o)) => {
                let c = confirm(&o);
                match c {
                    Confirmation::Proceed => {
                        self.stage = Stage::AwaitingAuthority;
                        Action::Fetch(Endpoint::Authority)
                    },
                    _ => Action::Finish(Report::Stopped(c)),
                }
            },
            (Stage::AwaitingAuthority, Event::Received(body)) => match body {
                None => Action::Finish(
                    Report::Failed(UnboostError::Unreachable(Endpoint::Authority)),
                ),
                Some(t) => match parse_pubkey(t.as_str()) {
                    Some(authority) => {
                        self.stage = Stage::AwaitingFeePayer { authority };
                        Action::Fetch(Endpoint::FeePayer)
                    },
                    None => Action::Finish(
                        Report::Failed(UnboostError::MalformedKey(Endpoint::Authority)),
                    ),
                },
            },
            (Stage::AwaitingFeePayer { authority }, Event::Received(body)) => match body {
                None => Action::Finish(
                    Report::Failed(UnboostError::Unreachable(Endpoint::FeePayer)),
                ),
                Some(t) => match parse_pubkey(t.as_str()) {
                    Some(fee_payer) => {
                        self.stage = Stage::AwaitingBlockhash { authority, fee_payer };
                        Action::Fetch(Endpoint::Blockhash)
                    },
                    None => Action::Finish(
                        Report::Failed(UnboostError::MalformedKey(Endpoint::FeePayer)),
                    ),
                },
            },
            (Stage::AwaitingBlockhash { authority, fee_payer }, Event::Received(body)) => match body {
                None => Action::Finish(
                    Report::Failed(UnboostError::Unreachable(Endpoint::Blockhash)),
                ),
                Some(t) => match build_submission(
                    &self.keypair,
                    authority,
                    fee_payer,
                    t.as_str(),
                    &self.args,
                ) {
                    Ok(s) => {
                        self.stage = Stage::AwaitingReply;
                        Action::Submit(s)
                    },
                    Err(e) => Action::Finish(Report::Failed(e)),
                },
            },
            (Stage::AwaitingReply, Event::Received(reply)) => Action::Finish(
                Report::Submitted(classify_reply(reply)),
            ),
            (stage, _) => {
                self.stage = stage;
                Action::Ignore
            },
        }
    }
}

proof fn lemma_rank_chain(stages: Seq<Stage>, actions: Seq<Action>, i: int, j: int)
    requires
        stages.len() == actions.len() + 1,
        forall|k: int|
            0 <= k < actions.len() ==> #[trigger] step_relation(stages[k], actions[k], stages[k + 1]),
        0 <= i <= j < stages.len(),
    ensures
        rank(stages[i]) <= rank(stages[j]),
    decreases j - i,
{
    if i < j {
        lemma_rank_chain(stages, actions, i, j - 1);
        let k = j - 1;
        assert(step_relation(stages[k], actions[k], stages[k + 1]));
    }
}

/// In any run of steps, where each step keeps the step relation, no endpoint
/// is fetched twice.
pub proof fn lemma_each_endpoint_fetched_once(
    stages: Seq<Stage>,
    actions: Seq<Action>,
    e: Endpoint,
    i: int,
    j: int,
)
    requires
        stages.len() == actions.len() + 1,
        forall|k: int|
            0 <= k < actions.len() ==> #[trigger] step_relation(stages[k], actions[k], stages[k + 1]),
        0 <= i < j < actions.len(),
    ensures
        !(fetches(actions[i], e) && fetches(actions[j], e)),
{
    assert(step_relation(stages[i], actions[i], stages[i + 1]));
    assert(step_relation(stages[j], actions[j], stages[j + 1]));
    lemma_rank_chain(stages, actions, i + 1, j);
}

/// When the user proceeds, both key replies parse, the blockhash reply and
/// the arguments are sound, and the key pair is one, the session fetches the
/// authority, the fee payer and the blockhash, in that order, and then
/// submits exactly once.
pub proof fn lemma_valid_exchange_submits_once(
    stages: Seq<Stage>,
    events: Seq<Event>,
    actions: Seq<Action>,
    keypair: [u8; 64],
    args: UnboostArgs,
)
    requires
        stages.len() == 5,
        events.len() == 4,
        actions.len() == 4,
        stages[0] is Confirming,
        forall|k: int|
            0 <= k < 4 ==> #[trigger] step_spec(
                stages[k],
                events[k],
                keypair,
                args,
                actions[k],
                stages[k + 1],
            ),
        (events[0] matches Event::Prompted(o) && confirmation_of(o) == Confirmation::Proceed),
        (events[1] matches Event::Received(Some(t)) && pubkey_from_text(t@) is Some),
        (events[2] matches Event::Received(Some(t)) && pubkey_from_text(t@) is Some),
        (events[3] matches Event::Received(Some(t)) && submission_error(t@, args) is None),
        keypair_accepted(keypair@),
    ensures
        fetches(actions[0], Endpoint::Authority),
        fetches(actions[1], Endpoint::FeePayer),
        fetches(actions[2], Endpoint::Blockhash),
        actions[3] is Submit,
        stages[4] is AwaitingReply,
{
    let ghost k0: int = 0;
    let ghost k1: int = 1;
    let ghost k2: int = 2;
    let ghost k3: int = 3;
    assert(step_spec(stages[k0], events[k0], keypair, args, actions[k0], stages[k0 + 1]));
    assert(step_spec(stages[k1], events[k1], keypair, args, actions[k1], stages[k1 + 1]));
    assert(step_spec(stages[k2], events[k2], keypair, args, actions[k2], stages[k2 + 1]));
    assert(step_spec(stages[k3], events[k3], keypair, args, actions[k3], stages[k3 + 1]));
}

} // verus!
