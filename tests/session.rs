use base64::prelude::BASE64_STANDARD;
use base64::Engine;
use ore_unboost::amount::DecimalAmount;
use ore_unboost::confirm::{Confirmation, PromptOutcome};
use ore_unboost::reply::SubmissionOutcome;
use ore_unboost::session::{
    build_submission, public_key_of, Action, Endpoint, Event, Report, Stage, UnboostArgs, UnboostError,
    UndelegateSession,
};
use solana_sdk::hash;
use solana_sdk::pubkey::Pubkey;
use solana_sdk::signature::{Keypair, Signature};
use solana_sdk::signer::Signer;
use solana_sdk::transaction::Transaction;

struct Pool {
    authority: Pubkey,
    fee_payer: Pubkey,
    blockhash: hash::Hash,
}

impl Pool {
    fn new() -> Pool {
        Pool {
            authority: Pubkey::new_unique(),
            fee_payer: Pubkey::new_unique(),
            blockhash: hash::Hash::new_unique(),
        }
    }

    fn blockhash_text(&self) -> String {
        BASE64_STANDARD.encode(bincode::serialize(&self.blockhash).unwrap())
    }

    fn body(&self, e: Endpoint) -> String {
        match e {
            Endpoint::Authority => self.authority.to_string(),
            Endpoint::FeePayer => self.fee_payer.to_string(),
            Endpoint::Blockhash => self.blockhash_text(),
        }
    }
}

fn args(digits: u64, scale: u32, mint: &Pubkey) -> UnboostArgs {
    UnboostArgs { amount: DecimalAmount { digits, scale }, mint: mint.to_string() }
}

fn received(s: &str) -> Event {
    Event::Received(Some(s.to_string()))
}

fn session_at_blockhash(pool: &Pool, a: UnboostArgs) -> UndelegateSession {
    let mut s = UndelegateSession::new(&Keypair::new(), a);
    assert!(matches!(s.step(Event::Prompted(PromptOutcome::Answered("y".to_string()))), Action::Fetch(Endpoint::Authority)));
    assert!(matches!(s.step(received(&pool.authority.to_string())), Action::Fetch(Endpoint::FeePayer)));
    assert!(matches!(s.step(received(&pool.fee_payer.to_string())), Action::Fetch(Endpoint::Blockhash)));
    s
}

#[test]
fn session_fetches_each_endpoint_once_and_submits() {
    let pool = Pool::new();
    let mint = Pubkey::new_unique();
    let mut s = UndelegateSession::new(&Keypair::new(), args(15, 1, &mint));
    let mut fetched: Vec<Endpoint> = Vec::new();
    let mut action = s.step(Event::Prompted(PromptOutcome::Answered(String::new())));
    let mut submitted = false;
    loop {
        action = match action {
            Action::Fetch(e) => {
                fetched.push(e);
                s.step(received(&pool.body(e)))
            }
            Action::Submit(sub) => {
                assert!(!submitted);
                submitted = true;
                assert_eq!(sub.amount, 150_000_000_000);
                assert_eq!(sub.mint, mint.to_string());
                s.step(received("SUCCESS"))
            }
            Action::Finish(report) => {
                assert!(matches!(report, Report::Submitted(SubmissionOutcome::Success)));
                break;
            }
            Action::Ignore => panic!("no event should be ignored"),
        };
    }
    assert!(submitted);
    assert!(s.is_finished());
    assert_eq!(fetched, vec![Endpoint::Authority, Endpoint::FeePayer, Endpoint::Blockhash]);
}

#[test]
fn submitted_transaction_round_trips() {
    let pool = Pool::new();
    let mint = Pubkey::new_unique();
    let key = Keypair::new();
    let staker = key.pubkey();
    let sub = build_submission(
        &key.to_bytes(),
        pool.authority.to_bytes(),
        pool.fee_payer.to_bytes(),
        &pool.blockhash_text(),
        &args(25, 1, &mint),
    )
    .ok()
    .unwrap();
    assert_eq!(sub.staker, staker.to_bytes());
    assert_eq!(sub.amount, 250_000_000_000);
    let bytes = BASE64_STANDARD.decode(&sub.body).unwrap();
    assert_eq!(sub.body, BASE64_STANDARD.encode(&bytes));
    let tx: Transaction = bincode::deserialize(&bytes).unwrap();
    let expected = ore_miner_delegation::instruction::undelegate_boost(staker, pool.authority, mint, 250_000_000_000);
    let keys = &tx.message.account_keys;
    assert_eq!(keys[0], pool.fee_payer);
    assert_eq!(tx.message.recent_blockhash, pool.blockhash);
    assert_eq!(tx.message.instructions.len(), 1);
    let ix = &tx.message.instructions[0];
    assert_eq!(keys[ix.program_id_index as usize], expected.program_id);
    assert_eq!(ix.data, expected.data);
    let accounts: Vec<Pubkey> = ix.accounts.iter().map(|i| keys[*i as usize]).collect();
    let expected_accounts: Vec<Pubkey> = expected.accounts.iter().map(|m| m.pubkey).collect();
    assert_eq!(accounts, expected_accounts);
    assert_eq!(tx.signatures.len(), 2);
    assert_eq!(tx.signatures[0], Signature::default());
    assert_ne!(tx.signatures[1], Signature::default());
    assert!(tx.signatures[1].verify(staker.as_ref(), &tx.message_data()));
}

#[test]
fn public_key_is_second_half_of_keypair() {
    let key = Keypair::new();
    assert_eq!(public_key_of(&key.to_bytes()), key.pubkey().to_bytes());
}

#[test]
fn submission_refuses_bytes_that_are_no_keypair() {
    let pool = Pool::new();
    let r = build_submission(
        &[0u8; 64],
        pool.authority.to_bytes(),
        pool.fee_payer.to_bytes(),
        &pool.blockhash_text(),
        &args(1, 0, &Pubkey::new_unique()),
    );
    assert!(matches!(r, Err(UnboostError::SigningFailed)));
}

#[test]
fn submission_signed_by_fee_payer_key_has_caller_slot_empty() {
    let pool = Pool::new();
    let key = Keypair::new();
    let mint = Pubkey::new_unique();
    let sub = build_submission(
        &key.to_bytes(),
        pool.authority.to_bytes(),
        key.pubkey().to_bytes(),
        &pool.blockhash_text(),
        &args(2, 0, &mint),
    )
    .ok()
    .unwrap();
    let tx: Transaction = bincode::deserialize(&BASE64_STANDARD.decode(&sub.body).unwrap()).unwrap();
    assert_eq!(tx.signatures.len(), 1);
    assert_eq!(tx.message.account_keys[0], key.pubkey());
    assert!(tx.signatures[0].verify(key.pubkey().as_ref(), &tx.message_data()));
}

#[test]
fn session_stops_without_fetching_when_declined() {
    for (outcome, expected) in [
        (PromptOutcome::Answered("n".to_string()), Confirmation::Declined),
        (PromptOutcome::Answered("esc".to_string()), Confirmation::Declined),
        (PromptOutcome::Answered("ESC".to_string()), Confirmation::Declined),
        (PromptOutcome::Canceled, Confirmation::Canceled),
        (PromptOutcome::Failed, Confirmation::InvalidInput),
    ] {
        let mut s = UndelegateSession::new(&Keypair::new(), args(1, 0, &Pubkey::new_unique()));
        match s.step(Event::Prompted(outcome)) {
            Action::Finish(Report::Stopped(c)) => assert_eq!(c, expected),
            _ => panic!("expected the session to stop"),
        }
        assert!(s.is_finished());
    }
}

#[test]
fn session_ignores_events_out_of_turn() {
    let mut s = UndelegateSession::new(&Keypair::new(), args(1, 0, &Pubkey::new_unique()));
    assert!(matches!(s.step(received("x")), Action::Ignore));
    assert!(matches!(s.stage, Stage::Confirming));
    assert!(matches!(s.step(Event::Prompted(PromptOutcome::Answered("y".to_string()))), Action::Fetch(Endpoint::Authority)));
    assert!(matches!(s.step(Event::Prompted(PromptOutcome::Canceled)), Action::Ignore));
    assert!(matches!(s.stage, Stage::AwaitingAuthority));
}

#[test]
fn session_reports_unreachable_and_malformed_keys() {
    let mut s = UndelegateSession::new(&Keypair::new(), args(1, 0, &Pubkey::new_unique()));
    s.step(Event::Prompted(PromptOutcome::Answered("Y".to_string())));
    assert!(matches!(s.step(Event::Received(None)), Action::Finish(Report::Failed(UnboostError::Unreachable(Endpoint::Authority)))));

    let mut s = UndelegateSession::new(&Keypair::new(), args(1, 0, &Pubkey::new_unique()));
    s.step(Event::Prompted(PromptOutcome::Answered("y".to_string())));
    assert!(matches!(s.step(received("not a key")), Action::Finish(Report::Failed(UnboostError::MalformedKey(Endpoint::Authority)))));

    let mut s = UndelegateSession::new(&Keypair::new(), args(1, 0, &Pubkey::new_unique()));
    s.step(Event::Prompted(PromptOutcome::Answered("y".to_string())));
    s.step(received(&Pubkey::new_unique().to_string()));
    assert!(matches!(s.step(received("")), Action::Finish(Report::Failed(UnboostError::MalformedKey(Endpoint::FeePayer)))));

    let mut s = UndelegateSession::new(&Keypair::new(), args(1, 0, &Pubkey::new_unique()));
    s.step(Event::Prompted(PromptOutcome::Answered("y".to_string())));
    s.step(received(&Pubkey::new_unique().to_string()));
    assert!(matches!(s.step(Event::Received(None)), Action::Finish(Report::Failed(UnboostError::Unreachable(Endpoint::FeePayer)))));
    assert!(matches!(s.step(received("late")), Action::Ignore));
}

#[test]
fn session_reports_bad_blockhash() {
    let pool = Pool::new();
    let mint = Pubkey::new_unique();
    let mut s = session_at_blockhash(&pool, args(1, 0, &mint));
    assert!(matches!(s.step(received("!!not base64!!")), Action::Finish(Report::Failed(UnboostError::MalformedBlockhash))));

    let mut s = session_at_blockhash(&pool, args(1, 0, &mint));
    let short = BASE64_STANDARD.encode([7u8; 10]);
    assert!(matches!(s.step(received(&short)), Action::Finish(Report::Failed(UnboostError::MalformedBlockhash))));

    let mut s = session_at_blockhash(&pool, args(1, 0, &mint));
    assert!(matches!(s.step(Event::Received(None)), Action::Finish(Report::Failed(UnboostError::Unreachable(Endpoint::Blockhash)))));
}

#[test]
fn session_reports_bad_amount_and_mint() {
    let pool = Pool::new();
    let mut s = session_at_blockhash(&pool, args(u64::MAX, 0, &Pubkey::new_unique()));
    assert!(matches!(s.step(received(&pool.blockhash_text())), Action::Finish(Report::Failed(UnboostError::AmountTooLarge))));

    let bad_mint = UnboostArgs { amount: DecimalAmount { digits: 1, scale: 0 }, mint: "mint?".to_string() };
    let mut s = session_at_blockhash(&pool, bad_mint);
    assert!(matches!(s.step(received(&pool.blockhash_text())), Action::Finish(Report::Failed(UnboostError::InvalidMint))));
}

#[test]
fn session_reports_pool_rejection_and_silence() {
    let pool = Pool::new();
    let mut s = session_at_blockhash(&pool, args(3, 0, &Pubkey::new_unique()));
    assert!(matches!(s.step(received(&pool.blockhash_text())), Action::Submit(_)));
    match s.step(received("insufficient funds")) {
        Action::Finish(Report::Submitted(SubmissionOutcome::Rejected(t))) => assert_eq!(t, "insufficient funds"),
        _ => panic!("expected a rejection"),
    }

    let mut s = session_at_blockhash(&pool, args(3, 0, &Pubkey::new_unique()));
    assert!(matches!(s.step(received(&pool.blockhash_text())), Action::Submit(_)));
    assert!(matches!(s.step(Event::Received(None)), Action::Finish(Report::Submitted(SubmissionOutcome::TransientFailure))));
}
