//! The calls into the chain SDK, the pool program's instruction builder and
//! the binary and text encodings, each with the contract the library relies on.

use base64::prelude::BASE64_STANDARD;
use base64::Engine;
use solana_sdk::hash;
use solana_sdk::instruction::Instruction;
use solana_sdk::pubkey::Pubkey;
use solana_sdk::signature::Keypair;
use solana_sdk::transaction::Transaction;
use std::str::FromStr;
use vstd::prelude::*;

verus! {

#[verifier::external_type_specification]
#[verifier::external_body]
pub struct ExKeypair(Keypair);

#[verifier::external_type_specification]
#[verifier::external_body]
pub struct ExInstruction(Instruction);

#[verifier::external_type_specification]
#[verifier::external_body]
pub struct ExTransaction(Transaction);

/// The 32 bytes of the key that `Pubkey::from_str` reads from `s`, if any.
pub uninterp spec fn pubkey_from_text(s: Seq<char>) -> Option<Seq<u8>>;

/// Whether `Keypair::from_bytes` accepts `b`.
pub uninterp spec fn keypair_accepted(b: Seq<u8>) -> bool;

/// The bytes that `bincode::serialize` gives for the one transaction that
/// this library signs: it is built by three outside calls, the instruction
/// of `ore_miner_delegation::instruction::undelegate_boost(staker, miner,
/// mint, amount)`, `Transaction::new_with_payer` with `fee_payer` (which
/// compiles the message), and one `Transaction::try_partial_sign` by
/// `keypair` over `blockhash` (an ed25519 signature). The signature slot of
/// `keypair`'s public key holds that signature; every other slot is zero.
/// The result depends on these values alone, since ed25519 signing is
/// deterministic.
pub uninterp spec fn signed_unboost_bytes(
    staker: Seq<u8>,
    miner: Seq<u8>,
    mint: Seq<u8>,
    amount: u64,
    fee_payer: Seq<u8>,
    keypair: Seq<u8>,
    blockhash: Seq<u8>,
) -> Seq<u8>;

/// What standard base64 decoding makes of `s`, if it is valid.
pub uninterp spec fn base64_decoded(s: Seq<char>) -> Option<Seq<u8>>;

/// The standard base64 alphabet: the digit of value `i` is its `i`th entry.
pub open spec fn base64_alphabet() -> Seq<char> {
    seq![
        'A', 'B', 'C', 'D', 'E', 'F', 'G', 'H',
        'I', 'J', 'K', 'L', 'M', 'N', 'O', 'P',
        'Q', 'R', 'S', 'T', 'U', 'V', 'W', 'X',
        'Y', 'Z', 'a', 'b', 'c', 'd', 'e', 'f',
        'g', 'h', 'i', 'j', 'k', 'l', 'm', 'n',
        'o', 'p', 'q', 'r', 's', 't', 'u', 'v',
        'w', 'x', 'y', 'z', '0', '1', '2', '3',
        '4', '5', '6', '7', '8', '9', '+', '/',
    ]
}

/// The base64 digit of the six-bit value `v`.
pub open spec fn base64_digit(v: int) -> char {
    base64_alphabet()[v]
}

/// The standard, padded base64 encoding of `b`: each group of three bytes
/// becomes four digits of six bits each; a last group of one or two bytes
/// is filled with zero bits and padded with `=` to four characters.
pub open spec fn base64_encoded(b: Seq<u8>) -> Seq<char>
    decreases b.len(),
{
    if b.len() == 0 {
        seq![]
    } else if b.len() == 1 {
        seq![base64_digit((b[0] as int) / 4), base64_digit(((b[0] as int) % 4) * 16), '=', '=']
    } else if b.len() == 2 {
        seq![
            base64_digit((b[0] as int) / 4),
            base64_digit(((b[0] as int) % 4) * 16 + (b[1] as int) / 16),
            base64_digit(((b[1] as int) % 16) * 4),
            '=',
        ]
    } else {
        seq![
            base64_digit((b[0] as int) / 4),
            base64_digit(((b[0] as int) % 4) * 16 + (b[1] as int) / 16),
            base64_digit(((b[1] as int) % 16) * 4 + (b[2] as int) / 64),
            base64_digit((b[2] as int) % 64),
        ] + base64_encoded(b.skip(3))
    }
}

/// The characters of the Unicode White_Space property, which
/// `char::is_whitespace` tests.
pub open spec fn is_white_space(c: char) -> bool {
    ||| '\u{9}' <= c && c <= '\u{d}'
    ||| c == ' '
    ||| c == '\u{85}'
    ||| c == '\u{a0}'
    ||| c == '\u{1680}'
    ||| '\u{2000}' <= c && c <= '\u{200a}'
    ||| c == '\u{2028}'
    ||| c == '\u{2029}'
    ||| c == '\u{202f}'
    ||| c == '\u{205f}'
    ||| c == '\u{3000}'
}

/// `s` without its leading white space.
pub open spec fn trim_start(s: Seq<char>) -> Seq<char>
    decreases s.len(),
{
    if s.len() > 0 && is_white_space(s[0]) {
        trim_start(s.drop_first())
    } else {
        s
    }
}

/// `s` without its trailing white space.
pub open spec fn trim_end(s: Seq<char>) -> Seq<char>
    decreases s.len(),
{
    if s.len() > 0 && is_white_space(s.last()) {
        trim_end(s.drop_last())
    } else {
        s
    }
}

/// `s` without white space at either end.
pub open spec fn trimmed(s: Seq<char>) -> Seq<char> {
    trim_end(trim_start(s))
}

/// The public half of a key pair held as its 64 bytes: the secret key comes
/// first, the public key after it.
pub open spec fn public_half(keypair: Seq<u8>) -> Seq<u8> {
    keypair.subrange(32, 64)
}

/// The plain values an undelegation instruction was built from.
pub struct InstructionModel {
    pub staker: [u8; 32],
    pub miner: [u8; 32],
    pub mint: [u8; 32],
    pub amount: u64,
}

/// The plain values a one-instruction undelegation transaction was built
/// from, and the key pair and blockhash of its one signature, if signed.
pub struct TransactionModel {
    pub instruction: InstructionModel,
    pub fee_payer: [u8; 32],
    pub signed: Option<([u8; 64], [u8; 32])>,
}

/// An undelegation instruction. Only the wrappers below build one, so its
/// model always describes it.
pub struct UnboostInstruction {
    ix: Instruction,
    model: InstructionModel,
}

impl View for UnboostInstruction {
    type V = InstructionModel;

    closed spec fn view(&self) -> InstructionModel {
        self.model
    }
}

/// A one-instruction undelegation transaction. Only the wrappers below build
/// or change one, so its model always describes it.
pub struct UnboostTransaction {
    tx: Transaction,
    model: TransactionModel,
}

impl View for UnboostTransaction {
    type V = TransactionModel;

    closed spec fn view(&self) -> TransactionModel {
        self.model
    }
}

/// Relies on `ore_api::consts::TOKEN_DECIMALS`, the decimal places of the
/// boost token amounts, which that crate sets to 11.
#[verifier::external_body]
pub(crate) fn token_decimals() -> (r: u32)
    ensures
        r == 11,
{
    ore_api::consts::TOKEN_DECIMALS as u32
}

/// Relies on `str::trim`: leading and trailing characters of the Unicode
/// White_Space property removed.
#[verifier::external_body]
pub(crate) fn trim_text(s: &str) -> (r: &str)
    ensures
        r@ == trimmed(s@),
{
    s.trim()
}

/// Relies on `Pubkey::from_str`: base58 text of exactly 32 bytes. It refuses
/// text of more than 44 bytes, and empty text, which decodes to no bytes.
#[verifier::external_body]
pub(crate) fn parse_pubkey(s: &str) -> (r: Option<[u8; 32]>)
    ensures
        r is Some <==> pubkey_from_text(s@) is Some,
        r is Some ==> pubkey_from_text(s@) == Some(r->0@),
        s@.len() == 0 ==> r is None,
        s@.len() > 44 ==> r is None,
{
    Pubkey::from_str(s).ok().map(|k| k.to_bytes())
}

/// Relies on `Keypair::to_bytes`: the secret key, then the public key that
/// `Keypair::pubkey` gives; `Keypair::from_bytes` accepts these bytes back.
#[verifier::external_body]
pub(crate) fn keypair_bytes(key: &Keypair) -> (r: [u8; 64])
    ensures
        keypair_accepted(r@),
{
    key.to_bytes()
}

/// Relies on base64's `STANDARD` engine `decode`: the bytes of valid,
/// padded base64 text.
#[verifier::external_body]
pub(crate) fn decode_base64(s: &str) -> (r: Option<Vec<u8>>)
    ensures
        r is Some <==> base64_decoded(s@) is Some,
        r is Some ==> base64_decoded(s@) == Some(r->0@),
{
    BASE64_STANDARD.decode(s).ok()
}

/// Relies on base64's `STANDARD` engine `encode`: the standard alphabet,
/// with `=` padding.
#[verifier::external_body]
pub(crate) fn encode_base64(b: &[u8]) -> (r: String)
    ensures
        r@ == base64_encoded(b@),
{
    BASE64_STANDARD.encode(b)
}

/// Relies on `bincode::deserialize` into a `Hash`: the hash is the first 32
/// bytes, trailing bytes are allowed, and fewer than 32 bytes are refused.
#[verifier::external_body]
pub(crate) fn deserialize_hash(b: &[u8]) -> (r: Option<[u8; 32]>)
    ensures
        r is Some <==> b@.len() >= 32,
        r is Some ==> r->0@ == b@.take(32),
{
    bincode::deserialize::<hash::Hash>(b).ok().map(|h| h.to_bytes())
}

/// Relies on `ore_miner_delegation::instruction::undelegate_boost`: the
/// instruction that moves `amount` base units of `mint` back from the pool
/// run by `miner` to `staker`, who signs it.
#[verifier::external_body]
pub(crate) fn undelegate_instruction(
    staker: [u8; 32],
    miner: [u8; 32],
    mint: [u8; 32],
    amount: u64,
) -> (r: UnboostInstruction)
    ensures
        r@ == (InstructionModel { staker, miner, mint, amount }),
{
    let ix = ore_miner_delegation::instruction::undelegate_boost(
        Pubkey::new_from_array(staker),
        Pubkey::new_from_array(miner),
        Pubkey::new_from_array(mint),
        amount,
    );
    UnboostInstruction { ix, model: InstructionModel { staker, miner, mint, amount } }
}

/// Relies on `Transaction::new_with_payer`: an unsigned transaction of the
/// one instruction, with `payer` as its fee payer. Its required signers are
/// the fee payer and the staker.
#[verifier::external_body]
pub(crate) fn transaction_with_payer(ix: UnboostInstruction, payer: [u8; 32]) -> (r:
    UnboostTransaction)
    ensures
        r@ == (TransactionModel { instruction: ix@, fee_payer: payer, signed: None }),
{
    let tx = Transaction::new_with_payer(&[ix.ix], Some(&Pubkey::new_from_array(payer)));
    let model = TransactionModel { instruction: ix.model, fee_payer: payer, signed: None };
    UnboostTransaction { tx, model }
}

/// Relies on `Keypair::from_bytes` and `Transaction::try_partial_sign`: the
/// key pair signs over `blockhash`, leaving the other signature slot empty.
/// It succeeds exactly when the bytes are a key pair and its public key is
/// one of the required signers; on failure nothing changes. Only an unsigned
/// transaction is signed here, so the model's one signature is all it holds.
#[verifier::external_body]
pub(crate) fn sign_partially(t: &mut UnboostTransaction, keypair: &[u8; 64], blockhash: &[u8; 32])
    -> (r: bool)
    requires
        old(t)@.signed is None,
    ensures
        r == (keypair_accepted(keypair@) && (public_half(keypair@) == old(t)@.instruction.staker@
            || public_half(keypair@) == old(t)@.fee_payer@)),
        r ==> final(t)@ == (TransactionModel { signed: Some((*keypair, *blockhash)), ..old(t)@ }),
        !r ==> final(t)@ == old(t)@,
{
    let ok = match Keypair::from_bytes(keypair) {
        Ok(k) => t.tx.try_partial_sign(&[&k], hash::Hash::new_from_array(*blockhash)).is_ok(),
        Err(_) => false,
    };
    if ok {
        t.model.signed = Some((*keypair, *blockhash));
    }
    ok
}

/// Relies on `bincode::serialize` of a transaction: its wire bytes. It fails
/// only on a list longer than 65535 entries, which a transaction of one
/// undelegation instruction never holds.
#[verifier::external_body]
pub(crate) fn serialize_transaction(t: &UnboostTransaction) -> (r: Option<Vec<u8>>)
    ensures
        t@.signed matches Some((k, h)) ==> r is Some && r->0@ == signed_unboost_bytes(
            t@.instruction.staker@,
            t@.instruction.miner@,
            t@.instruction.mint@,
            t@.instruction.amount,
            t@.fee_payer@,
            k@,
            h@,
        ),
{
    bincode::serialize(&t.tx).ok()
}

} // verus!
