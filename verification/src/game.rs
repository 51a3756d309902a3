//! The secret number and the three-way answer to a guess.

use crate::message::outcome_message;
use crate::message::spec_outcome_message;
use vstd::bytes::spec_u64_from_le_bytes;
use vstd::bytes::u64_from_le_bytes;
use vstd::prelude::*;
use vstd::slice::slice_subrange;

verus! {

/// The secret is reduced modulo this bound, so every secret lies below it,
/// and so does every guess that can possibly win.
pub const GUESS_MODULUS: u64 = 11;

/// How a guess stands against the secret number.
#[derive(Clone, Copy, Debug, PartialEq, Eq, Structural)]
pub enum Outcome {
    TooSmall,
    TooBig,
    Win,
}

/// The secret number hidden in a randomness account: its first eight bytes
/// read as a little-endian integer, reduced modulo `GUESS_MODULUS`.
pub open spec fn spec_secret(randomness: Seq<u8>) -> u64
    recommends
        randomness.len() >= 8,
{
    spec_u64_from_le_bytes(randomness.subrange(0, 8)) % GUESS_MODULUS
}

/// The answer owed to a guess: ordered strictly by comparison with the secret.
pub open spec fn spec_outcome(user_guess: u64, secret: u64) -> Outcome {
    if user_guess < secret {
        Outcome::TooSmall
    } else if user_guess > secret {
        Outcome::TooBig
    } else {
        Outcome::Win
    }
}

/// Extracts the secret number from the raw bytes of a randomness account.
pub fn secret_number(randomness: &[u8]) -> (secret: u64)
    requires
        randomness@.len() >= 8,
    ensures
        secret == spec_secret(randomness@),
        secret < GUESS_MODULUS,
{
    let first_eight: &[u8] = slice_subrange(randomness, 0, 8);
    let raw: u64 = u64_from_le_bytes(first_eight);
    raw % GUESS_MODULUS
}

/// Compares a guess against the secret number.
pub fn evaluate_guess(user_guess: u64, secret: u64) -> (outcome: Outcome)
    ensures
        outcome == spec_outcome(user_guess, secret),
{
    if user_guess < secret {
        Outcome::TooSmall
    } else if user_guess > secret {
        Outcome::TooBig
    } else {
        Outcome::Win
    }
}

/// The whole round in one step: derive the secret from the randomness
/// account's bytes and answer the guess.
pub fn guess_outcome(randomness: &[u8], user_guess: u64) -> (outcome: Outcome)
    requires
        randomness@.len() >= 8,
    ensures
        outcome == spec_outcome(user_guess, spec_secret(randomness@)),
{
    let secret: u64 = secret_number(randomness);
    evaluate_guess(user_guess, secret)
}

/// One round in full: derive the secret from the randomness account's
/// bytes, answer the guess, and word the answer.
pub fn guess_message(randomness: &[u8], user_guess: u64) -> (message: String)
    requires
        randomness@.len() >= 8,
    ensures
        message@ == spec_outcome_message(
            spec_outcome(user_guess, spec_secret(randomness@)),
            spec_secret(randomness@),
        ),
{
    let secret: u64 = secret_number(randomness);
    let outcome = evaluate_guess(user_guess, secret);
    outcome_message(outcome, secret)
}

/// For any fulfilled randomness, the secret lies below `GUESS_MODULUS`;
/// guessing the secret itself wins, and every other guess is answered too
/// small or too big exactly according to its order against the secret.
pub proof fn lemma_guess_resolution(randomness: Seq<u8>, user_guess: u64)
    requires
        randomness.len() >= 8,
    ensures
        spec_secret(randomness) < GUESS_MODULUS,
        spec_outcome(user_guess, spec_secret(randomness)) == Outcome::Win <==> user_guess
            == spec_secret(randomness),
        spec_outcome(user_guess, spec_secret(randomness)) == Outcome::TooSmall <==> user_guess
            < spec_secret(randomness),
        spec_outcome(user_guess, spec_secret(randomness)) == Outcome::TooBig <==> user_guess
            > spec_secret(randomness),
{
}

} // verus!
