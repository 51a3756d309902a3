//! A number-guessing game played against oracle-supplied randomness.
//!
//! The secret number is derived from a randomness account filled by a
//! verifiable-random-function oracle: its first eight bytes are read as a
//! little-endian integer and reduced modulo eleven. A guess is answered with
//! "too small", "too big", or a win message carrying the secret itself.
//!
//! This crate holds the game's logic and its proofs; the surrounding
//! on-chain program (account validation and the cross-program invocation
//! that requests randomness from the oracle) lives outside it.

pub mod game;
pub mod message;
