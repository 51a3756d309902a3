use guessing_game::game::evaluate_guess;
use guessing_game::game::guess_message;
use guessing_game::game::guess_outcome;
use guessing_game::game::secret_number;
use guessing_game::game::Outcome;
use guessing_game::game::GUESS_MODULUS;

fn randomness_with_value(value: u64) -> [u8; 64] {
    let mut bytes = [0u8; 64];
    bytes[..8].copy_from_slice(&value.to_le_bytes());
    bytes
}

#[test]
fn secret_of_small_value() {
    let bytes = randomness_with_value(1);
    assert_eq!(secret_number(&bytes), 1);
}

#[test]
fn secret_is_reduced_modulo_eleven() {
    // 123456789 = 11 * 11223344 + 5
    let bytes = randomness_with_value(123456789);
    assert_eq!(secret_number(&bytes), 5);
}

#[test]
fn secret_of_maximal_value() {
    // u64::MAX = 11 * 1676976733973595601 + 4
    let bytes = randomness_with_value(u64::MAX);
    assert_eq!(secret_number(&bytes), 4);
}

#[test]
fn secret_ignores_trailing_bytes() {
    let mut bytes = randomness_with_value(22);
    bytes[8..].fill(0xAB);
    assert_eq!(secret_number(&bytes), 0);
}

#[test]
fn secret_reads_bytes_little_endian() {
    // 0x0807060504030201 = 11 * 52585245068391563 + 8
    let bytes = randomness_with_value(0x0807060504030201);
    let mut by_hand = [0u8; 64];
    for i in 0..8 {
        by_hand[i] = (i as u8) + 1;
    }
    assert_eq!(secret_number(&by_hand), secret_number(&bytes));
    assert_eq!(secret_number(&by_hand), 8);
}

#[test]
fn guess_below_secret_is_too_small() {
    assert_eq!(evaluate_guess(3, 5), Outcome::TooSmall);
}

#[test]
fn guess_above_secret_is_too_big() {
    assert_eq!(evaluate_guess(7, 5), Outcome::TooBig);
}

#[test]
fn guess_of_secret_wins() {
    assert_eq!(evaluate_guess(5, 5), Outcome::Win);
}

#[test]
fn guessing_the_reduced_secret_always_wins() {
    for raw in [0u64, 1, 10, 11, 12, 123456789, u64::MAX] {
        let bytes = randomness_with_value(raw);
        let winning_guess = raw % GUESS_MODULUS;
        assert_eq!(guess_outcome(&bytes, winning_guess), Outcome::Win);
    }
}

#[test]
fn every_other_guess_is_answered_by_order() {
    let raw: u64 = 123456789;
    let secret = raw % GUESS_MODULUS;
    let bytes = randomness_with_value(raw);
    for guess in 0..GUESS_MODULUS {
        let expected = if guess < secret {
            Outcome::TooSmall
        } else if guess > secret {
            Outcome::TooBig
        } else {
            Outcome::Win
        };
        assert_eq!(guess_outcome(&bytes, guess), expected);
    }
}

#[test]
fn round_reports_too_small() {
    let bytes = randomness_with_value(123456789);
    assert_eq!(guess_message(&bytes, 2).as_str(), "Too small!");
}

#[test]
fn round_reports_too_big() {
    let bytes = randomness_with_value(123456789);
    assert_eq!(guess_message(&bytes, 9).as_str(), "Too big!");
}

#[test]
fn round_reports_the_win_with_the_secret() {
    let bytes = randomness_with_value(123456789);
    assert_eq!(guess_message(&bytes, 5).as_str(), "You win! 5");
}
