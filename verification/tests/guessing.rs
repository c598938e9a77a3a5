use exercises::guessing::{
    judge_guess, parse_int, GuessEnum, Reply, Round, MAX_RANGE, MAX_ROUNDS,
};

#[test]
fn limits_of_a_sitting() {
    assert_eq!(MAX_RANGE, 100);
    assert_eq!(MAX_ROUNDS, 3);
}

#[test]
fn parse_int_reads_plain_numbers() {
    assert_eq!(parse_int("0"), Some(0));
    assert_eq!(parse_int("7"), Some(7));
    assert_eq!(parse_int("42"), Some(42));
    assert_eq!(parse_int("100"), Some(100));
    assert_eq!(parse_int("007"), Some(7));
    assert_eq!(parse_int("4294967295"), Some(u32::MAX));
    assert_eq!(parse_int("0000000000004294967295"), Some(u32::MAX));
}

#[test]
fn parse_int_takes_a_leading_plus() {
    assert_eq!(parse_int("+5"), Some(5));
    assert_eq!(parse_int("+0"), Some(0));
    assert_eq!(parse_int("+"), None);
    assert_eq!(parse_int("++5"), None);
    assert_eq!(parse_int("5+"), None);
    assert_eq!(parse_int("+-5"), None);
}

#[test]
fn parse_int_refuses_what_is_no_number() {
    assert_eq!(parse_int(""), None);
    assert_eq!(parse_int("-5"), None);
    assert_eq!(parse_int("-0"), None);
    assert_eq!(parse_int("abc"), None);
    assert_eq!(parse_int("12a"), None);
    assert_eq!(parse_int("a12"), None);
    assert_eq!(parse_int("1 2"), None);
    assert_eq!(parse_int(" 12"), None);
    assert_eq!(parse_int("12 "), None);
    assert_eq!(parse_int("12\n"), None);
    assert_eq!(parse_int("1_000"), None);
    assert_eq!(parse_int("1.5"), None);
    assert_eq!(parse_int("0x10"), None);
    assert_eq!(parse_int("\u{661}\u{662}"), None);
}

#[test]
fn parse_int_refuses_what_does_not_fit() {
    assert_eq!(parse_int("4294967296"), None);
    assert_eq!(parse_int("4294967300"), None);
    assert_eq!(parse_int("42949672950"), None);
    assert_eq!(parse_int("99999999999999999999999999"), None);
    assert_eq!(parse_int("4294967296x"), None);
}

#[test]
fn parse_int_agrees_with_the_standard_parser() {
    let pieces = ["", "+", "-", "0", "1", "9", "42", " ", "a", "4294967295", "4294967296", "00"];
    for a in pieces {
        for b in pieces {
            for c in pieces {
                let text = format!("{}{}{}", a, b, c);
                assert_eq!(parse_int(&text), text.parse::<u32>().ok(), "{:?}", text);
            }
        }
    }
    for n in (0..=u32::MAX).step_by(7_919_003) {
        assert_eq!(parse_int(&n.to_string()), Some(n));
    }
}

#[test]
fn judge_guess_tells_the_side_and_the_distance() {
    assert_eq!(judge_guess(50, 50), GuessEnum::Exact);
    assert_eq!(judge_guess(0, 0), GuessEnum::Exact);
    assert_eq!(judge_guess(51, 50), GuessEnum::TooHigh(1));
    assert_eq!(judge_guess(99, 3), GuessEnum::TooHigh(96));
    assert_eq!(judge_guess(49, 50), GuessEnum::TooLow(1));
    assert_eq!(judge_guess(3, 99), GuessEnum::TooLow(96));
    assert_eq!(judge_guess(u32::MAX, 0), GuessEnum::TooHigh(u32::MAX));
    assert_eq!(judge_guess(0, u32::MAX), GuessEnum::TooLow(u32::MAX));
}

#[test]
fn round_counts_the_guesses_that_miss() {
    let mut round = Round::new(37, false);
    assert_eq!(round.guess("50\n"), Reply::TooHigh(None));
    assert_eq!(round.guess("20\n"), Reply::TooLow(None));
    assert_eq!(round.guess("40\n"), Reply::TooHigh(None));
    assert_eq!(round.guess("37\n"), Reply::Found(4));
}

#[test]
fn round_found_at_once() {
    let mut round = Round::new(0, false);
    assert_eq!(round.guess("0"), Reply::Found(1));
}

#[test]
fn round_does_not_count_what_is_no_number() {
    let mut round = Round::new(37, false);
    assert_eq!(round.guess("\n"), Reply::NotANumber);
    assert_eq!(round.guess("thirty\n"), Reply::NotANumber);
    assert_eq!(round.guess("-1\n"), Reply::NotANumber);
    assert_eq!(round.guess("3 7\n"), Reply::NotANumber);
    assert_eq!(round.guess("4294967296\n"), Reply::NotANumber);
    assert_eq!(round.guess("36\n"), Reply::TooLow(None));
    assert_eq!(round.guess("oops\n"), Reply::NotANumber);
    assert_eq!(round.guess("37\n"), Reply::Found(2));
}

#[test]
fn round_tells_the_distance_in_baby_mode() {
    let mut round = Round::new(37, true);
    assert_eq!(round.guess("50"), Reply::TooHigh(Some(13)));
    assert_eq!(round.guess("30"), Reply::TooLow(Some(7)));
    assert_eq!(round.guess("4294967295"), Reply::TooHigh(Some(4294967258)));
    assert_eq!(round.guess("37"), Reply::Found(4));
}

#[test]
fn round_ignores_white_space_around_the_entry() {
    let mut round = Round::new(37, true);
    assert_eq!(round.guess("  38  \r\n"), Reply::TooHigh(Some(1)));
    assert_eq!(round.guess("\t+37\u{a0}\n"), Reply::Found(2));
}

#[test]
fn drawn_number_lies_below_the_bound() {
    let mut above_zero = 0;
    for _ in 0..2000 {
        let mut round = Round::draw(true);
        // the bound itself is always too high, so the number is below it
        match round.guess("100") {
            Reply::TooHigh(Some(diff)) => {
                assert!(1 <= diff && diff <= MAX_RANGE);
                if diff < MAX_RANGE {
                    above_zero += 1;
                }
            }
            other => panic!("the number in mind is not below the bound: {:?}", other),
        }
        // the miss was counted
        match round.guess("0") {
            Reply::TooLow(Some(diff)) => assert!(diff < MAX_RANGE),
            Reply::Found(guesses) => assert_eq!(guesses, 2),
            other => panic!("the number in mind is below zero: {:?}", other),
        }
    }
    // the draw does not hand back its lower bound every time
    assert!(above_zero > 0);
}

#[test]
fn drawn_round_keeps_its_mode() {
    let mut plain = Round::draw(false);
    assert_eq!(plain.guess("100"), Reply::TooHigh(None));
}
