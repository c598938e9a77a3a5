//! A number-guessing round: reading a guess, judging it against the number
//! in mind, and counting the guesses until it is found.

use vstd::prelude::*;
use crate::random::gen_range;
use crate::text::{trim, trimmed};

verus! {

/// The numbers in mind lie below this bound.
pub const MAX_RANGE: u32 = 100;

/// How many rounds one sitting has.
pub const MAX_ROUNDS: u8 = 3;

/// Whether `c` is one of the digits `0` to `9`.
pub open spec fn is_digit(c: char) -> bool {
    '0' <= c <= '9'
}

/// The number that the digit `c` stands for.
pub open spec fn digit_value(c: char) -> nat {
    (c as u32 - '0' as u32) as nat
}

/// Whether `s` holds digits only.
pub open spec fn all_digits(s: Seq<char>) -> bool {
    forall|i: int| 0 <= i < s.len() ==> is_digit(#[trigger] s[i])
}

/// The number that the digits of `s` write in base ten.
pub open spec fn decimal_value(s: Seq<char>) -> nat
    decreases s.len(),
{
    if s.len() == 0 {
        0
    } else {
        decimal_value(s.drop_last()) * 10 + digit_value(s.last())
    }
}

/// `s` without the `+` that may stand in front of a number.
pub open spec fn without_plus(s: Seq<char>) -> Seq<char> {
    if s.len() > 0 && s[0] == '+' {
        s.drop_first()
    } else {
        s
    }
}

/// The number that `s` writes, if it writes one that fits: an optional `+`,
/// then one digit or more, and nothing else.
pub open spec fn parsed_u32(s: Seq<char>) -> Option<u32> {
    let digits = without_plus(s);
    if digits.len() > 0 && all_digits(digits) && decimal_value(digits) <= u32::MAX {
        Some(decimal_value(digits) as u32)
    } else {
        None
    }
}

/// More digits never write a smaller number.
proof fn lemma_decimal_value_grows(s: Seq<char>, n: int)
    requires
        0 <= n <= s.len(),
    ensures
        decimal_value(s.take(n)) <= decimal_value(s),
    decreases s.len(),
{
    if n == s.len() {
        assert(s.take(n) == s);
    } else {
        assert(s.drop_last().take(n) == s.take(n));
        lemma_decimal_value_grows(s.drop_last(), n);
    }
}

/// Reads a number from the input: an optional `+` and digits, nothing around
/// them. `None` where the input is anything else or the number does not fit.
pub fn parse_int(int_str: &str) -> (r: Option<u32>)
    ensures
        r == parsed_u32(int_str@),
{
    let mut value: u32 = 0;
    let mut plus = false;
    let mut any_digit = false;
    let ghost digits = without_plus(int_str@);
    for c in it: int_str.chars()
        invariant
            it.seq() == int_str@,
            digits == without_plus(int_str@),
            plus == (it.index() > 0 && int_str@[0] == '+'),
            any_digit == (it.index() > if plus { 1int } else { 0int }),
            ({
                let n = it.index() - if plus { 1int } else { 0int };
                all_digits(digits.take(n)) && value == decimal_value(digits.take(n))
            }),
    {
        let ghost n = it.index() - if plus { 1int } else { 0int };
        if !plus && !any_digit && c == '+' {
            plus = true;
        } else if '0' <= c && c <= '9' {
            let digit: u32 = c as u32 - '0' as u32;
            proof {
                assert(digits[n] == c);
                assert(digits.take(n + 1).drop_last() == digits.take(n));
                assert(digits.take(n + 1).last() == c);
                assert forall|i: int| 0 <= i < n + 1 implies is_digit(
                    #[trigger] digits.take(n + 1)[i],
                ) by {
                    if i < n {
                        assert(digits.take(n)[i] == digits.take(n + 1)[i]);
                    }
                }
                lemma_decimal_value_grows(digits, n + 1);
            }
            // A number that has outgrown `u32` stays too large, whatever
            // follows.
            value = match value.checked_mul(10) {
                Some(tens) => match tens.checked_add(digit) {
                    Some(next) => next,
                    None => {
                        return None;
                    },
                },
                None => {
                    return None;
                },
            };
            any_digit = true;
        } else {
            assert(digits[n] == c);
            return None;
        }
    }
    proof {
        assert(digits.take(digits.len() as int) == digits);
    }
    if any_digit {
        Some(value)
    } else {
        None
    }
}

/// Different cases between a user's guess and the actual value.
#[derive(Debug, Clone, Copy, PartialEq, Eq, Structural)]
pub enum GuessEnum {
    /// Guess was too low, with the difference between actual value and guess.
    TooLow(u32),
    /// Guess was too high, with the difference between guess and actual value.
    TooHigh(u32),
    /// Guess was the exact match.
    Exact,
}

/// How `guess` stands to `actual`, and by how much it misses.
pub open spec fn judged(guess: u32, actual: u32) -> GuessEnum {
    if guess > actual {
        GuessEnum::TooHigh((guess - actual) as u32)
    } else if guess < actual {
        GuessEnum::TooLow((actual - guess) as u32)
    } else {
        GuessEnum::Exact
    }
}

/// Judges a guess against the actual value.
pub fn judge_guess(guess: u32, actual: u32) -> (r: GuessEnum)
    ensures
        r == judged(guess, actual),
{
    if guess > actual {
        GuessEnum::TooHigh(guess - actual)
    } else if guess < actual {
        GuessEnum::TooLow(actual - guess)
    } else {
        GuessEnum::Exact
    }
}

/// What the player is told after one line of input.
#[derive(Debug, Clone, Copy, PartialEq, Eq, Structural)]
pub enum Reply {
    /// The line is not a number. The player is asked again and the line does
    /// not count as a guess.
    NotANumber,
    /// The guess is above the number; in baby mode, with the distance.
    TooHigh(Option<u32>),
    /// The guess is below the number; in baby mode, with the distance.
    TooLow(Option<u32>),
    /// The guess is the number: the round ends, with the count of guesses.
    Found(u32),
}

/// One round of the game: a number in mind and the guesses made so far.
#[derive(Debug)]
pub struct Round {
    actual: u32,
    baby_mode: bool,
    num_guesses: u32,
}

impl Round {
    /// The number in mind.
    pub closed spec fn actual(&self) -> u32 {
        self.actual
    }

    /// Whether the player is told how far off a guess is.
    pub closed spec fn baby_mode(&self) -> bool {
        self.baby_mode
    }

    /// The number of the guess that comes next: one more than the guesses that
    /// missed.
    pub closed spec fn spec_num_guesses(&self) -> u32 {
        self.num_guesses
    }

    /// The number of the guess that comes next: one more than the guesses that
    /// missed.
    #[verifier::when_used_as_spec(spec_num_guesses)]
    pub fn num_guesses(&self) -> (n: u32)
        ensures
            n == self.spec_num_guesses(),
    {
        self.num_guesses
    }

    /// The distance as the player hears it: told in baby mode only.
    pub open spec fn told(&self, diff: u32) -> Option<u32> {
        if self.baby_mode() {
            Some(diff)
        } else {
            None
        }
    }

    /// The reply that `line` gets in this round. White space around the entry
    /// is ignored.
    pub open spec fn reply_to(&self, line: Seq<char>) -> Reply {
        match parsed_u32(trimmed(line)) {
            None => Reply::NotANumber,
            Some(guess) => match judged(guess, self.actual()) {
                GuessEnum::TooHigh(diff) => Reply::TooHigh(self.told(diff)),
                GuessEnum::TooLow(diff) => Reply::TooLow(self.told(diff)),
                GuessEnum::Exact => Reply::Found(self.num_guesses()),
            },
        }
    }

    /// A round with `actual` in mind and no guess made yet.
    pub fn new(actual: u32, baby_mode: bool) -> (round: Round)
        ensures
            round.actual() == actual,
            round.baby_mode() == baby_mode,
            round.num_guesses() == 1,
    {
        Round { actual, baby_mode, num_guesses: 1 }
    }

    /// A round with a number in mind that is drawn at random below
    /// `MAX_RANGE`.
    pub fn draw(baby_mode: bool) -> (round: Round)
        ensures
            round.actual() < MAX_RANGE,
            round.baby_mode() == baby_mode,
            round.num_guesses() == 1,
    {
        let mut rng = rand::thread_rng();
        let actual = gen_range(&mut rng, 0, MAX_RANGE);
        Round::new(actual, baby_mode)
    }

    /// Takes one line of input and says what the player is told. A guess that
    /// misses is counted; a line that is no number, and the guess that finds
    /// the number, are not.
    pub fn guess(&mut self, line: &str) -> (reply: Reply)
        requires
            old(self).num_guesses() < u32::MAX,
        ensures
            reply == old(self).reply_to(line@),
            final(self).actual() == old(self).actual(),
            final(self).baby_mode() == old(self).baby_mode(),
            final(self).num_guesses() == old(self).num_guesses() + if reply is TooHigh
                || reply is TooLow {
                1int
            } else {
                0int
            },
    {
        let guess_str = trim(line);
        let guess = if let Some(num) = parse_int(guess_str) {
            num
        } else {
            return Reply::NotANumber;
        };
        let reply = match judge_guess(guess, self.actual) {
            GuessEnum::TooHigh(diff) => {
                if self.baby_mode {
                    Reply::TooHigh(Some(diff))
                } else {
                    Reply::TooHigh(None)
                }
            },
            GuessEnum::TooLow(diff) => {
                match self.baby_mode {
                    true => Reply::TooLow(Some(diff)),
                    false => Reply::TooLow(None),
                }
            },
            GuessEnum::Exact => {
                return Reply::Found(self.num_guesses);
            },
        };
        self.num_guesses += 1;
        reply
    }
}

} // verus!
