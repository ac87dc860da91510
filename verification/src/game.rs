//! The number-guessing logic: parsing a guess line, comparing a guess
//! to the target, and the game state machine around them.
//!
//! A round takes one input line as bytes. The line, trimmed of
//! surrounding whitespace, must be a nonempty string of decimal digits
//! whose value fits in 32 bits; anything else is a recoverable parse
//! failure. A parsed guess is measured against the target with a
//! three-way comparison, and equality wins the game.

use rand::Rng;
use vstd::prelude::*;

verus! {

/// A byte is ASCII whitespace: space, tab, line feed, or carriage
/// return.
pub open spec fn is_space(b: u8) -> bool {
    b == 32 || b == 9 || b == 10 || b == 13
}

/// `s` with its leading whitespace removed.
pub open spec fn trim_front(s: Seq<u8>) -> Seq<u8>
    decreases s.len(),
{
    if s.len() > 0 && is_space(s[0]) {
        trim_front(s.subrange(1, s.len() as int))
    } else {
        s
    }
}

/// `s` with its trailing whitespace removed.
pub open spec fn trim_back(s: Seq<u8>) -> Seq<u8>
    decreases s.len(),
{
    if s.len() > 0 && is_space(s[s.len() - 1]) {
        trim_back(s.subrange(0, s.len() - 1))
    } else {
        s
    }
}

/// `s` with whitespace removed from both ends.
pub open spec fn trimmed(s: Seq<u8>) -> Seq<u8> {
    trim_back(trim_front(s))
}

/// Every byte of `s` is a decimal digit.
pub open spec fn all_digits(s: Seq<u8>) -> bool {
    forall|i: int| 0 <= i < s.len() ==> 48 <= #[trigger] s[i] <= 57
}

/// The number that the digit string `s` denotes in base ten.
pub open spec fn digits_value(s: Seq<u8>) -> nat
    decreases s.len(),
{
    if s.len() == 0 {
        0
    } else {
        digits_value(s.drop_last()) * 10 + (s.last() - 48) as nat
    }
}

/// What parsing a guess line yields: the trimmed line must be a
/// nonempty string of decimal digits denoting a value that fits in 32
/// bits; an empty line, a stray byte, or an oversized value is
/// rejected.
pub open spec fn parse_guess_spec(s: Seq<u8>) -> Option<u32> {
    let t = trimmed(s);
    if t.len() > 0 && all_digits(t) && digits_value(t) <= u32::MAX {
        Some(digits_value(t) as u32)
    } else {
        None
    }
}

/// A digit string never denotes less than any of its prefixes.
proof fn lemma_digits_value_monotone(s: Seq<u8>, j: int)
    requires
        0 <= j <= s.len(),
        all_digits(s),
    ensures
        digits_value(s.subrange(0, j)) <= digits_value(s),
    decreases s.len() - j,
{
    if j == s.len() {
        assert(s.subrange(0, j) =~= s);
    } else {
        assert(s.subrange(0, j + 1).drop_last() =~= s.subrange(0, j));
        assert(s.subrange(0, j + 1).last() == s[j]);
        lemma_digits_value_monotone(s, j + 1);
    }
}

fn space_byte(b: u8) -> (r: bool)
    ensures
        r == is_space(b),
{
    b == 32 || b == 9 || b == 10 || b == 13
}

/// Parses one guess line, as the game reads it: trims surrounding
/// whitespace, then reads the rest as a nonnegative decimal integer.
pub fn parse_guess(line: &[u8]) -> (r: Option<u32>)
    ensures
        r == parse_guess_spec(line@),
{
    let n = line.len();
    let mut lo: usize = 0;
    assert(line@.subrange(0, n as int) =~= line@);
    while lo < n && space_byte(line[lo])
        invariant
            lo <= n,
            n == line@.len(),
            trim_front(line@) == trim_front(line@.subrange(lo as int, n as int)),
        decreases n - lo,
    {
        assert(line@.subrange(lo as int, n as int).subrange(1, (n - lo) as int) =~= line@.subrange(
            lo as int + 1,
            n as int,
        ));
        lo = lo + 1;
    }
    assert(trim_front(line@) == line@.subrange(lo as int, n as int));
    let mut hi: usize = n;
    while hi > lo && space_byte(line[hi - 1])
        invariant
            lo <= hi <= n,
            n == line@.len(),
            trim_front(line@) == line@.subrange(lo as int, n as int),
            trim_back(line@.subrange(lo as int, n as int)) == trim_back(
                line@.subrange(lo as int, hi as int),
            ),
        decreases hi,
    {
        assert(line@.subrange(lo as int, hi as int).subrange(0, (hi - lo - 1) as int)
            =~= line@.subrange(lo as int, hi as int - 1));
        hi = hi - 1;
    }
    let ghost t = trimmed(line@);
    proof {
        if hi == lo {
            assert(line@.subrange(lo as int, hi as int) =~= Seq::<u8>::empty());
        }
        assert(t == line@.subrange(lo as int, hi as int));
    }
    if lo == hi {
        return None;
    }
    let mut acc: u64 = 0;
    let mut i: usize = lo;
    assert(t.subrange(0, 0) =~= Seq::<u8>::empty());
    while i < hi
        invariant
            lo <= i <= hi <= n,
            n == line@.len(),
            t == line@.subrange(lo as int, hi as int),
            t == trimmed(line@),
            t.len() > 0,
            acc == digits_value(t.subrange(0, i - lo)),
            acc <= u32::MAX,
            all_digits(t.subrange(0, i - lo)),
        decreases hi - i,
    {
        let b = line[i];
        assert(b == t[i - lo]);
        if !(48 <= b && b <= 57) {
            proof {
                assert(!all_digits(t)) by {
                    if all_digits(t) {
                        assert(48 <= t[i - lo] <= 57);
                    }
                }
            }
            return None;
        }
        let d = (b - 48) as u64;
        let next = acc * 10 + d;
        proof {
            assert(t.subrange(0, i - lo + 1).drop_last() =~= t.subrange(0, i - lo));
            assert(t.subrange(0, i - lo + 1).last() == t[i - lo]);
        }
        if next > u32::MAX as u64 {
            proof {
                let t2 = t.subrange(0, i - lo + 1);
                assert(digits_value(t2) == acc * 10 + d);
                if all_digits(t) {
                    lemma_digits_value_monotone(t, i - lo + 1);
                    assert(digits_value(t) > u32::MAX);
                }
            }
            return None;
        }
        acc = next;
        i = i + 1;
    }
    assert(t.subrange(0, hi - lo) =~= t);
    Some(acc as u32)
}

/// What one round of the game reports for a given input line.
#[derive(Clone, Copy, Debug, PartialEq, Eq, Structural)]
pub enum Outcome {
    /// The line did not parse as a nonnegative integer.
    Invalid,
    /// The guess is below the target.
    TooSmall,
    /// The guess is above the target.
    TooBig,
    /// The guess equals the target: the game is over.
    Win,
}

/// The verdict of the three-way comparison of a parsed guess against
/// the target.
pub open spec fn verdict(guess: u32, target: u32) -> Outcome {
    if guess < target {
        Outcome::TooSmall
    } else if guess > target {
        Outcome::TooBig
    } else {
        Outcome::Win
    }
}

/// Compares a parsed guess to the target, each relation mapped to its
/// own verdict.
pub fn compare_guess(guess: u32, target: u32) -> (o: Outcome)
    ensures
        o == verdict(guess, target),
{
    if guess < target {
        Outcome::TooSmall
    } else if guess > target {
        Outcome::TooBig
    } else {
        Outcome::Win
    }
}

/// What one round yields for the given target and input line: a parse
/// failure is reported as invalid, a parsed guess by its verdict.
pub open spec fn round_outcome(target: u32, line: Seq<u8>) -> Outcome {
    match parse_guess_spec(line) {
        Some(g) => verdict(g, target),
        None => Outcome::Invalid,
    }
}

/// Relies on rand::Rng::gen_range on rand::thread_rng(): a uniformly
/// random value in the given nonempty range, here 1 through 100.
#[verifier::external_body]
fn random_target() -> (r: u32)
    ensures
        1 <= r <= 100,
{
    rand::thread_rng().gen_range(1..101)
}

/// One run of the guessing game: a target fixed at the start and the
/// won flag. The target lies in 1 through 100 and never changes; the
/// game is won exactly when a guess equal to the target comes in.
pub struct Game {
    target: u32,
    won: bool,
}

impl Game {
    /// The fixed target of this run.
    pub closed spec fn target_spec(self) -> u32 {
        self.target
    }

    /// Whether a guess equal to the target has come in.
    pub closed spec fn won_spec(self) -> bool {
        self.won
    }

    /// The game is well formed: its target lies in 1 through 100.
    pub open spec fn wf(self) -> bool {
        1 <= self.target_spec() <= 100
    }

    /// Starts a game with a target drawn at random from 1 through 100.
    pub fn new() -> (g: Game)
        ensures
            g.wf(),
            !g.won_spec(),
    {
        Game { target: random_target(), won: false }
    }

    /// Starts a game with a caller-chosen target.
    pub fn with_target(target: u32) -> (g: Game)
        requires
            1 <= target <= 100,
        ensures
            g.wf(),
            !g.won_spec(),
            g.target_spec() == target,
    {
        Game { target, won: false }
    }

    /// The target, for a caller that wants to reveal it.
    pub fn target(&self) -> (t: u32)
        ensures
            t == self.target_spec(),
    {
        self.target
    }

    /// Whether the game has been won.
    pub fn is_won(&self) -> (w: bool)
        ensures
            w == self.won_spec(),
    {
        self.won
    }

    /// Plays one round on an input line. An unparsable line is
    /// reported invalid and changes nothing; a parsed guess is
    /// measured against the target, and equality wins the game. The
    /// target is retained unchanged in every case.
    pub fn guess(&mut self, line: &[u8]) -> (o: Outcome)
        requires
            old(self).wf(),
            !old(self).won_spec(),
        ensures
            final(self).wf(),
            final(self).target_spec() == old(self).target_spec(),
            o == round_outcome(old(self).target_spec(), line@),
            final(self).won_spec() == (o == Outcome::Win),
    {
        match parse_guess(line) {
            None => Outcome::Invalid,
            Some(g) => {
                let o = compare_guess(g, self.target);
                if matches!(o, Outcome::Win) {
                    self.won = true;
                }
                o
            },
        }
    }
}

} // verus!
