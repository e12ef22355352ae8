//! Words-per-minute and accuracy arithmetic.
//!
//! A "word" is five characters. All results are rounded to the nearest
//! integer, halves rounding up, exactly as a real-valued computation followed
//! by `round` would give for non-negative values.
use vstd::prelude::*;

verus! {

/// Characters per word.
pub const CHARS_PER_WORD: u64 = 5;

/// Seconds per minute.
pub const SECONDS_PER_MINUTE: u64 = 60;

/// Milliseconds per second.
pub const MS_PER_SECOND: u64 = 1000;

/// `n / d` rounded to the nearest integer, halves up (for `n >= 0`, `d > 0`).
pub open spec fn rounded_ratio(n: int, d: int) -> int {
    (2 * n + d) / (2 * d)
}

/// Accuracy in percent: correct characters over typed characters, or 0 when
/// nothing was typed.
pub open spec fn accuracy_of(correct: int, typed: int) -> int {
    if typed > 0 {
        rounded_ratio(100 * correct, typed)
    } else {
        0
    }
}

/// Whole seconds in `elapsed_ms` milliseconds.
pub open spec fn whole_seconds(elapsed_ms: int) -> int {
    elapsed_ms / MS_PER_SECOND as int
}

/// Words per minute for `chars` characters typed over `elapsed_ms`
/// milliseconds, counting whole seconds only: `chars / 5 / minutes` with
/// `minutes = seconds / 60`, and 0 when less than a second elapsed.
/// Saturates at `u64::MAX`.
pub open spec fn rate_of(chars: int, elapsed_ms: int) -> int {
    let secs = whole_seconds(elapsed_ms);
    if secs <= 0 {
        0
    } else {
        let r = rounded_ratio(chars * SECONDS_PER_MINUTE, CHARS_PER_WORD * secs);
        if r > u64::MAX {
            u64::MAX as int
        } else {
            r
        }
    }
}

/// The three scores of a finished session.
#[derive(Clone, Copy, Debug, PartialEq, Eq, Structural)]
pub struct Scores {
    pub wpm: u64,
    pub raw_wpm: u64,
    pub accuracy: u64,
}

/// The scores for `correct` correct characters out of `typed` typed ones,
/// over `elapsed_ms` milliseconds.
pub open spec fn scores_of(correct: int, typed: int, elapsed_ms: int) -> Scores {
    Scores {
        wpm: rate_of(correct, elapsed_ms) as u64,
        raw_wpm: rate_of(typed, elapsed_ms) as u64,
        accuracy: accuracy_of(correct, typed) as u64,
    }
}

/// Words per minute for `chars` characters over the whole seconds of
/// `elapsed_ms` milliseconds.
pub fn words_per_minute(chars: u64, elapsed_ms: u64) -> (r: u64)
    ensures
        r == rate_of(chars as int, elapsed_ms as int),
{
    let secs: u64 = elapsed_ms / 1000;
    if secs == 0 {
        return 0;
    }
    let n: u128 = chars as u128 * 60;
    let d: u128 = secs as u128 * 5;
    let q: u128 = (2 * n + d) / (2 * d);
    if q > u64::MAX as u128 {
        u64::MAX
    } else {
        q as u64
    }
}

/// Accuracy in percent, 0 when nothing was typed.
pub fn accuracy_percent(correct: u64, typed: u64) -> (r: u64)
    requires
        correct <= typed,
    ensures
        r == accuracy_of(correct as int, typed as int),
        r <= 100,
{
    if typed == 0 {
        return 0;
    }
    let n: u128 = correct as u128 * 100;
    let d: u128 = typed as u128;
    let q: u128 = (2 * n + d) / (2 * d);
    proof {
        lemma_accuracy_at_most_100(correct as int, typed as int);
    }
    q as u64
}

/// The scores of a session: a function of the correct count, the typed count
/// and the elapsed time alone.
pub fn calculate_scores(correct: u64, typed: u64, elapsed_ms: u64) -> (r: Scores)
    requires
        correct <= typed,
    ensures
        r == scores_of(correct as int, typed as int, elapsed_ms as int),
        r.wpm == rate_of(correct as int, elapsed_ms as int),
        r.raw_wpm == rate_of(typed as int, elapsed_ms as int),
        r.accuracy == accuracy_of(correct as int, typed as int),
        r.accuracy <= 100,
{
    Scores {
        wpm: words_per_minute(correct, elapsed_ms),
        raw_wpm: words_per_minute(typed, elapsed_ms),
        accuracy: accuracy_percent(correct, typed),
    }
}

/// Accuracy never exceeds 100 percent when the correct characters are among
/// the typed ones, and is never negative.
pub proof fn lemma_accuracy_at_most_100(correct: int, typed: int)
    requires
        0 <= correct <= typed,
    ensures
        0 <= accuracy_of(correct, typed) <= 100,
{
    if typed > 0 {
        assert(2 * (100 * correct) + typed <= 201 * typed) by (nonlinear_arith)
            requires
                correct <= typed,
                typed > 0,
        ;
        assert((2 * (100 * correct) + typed) / (2 * typed) <= 100) by (nonlinear_arith)
            requires
                2 * (100 * correct) + typed <= 201 * typed,
                typed > 0,
        ;
        assert((2 * (100 * correct) + typed) / (2 * typed) >= 0) by (nonlinear_arith)
            requires
                correct >= 0,
                typed > 0,
        ;
    }
}

/// The scores depend on the correct count, the typed count and the elapsed
/// time alone: equal inputs give equal scores.
pub proof fn lemma_scores_deterministic(
    c1: int,
    t1: int,
    e1: int,
    c2: int,
    t2: int,
    e2: int,
)
    requires
        c1 == c2,
        t1 == t2,
        e1 == e2,
    ensures
        scores_of(c1, t1, e1) == scores_of(c2, t2, e2),
{
}

} // verus!
