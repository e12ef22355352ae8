//! One typing session: the prompt, what was typed, timing and scores.
use vstd::prelude::*;
use vstd::string::*;

use crate::keys::{edit, edited, Key};
use crate::stats::{accuracy_of, calculate_scores, lemma_accuracy_at_most_100, rate_of};
use crate::words::{drawn_text, joined, drawn_from, sample_words, words_view, WordsError};

verus! {

/// The prompt of a session that has not been given words.
pub open spec fn default_text() -> Seq<char> {
    "tuis are probably the coolest thing since sliced bread"@
}

/// Number of positions below both lengths where the prompt and the input
/// hold the same character, counting positions `0..n`.
pub open spec fn matches_upto(text: Seq<char>, input: Seq<char>, n: nat) -> nat
    decreases n,
{
    if n == 0 {
        0
    } else {
        matches_upto(text, input, (n - 1) as nat) + if text[n - 1] == input[n - 1] {
            1nat
        } else {
            0nat
        }
    }
}

/// Number of positions where the input matches the prompt.
pub open spec fn correct_chars(text: Seq<char>, input: Seq<char>) -> nat {
    let n = if text.len() < input.len() {
        text.len()
    } else {
        input.len()
    };
    matches_upto(text, input, n)
}

/// Milliseconds from `start` to `now`, or 0 if `now` is earlier.
pub open spec fn elapsed_between(start: u64, now: u64) -> u64 {
    if now >= start {
        (now - start) as u64
    } else {
        0
    }
}

/// Whether a timed session's prompt must grow: the input has reached three
/// quarters of the prompt's length (any input, for an empty prompt).
pub open spec fn extension_due(input_len: int, text_len: int) -> bool {
    if text_len == 0 {
        input_len > 0
    } else {
        4 * input_len >= 3 * text_len
    }
}

/// The separator placed before words appended to `text`.
pub open spec fn separator(text: Seq<char>) -> Seq<char> {
    if text.len() > 0 {
        seq![' ']
    } else {
        Seq::empty()
    }
}

/// `new` is `old` followed by a draw of `n` words from the corpus; with no
/// corpus it is `old` unchanged.
pub open spec fn extended(
    old: Seq<char>,
    new: Seq<char>,
    corpus: Option<Vec<Vec<char>>>,
    n: int,
) -> bool {
    match corpus {
        None => new == old,
        Some(c) => exists|ws: Seq<Seq<char>>|
            #[trigger] drawn_from(ws, words_view(c@), n) && new == old + separator(old) + joined(
                ws,
            ),
    }
}

/// How a key press left the session.
#[derive(Clone, Copy, Debug, PartialEq, Eq, Structural)]
pub enum Progress {
    /// The session goes on.
    Continue,
    /// The user asked to pause; the session is untouched.
    Paused,
    /// The session ended with this key press; its scores are set.
    Completed,
}

/// Words appended to a timed session's prompt when it runs short.
pub const EXTENSION_WORDS: usize = 10;

/// A typing session.
#[derive(Debug)]
pub struct TypingTest {
    /// The prompt.
    pub test_text: Vec<char>,
    /// What the user typed so far.
    pub user_input: Vec<char>,
    /// Positions where the input matches the prompt, set on completion.
    pub correct_char: usize,
    /// Words in the session, set on completion.
    pub word_count: usize,
    /// Words per minute over all typed characters.
    pub raw_wpm: u64,
    /// Percentage of typed characters that were correct.
    pub accuracy: u64,
    /// Words per minute over correct characters.
    pub wpm: u64,
    /// Milliseconds from the first key press to completion.
    pub time: Option<u64>,
    /// When the first key press came, in milliseconds on the caller's clock.
    pub start_time: Option<u64>,
    /// The time limit in seconds of a timed session; none for a fixed one.
    pub time_limit: Option<u16>,
}

impl TypingTest {
    /// The result fields are those of a session that ended at `now`,
    /// computed from its own prompt, input, start and mode.
    pub open spec fn completed_at(&self, now: u64) -> bool {
        let elapsed = match self.start_time {
            Some(s) => Some(elapsed_between(s, now)),
            None => None,
        };
        let ms: int = match elapsed {
            Some(e) => e as int,
            None => 0,
        };
        &&& self.time == elapsed
        &&& self.correct_char == correct_chars(self.test_text@, self.user_input@)
        &&& self.wpm == rate_of(self.correct_char as int, ms)
        &&& self.raw_wpm == rate_of(self.user_input@.len() as int, ms)
        &&& self.accuracy == accuracy_of(self.correct_char as int, self.user_input@.len() as int)
        &&& self.word_count == (if self.time_limit is Some {
            self.user_input@.len()
        } else {
            self.test_text@.len()
        }) / 5
    }

    /// A session with nothing typed and no results, in the given mode.
    pub open spec fn is_fresh(&self, limit: Option<u16>) -> bool {
        &&& self.user_input@.len() == 0
        &&& self.correct_char == 0
        &&& self.word_count == 0
        &&& self.wpm == 0
        &&& self.raw_wpm == 0
        &&& self.accuracy == 0
        &&& self.time is None
        &&& self.start_time is None
        &&& self.time_limit == limit
    }

    /// Everything but the prompt and the input is the same in `a` and `b`.
    pub open spec fn same_results(a: TypingTest, b: TypingTest) -> bool {
        &&& a.correct_char == b.correct_char
        &&& a.word_count == b.word_count
        &&& a.wpm == b.wpm
        &&& a.raw_wpm == b.raw_wpm
        &&& a.accuracy == b.accuracy
        &&& a.time == b.time
        &&& a.time_limit == b.time_limit
    }

    /// The outcome of a key press at `now`: a pause for escape; for a timed
    /// session, completion once its limit has passed; for a fixed one,
    /// completion once the edited input is as long as the prompt.
    pub open spec fn progress(old: TypingTest, key: Key, now: u64) -> Progress {
        if key is Esc {
            Progress::Paused
        } else if old.time_limit is Some {
            let start = match old.start_time {
                Some(s) => s,
                None => now,
            };
            if elapsed_between(start, now) >= old.time_limit->0 as int * 1000 {
                Progress::Completed
            } else {
                Progress::Continue
            }
        } else if edited(old.user_input@, key).len() < old.test_text@.len() {
            Progress::Continue
        } else {
            Progress::Completed
        }
    }

    /// What a key press at `now` does to a session, with the corpus that a
    /// timed session draws extra words from; `r` is the outcome.
    ///
    /// Escape pauses and changes nothing. A timed session starts its clock on
    /// the first key press, and ends when the limit has passed before the key
    /// is applied: that key is not recorded. Otherwise the key edits the
    /// input, and the prompt grows by ten words when the input has reached
    /// three quarters of it (it stays as it is when no words can be drawn). A fixed session starts its clock when the input
    /// first becomes non-empty and ends when the input is as long as the
    /// prompt.
    pub open spec fn stepped(
        old: TypingTest,
        new: TypingTest,
        key: Key,
        now: u64,
        corpus: Option<Vec<Vec<char>>>,
        r: Progress,
    ) -> bool {
        if key is Esc {
            r == Progress::Paused && new == old
        } else if old.time_limit is Some {
            let start = match old.start_time {
                Some(s) => s,
                None => now,
            };
            if elapsed_between(start, now) >= old.time_limit->0 as int * 1000 {
                &&& r == Progress::Completed
                &&& new.test_text@ == old.test_text@
                &&& new.user_input@ == old.user_input@
                &&& new.start_time == Some(start)
                &&& new.time_limit == old.time_limit
                &&& new.completed_at(now)
            } else {
                let typed = edited(old.user_input@, key);
                &&& r == Progress::Continue
                &&& new.user_input@ == typed
                &&& new.start_time == Some(start)
                &&& Self::same_results(old, new)
                &&& if extension_due(typed.len() as int, old.test_text@.len() as int) {
                    extended(old.test_text@, new.test_text@, corpus, EXTENSION_WORDS as int)
                        || new.test_text@ == old.test_text@
                } else {
                    new.test_text@ == old.test_text@
                }
            }
        } else {
            let typed = edited(old.user_input@, key);
            let start = if old.start_time is None && typed.len() > 0 {
                Some(now)
            } else {
                old.start_time
            };
            &&& new.test_text@ == old.test_text@
            &&& new.user_input@ == typed
            &&& new.start_time == start
            &&& new.time_limit == old.time_limit
            &&& if typed.len() < old.test_text@.len() {
                r == Progress::Continue && Self::same_results(old, new)
            } else {
                r == Progress::Completed && new.completed_at(now)
            }
        }
    }

    /// A session on the default prompt, in fixed mode, with nothing typed.
    pub fn new() -> (r: TypingTest)
        ensures
            r.test_text@ == default_text(),
            r.is_fresh(None),
    {
        TypingTest {
            test_text: chars_of("tuis are probably the coolest thing since sliced bread"),
            user_input: Vec::new(),
            correct_char: 0,
            wpm: 0,
            raw_wpm: 0,
            accuracy: 0,
            time: None,
            word_count: 0,
            start_time: None,
            time_limit: None,
        }
    }

    /// Clears the session: no prompt, nothing typed, no results, fixed mode.
    pub fn reset(&mut self)
        ensures
            final(self).test_text@.len() == 0,
            final(self).is_fresh(None),
    {
        self.user_input.clear();
        self.test_text.clear();
        self.correct_char = 0;
        self.word_count = 0;
        self.wpm = 0;
        self.raw_wpm = 0;
        self.accuracy = 0;
        self.time = None;
        self.start_time = None;
        self.time_limit = None;
    }

    /// `new` holds the scores computed from `old`'s correct count, input
    /// length and elapsed time (none counts as no time).
    pub open spec fn scored(old: TypingTest, new: TypingTest) -> bool {
        let ms = old.time.unwrap_or(0) as int;
        &&& new.wpm == rate_of(old.correct_char as int, ms)
        &&& new.raw_wpm == rate_of(old.user_input@.len() as int, ms)
        &&& new.accuracy == accuracy_of(old.correct_char as int, old.user_input@.len() as int)
    }

    /// Sets the three scores from the correct count, the input length and
    /// the elapsed time (none counts as no time).
    pub fn calculate_wpm_acc(&mut self)
        requires
            old(self).correct_char <= old(self).user_input@.len(),
        ensures
            Self::scored(*old(self), *final(self)),
            final(self).wpm == rate_of(old(self).correct_char as int, old(self).time.unwrap_or(0) as int),
            final(self).raw_wpm == rate_of(old(self).user_input@.len() as int, old(self).time.unwrap_or(0) as int),
            final(self).accuracy == accuracy_of(old(self).correct_char as int, old(self).user_input@.len() as int),
            final(self).accuracy <= 100,
            final(self).test_text == old(self).test_text,
            final(self).user_input == old(self).user_input,
            final(self).correct_char == old(self).correct_char,
            final(self).word_count == old(self).word_count,
            final(self).time == old(self).time,
            final(self).start_time == old(self).start_time,
            final(self).time_limit == old(self).time_limit,
    {
        let ms: u64 = match self.time {
            Some(t) => t,
            None => 0,
        };
        let s = calculate_scores(self.correct_char as u64, self.user_input.len() as u64, ms);
        self.wpm = s.wpm;
        self.raw_wpm = s.raw_wpm;
        self.accuracy = s.accuracy;
    }

    /// Ends the session at `now`: records the elapsed time, the correct
    /// count, the scores and the word count.
    fn finish(&mut self, now: u64)
        ensures
            final(self).completed_at(now),
            final(self).accuracy <= 100,
            final(self).test_text == old(self).test_text,
            final(self).user_input == old(self).user_input,
            final(self).start_time == old(self).start_time,
            final(self).time_limit == old(self).time_limit,
    {
        self.time = match self.start_time {
            Some(s) => Some(elapsed_ms(s, now)),
            None => None,
        };
        self.correct_char = count_correct(&self.test_text, &self.user_input);
        self.calculate_wpm_acc();
        self.word_count = if self.time_limit.is_some() {
            self.user_input.len() / 5
        } else {
            self.test_text.len() / 5
        };
    }

    /// Replaces the prompt by `num_words` words drawn from the corpus.
    /// When no words can be drawn nothing changes.
    pub fn get_words(&mut self, corpus: &Option<Vec<Vec<char>>>, num_words: usize) -> (r: Result<
        (),
        WordsError,
    >)
        ensures
            corpus is None ==> r == Err::<(), WordsError>(WordsError::CorpusUnavailable),
            corpus is Some ==> r is Ok || r == Err::<(), WordsError>(
                WordsError::RandomnessUnavailable,
            ),
            r is Err ==> *final(self) == *old(self),
            r is Ok ==> drawn_text(final(self).test_text@, words_view(corpus->0@), num_words as int),
            final(self).user_input == old(self).user_input,
            Self::same_results(*old(self), *final(self)),
            final(self).start_time == old(self).start_time,
    {
        match sample_words(corpus, num_words) {
            Ok(text) => {
                self.test_text = text;
                Ok(())
            },
            Err(e) => Err(e),
        }
    }

    /// Appends `num_words` words drawn from the corpus to the prompt, after a
    /// space if the prompt is not empty. When no words can be drawn nothing
    /// changes.
    pub fn append_words(&mut self, corpus: &Option<Vec<Vec<char>>>, num_words: usize) -> (r: Result<
        (),
        WordsError,
    >)
        ensures
            corpus is None ==> r == Err::<(), WordsError>(WordsError::CorpusUnavailable),
            corpus is Some ==> r is Ok || r == Err::<(), WordsError>(
                WordsError::RandomnessUnavailable,
            ),
            r is Ok ==> extended(old(self).test_text@, final(self).test_text@, *corpus, num_words as int),
            r is Err ==> *final(self) == *old(self),
            final(self).user_input == old(self).user_input,
            Self::same_results(*old(self), *final(self)),
            final(self).start_time == old(self).start_time,
    {
        match sample_words(corpus, num_words) {
            Ok(text) => {
                let ghost before = self.test_text@;
                let ghost ws = choose|ws: Seq<Seq<char>>|
                    #[trigger] drawn_from(ws, words_view(corpus->0@), num_words as int)
                        && text@ == joined(ws);
                if self.test_text.len() > 0 {
                    self.test_text.push(' ');
                }
                let mut i: usize = 0;
                while i < text.len()
                    invariant
                        i <= text.len(),
                        self.test_text@ == before + separator(before) + text@.take(i as int),
                        self.user_input == old(self).user_input,
                        self.start_time == old(self).start_time,
                        Self::same_results(*old(self), *self),
                    decreases text.len() - i,
                {
                    self.test_text.push(text[i]);
                    i = i + 1;
                    assert(self.test_text@ =~= before + separator(before) + text@.take(i as int));
                }
                assert(text@.take(text@.len() as int) =~= text@);
                assert(drawn_from(ws, words_view(corpus->0@), num_words as int));
                Ok(())
            },
            Err(e) => Err(e),
        }
    }

    /// Handles one key press at `now` (milliseconds on the caller's clock),
    /// drawing extra words from `corpus` when a timed prompt runs short.
    pub fn step(&mut self, key: Key, now: u64, corpus: &Option<Vec<Vec<char>>>) -> (r: Progress)
        ensures
            Self::stepped(*old(self), *final(self), key, now, *corpus, r),
            r == Self::progress(*old(self), key, now),
            r == Progress::Completed ==> final(self).accuracy <= 100,
    {
        if let Key::Esc = key {
            return Progress::Paused;
        }
        match self.time_limit {
            Some(limit) => {
                if self.start_time.is_none() {
                    self.start_time = Some(now);
                }
                let start: u64 = match self.start_time {
                    Some(s) => s,
                    None => now,
                };
                if elapsed_ms(start, now) as u128 >= limit as u128 * 1000 {
                    self.finish(now);
                    return Progress::Completed;
                }
                edit(&mut self.user_input, key);
                if due(self.user_input.len(), self.test_text.len()) {
                    let _ = self.append_words(corpus, EXTENSION_WORDS);
                }
                Progress::Continue
            },
            None => {
                edit(&mut self.user_input, key);
                if self.start_time.is_none() && self.user_input.len() > 0 {
                    self.start_time = Some(now);
                }
                if self.user_input.len() < self.test_text.len() {
                    return Progress::Continue;
                }
                self.finish(now);
                Progress::Completed
            },
        }
    }
}

/// Milliseconds from `start` to `now`, or 0 if `now` is earlier.
pub fn elapsed_ms(start: u64, now: u64) -> (r: u64)
    ensures
        r == elapsed_between(start, now),
{
    if now >= start {
        now - start
    } else {
        0
    }
}

/// Whether a timed prompt must grow for the given lengths.
pub fn due(input_len: usize, text_len: usize) -> (r: bool)
    ensures
        r == extension_due(input_len as int, text_len as int),
{
    if text_len == 0 {
        input_len > 0
    } else {
        4 * (input_len as u128) >= 3 * (text_len as u128)
    }
}

/// Number of positions where `input` matches `text`.
pub fn count_correct(text: &Vec<char>, input: &Vec<char>) -> (r: usize)
    ensures
        r == correct_chars(text@, input@),
        r <= input@.len(),
        r <= text@.len(),
{
    let n: usize = if text.len() < input.len() {
        text.len()
    } else {
        input.len()
    };
    let mut count: usize = 0;
    let mut i: usize = 0;
    while i < n
        invariant
            i <= n,
            n <= text@.len(),
            n <= input@.len(),
            n == if text@.len() < input@.len() {
                text@.len()
            } else {
                input@.len()
            },
            count <= i,
            count == matches_upto(text@, input@, i as nat),
        decreases n - i,
    {
        if text[i] == input[i] {
            count = count + 1;
        }
        i = i + 1;
    }
    count
}

/// The characters of a string.
pub fn chars_of(s: &str) -> (r: Vec<char>)
    ensures
        r@ == s@,
{
    let n = s.unicode_len();
    let mut r: Vec<char> = Vec::new();
    let mut i: usize = 0;
    while i < n
        invariant
            n == s@.len(),
            i <= n,
            r@ == s@.take(i as int),
        decreases n - i,
    {
        r.push(s.get_char(i));
        i = i + 1;
        assert(r@ =~= s@.take(i as int));
    }
    assert(s@.take(n as int) =~= s@);
    r
}

/// A fixed session that ends on a key press, from an input shorter than its
/// prompt, ends with the input exactly as long as the prompt.
pub proof fn lemma_fixed_completion_lengths(
    old: TypingTest,
    new: TypingTest,
    key: Key,
    now: u64,
    corpus: Option<Vec<Vec<char>>>,
    r: Progress,
)
    requires
        TypingTest::stepped(old, new, key, now, corpus, r),
        r == Progress::Completed,
        old.time_limit is None,
        old.user_input@.len() < old.test_text@.len(),
    ensures
        new.user_input@.len() == new.test_text@.len(),
{
}

/// Once a timed prompt has grown, the next key press measures the three
/// quarters threshold against the grown prompt: it may extend again only
/// when the new input reaches three quarters of the grown length, and then
/// does unless no words can be drawn.
pub proof fn lemma_extension_measures_current_prompt(
    s0: TypingTest,
    s1: TypingTest,
    s2: TypingTest,
    k1: Key,
    k2: Key,
    t1: u64,
    t2: u64,
    corpus: Option<Vec<Vec<char>>>,
)
    requires
        TypingTest::stepped(s0, s1, k1, t1, corpus, Progress::Continue),
        TypingTest::stepped(s1, s2, k2, t2, corpus, Progress::Continue),
        s0.time_limit is Some,
        s1.test_text@ != s0.test_text@,
    ensures
        extension_due(s1.user_input@.len() as int, s0.test_text@.len() as int),
        extension_due(s2.user_input@.len() as int, s1.test_text@.len() as int) ==> extended(
            s1.test_text@,
            s2.test_text@,
            corpus,
            EXTENSION_WORDS as int,
        ) || s2.test_text@ == s1.test_text@,
        !extension_due(s2.user_input@.len() as int, s1.test_text@.len() as int)
            ==> s2.test_text@ == s1.test_text@,
{
}

/// At most `n` of the first `n` positions match.
pub proof fn lemma_matches_upto_bounded(text: Seq<char>, input: Seq<char>, n: nat)
    ensures
        matches_upto(text, input, n) <= n,
    decreases n,
{
    if n > 0 {
        lemma_matches_upto_bounded(text, input, (n - 1) as nat);
    }
}

/// Every completed session has an accuracy between 0 and 100 percent.
pub proof fn lemma_completed_accuracy_in_range(t: TypingTest, now: u64)
    requires
        t.completed_at(now),
    ensures
        0 <= t.accuracy <= 100,
{
    let n = if t.test_text@.len() < t.user_input@.len() {
        t.test_text@.len()
    } else {
        t.user_input@.len()
    };
    lemma_matches_upto_bounded(t.test_text@, t.user_input@, n);
    lemma_accuracy_at_most_100(t.correct_char as int, t.user_input@.len() as int);
}

/// Scoring depends on the correct count, the input length and the elapsed
/// time alone: two sessions that agree on those get the same scores,
/// whatever their other fields and earlier scores.
pub proof fn lemma_scoring_is_pure(a: TypingTest, a2: TypingTest, b: TypingTest, b2: TypingTest)
    requires
        TypingTest::scored(a, a2),
        TypingTest::scored(b, b2),
        a.correct_char == b.correct_char,
        a.user_input@.len() == b.user_input@.len(),
        a.time == b.time,
    ensures
        a2.wpm == b2.wpm,
        a2.raw_wpm == b2.raw_wpm,
        a2.accuracy == b2.accuracy,
{
}

} // verus!
