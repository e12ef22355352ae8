//! The word corpus and the drawing of random words from it.
use rand::rngs::StdRng;
use rand::seq::IndexedRandom;
use rand::SeedableRng;
use vstd::prelude::*;

use crate::text::{all_blank, is_all_blank};

verus! {

/// The characters of each word.
pub open spec fn words_view(ws: Seq<Vec<char>>) -> Seq<Seq<char>> {
    ws.map_values(|w: Vec<char>| w@)
}

/// `idx` gives, for each word of `ws`, a distinct position of `corpus` that
/// holds that word.
pub open spec fn picked_at(ws: Seq<Seq<char>>, corpus: Seq<Seq<char>>, idx: Seq<int>) -> bool {
    &&& idx.len() == ws.len()
    &&& idx.no_duplicates()
    &&& forall|i: int|
        0 <= i < ws.len() ==> 0 <= #[trigger] idx[i] < corpus.len() && ws[i] == corpus[idx[i]]
}

/// `ws` is a draw of `min(n, corpus.len())` words from distinct positions of
/// `corpus`, in any order.
pub open spec fn drawn_from(ws: Seq<Seq<char>>, corpus: Seq<Seq<char>>, n: int) -> bool {
    &&& ws.len() == if n < corpus.len() {
        n
    } else {
        corpus.len() as int
    }
    &&& exists|idx: Seq<int>| #[trigger] picked_at(ws, corpus, idx)
}

/// The words joined by single spaces.
pub open spec fn joined(ws: Seq<Seq<char>>) -> Seq<char>
    decreases ws.len(),
{
    if ws.len() == 0 {
        Seq::empty()
    } else if ws.len() == 1 {
        ws[0]
    } else {
        joined(ws.drop_last()) + seq![' '] + ws.last()
    }
}

/// `text` is a draw of `n` words (at most the corpus size) from `corpus`,
/// joined by single spaces.
pub open spec fn drawn_text(text: Seq<char>, corpus: Seq<Seq<char>>, n: int) -> bool {
    exists|ws: Seq<Seq<char>>| #[trigger] drawn_from(ws, corpus, n) && text == joined(ws)
}

/// rand's standard generator, opaque here.
#[verifier::external_type_specification]
#[verifier::external_body]
pub struct ExStdRng(StdRng);

/// Relies on rand's `SeedableRng::try_from_os_rng` for `StdRng`: a generator
/// seeded from the operating system, or none when that source fails.
#[verifier::external_body]
fn seeded_rng() -> (r: Option<StdRng>) {
    StdRng::try_from_os_rng().ok()
}

/// Relies on rand's `IndexedRandom::choose_multiple`: `min(n, corpus.len())`
/// elements from distinct positions, in random order.
#[verifier::external_body]
fn choose_words(corpus: &Vec<Vec<char>>, n: usize, rng: &mut StdRng) -> (r: Vec<Vec<char>>)
    ensures
        drawn_from(words_view(r@), words_view(corpus@), n as int),
{
    corpus.choose_multiple(rng, n).cloned().collect()
}

/// A copy of a word.
pub fn copy_word(w: &Vec<char>) -> (r: Vec<char>)
    ensures
        r@ == w@,
{
    let mut r: Vec<char> = Vec::new();
    let mut i: usize = 0;
    while i < w.len()
        invariant
            i <= w.len(),
            r@ == w@.take(i as int),
        decreases w.len() - i,
    {
        r.push(w[i]);
        i = i + 1;
        assert(r@ =~= w@.take(i as int));
    }
    assert(w@.take(w@.len() as int) =~= w@);
    r
}

/// Appends the characters of `w` to `out`.
fn push_all(out: &mut Vec<char>, w: &Vec<char>)
    ensures
        final(out)@ == old(out)@ + w@,
{
    let mut i: usize = 0;
    while i < w.len()
        invariant
            i <= w.len(),
            out@ == old(out)@ + w@.take(i as int),
        decreases w.len() - i,
    {
        out.push(w[i]);
        i = i + 1;
        assert(out@ =~= old(out)@ + w@.take(i as int));
    }
    assert(w@.take(w@.len() as int) =~= w@);
}

/// The words joined by single spaces.
pub fn join_words(ws: &Vec<Vec<char>>) -> (r: Vec<char>)
    ensures
        r@ == joined(words_view(ws@)),
{
    let ghost v = words_view(ws@);
    let mut out: Vec<char> = Vec::new();
    let mut i: usize = 0;
    while i < ws.len()
        invariant
            i <= ws.len(),
            v == words_view(ws@),
            out@ == joined(v.take(i as int)),
        decreases ws.len() - i,
    {
        if i > 0 {
            out.push(' ');
        }
        push_all(&mut out, &ws[i]);
        proof {
            let t = v.take(i + 1);
            assert(t.drop_last() =~= v.take(i as int));
            assert(t.last() == ws@[i as int]@);
            if i == 0 {
                assert(v.take(0) =~= Seq::<Seq<char>>::empty());
            }
        }
        i = i + 1;
    }
    assert(v.take(v.len() as int) =~= v);
    out
}

/// Whether a line holds a word: it has a character that is not white space.
pub open spec fn holds_word(line: Seq<char>) -> bool {
    !all_blank(line)
}

/// The lines that hold a word, in their order.
pub open spec fn corpus_of(lines: Seq<Seq<char>>) -> Seq<Seq<char>> {
    lines.filter(|l: Seq<char>| holds_word(l))
}

/// The corpus of a word list: its lines, less those that are blank.
pub fn corpus_from_lines(lines: Vec<Vec<char>>) -> (r: Vec<Vec<char>>)
    ensures
        words_view(r@) == corpus_of(words_view(lines@)),
{
    let ghost v = words_view(lines@);
    let mut r: Vec<Vec<char>> = Vec::new();
    let mut i: usize = 0;
    while i < lines.len()
        invariant
            i <= lines.len(),
            v == words_view(lines@),
            words_view(r@) == corpus_of(v.take(i as int)),
        decreases lines.len() - i,
    {
        let blank = is_all_blank(&lines[i]);
        proof {
            let t = v.take(i + 1);
            assert(t.drop_last() =~= v.take(i as int));
            assert(t.last() == lines@[i as int]@);
            reveal(Seq::filter);
        }
        if !blank {
            let w = copy_word(&lines[i]);
            let ghost before = r@;
            r.push(w);
            assert(words_view(r@) =~= words_view(before).push(w@));
        }
        i = i + 1;
    }
    assert(v.take(v.len() as int) =~= v);
    r
}

/// Why no words could be drawn.
#[derive(Clone, Copy, Debug, PartialEq, Eq, Structural)]
pub enum WordsError {
    /// The corpus could not be loaded.
    CorpusUnavailable,
    /// No random generator could be seeded.
    RandomnessUnavailable,
}

/// Draws `n` words (at most the corpus size) from the corpus, if one was
/// loaded, and joins them by single spaces. Fails without a corpus, or when
/// the operating system gives no seed for the random generator.
pub fn sample_words(corpus: &Option<Vec<Vec<char>>>, n: usize) -> (r: Result<
    Vec<char>,
    WordsError,
>)
    ensures
        corpus is None ==> r == Err::<Vec<char>, WordsError>(WordsError::CorpusUnavailable),
        corpus is Some ==> r is Ok || r == Err::<Vec<char>, WordsError>(
            WordsError::RandomnessUnavailable,
        ),
        r is Ok ==> drawn_text(r->Ok_0@, words_view(corpus->0@), n as int),
{
    match corpus {
        None => Err(WordsError::CorpusUnavailable),
        Some(c) => {
            let mut rng = match seeded_rng() {
                Some(g) => g,
                None => {
                    return Err(WordsError::RandomnessUnavailable);
                },
            };
            let ws = choose_words(c, n, &mut rng);
            let text = join_words(&ws);
            assert(drawn_from(words_view(ws@), words_view(c@), n as int));
            Ok(text)
        },
    }
}

/// The pieces of `s` between newline characters: one more than it has
/// newlines, the newlines themselves left out.
pub open spec fn pieces(s: Seq<char>) -> Seq<Seq<char>>
    decreases s.len(),
{
    if s.len() == 0 {
        seq![Seq::empty()]
    } else {
        let p = pieces(s.drop_last());
        if s.last() == '\n' {
            p.push(Seq::empty())
        } else {
            p.update(p.len() - 1, p.last().push(s.last()))
        }
    }
}

/// A line that ended in a newline, less a carriage return before it.
pub open spec fn strip_cr(l: Seq<char>) -> Seq<char> {
    if l.len() > 0 && l.last() == '\r' {
        l.drop_last()
    } else {
        l
    }
}

/// The lines of a text: the pieces between newlines, each less a carriage
/// return that ends it before a newline, with an empty last piece left out.
pub open spec fn lines_of(s: Seq<char>) -> Seq<Seq<char>> {
    let p = pieces(s);
    let body = p.drop_last().map_values(|l: Seq<char>| strip_cr(l));
    if p.last().len() == 0 {
        body
    } else {
        body.push(p.last())
    }
}

/// A copy of a line that ended in a newline, less a carriage return at its end.
fn strip_line_end(l: &Vec<char>) -> (r: Vec<char>)
    ensures
        r@ == strip_cr(l@),
{
    if l.len() > 0 && l[l.len() - 1] == '\r' {
        crate::text::copy_range(l, 0, l.len() - 1)
    } else {
        crate::text::copy_range(l, 0, l.len())
    }
}

/// Splits a text into lines at `\n` and `\r\n`, as `str::lines` does: a
/// newline at the very end starts no further line.
pub fn split_lines(s: &Vec<char>) -> (r: Vec<Vec<char>>)
    ensures
        words_view(r@) == lines_of(s@),
{
    let mut out: Vec<Vec<char>> = Vec::new();
    let mut cur: Vec<char> = Vec::new();
    let ghost mut done: Seq<Seq<char>> = Seq::empty();
    let mut i: usize = 0;
    assert(s@.take(0) =~= Seq::<char>::empty());
    while i < s.len()
        invariant
            i <= s.len(),
            pieces(s@.take(i as int)) == done.push(cur@),
            words_view(out@) == done.map_values(|l: Seq<char>| strip_cr(l)),
        decreases s.len() - i,
    {
        let c = s[i];
        proof {
            assert(s@.take(i + 1).drop_last() =~= s@.take(i as int));
            assert(s@.take(i + 1).last() == c);
        }
        if c == '\n' {
            let line = strip_line_end(&cur);
            let ghost before = out@;
            out.push(line);
            proof {
                assert(words_view(out@) =~= words_view(before).push(line@));
                assert(done.push(cur@).map_values(|l: Seq<char>| strip_cr(l)) =~= done.map_values(
                    |l: Seq<char>| strip_cr(l),
                ).push(strip_cr(cur@)));
                done = done.push(cur@);
            }
            cur = Vec::new();
            assert(pieces(s@.take(i + 1)) =~= done.push(cur@));
        } else {
            cur.push(c);
            assert(pieces(s@.take(i + 1)) =~= done.push(cur@));
        }
        i = i + 1;
    }
    assert(s@.take(s@.len() as int) =~= s@);
    assert(pieces(s@).drop_last() =~= done);
    if cur.len() > 0 {
        let ghost before = out@;
        out.push(cur);
        assert(words_view(out@) =~= words_view(before).push(pieces(s@).last()));
    }
    out
}

/// The corpus of a word list: one word per line, blank lines left out.
pub fn corpus_from_text(contents: &Vec<char>) -> (r: Vec<Vec<char>>)
    ensures
        words_view(r@) == corpus_of(lines_of(contents@)),
{
    corpus_from_lines(split_lines(contents))
}

} // verus!
