//! Character classes, trimming, number parsing and small text helpers.
use vstd::prelude::*;
use vstd::string::*;

verus! {

/// The characters with Unicode's `White_Space` property.
pub open spec fn white_space(c: char) -> bool {
    let u = c as u32;
    ||| 0x09 <= u <= 0x0d
    ||| u == 0x20
    ||| u == 0x85
    ||| u == 0xa0
    ||| u == 0x1680
    ||| 0x2000 <= u <= 0x200a
    ||| u == 0x2028
    ||| u == 0x2029
    ||| u == 0x202f
    ||| u == 0x205f
    ||| u == 0x3000
}

/// Whether a character has Unicode's `Alphabetic` property.
pub uninterp spec fn alphabetic(c: char) -> bool;

/// Relies on `char::is_whitespace`: true exactly for the `White_Space`
/// characters.
#[verifier::external_body]
pub(crate) fn is_blank(c: char) -> (r: bool)
    ensures
        r == white_space(c),
{
    c.is_whitespace()
}

/// Relies on `char::is_alphabetic`: whether `c` has the `Alphabetic`
/// property, a function of `c` alone.
#[verifier::external_body]
fn is_letter(c: char) -> (r: bool)
    ensures
        r == alphabetic(c),
{
    c.is_alphabetic()
}

/// Whether a sequence holds only white space.
pub open spec fn all_blank(s: Seq<char>) -> bool {
    forall|i: int| 0 <= i < s.len() ==> white_space(#[trigger] s[i])
}

/// Number of white-space characters at the front of `s`.
pub open spec fn leading_blanks(s: Seq<char>) -> nat
    decreases s.len(),
{
    if s.len() > 0 && white_space(s[0]) {
        1 + leading_blanks(s.drop_first())
    } else {
        0
    }
}

/// Number of white-space characters at the end of `s`.
pub open spec fn trailing_blanks(s: Seq<char>) -> nat
    decreases s.len(),
{
    if s.len() > 0 && white_space(s.last()) {
        1 + trailing_blanks(s.drop_last())
    } else {
        0
    }
}

/// `s` without its leading and trailing white space.
pub open spec fn trimmed(s: Seq<char>) -> Seq<char> {
    if leading_blanks(s) == s.len() {
        Seq::empty()
    } else {
        s.subrange(leading_blanks(s) as int, s.len() - trailing_blanks(s))
    }
}

proof fn lemma_leading_blanks(s: Seq<char>)
    ensures
        leading_blanks(s) <= s.len(),
        forall|i: int| 0 <= i < leading_blanks(s) ==> white_space(#[trigger] s[i]),
        leading_blanks(s) < s.len() ==> !white_space(s[leading_blanks(s) as int]),
    decreases s.len(),
{
    if s.len() > 0 && white_space(s[0]) {
        lemma_leading_blanks(s.drop_first());
        assert forall|i: int| 0 <= i < leading_blanks(s) implies white_space(#[trigger] s[i]) by {
            if i > 0 {
                assert(s[i] == s.drop_first()[i - 1]);
            }
        }
    }
}

proof fn lemma_trailing_blanks(s: Seq<char>)
    ensures
        trailing_blanks(s) <= s.len(),
        forall|i: int|
            s.len() - trailing_blanks(s) <= i < s.len() ==> white_space(#[trigger] s[i]),
        trailing_blanks(s) < s.len() ==> !white_space(s[s.len() - trailing_blanks(s) - 1]),
    decreases s.len(),
{
    if s.len() > 0 && white_space(s.last()) {
        lemma_trailing_blanks(s.drop_last());
        assert forall|i: int|
            s.len() - trailing_blanks(s) <= i < s.len() implies white_space(#[trigger] s[i]) by {
            if i < s.len() - 1 {
                assert(s[i] == s.drop_last()[i]);
            }
        }
    }
}

/// Number of leading white-space characters, found by a scan.
fn count_leading_blanks(s: &Vec<char>) -> (r: usize)
    ensures
        r == leading_blanks(s@),
{
    proof {
        lemma_leading_blanks(s@);
    }
    let mut i: usize = 0;
    while i < s.len() && is_blank(s[i])
        invariant
            i <= s.len(),
            i <= leading_blanks(s@),
            forall|j: int| 0 <= j < i ==> white_space(#[trigger] s@[j]),
            leading_blanks(s@) <= s@.len(),
            forall|j: int| 0 <= j < leading_blanks(s@) ==> white_space(#[trigger] s@[j]),
            leading_blanks(s@) < s@.len() ==> !white_space(s@[leading_blanks(s@) as int]),
        decreases s.len() - i,
    {
        i = i + 1;
    }
    i
}

/// Number of trailing white-space characters, found by a scan.
fn count_trailing_blanks(s: &Vec<char>) -> (r: usize)
    ensures
        r == trailing_blanks(s@),
{
    proof {
        lemma_trailing_blanks(s@);
    }
    let mut k: usize = 0;
    while k < s.len() && is_blank(s[s.len() - 1 - k])
        invariant
            k <= s.len(),
            k <= trailing_blanks(s@),
            trailing_blanks(s@) <= s@.len(),
            forall|j: int|
                s@.len() - trailing_blanks(s@) <= j < s@.len() ==> white_space(#[trigger] s@[j]),
            trailing_blanks(s@) < s@.len() ==> !white_space(
                s@[s@.len() - trailing_blanks(s@) - 1],
            ),
        decreases s.len() - k,
    {
        k = k + 1;
    }
    k
}

/// A copy of `s[from..to]`.
pub fn copy_range(s: &Vec<char>, from: usize, to: usize) -> (r: Vec<char>)
    requires
        from <= to <= s.len(),
    ensures
        r@ == s@.subrange(from as int, to as int),
{
    let mut r: Vec<char> = Vec::new();
    let mut i: usize = from;
    while i < to
        invariant
            from <= i <= to <= s.len(),
            r@ == s@.subrange(from as int, i as int),
        decreases to - i,
    {
        r.push(s[i]);
        i = i + 1;
        assert(r@ =~= s@.subrange(from as int, i as int));
    }
    r
}

/// `s` without leading and trailing white space.
pub fn trim(s: &Vec<char>) -> (r: Vec<char>)
    ensures
        r@ == trimmed(s@),
{
    let a = count_leading_blanks(s);
    if a == s.len() {
        return Vec::new();
    }
    let b = count_trailing_blanks(s);
    proof {
        lemma_leading_blanks(s@);
        lemma_trailing_blanks(s@);
        // the character at position `a` is not blank, so it is not trailing
        if a as int >= s@.len() - b {
            assert(white_space(s@[a as int]));
        }
    }
    copy_range(s, a, s.len() - b)
}

/// Whether every character is white space.
pub fn is_all_blank(s: &Vec<char>) -> (r: bool)
    ensures
        r == all_blank(s@),
{
    let mut i: usize = 0;
    while i < s.len()
        invariant
            i <= s.len(),
            forall|j: int| 0 <= j < i ==> white_space(#[trigger] s@[j]),
        decreases s.len() - i,
    {
        if !is_blank(s[i]) {
            return false;
        }
        i = i + 1;
    }
    true
}


/// Whether `c` is an ASCII decimal digit.
pub open spec fn is_digit(c: char) -> bool {
    '0' <= c <= '9'
}

/// Whether `s` is a non-empty run of ASCII decimal digits.
pub open spec fn all_digits(s: Seq<char>) -> bool {
    s.len() > 0 && forall|i: int| 0 <= i < s.len() ==> is_digit(#[trigger] s[i])
}

/// The number that a run of decimal digits spells.
pub open spec fn digits_value(s: Seq<char>) -> int
    decreases s.len(),
{
    if s.len() == 0 {
        0
    } else {
        digits_value(s.drop_last()) * 10 + (s.last() as int - '0' as int)
    }
}

/// The digits of an unsigned number: a single leading `+` is dropped when
/// something follows it.
pub open spec fn unsigned_digits(s: Seq<char>) -> Seq<char> {
    if s.len() > 1 && s[0] == '+' {
        s.drop_first()
    } else {
        s
    }
}

/// What parsing `s` as a `usize` gives: the value of its digits when they
/// are all decimal digits and the value fits, else nothing.
pub open spec fn parsed_count(s: Seq<char>) -> Option<usize> {
    let d = unsigned_digits(s);
    if all_digits(d) && digits_value(d) <= usize::MAX {
        Some(digits_value(d) as usize)
    } else {
        None
    }
}

proof fn lemma_digits_value_grows(s: Seq<char>, i: int)
    requires
        0 <= i <= s.len(),
        forall|j: int| 0 <= j < s.len() ==> is_digit(#[trigger] s[j]),
    ensures
        0 <= digits_value(s.take(i)) <= digits_value(s),
    decreases s.len(),
{
    if s.len() > 0 {
        let p = s.drop_last();
        assert forall|j: int| 0 <= j < p.len() implies is_digit(#[trigger] p[j]) by {
            assert(p[j] == s[j]);
        }
        if i == s.len() {
            assert(s.take(i) =~= s);
            lemma_digits_value_grows(p, 0);
        } else {
            assert(s.take(i) =~= p.take(i));
            lemma_digits_value_grows(p, i);
        }
        lemma_digits_value_grows(p, p.len() as int);
        assert(p.take(p.len() as int) =~= p);
    } else {
        assert(s.take(i) =~= s);
    }
}

/// Parses `s` as an unsigned decimal number, as `str::parse::<usize>` does:
/// an optional `+`, then one or more ASCII digits, with a value that fits.
pub fn parse_count(s: &Vec<char>) -> (r: Option<usize>)
    ensures
        r == parsed_count(s@),
{
    let start: usize = if s.len() > 1 && s[0] == '+' {
        1
    } else {
        0
    };
    let ghost d = unsigned_digits(s@);
    assert(d =~= s@.subrange(start as int, s@.len() as int));
    if start == s.len() {
        return None;
    }
    let mut acc: u128 = 0;
    let mut i: usize = start;
    while i < s.len()
        invariant
            start <= i <= s.len(),
            start < s.len(),
            d == s@.subrange(start as int, s@.len() as int),
            d == unsigned_digits(s@),
            acc as int == digits_value(d.take(i - start)),
            acc <= usize::MAX,
            forall|j: int| 0 <= j < i - start ==> is_digit(#[trigger] d[j]),
        decreases s.len() - i,
    {
        let c = s[i];
        if !('0' <= c && c <= '9') {
            assert(d[(i - start) as int] == c);
            assert(!is_digit(d[(i - start) as int]));
            assert(!all_digits(d));
            return None;
        }
        let v: u128 = (c as u32 - '0' as u32) as u128;
        let ghost k = (i - start) as int;
        assert(d.take(k + 1).drop_last() =~= d.take(k));
        assert(d.take(k + 1).last() == c);
        assert(v as int == c as int - '0' as int);
        acc = acc * 10 + v;
        i = i + 1;
        assert(acc as int == digits_value(d.take(k + 1)));
        if acc > usize::MAX as u128 {
            proof {
                if all_digits(d) {
                    lemma_digits_value_grows(d, k + 1);
                }
            }
            return None;
        }
    }
    assert(d.take(d.len() as int) =~= d);
    Some(acc as usize)
}

/// Whether a character continues the leading run that `count_chars` counts,
/// given whether it is a letter: white space, or a letter other than a
/// newline.
pub open spec fn counted_with(c: char, letter: bool) -> bool {
    white_space(c) || (letter && c != '\n')
}

/// Length of the longest prefix of `s` whose characters are all counted,
/// where `letters[i]` says whether `s[i]` is a letter.
pub open spec fn counted_prefix_by(s: Seq<char>, letters: Seq<bool>) -> nat
    decreases s.len(),
{
    if s.len() > 0 && letters.len() > 0 && counted_with(s[0], letters[0]) {
        1 + counted_prefix_by(s.drop_first(), letters.drop_first())
    } else {
        0
    }
}

/// Whether each character is alphabetic.
pub open spec fn letter_classes(s: Seq<char>) -> Seq<bool> {
    s.map_values(|c: char| alphabetic(c))
}

/// Length of the longest prefix of `s` whose characters are white space or
/// alphabetic other than a newline.
pub open spec fn counted_prefix(s: Seq<char>) -> nat {
    counted_prefix_by(s, letter_classes(s))
}

proof fn lemma_counted_prefix_by(s: Seq<char>, letters: Seq<bool>, i: int)
    requires
        0 <= i <= s.len(),
        letters.len() == s.len(),
        forall|j: int| 0 <= j < i ==> counted_with(#[trigger] s[j], letters[j]),
    ensures
        i < s.len() && !counted_with(s[i], letters[i]) ==> counted_prefix_by(s, letters) == i,
        i == s.len() ==> counted_prefix_by(s, letters) == i,
    decreases i,
{
    if i > 0 {
        let s1 = s.drop_first();
        let l1 = letters.drop_first();
        assert forall|j: int| 0 <= j < i - 1 implies counted_with(#[trigger] s1[j], l1[j]) by {
            assert(s1[j] == s[j + 1] && l1[j] == letters[j + 1]);
        }
        lemma_counted_prefix_by(s1, l1, i - 1);
        assert(counted_with(s[0], letters[0]));
    }
}

/// Counts the characters at the front of `input` that are white space, or
/// letters other than a newline, where `letters[i]` says whether the
/// character at `i` is a letter; stops at the first other character.
pub fn count_counted(input: &str, letters: &Vec<bool>) -> (r: usize)
    requires
        letters@.len() == input@.len(),
    ensures
        r == counted_prefix_by(input@, letters@),
{
    let n = input.unicode_len();
    let mut i: usize = 0;
    while i < n
        invariant
            n == input@.len(),
            letters@.len() == n,
            i <= n,
            forall|j: int| 0 <= j < i ==> counted_with(#[trigger] input@[j], letters@[j]),
        decreases n - i,
    {
        let c = input.get_char(i);
        if !(is_blank(c) || (letters[i] && c != '\n')) {
            proof {
                lemma_counted_prefix_by(input@, letters@, i as int);
            }
            return i;
        }
        i = i + 1;
    }
    proof {
        lemma_counted_prefix_by(input@, letters@, i as int);
    }
    i
}

/// Counts the characters at the front of `input` that are white space, or
/// alphabetic and not a newline, stopping at the first other character.
pub fn count_chars(input: &str) -> (r: usize)
    ensures
        r == counted_prefix(input@),
{
    let n = input.unicode_len();
    let mut letters: Vec<bool> = Vec::new();
    let mut i: usize = 0;
    while i < n
        invariant
            n == input@.len(),
            i <= n,
            letters@ == letter_classes(input@.take(i as int)),
        decreases n - i,
    {
        let c = input.get_char(i);
        letters.push(is_letter(c));
        i = i + 1;
        assert(letters@ =~= letter_classes(input@.take(i as int)));
    }
    assert(input@.take(n as int) =~= input@);
    count_counted(input, &letters)
}

/// `n` spaces.
pub open spec fn spaces(n: nat) -> Seq<char> {
    Seq::new(n, |i: int| ' ')
}

/// What `center_text` returns for text with view `t` and byte length
/// `bytes`: the text itself when it does not fit in `width - 3` columns
/// (saturating), else the text with equal padding on both sides.
pub open spec fn centered(t: Seq<char>, bytes: int, width: int) -> Seq<char> {
    let effective = if width >= 3 {
        width - 3
    } else {
        0
    };
    if bytes >= effective {
        t
    } else {
        let pad = spaces(((effective - bytes) / 2) as nat);
        pad + t + pad
    }
}

/// Pads `text` with spaces on both sides so that it stands in the middle of
/// a field of `width` columns less a three-column margin; the width of the
/// text is its length in bytes.
pub fn center_text(text: &str, width: u16) -> (r: String)
    ensures
        r@ == centered(text@, text.len() as int, width as int),
{
    let effective: u16 = width.saturating_sub(3);
    let text_width: usize = text.len();
    if text_width >= effective as usize {
        return String::from_str(text);
    }
    let padding: usize = (effective as usize - text_width) / 2;
    let mut pad = String::new();
    let mut i: usize = 0;
    proof {
        reveal_strlit(" ");
    }
    while i < padding
        invariant
            i <= padding,
            pad@ == spaces(i as nat),
            " "@ == seq![' '],
        decreases padding - i,
    {
        pad.append(" ");
        i = i + 1;
        assert(pad@ =~= spaces(i as nat));
    }
    let mut r = pad.clone();
    r.append(text);
    r.append(pad.as_str());
    r
}

} // verus!
