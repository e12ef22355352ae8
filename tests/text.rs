use typetui::text::{center_text, count_chars, count_counted, parse_count, trim};
use typetui::words::{corpus_from_lines, corpus_from_text, join_words, sample_words, split_lines, WordsError};

fn chars(s: &str) -> Vec<char> {
    s.chars().collect()
}

#[test]
fn trim_drops_outer_white_space() {
    assert_eq!(trim(&chars(" \t ab c \n")), chars("ab c"));
    assert_eq!(trim(&chars("   ")), chars(""));
    assert_eq!(trim(&chars("\u{3000}x\u{a0}")), chars("x"));
    assert_eq!(trim(&chars("x")), chars("x"));
}

#[test]
fn parse_count_follows_usize_parsing() {
    assert_eq!(parse_count(&chars("42")), Some(42));
    assert_eq!(parse_count(&chars("+7")), Some(7));
    assert_eq!(parse_count(&chars("007")), Some(7));
    assert_eq!(parse_count(&chars("+")), None);
    assert_eq!(parse_count(&chars("")), None);
    assert_eq!(parse_count(&chars("abc")), None);
    assert_eq!(parse_count(&chars("-1")), None);
    assert_eq!(parse_count(&chars("1 2")), None);
    let max = usize::MAX.to_string();
    assert_eq!(parse_count(&chars(&max)), Some(usize::MAX));
    let over = format!("{}0", max);
    assert_eq!(parse_count(&chars(&over)), None);
}

#[test]
fn count_chars_counts_leading_letters_and_spaces() {
    assert_eq!(count_chars("ab c1d"), 4);
    assert_eq!(count_chars("1abc"), 0);
    assert_eq!(count_chars(""), 0);
    assert_eq!(count_chars("héllo wörld"), 11);
    assert_eq!(count_chars("ab\ncd."), 5);
}

#[test]
fn center_text_pads_both_sides() {
    assert_eq!(center_text("hi", 11), "   hi   ");
    assert_eq!(center_text("toolong", 5), "toolong");
    assert_eq!(center_text("x", 2), "x");
    assert_eq!(center_text("ab", 8), " ab ");
}

#[test]
fn join_words_uses_single_spaces() {
    assert_eq!(join_words(&vec![chars("a"), chars("bc"), chars("d")]), chars("a bc d"));
    assert_eq!(join_words(&vec![]), chars(""));
    assert_eq!(join_words(&vec![chars("solo")]), chars("solo"));
}

#[test]
fn corpus_drops_blank_lines() {
    let lines = vec![chars("apple"), chars(""), chars("  "), chars("pear"), chars("\t")];
    assert_eq!(corpus_from_lines(lines), vec![chars("apple"), chars("pear")]);
}

#[test]
fn sampling_draws_distinct_words() {
    let corpus = Some(vec![chars("one"), chars("two"), chars("three"), chars("four"), chars("five")]);
    let text: String = sample_words(&corpus, 2).unwrap().iter().collect();
    let words: Vec<&str> = text.split(' ').collect();
    assert_eq!(words.len(), 2);
    assert_ne!(words[0], words[1]);
    for w in &words {
        assert!(["one", "two", "three", "four", "five"].contains(w));
    }
    let all: String = sample_words(&corpus, 99).unwrap().iter().collect();
    assert_eq!(all.split(' ').count(), 5);
    assert_eq!(sample_words(&corpus, 0).unwrap(), chars(""));
    assert_eq!(sample_words(&None, 3), Err(WordsError::CorpusUnavailable));
}

fn std_lines(s: &str) -> Vec<Vec<char>> {
    s.lines().map(chars).collect()
}

#[test]
fn split_lines_matches_str_lines() {
    for s in ["", "\n", "a", "a\n", "a\nb", "a\r\nb\r\n", "a\n\nb", "x\r", "x\ry\n", "\r\n\r\n", "a\n\r"] {
        assert_eq!(split_lines(&chars(s)), std_lines(s), "{:?}", s);
    }
}

#[test]
fn corpus_from_text_keeps_words_only() {
    let text = chars("the\r\n\n  \nquick\n\tbrown \nfox");
    assert_eq!(
        corpus_from_text(&text),
        vec![chars("the"), chars("quick"), chars("\tbrown "), chars("fox")]
    );
}

#[test]
fn count_counted_uses_given_letter_classes() {
    assert_eq!(count_counted("ab c1", &vec![true, true, false, true, false]), 4);
    assert_eq!(count_counted("ab c1", &vec![true, false, false, true, true]), 1);
    assert_eq!(count_counted("x\ny", &vec![false, true, true]), 0);
    assert_eq!(count_counted(" \n", &vec![false, false]), 2);
    assert_eq!(count_counted("", &vec![]), 0);
}
