use typetui::keys::Key;
use typetui::stats::{accuracy_percent, calculate_scores, words_per_minute, Scores};
use typetui::typingtest::{count_correct, Progress, TypingTest};

fn chars(s: &str) -> Vec<char> {
    s.chars().collect()
}

fn corpus() -> Option<Vec<Vec<char>>> {
    Some(vec![chars("alpha"), chars("beta"), chars("gamma"), chars("delta"), chars("echo")])
}

#[test]
fn fixed_session_completes_on_full_input() {
    let mut t = TypingTest::new();
    t.test_text = chars("cat dog");
    let mut last = Progress::Continue;
    for (i, c) in "cat dog".chars().enumerate() {
        last = t.step(Key::Char(c), 1000 * i as u64, &None);
        if i < 6 {
            assert_eq!(last, Progress::Continue);
        }
    }
    assert_eq!(last, Progress::Completed);
    assert_eq!(t.user_input.len(), t.test_text.len());
    assert_eq!(t.correct_char, 7);
    assert_eq!(t.accuracy, 100);
    assert_eq!(t.time, Some(6000));
    assert_eq!(t.word_count, 1);
    // 7 correct characters over 6 seconds: 7 / 5 / 0.1 = 14
    assert_eq!(t.wpm, 14);
    assert_eq!(t.raw_wpm, 14);
}

#[test]
fn timed_session_scores_at_limit() {
    let mut t = TypingTest::new();
    t.test_text = chars(&"abcdefghij".repeat(6));
    t.time_limit = Some(15);
    let words = corpus();
    for i in 0..50usize {
        let c = t.test_text[i];
        let p = t.step(Key::Char(c), 200 * i as u64, &words);
        assert_eq!(p, Progress::Continue);
    }
    let p = t.step(Key::Char('x'), 15000, &words);
    assert_eq!(p, Progress::Completed);
    assert_eq!(t.user_input.len(), 50);
    assert_eq!(t.time, Some(15000));
    assert_eq!(t.correct_char, 50);
    assert_eq!(t.wpm, 40);
    assert_eq!(t.raw_wpm, 40);
    assert_eq!(t.accuracy, 100);
    assert_eq!(t.word_count, 10);
}

#[test]
fn timed_key_after_deadline_is_not_recorded() {
    let mut t = TypingTest::new();
    t.test_text = chars("one two three four");
    t.time_limit = Some(15);
    assert_eq!(t.step(Key::Char('o'), 5000, &None), Progress::Continue);
    assert_eq!(t.start_time, Some(5000));
    assert_eq!(t.step(Key::Char('n'), 19999, &None), Progress::Continue);
    assert_eq!(t.step(Key::Char('e'), 20000, &None), Progress::Completed);
    assert_eq!(t.user_input, chars("on"));
    assert_eq!(t.time, Some(15000));
}

#[test]
fn fixed_clock_starts_on_first_character() {
    let mut t = TypingTest::new();
    t.test_text = chars("abc");
    assert_eq!(t.step(Key::Backspace, 100, &None), Progress::Continue);
    assert_eq!(t.start_time, None);
    assert_eq!(t.step(Key::Char('a'), 300, &None), Progress::Continue);
    assert_eq!(t.start_time, Some(300));
    assert_eq!(t.step(Key::Backspace, 400, &None), Progress::Continue);
    assert!(t.user_input.is_empty());
    assert_eq!(t.start_time, Some(300));
}

#[test]
fn escape_pauses_without_change() {
    let mut t = TypingTest::new();
    t.test_text = chars("abc");
    t.step(Key::Char('a'), 10, &None);
    assert_eq!(t.step(Key::Esc, 20, &None), Progress::Paused);
    assert_eq!(t.user_input, chars("a"));
    assert_eq!(t.start_time, Some(10));
}

#[test]
fn fixed_session_with_typos() {
    let mut t = TypingTest::new();
    t.test_text = chars("abcd");
    for (i, c) in "abxy".chars().enumerate() {
        t.step(Key::Char(c), 15000 * i as u64, &None);
    }
    assert_eq!(t.correct_char, 2);
    assert_eq!(t.accuracy, 50);
    assert_eq!(t.time, Some(45000));
    // 2 / 5 / 0.75 = 0.533..
    assert_eq!(t.wpm, 1);
    // 4 / 5 / 0.75 = 1.066..
    assert_eq!(t.raw_wpm, 1);
}

#[test]
fn timed_prompt_grows_at_three_quarters() {
    let mut t = TypingTest::new();
    t.test_text = chars("ab cd");
    t.time_limit = Some(30);
    let words = corpus();
    for (i, c) in "ab c".chars().enumerate() {
        let before = t.test_text.len();
        t.step(Key::Char(c), i as u64, &words);
        if i < 3 {
            assert_eq!(t.test_text.len(), before);
        }
    }
    // 4 of 5 characters typed: ten words are drawn (the corpus has five)
    let text: String = t.test_text.iter().collect();
    assert!(text.starts_with("ab cd "));
    assert_eq!(text.split(' ').count(), 2 + 5);
}

#[test]
fn extension_measures_the_grown_prompt() {
    let mut t = TypingTest::new();
    t.test_text = chars("ab cd");
    t.time_limit = Some(30);
    let words = corpus();
    for c in "ab c".chars() {
        t.step(Key::Char(c), 0, &words);
    }
    let grown = t.test_text.len();
    assert!(grown > 5);
    // five input characters stay under three quarters of the grown prompt
    t.step(Key::Char('d'), 1, &words);
    assert!(4 * 5 < 3 * grown);
    assert_eq!(t.test_text.len(), grown);
}

#[test]
fn fixed_prompt_never_grows() {
    let mut t = TypingTest::new();
    t.test_text = chars("abcd");
    for c in "abc".chars() {
        t.step(Key::Char(c), 0, &corpus());
    }
    assert_eq!(t.test_text, chars("abcd"));
}

#[test]
fn timed_prompt_without_corpus_stays() {
    let mut t = TypingTest::new();
    t.test_text = chars("ab");
    t.time_limit = Some(15);
    t.step(Key::Char('a'), 0, &None);
    t.step(Key::Char('b'), 1, &None);
    assert_eq!(t.test_text, chars("ab"));
}

#[test]
fn new_session_uses_default_prompt() {
    let t = TypingTest::new();
    let text: String = t.test_text.iter().collect();
    assert_eq!(text, "tuis are probably the coolest thing since sliced bread");
    assert!(t.user_input.is_empty());
    assert_eq!(t.time_limit, None);
}

#[test]
fn reset_clears_everything() {
    let mut t = TypingTest::new();
    t.time_limit = Some(30);
    t.step(Key::Char('t'), 0, &None);
    t.reset();
    assert!(t.test_text.is_empty());
    assert!(t.user_input.is_empty());
    assert_eq!(t.start_time, None);
    assert_eq!(t.time_limit, None);
    assert_eq!(t.wpm, 0);
}

#[test]
fn calculate_wpm_acc_sets_scores() {
    let mut t = TypingTest::new();
    t.user_input = chars("abcdefghij");
    t.correct_char = 8;
    t.time = Some(30000);
    t.calculate_wpm_acc();
    assert_eq!(t.accuracy, 80);
    assert_eq!(t.wpm, 3); // 8 / 5 / 0.5 = 3.2
    assert_eq!(t.raw_wpm, 4);
    t.time = None;
    t.calculate_wpm_acc();
    assert_eq!(t.wpm, 0);
    assert_eq!(t.raw_wpm, 0);
}

#[test]
fn score_formulas() {
    assert_eq!(
        calculate_scores(50, 50, 15000),
        Scores { wpm: 40, raw_wpm: 40, accuracy: 100 }
    );
    assert_eq!(calculate_scores(0, 0, 0), Scores { wpm: 0, raw_wpm: 0, accuracy: 0 });
    assert_eq!(calculate_scores(3, 4, 60000), Scores { wpm: 1, raw_wpm: 1, accuracy: 75 });
    assert_eq!(accuracy_percent(1, 3), 33);
    assert_eq!(accuracy_percent(2, 3), 67);
    assert_eq!(accuracy_percent(1, 8), 13);
    assert_eq!(words_per_minute(25, 60000), 5);
    assert_eq!(words_per_minute(5, 999), 0);
    assert_eq!(words_per_minute(5, 1999), 60);
    assert_eq!(words_per_minute(u64::MAX, 1000), u64::MAX);
    assert_eq!(words_per_minute(100, 0), 0);
}

#[test]
fn scores_are_deterministic() {
    let a = calculate_scores(17, 23, 41234);
    let b = calculate_scores(17, 23, 41234);
    assert_eq!(a, b);
}

#[test]
fn accuracy_stays_within_percent_range() {
    for typed in 0..40u64 {
        for correct in 0..=typed {
            let a = accuracy_percent(correct, typed);
            assert!(a <= 100);
        }
    }
    assert_eq!(accuracy_percent(0, 10), 0);
}

#[test]
fn correct_count_is_positional() {
    assert_eq!(count_correct(&chars("hello"), &chars("hxllo!")), 4);
    assert_eq!(count_correct(&chars("ab"), &chars("")), 0);
    assert_eq!(count_correct(&chars(""), &chars("ab")), 0);
}

#[test]
fn sub_second_completion_scores_zero_speed() {
    let mut t = TypingTest::new();
    t.test_text = chars("hello");
    for (i, c) in "hello".chars().enumerate() {
        t.step(Key::Char(c), 100 * i as u64, &None);
    }
    assert_eq!(t.time, Some(400));
    assert_eq!(t.wpm, 0);
    assert_eq!(t.raw_wpm, 0);
    assert_eq!(t.accuracy, 100);
}

#[test]
fn partial_seconds_are_dropped() {
    // 10.5 s counts as 10 s: 50 / 5 / (10 / 60) = 60
    assert_eq!(words_per_minute(50, 10500), 60);
    assert_eq!(calculate_scores(5, 5, 500), Scores { wpm: 0, raw_wpm: 0, accuracy: 100 });
}

#[test]
fn scoring_ignores_other_fields() {
    let mut a = TypingTest::new();
    a.user_input = chars("abcde");
    a.correct_char = 4;
    a.time = Some(20000);
    a.wpm = 999;
    let mut b = TypingTest::new();
    b.test_text = chars("zzz");
    b.user_input = chars("vwxyz");
    b.correct_char = 4;
    b.time = Some(20000);
    a.calculate_wpm_acc();
    b.calculate_wpm_acc();
    assert_eq!((a.wpm, a.raw_wpm, a.accuracy), (b.wpm, b.raw_wpm, b.accuracy));
    assert_eq!((a.wpm, a.raw_wpm, a.accuracy), (2, 3, 80));
}
