use typetui::app::{Action, ResultRow, Screen, TestOpts, TestOptsFocus, TypeTui};
use typetui::keys::{Key, KeyPress};

fn chars(s: &str) -> Vec<char> {
    s.chars().collect()
}

fn corpus() -> Option<Vec<Vec<char>>> {
    Some(vec![chars("red"), chars("green"), chars("blue"), chars("cyan")])
}

fn press(app: &mut TypeTui, key: Key, now: u64) -> Action {
    app.handle_key(KeyPress::plain(key), now)
}

fn row(name: &str, wpm: u64) -> ResultRow {
    ResultRow { username: chars(name), wpm, raw_wpm: wpm, accuracy: 90, word_count: 10, time: 0 }
}

#[test]
fn main_menu_selection_wraps() {
    let mut app = TypeTui::new(corpus());
    press(&mut app, Key::Up, 0);
    assert_eq!(app.current_screen, Screen::Main { selected_option: 4 });
    press(&mut app, Key::Down, 0);
    assert_eq!(app.current_screen, Screen::Main { selected_option: 0 });
    press(&mut app, Key::Down, 0);
    assert_eq!(app.current_screen, Screen::Main { selected_option: 1 });
}

#[test]
fn main_menu_entries() {
    let mut app = TypeTui::new(corpus());
    press(&mut app, Key::Down, 0);
    press(&mut app, Key::Enter, 0);
    assert_eq!(app.current_screen, Screen::Login);

    let mut app = TypeTui::new(corpus());
    press(&mut app, Key::Down, 0);
    press(&mut app, Key::Down, 0);
    assert!(matches!(press(&mut app, Key::Enter, 0), Action::LoadHistory));
    assert_eq!(app.current_screen, Screen::History);

    let mut app = TypeTui::new(corpus());
    press(&mut app, Key::Up, 0);
    press(&mut app, Key::Up, 0);
    press(&mut app, Key::Enter, 0);
    assert_eq!(app.current_screen, Screen::Quit);

    let mut app = TypeTui::new(corpus());
    press(&mut app, Key::Up, 0);
    press(&mut app, Key::Enter, 0);
    assert_eq!(app.current_screen, Screen::TestOpts);
    assert!(app.typing.test_text.is_empty());
}

#[test]
fn menu_test_starts_default_session() {
    let mut app = TypeTui::new(corpus());
    press(&mut app, Key::Enter, 0);
    assert_eq!(app.current_screen, Screen::Typing);
    assert_eq!(app.typing.time_limit, None);
    let text: String = app.typing.test_text.iter().collect();
    // four words in the corpus, fewer than the default fifty
    assert_eq!(text.split(' ').count(), 4);
}

#[test]
fn missing_corpus_keeps_the_screen() {
    let mut app = TypeTui::new(None);
    press(&mut app, Key::Enter, 0);
    assert_eq!(app.current_screen, Screen::Main { selected_option: 0 });
    assert_eq!(app.load_random_words(3), Err(typetui::words::WordsError::CorpusUnavailable));
}

#[test]
fn bad_word_count_is_ignored() {
    let mut app = TypeTui::new(corpus());
    app.current_screen = Screen::TestOpts;
    app.typing.test_text = chars("keep");
    for c in "abc".chars() {
        press(&mut app, Key::Char(c), 0);
    }
    assert_eq!(app.test_opts.word_input, chars("abc"));
    assert!(matches!(press(&mut app, Key::Enter, 0), Action::Nothing));
    assert_eq!(app.current_screen, Screen::TestOpts);
    assert_eq!(app.typing.test_text, chars("keep"));
}

#[test]
fn word_count_starts_fixed_session() {
    let mut app = TypeTui::new(corpus());
    app.current_screen = Screen::TestOpts;
    for c in " 2 ".chars() {
        press(&mut app, Key::Char(c), 0);
    }
    press(&mut app, Key::Enter, 0);
    assert_eq!(app.current_screen, Screen::Typing);
    assert_eq!(app.typing.time_limit, None);
    let text: String = app.typing.test_text.iter().collect();
    assert_eq!(text.split(' ').count(), 2);
}

#[test]
fn seconds_selection_clamps_and_starts_timed_session() {
    let mut app = TypeTui::new(corpus());
    app.current_screen = Screen::TestOpts;
    press(&mut app, Key::Tab, 0);
    assert_eq!(app.test_opts.focus, TestOptsFocus::Seconds);
    press(&mut app, Key::Up, 0);
    assert_eq!(app.test_opts.seconds_selected, 0);
    for _ in 0..5 {
        press(&mut app, Key::Down, 0);
    }
    assert_eq!(app.test_opts.seconds_selected, 2);
    press(&mut app, Key::Enter, 0);
    assert_eq!(app.current_screen, Screen::Typing);
    assert_eq!(app.typing.time_limit, Some(60));
}

#[test]
fn options_form_keys() {
    let mut app = TypeTui::new(corpus());
    app.current_screen = Screen::TestOpts;
    press(&mut app, Key::Char('7'), 0);
    press(&mut app, Key::Backspace, 0);
    assert!(app.test_opts.word_input.is_empty());
    press(&mut app, Key::Char('Q'), 0);
    assert_eq!(app.current_screen, Screen::Quit);
    app.current_screen = Screen::TestOpts;
    press(&mut app, Key::Esc, 0);
    assert_eq!(app.current_screen, Screen::Main { selected_option: 0 });
}

#[test]
fn test_opts_defaults() {
    let o = TestOpts::new();
    assert_eq!(o.focus, TestOptsFocus::Words);
    assert!(o.word_input.is_empty());
    assert_eq!(o.seconds_options, vec![15, 30, 60]);
    assert_eq!(o.seconds_selected, 0);
}

#[test]
fn history_cursor_wraps() {
    let mut app = TypeTui::new(corpus());
    app.current_screen = Screen::History;
    app.set_history(vec![row("a", 50), row("b", 40), row("c", 30)]);
    press(&mut app, Key::Up, 0);
    assert_eq!(app.history_selected, 2);
    press(&mut app, Key::Down, 0);
    assert_eq!(app.history_selected, 0);
    assert!(matches!(press(&mut app, Key::Char('q'), 0), Action::Quit));
    press(&mut app, Key::Esc, 0);
    assert_eq!(app.current_screen, Screen::Main { selected_option: 0 });
}

#[test]
fn empty_history_cursor_stays() {
    let mut app = TypeTui::new(corpus());
    app.current_screen = Screen::History;
    app.clear_history();
    press(&mut app, Key::Up, 0);
    assert_eq!(app.history_selected, 0);
    press(&mut app, Key::Down, 0);
    assert_eq!(app.history_selected, 0);
}

#[test]
fn resume_keeps_prompt() {
    let mut app = TypeTui::new(corpus());
    press(&mut app, Key::Enter, 0);
    let prompt = app.typing.test_text.clone();
    let first = prompt[0];
    press(&mut app, Key::Char(first), 100);
    press(&mut app, Key::Esc, 200);
    assert_eq!(app.current_screen, Screen::Pause);
    assert_eq!(app.typing.user_input.len(), 1);
    press(&mut app, Key::Enter, 300);
    assert_eq!(app.current_screen, Screen::Typing);
    assert!(app.typing.user_input.is_empty());
    assert_eq!(app.typing.start_time, None);
    assert_eq!(app.typing.test_text, prompt);
}

#[test]
fn pause_menu_moves_and_chooses() {
    let mut app = TypeTui::new(corpus());
    app.current_screen = Screen::Pause;
    press(&mut app, Key::Up, 0);
    assert_eq!(app.pause_selected, 3);
    assert!(matches!(press(&mut app, Key::Enter, 0), Action::Quit));
    press(&mut app, Key::Down, 0);
    assert_eq!(app.pause_selected, 0);
    press(&mut app, Key::Down, 0);
    press(&mut app, Key::Enter, 0);
    assert_eq!(app.current_screen, Screen::TestOpts);
    app.current_screen = Screen::Pause;
    press(&mut app, Key::Down, 0);
    press(&mut app, Key::Enter, 0);
    assert_eq!(app.current_screen, Screen::Main { selected_option: 0 });
    app.current_screen = Screen::Pause;
    press(&mut app, Key::Esc, 0);
    assert_eq!(app.current_screen, Screen::Typing);
}

#[test]
fn control_c_quits_anywhere() {
    let mut app = TypeTui::new(corpus());
    app.current_screen = Screen::Login;
    let r = app.handle_key(KeyPress { key: Key::Char('c'), ctrl: true }, 0);
    assert!(matches!(r, Action::Quit));
    assert!(app.login_input.is_empty());
}

#[test]
fn quit_question() {
    let mut app = TypeTui::new(corpus());
    app.current_screen = Screen::Quit;
    assert!(matches!(press(&mut app, Key::Char('x'), 0), Action::Nothing));
    assert_eq!(app.current_screen, Screen::Quit);
    assert!(matches!(press(&mut app, Key::Char('y'), 0), Action::Quit));
    press(&mut app, Key::Char('n'), 0);
    assert_eq!(app.current_screen, Screen::Main { selected_option: 0 });
}

#[test]
fn stats_screen_keys() {
    let mut app = TypeTui::new(corpus());
    app.current_screen = Screen::Stats;
    assert!(matches!(press(&mut app, Key::Char('q'), 0), Action::Quit));
    press(&mut app, Key::Esc, 0);
    assert_eq!(app.current_screen, Screen::Main { selected_option: 0 });
}

fn finish_session(app: &mut TypeTui) -> Action {
    app.typing.reset();
    app.typing.test_text = chars("go");
    app.current_screen = Screen::Typing;
    press(app, Key::Char('g'), 0);
    press(app, Key::Char('o'), 6000)
}

#[test]
fn completion_without_user_asks_for_login_then_records() {
    let mut app = TypeTui::new(corpus());
    assert!(matches!(finish_session(&mut app), Action::Nothing));
    assert_eq!(app.current_screen, Screen::Login);
    assert!(app.pending_result);
    for c in "  bob ".chars() {
        press(&mut app, Key::Char(c), 7000);
    }
    match press(&mut app, Key::Enter, 7000) {
        Action::Record(r) => {
            assert_eq!(r.username, chars("bob"));
            assert_eq!(r.wpm, 4);
            assert_eq!(r.accuracy, 100);
            assert_eq!(r.word_count, 0);
            assert_eq!(r.time, 0);
        }
        other => panic!("expected a record, got {:?}", other),
    }
    assert_eq!(app.user, chars("bob"));
    assert!(app.login_input.is_empty());
    assert_eq!(app.current_screen, Screen::Stats);
    assert!(!app.pending_result);
}

#[test]
fn completion_with_user_records_directly() {
    let mut app = TypeTui::new(corpus());
    app.user = chars("ann");
    match finish_session(&mut app) {
        Action::Record(r) => assert_eq!(r.username, chars("ann")),
        other => panic!("expected a record, got {:?}", other),
    }
    assert_eq!(app.current_screen, Screen::Stats);
}

#[test]
fn login_without_pending_result_goes_to_menu() {
    let mut app = TypeTui::new(corpus());
    app.current_screen = Screen::Login;
    press(&mut app, Key::Enter, 0);
    assert_eq!(app.current_screen, Screen::Login);
    for c in "zoe".chars() {
        press(&mut app, Key::Char(c), 0);
    }
    press(&mut app, Key::Backspace, 0);
    assert!(matches!(press(&mut app, Key::Enter, 0), Action::Nothing));
    assert_eq!(app.user, chars("zo"));
    assert_eq!(app.current_screen, Screen::Main { selected_option: 0 });
}

#[test]
fn login_escape_discards_name() {
    let mut app = TypeTui::new(corpus());
    app.current_screen = Screen::Login;
    press(&mut app, Key::Char('k'), 0);
    press(&mut app, Key::Esc, 0);
    assert!(app.login_input.is_empty());
    assert!(app.user.is_empty());
    assert_eq!(app.current_screen, Screen::Main { selected_option: 0 });
}

#[test]
fn reset_test_clears_session() {
    let mut app = TypeTui::new(corpus());
    app.reset_test();
    assert!(app.typing.test_text.is_empty());
    assert!(app.load_random_words(2).is_ok());
    let text: String = app.typing.test_text.iter().collect();
    assert_eq!(text.split(' ').count(), 2);
}
