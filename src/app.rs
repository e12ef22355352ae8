//! The screens of the application and the state machine that routes each
//! key press to the screen that is showing.
use vstd::prelude::*;

use crate::keys::{edit, edited, Key, KeyPress};
use crate::text::{parse_count, parsed_count, trim, trimmed};
use crate::typingtest::{default_text, lemma_fixed_completion_lengths, Progress, TypingTest};
use crate::words::{copy_word, drawn_text, sample_words, words_view, WordsError};

verus! {

/// Options of the main menu: test, login, history, quit, test options.
pub const NUM_MENU_OPTIONS: usize = 5;

/// Options of the pause menu: resume, change options, main menu, quit.
pub const NUM_PAUSE_OPTIONS: usize = 4;

/// Words in a test started from the menu or with a time limit.
pub const DEFAULT_WORD_COUNT: usize = 50;

/// The screen that is showing.
#[derive(Clone, Copy, Debug, PartialEq, Eq, Structural)]
pub enum Screen {
    Main { selected_option: usize },
    Typing,
    TestOpts,
    Login,
    Stats,
    History,
    /// Asks whether to quit.
    Quit,
    Pause,
}

/// Which field of the test options form has the focus.
#[derive(Clone, Copy, Debug, PartialEq, Eq, Structural)]
pub enum TestOptsFocus {
    Words,
    Seconds,
}

/// The test options form: a word count typed as text, and a choice among
/// time limits.
#[derive(Debug)]
pub struct TestOpts {
    pub focus: TestOptsFocus,
    pub word_input: Vec<char>,
    pub seconds_options: Vec<u16>,
    pub seconds_selected: usize,
}

impl TestOpts {
    /// The form as it first shows: focus on the word count, nothing typed,
    /// limits of 15, 30 and 60 seconds with the first selected.
    pub open spec fn is_initial(&self) -> bool {
        &&& self.focus == TestOptsFocus::Words
        &&& self.word_input@.len() == 0
        &&& self.seconds_options@ == seq![15u16, 30u16, 60u16]
        &&& self.seconds_selected == 0
    }

    /// The selected limit is one of the options.
    pub open spec fn wf(&self) -> bool {
        self.seconds_selected < self.seconds_options@.len()
    }

    /// The form as it first shows.
    pub fn new() -> (r: TestOpts)
        ensures
            r.is_initial(),
            r.wf(),
    {
        TestOpts::default()
    }
}

impl Default for TestOpts {
    fn default() -> (r: TestOpts)
        ensures
            r.is_initial(),
    {
        let mut seconds_options: Vec<u16> = Vec::new();
        seconds_options.push(15);
        seconds_options.push(30);
        seconds_options.push(60);
        assert(seconds_options@ =~= seq![15u16, 30u16, 60u16]);
        TestOpts {
            focus: TestOptsFocus::Words,
            word_input: Vec::new(),
            seconds_options,
            seconds_selected: 0,
        }
    }
}

/// One finished session as it is stored.
#[derive(Debug)]
pub struct ResultRow {
    pub username: Vec<char>,
    pub wpm: u64,
    pub raw_wpm: u64,
    pub accuracy: u64,
    pub word_count: usize,
    /// The time limit in seconds, 0 for a fixed session.
    pub time: u16,
}

/// What the caller must do after a key press.
#[derive(Debug)]
pub enum Action {
    /// Nothing beyond drawing the new state.
    Nothing,
    /// End the program.
    Quit,
    /// Fetch the stored results and hand them to `set_history`.
    LoadHistory,
    /// Store this result, then fetch the stored results and hand them to
    /// `set_history`.
    Record(ResultRow),
}

/// The index above `i` in a list of `n`, wrapping from the first to the last.
pub open spec fn wrap_up(i: int, n: int) -> int {
    if i == 0 {
        if n > 0 {
            n - 1
        } else {
            0
        }
    } else {
        i - 1
    }
}

/// The index below `i` in a list of `n`, wrapping from the last to the first.
pub open spec fn wrap_down(i: int, n: int) -> int {
    if i + 1 >= n {
        0
    } else {
        i + 1
    }
}

/// Moving up from the first entry of a list reaches the last, moving down
/// from the last reaches the first, and either move stays in the list.
pub proof fn lemma_selection_wraps(i: int, n: int)
    requires
        0 <= i < n,
    ensures
        wrap_up(0, n) == n - 1,
        wrap_down(n - 1, n) == 0,
        0 <= wrap_up(i, n) < n,
        0 <= wrap_down(i, n) < n,
{
}

fn up_index(i: usize, n: usize) -> (r: usize)
    ensures
        r == wrap_up(i as int, n as int),
{
    if i == 0 {
        if n > 0 {
            n - 1
        } else {
            0
        }
    } else {
        i - 1
    }
}

fn down_index(i: usize, n: usize) -> (r: usize)
    ensures
        r == wrap_down(i as int, n as int),
{
    if i >= n || n - i <= 1 {
        0
    } else {
        i + 1
    }
}

/// The whole application state.
#[derive(Debug)]
pub struct TypeTui {
    pub current_screen: Screen,
    /// The session being typed or last finished.
    pub typing: TypingTest,
    pub test_opts: TestOpts,
    /// The logged-in user; empty before login.
    pub user: Vec<char>,
    /// The login form's buffer.
    pub login_input: Vec<char>,
    /// The stored results, as last fetched.
    pub history: Vec<ResultRow>,
    /// The cursor on the history screen.
    pub history_selected: usize,
    /// The cursor on the pause menu.
    pub pause_selected: usize,
    /// A session finished before anyone logged in, waiting to be stored.
    pub pending_result: bool,
    /// The words that prompts are drawn from; none if they could not be loaded.
    pub corpus: Option<Vec<Vec<char>>>,
}

/// `row` holds the results of `app`'s session under its user.
pub open spec fn is_row_of(row: ResultRow, app: TypeTui) -> bool {
    &&& row.username@ == app.user@
    &&& row.wpm == app.typing.wpm
    &&& row.raw_wpm == app.typing.raw_wpm
    &&& row.accuracy == app.typing.accuracy
    &&& row.word_count == app.typing.word_count
    &&& row.time == match app.typing.time_limit {
        Some(l) => l,
        None => 0u16,
    }
}

/// `r` asks to store the results of `app`'s session.
pub open spec fn records(r: Action, app: TypeTui) -> bool {
    r is Record && is_row_of(r->Record_0, app)
}

impl TypeTui {
    /// The state's invariant: every cursor is within its list, and a fixed
    /// session being typed has an input shorter than its prompt, or none.
    pub open spec fn inv(&self) -> bool {
        &&& match self.current_screen {
            Screen::Main { selected_option } => selected_option < NUM_MENU_OPTIONS,
            _ => true,
        }
        &&& self.pause_selected < NUM_PAUSE_OPTIONS
        &&& self.test_opts.wf()
        &&& (self.history_selected == 0 || self.history_selected < self.history@.len())
        &&& (self.current_screen is Typing && self.typing.time_limit is None) ==> (
        self.typing.user_input@.len() < self.typing.test_text@.len()
            || self.typing.user_input@.len() == 0)
    }

    /// `new` is `old` showing the main menu with its first option selected.
    pub open spec fn to_main(old: TypeTui, new: TypeTui) -> bool {
        new == (TypeTui { current_screen: Screen::Main { selected_option: 0 }, ..old })
    }

    /// `new` is `old` with a fresh session of `n` words drawn from the corpus,
    /// in the given mode, showing the typing screen; when no words can be
    /// drawn (no corpus, or no seed for the random generator), `new` is `old`.
    pub open spec fn started(old: TypeTui, new: TypeTui, n: int, limit: Option<u16>) -> bool {
        match old.corpus {
            None => new == old,
            Some(c) => new == old || {
                &&& new == (TypeTui { current_screen: Screen::Typing, typing: new.typing, ..old })
                &&& new.typing.is_fresh(limit)
                &&& drawn_text(new.typing.test_text@, words_view(c@), n)
            },
        }
    }

    /// A key press on the main menu.
    pub open spec fn menu_step(old: TypeTui, new: TypeTui, key: Key, r: Action) -> bool {
        let sel = old.current_screen->Main_selected_option;
        match key {
            Key::Up => r == Action::Nothing && new == (TypeTui {
                current_screen: Screen::Main {
                    selected_option: wrap_up(sel as int, NUM_MENU_OPTIONS as int) as usize,
                },
                ..old
            }),
            Key::Down => r == Action::Nothing && new == (TypeTui {
                current_screen: Screen::Main {
                    selected_option: wrap_down(sel as int, NUM_MENU_OPTIONS as int) as usize,
                },
                ..old
            }),
            Key::Enter => if sel == 0 {
                r == Action::Nothing && Self::started(old, new, DEFAULT_WORD_COUNT as int, None)
            } else if sel == 1 {
                r == Action::Nothing && new == (TypeTui { current_screen: Screen::Login, ..old })
            } else if sel == 2 {
                r == Action::LoadHistory && new == (TypeTui {
                    current_screen: Screen::History,
                    ..old
                })
            } else if sel == 3 {
                r == Action::Nothing && new == (TypeTui { current_screen: Screen::Quit, ..old })
            } else {
                &&& r == Action::Nothing
                &&& new == (TypeTui {
                    current_screen: Screen::TestOpts,
                    typing: new.typing,
                    ..old
                })
                &&& new.typing.is_fresh(None)
                &&& new.typing.test_text@.len() == 0
            },
            _ => r == Action::Nothing && new == old,
        }
    }

    /// The starting state: the main menu, a session on the default prompt,
    /// nobody logged in, no history.
    pub fn new(corpus: Option<Vec<Vec<char>>>) -> (r: TypeTui)
        ensures
            r.inv(),
            r.current_screen == (Screen::Main { selected_option: 0 }),
            r.typing.test_text@ == default_text(),
            r.typing.is_fresh(None),
            r.test_opts.is_initial(),
            r.user@.len() == 0,
            r.login_input@.len() == 0,
            r.history@.len() == 0,
            r.history_selected == 0,
            r.pause_selected == 0,
            !r.pending_result,
            r.corpus == corpus,
    {
        TypeTui {
            current_screen: Screen::Main { selected_option: 0 },
            typing: TypingTest::new(),
            test_opts: TestOpts::new(),
            user: Vec::new(),
            login_input: Vec::new(),
            history: Vec::new(),
            history_selected: 0,
            pause_selected: 0,
            pending_result: false,
            corpus,
        }
    }

    /// Replaces the prompt by `num_words` words drawn from the corpus.
    pub fn load_random_words(&mut self, num_words: usize) -> (r: Result<(), WordsError>)
        ensures
            old(self).corpus is None ==> r == Err::<(), WordsError>(WordsError::CorpusUnavailable),
            old(self).corpus is Some ==> r is Ok || r == Err::<(), WordsError>(
                WordsError::RandomnessUnavailable,
            ),
            r is Err ==> *final(self) == *old(self),
            r is Ok ==> drawn_text(
                final(self).typing.test_text@,
                words_view(old(self).corpus->0@),
                num_words as int,
            ),
            r is Ok ==> *final(self) == (TypeTui { typing: final(self).typing, ..*old(self) }),
            final(self).typing.user_input == old(self).typing.user_input,
            TypingTest::same_results(old(self).typing, final(self).typing),
            final(self).typing.start_time == old(self).typing.start_time,
    {
        self.typing.get_words(&self.corpus, num_words)
    }

    /// Clears the session: no prompt, nothing typed, no results, fixed mode.
    pub fn reset_test(&mut self)
        ensures
            *final(self) == (TypeTui { typing: final(self).typing, ..*old(self) }),
            final(self).typing.is_fresh(None),
            final(self).typing.test_text@.len() == 0,
    {
        self.typing.reset();
    }

    /// Starts a fresh session of `num_words` words in the given mode and
    /// shows the typing screen; without a corpus nothing changes.
    fn start_test(&mut self, num_words: usize, limit: Option<u16>)
        requires
            old(self).inv(),
        ensures
            final(self).inv(),
            Self::started(*old(self), *final(self), num_words as int, limit),
    {
        let text = match sample_words(&self.corpus, num_words) {
            Ok(t) => t,
            Err(_) => {
                return;
            },
        };
        self.reset_test();
        self.typing.test_text = text;
        self.typing.time_limit = limit;
        self.current_screen = Screen::Typing;
    }

    /// Handles a key press on the main menu.
    pub fn handle_menu_input(key: Key, app: &mut TypeTui) -> (r: Action)
        requires
            old(app).inv(),
            old(app).current_screen is Main,
        ensures
            final(app).inv(),
            Self::menu_step(*old(app), *final(app), key, r),
    {
        let sel: usize = match app.current_screen {
            Screen::Main { selected_option } => selected_option,
            _ => 0,
        };
        match key {
            Key::Up => {
                app.current_screen = Screen::Main {
                    selected_option: up_index(sel, NUM_MENU_OPTIONS),
                };
                Action::Nothing
            },
            Key::Down => {
                app.current_screen = Screen::Main {
                    selected_option: down_index(sel, NUM_MENU_OPTIONS),
                };
                Action::Nothing
            },
            Key::Enter => {
                if sel == 0 {
                    app.start_test(DEFAULT_WORD_COUNT, None);
                    Action::Nothing
                } else if sel == 1 {
                    app.current_screen = Screen::Login;
                    Action::Nothing
                } else if sel == 2 {
                    app.current_screen = Screen::History;
                    Action::LoadHistory
                } else if sel == 3 {
                    app.current_screen = Screen::Quit;
                    Action::Nothing
                } else {
                    app.reset_test();
                    app.current_screen = Screen::TestOpts;
                    Action::Nothing
                }
            },
            _ => Action::Nothing,
        }
    }

    /// `new` is `old` with the test options form replaced by `opts`.
    pub open spec fn with_opts(old: TypeTui, new: TypeTui, opts: TestOpts) -> bool {
        new == (TypeTui { test_opts: opts, ..old })
    }

    /// A key press on the test options form. With the focus on the word
    /// count, characters edit it, `q` asks to quit, and enter starts a fixed
    /// session of that many words when the trimmed text is a number (else
    /// nothing happens). With the focus on the limits, up and down move the
    /// selection without wrapping, enter starts a timed session of the
    /// default length, and `q` asks to quit. Tab moves the focus; escape
    /// goes back to the main menu.
    pub open spec fn opts_step(old: TypeTui, new: TypeTui, key: Key, r: Action) -> bool {
        let o = old.test_opts;
        &&& r == Action::Nothing
        &&& match o.focus {
            TestOptsFocus::Words => match key {
                Key::Char(c) => if c == 'q' || c == 'Q' {
                    new == (TypeTui { current_screen: Screen::Quit, ..old })
                } else {
                    Self::with_opts(old, new, TestOpts { word_input: new.test_opts.word_input, ..o })
                        && new.test_opts.word_input@ == o.word_input@.push(c)
                },
                Key::Esc => Self::to_main(old, new),
                Key::Backspace => Self::with_opts(
                    old,
                    new,
                    TestOpts { word_input: new.test_opts.word_input, ..o },
                ) && new.test_opts.word_input@ == edited(o.word_input@, key),
                Key::Enter => match parsed_count(trimmed(o.word_input@)) {
                    None => new == old,
                    Some(n) => Self::started(old, new, n as int, None),
                },
                Key::Tab => Self::with_opts(
                    old,
                    new,
                    TestOpts { focus: TestOptsFocus::Seconds, ..o },
                ),
                _ => new == old,
            },
            TestOptsFocus::Seconds => match key {
                Key::Up => Self::with_opts(
                    old,
                    new,
                    TestOpts {
                        seconds_selected: if o.seconds_selected > 0 {
                            (o.seconds_selected - 1) as usize
                        } else {
                            0
                        },
                        ..o
                    },
                ),
                Key::Down => Self::with_opts(
                    old,
                    new,
                    TestOpts {
                        seconds_selected: if o.seconds_selected + 1 < o.seconds_options@.len() {
                            (o.seconds_selected + 1) as usize
                        } else {
                            o.seconds_selected
                        },
                        ..o
                    },
                ),
                Key::Enter => Self::started(
                    old,
                    new,
                    DEFAULT_WORD_COUNT as int,
                    Some(o.seconds_options@[o.seconds_selected as int]),
                ),
                Key::Tab => Self::with_opts(old, new, TestOpts { focus: TestOptsFocus::Words, ..o }),
                Key::Esc => Self::to_main(old, new),
                Key::Char(c) => if c == 'q' || c == 'Q' {
                    new == (TypeTui { current_screen: Screen::Quit, ..old })
                } else {
                    new == old
                },
                _ => new == old,
            },
        }
    }

    /// Handles a key press on the test options form.
    pub fn handle_test_ops(app: &mut TypeTui, key_event: KeyPress) -> (r: Action)
        requires
            old(app).inv(),
            old(app).current_screen is TestOpts,
        ensures
            final(app).inv(),
            Self::opts_step(*old(app), *final(app), key_event.key, r),
    {
        let key = key_event.key;
        match app.test_opts.focus {
            TestOptsFocus::Words => match key {
                Key::Char(c) => {
                    if c == 'q' || c == 'Q' {
                        app.current_screen = Screen::Quit;
                    } else {
                        app.test_opts.word_input.push(c);
                    }
                },
                Key::Esc => {
                    app.current_screen = Screen::Main { selected_option: 0 };
                },
                Key::Backspace => {
                    edit(&mut app.test_opts.word_input, key);
                },
                Key::Enter => {
                    let text = trim(&app.test_opts.word_input);
                    match parse_count(&text) {
                        Some(n) => app.start_test(n, None),
                        None => {},
                    }
                },
                Key::Tab => {
                    app.test_opts.focus = TestOptsFocus::Seconds;
                },
                _ => {},
            },
            TestOptsFocus::Seconds => match key {
                Key::Up => {
                    if app.test_opts.seconds_selected > 0 {
                        app.test_opts.seconds_selected = app.test_opts.seconds_selected - 1;
                    }
                },
                Key::Down => {
                    let n = app.test_opts.seconds_options.len();
                    if app.test_opts.seconds_selected < n - 1 {
                        app.test_opts.seconds_selected = app.test_opts.seconds_selected + 1;
                    }
                },
                Key::Enter => {
                    let chosen_seconds = app.test_opts.seconds_options[app.test_opts.seconds_selected];
                    app.start_test(DEFAULT_WORD_COUNT, Some(chosen_seconds));
                },
                Key::Tab => {
                    app.test_opts.focus = TestOptsFocus::Words;
                },
                Key::Esc => {
                    app.current_screen = Screen::Main { selected_option: 0 };
                },
                Key::Char(c) => {
                    if c == 'q' || c == 'Q' {
                        app.current_screen = Screen::Quit;
                    }
                },
                _ => {},
            },
        }
        Action::Nothing
    }

    /// A key press on the typing screen: the session takes it; a pause shows
    /// the pause menu; a completed session goes to the login screen, kept
    /// for storing, when nobody is logged in, and otherwise is to be stored
    /// while the stats screen shows.
    pub open spec fn typing_step(old: TypeTui, new: TypeTui, key: Key, now: u64, r: Action) -> bool {
        let p = TypingTest::progress(old.typing, key, now);
        &&& TypingTest::stepped(old.typing, new.typing, key, now, old.corpus, p)
        &&& match p {
            Progress::Paused => r == Action::Nothing && new == (TypeTui {
                current_screen: Screen::Pause,
                ..old
            }),
            Progress::Continue => r == Action::Nothing && new == (TypeTui {
                typing: new.typing,
                ..old
            }),
            Progress::Completed => if old.user@.len() == 0 {
                r == Action::Nothing && new == (TypeTui {
                    current_screen: Screen::Login,
                    typing: new.typing,
                    pending_result: true,
                    ..old
                })
            } else {
                records(r, new) && new == (TypeTui {
                    current_screen: Screen::Stats,
                    typing: new.typing,
                    ..old
                })
            },
        }
    }

    /// The stored form of the session's results under the current user.
    pub fn result_row(&self) -> (r: ResultRow)
        ensures
            is_row_of(r, *self),
    {
        ResultRow {
            username: copy_word(&self.user),
            wpm: self.typing.wpm,
            raw_wpm: self.typing.raw_wpm,
            accuracy: self.typing.accuracy,
            word_count: self.typing.word_count,
            time: match self.typing.time_limit {
                Some(l) => l,
                None => 0,
            },
        }
    }

    /// A key press on the history screen: up and down move the cursor over
    /// the results with wrap-around, `q` quits, escape goes to the main menu.
    pub open spec fn history_step(old: TypeTui, new: TypeTui, key: Key, r: Action) -> bool {
        match key {
            Key::Up => r == Action::Nothing && new == (TypeTui {
                history_selected: wrap_up(old.history_selected as int, old.history@.len() as int)
                    as usize,
                ..old
            }),
            Key::Down => r == Action::Nothing && new == (TypeTui {
                history_selected: wrap_down(old.history_selected as int, old.history@.len() as int)
                    as usize,
                ..old
            }),
            Key::Char(c) => if c == 'q' {
                r == Action::Quit && new == old
            } else {
                r == Action::Nothing && new == old
            },
            Key::Esc => r == Action::Nothing && Self::to_main(old, new),
            _ => r == Action::Nothing && new == old,
        }
    }

    /// A key press on the stats screen: `q` quits, escape goes to the main
    /// menu.
    pub open spec fn stats_step(old: TypeTui, new: TypeTui, key: Key, r: Action) -> bool {
        match key {
            Key::Char(c) => if c == 'q' {
                r == Action::Quit && new == old
            } else {
                r == Action::Nothing && new == old
            },
            Key::Esc => r == Action::Nothing && Self::to_main(old, new),
            _ => r == Action::Nothing && new == old,
        }
    }

    /// A key press on the quit question: `y` quits, `n` goes to the main
    /// menu, other keys do nothing.
    pub open spec fn quit_step(old: TypeTui, new: TypeTui, key: Key, r: Action) -> bool {
        if key == Key::Char('y') {
            r == Action::Quit && new == old
        } else if key == Key::Char('n') {
            r == Action::Nothing && Self::to_main(old, new)
        } else {
            r == Action::Nothing && new == old
        }
    }

    /// Committing the login form. A name that is empty once trimmed changes
    /// nothing. Otherwise the trimmed name becomes the user and the form is
    /// emptied; a pending session with a non-zero speed is to be stored
    /// while the stats screen shows, else the main menu shows.
    pub open spec fn login_confirmed(old: TypeTui, new: TypeTui, r: Action) -> bool {
        let name = trimmed(old.login_input@);
        if name.len() == 0 {
            r == Action::Nothing && new == old
        } else {
            let stored = old.pending_result && old.typing.wpm != 0;
            &&& new.user@ == name
            &&& new.login_input@.len() == 0
            &&& new == (TypeTui {
                current_screen: if stored {
                    Screen::Stats
                } else {
                    Screen::Main { selected_option: 0 }
                },
                user: new.user,
                login_input: new.login_input,
                pending_result: false,
                ..old
            })
            &&& if stored {
                records(r, new)
            } else {
                r == Action::Nothing
            }
        }
    }

    /// A key press on the login screen: characters and backspace edit the
    /// name, enter commits it, escape empties the form and goes to the main
    /// menu.
    pub open spec fn login_step(old: TypeTui, new: TypeTui, key: Key, r: Action) -> bool {
        match key {
            Key::Char(_) | Key::Backspace => r == Action::Nothing && new == (TypeTui {
                login_input: new.login_input,
                ..old
            }) && new.login_input@ == edited(old.login_input@, key),
            Key::Enter => Self::login_confirmed(old, new, r),
            Key::Esc => r == Action::Nothing && new == (TypeTui {
                current_screen: Screen::Main { selected_option: 0 },
                login_input: new.login_input,
                ..old
            }) && new.login_input@.len() == 0,
            _ => r == Action::Nothing && new == old,
        }
    }

    /// `new` is `old` back on the typing screen with the input and the clock
    /// cleared and the prompt kept.
    pub open spec fn resumed(old: TypeTui, new: TypeTui) -> bool {
        &&& new == (TypeTui { current_screen: Screen::Typing, typing: new.typing, ..old })
        &&& new.typing.user_input@.len() == 0
        &&& new.typing.time is None
        &&& new.typing.start_time is None
        &&& new.typing.test_text == old.typing.test_text
        &&& TypingTest::same_results(
            old.typing,
            TypingTest { time: old.typing.time, ..new.typing },
        )
    }

    /// A key press on the pause menu: up and down move the cursor over four
    /// options with wrap-around; enter resumes, opens the test options,
    /// goes to the main menu or quits; escape resumes.
    pub open spec fn pause_step(old: TypeTui, new: TypeTui, key: Key, r: Action) -> bool {
        let sel = old.pause_selected;
        match key {
            Key::Up => r == Action::Nothing && new == (TypeTui {
                pause_selected: wrap_up(sel as int, NUM_PAUSE_OPTIONS as int) as usize,
                ..old
            }),
            Key::Down => r == Action::Nothing && new == (TypeTui {
                pause_selected: wrap_down(sel as int, NUM_PAUSE_OPTIONS as int) as usize,
                ..old
            }),
            Key::Enter => if sel == 0 {
                r == Action::Nothing && Self::resumed(old, new)
            } else if sel == 1 {
                r == Action::Nothing && new == (TypeTui { current_screen: Screen::TestOpts, ..old })
            } else if sel == 2 {
                r == Action::Nothing && Self::to_main(old, new)
            } else {
                r == Action::Quit && new == old
            },
            Key::Esc => r == Action::Nothing && Self::resumed(old, new),
            _ => r == Action::Nothing && new == old,
        }
    }

    /// Whether a key press is the kill combination, control-c.
    pub open spec fn is_interrupt(press: KeyPress) -> bool {
        press.ctrl && press.key == Key::Char('c')
    }

    /// What a key press at `now` does to the application: control-c quits
    /// from anywhere; otherwise the showing screen handles it.
    pub open spec fn handled(old: TypeTui, new: TypeTui, press: KeyPress, now: u64, r: Action) -> bool {
        if Self::is_interrupt(press) {
            r == Action::Quit && new == old
        } else {
            match old.current_screen {
                Screen::Main { .. } => Self::menu_step(old, new, press.key, r),
                Screen::TestOpts => Self::opts_step(old, new, press.key, r),
                Screen::Typing => Self::typing_step(old, new, press.key, now, r),
                Screen::Login => Self::login_step(old, new, press.key, r),
                Screen::Stats => Self::stats_step(old, new, press.key, r),
                Screen::History => Self::history_step(old, new, press.key, r),
                Screen::Quit => Self::quit_step(old, new, press.key, r),
                Screen::Pause => Self::pause_step(old, new, press.key, r),
            }
        }
    }

    /// Commits the login form.
    pub fn confirm_login(&mut self) -> (r: Action)
        requires
            old(self).inv(),
        ensures
            final(self).inv(),
            Self::login_confirmed(*old(self), *final(self), r),
    {
        let uname = trim(&self.login_input);
        if uname.len() == 0 {
            return Action::Nothing;
        }
        self.user = uname;
        self.login_input.clear();
        let stored = self.pending_result && self.typing.wpm != 0;
        self.pending_result = false;
        if stored {
            self.current_screen = Screen::Stats;
            Action::Record(self.result_row())
        } else {
            self.current_screen = Screen::Main { selected_option: 0 };
            Action::Nothing
        }
    }

    /// Puts the state back on the typing screen with the input and the
    /// clock cleared.
    fn resume(&mut self)
        requires
            old(self).inv(),
        ensures
            final(self).inv(),
            Self::resumed(*old(self), *final(self)),
    {
        self.typing.user_input.clear();
        self.typing.time = None;
        self.typing.start_time = None;
        self.current_screen = Screen::Typing;
    }

    /// Takes freshly fetched results and puts the history cursor on the first.
    pub fn set_history(&mut self, rows: Vec<ResultRow>)
        requires
            old(self).inv(),
        ensures
            final(self).inv(),
            *final(self) == (TypeTui { history: rows, history_selected: 0, ..*old(self) }),
    {
        self.history = rows;
        self.history_selected = 0;
    }

    /// Forgets the results, as when they could not be fetched.
    pub fn clear_history(&mut self)
        requires
            old(self).inv(),
        ensures
            final(self).inv(),
            *final(self) == (TypeTui { history: final(self).history, history_selected: 0, ..*old(self) }),
            final(self).history@.len() == 0,
    {
        self.history.clear();
        self.history_selected = 0;
    }

    /// Handles one key press at `now` (milliseconds on the caller's clock)
    /// and says what the caller must do next.
    pub fn handle_key(&mut self, press: KeyPress, now: u64) -> (r: Action)
        requires
            old(self).inv(),
        ensures
            final(self).inv(),
            Self::handled(*old(self), *final(self), press, now, r),
    {
        if press.ctrl && press.key == Key::Char('c') {
            return Action::Quit;
        }
        let key = press.key;
        match self.current_screen {
            Screen::Main { .. } => Self::handle_menu_input(key, self),
            Screen::TestOpts => Self::handle_test_ops(self, press),
            Screen::Typing => TypingTest::handle_typing_input(key, self, now),
            Screen::Login => match key {
                Key::Char(_) | Key::Backspace => {
                    edit(&mut self.login_input, key);
                    Action::Nothing
                },
                Key::Enter => self.confirm_login(),
                Key::Esc => {
                    self.login_input.clear();
                    self.current_screen = Screen::Main { selected_option: 0 };
                    Action::Nothing
                },
                _ => Action::Nothing,
            },
            Screen::Stats => match key {
                Key::Char('q') => Action::Quit,
                Key::Esc => {
                    self.current_screen = Screen::Main { selected_option: 0 };
                    Action::Nothing
                },
                _ => Action::Nothing,
            },
            Screen::History => match key {
                Key::Up => {
                    self.history_selected = up_index(self.history_selected, self.history.len());
                    Action::Nothing
                },
                Key::Down => {
                    self.history_selected = down_index(self.history_selected, self.history.len());
                    Action::Nothing
                },
                Key::Char('q') => Action::Quit,
                Key::Esc => {
                    self.current_screen = Screen::Main { selected_option: 0 };
                    Action::Nothing
                },
                _ => Action::Nothing,
            },
            Screen::Quit => {
                if key == Key::Char('y') {
                    Action::Quit
                } else if key == Key::Char('n') {
                    self.current_screen = Screen::Main { selected_option: 0 };
                    Action::Nothing
                } else {
                    Action::Nothing
                }
            },
            Screen::Pause => match key {
                Key::Up => {
                    self.pause_selected = up_index(self.pause_selected, NUM_PAUSE_OPTIONS);
                    Action::Nothing
                },
                Key::Down => {
                    self.pause_selected = down_index(self.pause_selected, NUM_PAUSE_OPTIONS);
                    Action::Nothing
                },
                Key::Enter => {
                    if self.pause_selected == 0 {
                        self.resume();
                        Action::Nothing
                    } else if self.pause_selected == 1 {
                        self.current_screen = Screen::TestOpts;
                        Action::Nothing
                    } else if self.pause_selected == 2 {
                        self.current_screen = Screen::Main { selected_option: 0 };
                        Action::Nothing
                    } else {
                        Action::Quit
                    }
                },
                Key::Esc => {
                    self.resume();
                    Action::Nothing
                },
                _ => Action::Nothing,
            },
        }
    }
}

impl TypingTest {
    /// Handles a key press on the typing screen at `now`.
    pub fn handle_typing_input(key: Key, app: &mut TypeTui, now: u64) -> (r: Action)
        requires
            old(app).inv(),
            old(app).current_screen is Typing,
        ensures
            final(app).inv(),
            TypeTui::typing_step(*old(app), *final(app), key, now, r),
    {
        let progress = app.typing.step(key, now, &app.corpus);
        match progress {
            Progress::Paused => {
                app.current_screen = Screen::Pause;
                Action::Nothing
            },
            Progress::Continue => Action::Nothing,
            Progress::Completed => {
                if app.user.len() == 0 {
                    app.pending_result = true;
                    app.current_screen = Screen::Login;
                    Action::Nothing
                } else {
                    app.current_screen = Screen::Stats;
                    Action::Record(app.result_row())
                }
            },
        }
    }
}

/// On the five-option main menu, up from the first option selects the last
/// and down from the last selects the first.
pub proof fn lemma_main_menu_wraps(old: TypeTui, new: TypeTui, press: KeyPress, now: u64, r: Action)
    requires
        TypeTui::handled(old, new, press, now, r),
        !press.ctrl,
    ensures
        old.current_screen == (Screen::Main { selected_option: 0 }) && press.key == Key::Up
            ==> new.current_screen == (Screen::Main { selected_option: 4 }),
        old.current_screen == (Screen::Main { selected_option: 4 }) && press.key == Key::Down
            ==> new.current_screen == (Screen::Main { selected_option: 0 }),
{
}

/// A fixed session with a non-empty prompt that a key press completes ends
/// with an input exactly as long as its prompt.
pub proof fn lemma_fixed_session_completes_at_full_length(
    old: TypeTui,
    new: TypeTui,
    press: KeyPress,
    now: u64,
    r: Action,
)
    requires
        old.inv(),
        TypeTui::handled(old, new, press, now, r),
        !TypeTui::is_interrupt(press),
        old.current_screen is Typing,
        old.typing.time_limit is None,
        old.typing.test_text@.len() > 0,
        TypingTest::progress(old.typing, press.key, now) == Progress::Completed,
    ensures
        new.typing.user_input@.len() == new.typing.test_text@.len(),
{
    lemma_fixed_completion_lengths(
        old.typing,
        new.typing,
        press.key,
        now,
        old.corpus,
        Progress::Completed,
    );
}

} // verus!
