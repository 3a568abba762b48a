//! The application state machine: intro phases, timers, and menu navigation.

use crate::color::Background;
use vstd::prelude::*;

verus! {

/// Number of the last introduction step; the steps run `0 ..= MAX_INTRODUCTION`.
pub const MAX_INTRODUCTION: usize = 6;

/// Number of entries in the menu.
pub const MENU_LENGTH: usize = 7;

/// Number of the last title step of the decorative title sequence.
pub const MAX_TITLE_STEP: usize = 7;

/// Milliseconds an intro step (and one background rotation step) lasts.
pub const INTRO_STEP_MS: u64 = 500;

/// Milliseconds of idling after the intro before it replays its tail.
pub const IDLE_REPLAY_MS: u64 = 2000;

/// The stage of the introduction/navigation state machine.
#[derive(Debug, Default, Copy, Clone, PartialEq, Eq, Structural)]
pub enum AppStatus {
    /// Initial state, before the first animation step.
    #[default]
    IntroductionStart,
    /// One of the animated introduction steps, `0 ..= MAX_INTRODUCTION`.
    Introduction(usize),
    /// The introduction has played out and waits for a key press.
    IntroductionIdle,
    /// The interactive menu and content browser.
    List,
}

/// A key press, as the state machine distinguishes them. Keys the machine
/// ignores arrive as `Other`.
#[derive(Debug, Copy, Clone, PartialEq, Eq, Structural)]
pub enum KeyCode {
    Enter,
    Esc,
    Up,
    Down,
    Char(char),
    Other,
}

impl AppStatus {
    /// Number of the last introduction step.
    pub fn max_introduction() -> (r: usize)
        ensures
            r == MAX_INTRODUCTION,
    {
        MAX_INTRODUCTION
    }
}

/// Where `status` goes on the next timed step: forward through the
/// introduction up to the idle fixed point; the list stays put.
pub open spec fn next_status_spec(status: AppStatus) -> AppStatus {
    match status {
        AppStatus::IntroductionStart => AppStatus::Introduction(0),
        AppStatus::Introduction(number) => if number < MAX_INTRODUCTION {
            AppStatus::Introduction((number + 1) as usize)
        } else {
            AppStatus::IntroductionIdle
        },
        _ => status,
    }
}

/// `next_status_spec` applied `n` times.
pub open spec fn iter_next_status(status: AppStatus, n: nat) -> AppStatus
    decreases n,
{
    if n == 0 {
        status
    } else {
        iter_next_status(next_status_spec(status), (n - 1) as nat)
    }
}

/// Law: the idle phase is a fixed point of the timed advance: however often
/// it is applied there, the machine stays idle.
pub proof fn lemma_idle_fixed_point(n: nat)
    ensures
        iter_next_status(AppStatus::IntroductionIdle, n) == AppStatus::IntroductionIdle,
    decreases n,
{
    if n > 0 {
        lemma_idle_fixed_point((n - 1) as nat);
    }
}

/// Law: from any introduction step `k`, the timed advance reaches the idle
/// phase, namely after `MAX_INTRODUCTION - k + 1` of its steps.
pub proof fn lemma_intro_reaches_idle(k: nat)
    requires
        k <= MAX_INTRODUCTION,
    ensures
        iter_next_status(
            AppStatus::Introduction(k as usize),
            (MAX_INTRODUCTION - k + 1) as nat,
        ) == AppStatus::IntroductionIdle,
    decreases MAX_INTRODUCTION - k,
{
    if k == MAX_INTRODUCTION {
        assert(iter_next_status(AppStatus::Introduction(k as usize), 1)
            == iter_next_status(AppStatus::IntroductionIdle, 0));
    } else {
        lemma_intro_reaches_idle(k + 1);
        assert(iter_next_status(
            AppStatus::Introduction(k as usize),
            (MAX_INTRODUCTION - k + 1) as nat,
        ) == iter_next_status(
            AppStatus::Introduction((k + 1) as usize),
            (MAX_INTRODUCTION - (k + 1) + 1) as nat,
        ));
    }
}

/// Law: from the start phase, the timed advance reaches the idle phase after
/// `MAX_INTRODUCTION + 2` steps and rests there.
pub proof fn lemma_start_reaches_idle()
    ensures
        iter_next_status(AppStatus::IntroductionStart, (MAX_INTRODUCTION + 2) as nat)
            == AppStatus::IntroductionIdle,
{
    lemma_intro_reaches_idle(0);
    assert(iter_next_status(AppStatus::IntroductionStart, (MAX_INTRODUCTION + 2) as nat)
        == iter_next_status(AppStatus::Introduction(0), (MAX_INTRODUCTION + 1) as nat));
}

/// The whole application state.
#[derive(Debug, Copy, Clone, PartialEq, Eq, Structural)]
pub struct App {
    /// How far the decorative title sequence has advanced, `0 ..= MAX_TITLE_STEP`.
    pub title_step: usize,
    /// Current stage of the state machine.
    pub status: AppStatus,
    /// Set once the introduction has played out (or was skipped); while set,
    /// timed ticks rotate the background instead of advancing the intro.
    pub intro_finalized: bool,
    /// Index of the selected menu entry, always below `MENU_LENGTH`.
    pub selected: usize,
    /// While set, vertical keys scroll the content panel instead of moving
    /// the selection.
    pub locked_in: bool,
    /// How many lines the content panel is scrolled down.
    pub scroll: u16,
    /// Thumb position of the content scrollbar; kept equal to `scroll`.
    pub scrollbar_position: usize,
    /// Track length of the content scrollbar: the number of content lines.
    pub scrollbar_content_length: usize,
    /// Current phase of the rotating background mosaic.
    pub background: Background,
}

/// One navigation step of the list view. The selection clamps at both ends
/// of the menu rather than wrapping, and moving it resets the scroll offset;
/// while locked in, the vertical keys move the scroll offset instead, with a
/// floor at zero. Whatever the key did, the scrollbar thumb is synchronized
/// to the scroll offset afterwards.
pub open spec fn nav_step(app: App, key: KeyCode) -> App {
    let stepped = if key == KeyCode::Enter && !app.locked_in {
        App { locked_in: true, ..app }
    } else if key == KeyCode::Esc && app.locked_in {
        App { locked_in: false, ..app }
    } else if key == KeyCode::Char('t') && app.title_step == 0 {
        App { title_step: 1, ..app }
    } else if key == KeyCode::Char('a') && app.title_step == 1 {
        App { title_step: 2, ..app }
    } else if key == KeyCode::Char('r') && app.title_step == 2 {
        App { title_step: 3, ..app }
    } else if key == KeyCode::Char('b') && app.title_step == 3 {
        App { title_step: 4, ..app }
    } else if key == KeyCode::Char('e') && app.title_step == 4 {
        App { title_step: 5, ..app }
    } else if key == KeyCode::Char('t') && app.title_step == 5 {
        App { title_step: 6, ..app }
    } else if key == KeyCode::Char('u') && app.title_step == 6 {
        App { title_step: 7, ..app }
    } else if key == KeyCode::Up || key == KeyCode::Char('k') {
        if app.locked_in {
            App { scroll: if app.scroll == 0 { 0u16 } else { (app.scroll - 1) as u16 }, ..app }
        } else {
            App {
                scroll: 0,
                selected: if app.selected == 0 { 0usize } else { (app.selected - 1) as usize },
                ..app
            }
        }
    } else if key == KeyCode::Down || key == KeyCode::Char('j') {
        if app.locked_in {
            App {
                scroll: if app.scroll == u16::MAX { u16::MAX } else { (app.scroll + 1) as u16 },
                ..app
            }
        } else {
            App {
                scroll: 0,
                selected: if app.selected < MENU_LENGTH - 1 {
                    (app.selected + 1) as usize
                } else {
                    (MENU_LENGTH - 1) as usize
                },
                ..app
            }
        }
    } else {
        app
    };
    App { scrollbar_position: stepped.scroll as usize, ..stepped }
}

/// One key press, at any stage: outside the list it skips the rest of the
/// introduction, inside the list it navigates.
pub open spec fn key_step(app: App, key: KeyCode) -> App {
    if app.status is List {
        nav_step(app, key)
    } else {
        App { intro_finalized: true, status: AppStatus::List, ..app }
    }
}

/// One timed redraw tick after `elapsed_ms` milliseconds without a timer
/// reset. At most one of the three timed rules fires: intro advance (and
/// fixed-point detection), idle replay of the intro tail, or background
/// rotation.
pub open spec fn tick_step(app: App, elapsed_ms: u64) -> App {
    if !app.intro_finalized && elapsed_ms >= INTRO_STEP_MS {
        let next = next_status_spec(app.status);
        App { status: next, intro_finalized: next == app.status, ..app }
    } else if app.intro_finalized && app.status is IntroductionIdle && elapsed_ms >= IDLE_REPLAY_MS {
        App {
            status: AppStatus::Introduction((MAX_INTRODUCTION - 1) as usize),
            intro_finalized: false,
            ..app
        }
    } else if app.intro_finalized && elapsed_ms >= INTRO_STEP_MS {
        App { background: app.background.next_spec(), ..app }
    } else {
        app
    }
}

/// `nav_step` applied `n` times with the same key.
pub open spec fn iter_nav_step(app: App, key: KeyCode, n: nat) -> App
    decreases n,
{
    if n == 0 {
        app
    } else {
        iter_nav_step(nav_step(app, key), key, (n - 1) as nat)
    }
}

impl App {
    /// Structural invariant: every index stays inside its range and the
    /// scrollbar thumb mirrors the scroll offset.
    pub open spec fn wf(self) -> bool {
        &&& (self.status matches AppStatus::Introduction(k) ==> k <= MAX_INTRODUCTION)
        &&& self.selected < MENU_LENGTH
        &&& self.title_step <= MAX_TITLE_STEP
        &&& self.scrollbar_position == self.scroll as usize
    }

    /// Number of entries in the menu.
    pub fn menu_length() -> (r: usize)
        ensures
            r == MENU_LENGTH,
    {
        MENU_LENGTH
    }

    /// Where `self.status` goes on the next timed step.
    pub fn next_status(&self) -> (r: AppStatus)
        ensures
            r == next_status_spec(self.status),
    {
        match self.status {
            AppStatus::IntroductionStart => AppStatus::Introduction(0),
            AppStatus::Introduction(number) => if number < MAX_INTRODUCTION {
                AppStatus::Introduction(number + 1)
            } else {
                AppStatus::IntroductionIdle
            },
            _ => self.status,
        }
    }

    /// Handle a key press while the list view is active. See [`nav_step`]
    /// for the policy. In particular: the selection clamps at both menu
    /// ends, moving it resets the scroll offset, and the scroll offset never
    /// falls below zero.
    pub fn handle_event(&mut self, key: KeyCode)
        ensures
            *final(self) == nav_step(*old(self), key),
            old(self).wf() ==> final(self).wf(),
            final(self).selected != old(self).selected ==> final(self).scroll == 0,
            (key == KeyCode::Up || key == KeyCode::Char('k')) && old(self).locked_in
                && old(self).scroll == 0 ==> final(self).scroll == 0,
    {
        match key {
            KeyCode::Enter if !self.locked_in => {
                self.locked_in = true;
            },
            KeyCode::Esc if self.locked_in => {
                self.locked_in = false;
            },
            KeyCode::Char(c) if c == 't' && self.title_step == 0 => {
                self.title_step = 1;
            },
            KeyCode::Char(c) if c == 'a' && self.title_step == 1 => {
                self.title_step = 2;
            },
            KeyCode::Char(c) if c == 'r' && self.title_step == 2 => {
                self.title_step = 3;
            },
            KeyCode::Char(c) if c == 'b' && self.title_step == 3 => {
                self.title_step = 4;
            },
            KeyCode::Char(c) if c == 'e' && self.title_step == 4 => {
                self.title_step = 5;
            },
            KeyCode::Char(c) if c == 't' && self.title_step == 5 => {
                self.title_step = 6;
            },
            KeyCode::Char(c) if c == 'u' && self.title_step == 6 => {
                self.title_step = 7;
            },
            KeyCode::Up => {
                self.scroll_or_select_up();
            },
            KeyCode::Char(c) if c == 'k' => {
                self.scroll_or_select_up();
            },
            KeyCode::Down => {
                self.scroll_or_select_down();
            },
            KeyCode::Char(c) if c == 'j' => {
                self.scroll_or_select_down();
            },
            _ => {},
        }
        self.scrollbar_position = self.scroll as usize;
    }

    /// The upward half of a vertical key: scroll up with a floor at zero
    /// while locked in, else move the selection up (clamped) and reset the
    /// scroll offset.
    fn scroll_or_select_up(&mut self)
        ensures
            *final(self) == (if old(self).locked_in {
                App {
                    scroll: if old(self).scroll == 0 {
                        0u16
                    } else {
                        (old(self).scroll - 1) as u16
                    },
                    ..*old(self)
                }
            } else {
                App {
                    scroll: 0,
                    selected: if old(self).selected == 0 {
                        0usize
                    } else {
                        (old(self).selected - 1) as usize
                    },
                    ..*old(self)
                }
            }),
    {
        if self.locked_in {
            self.scroll = if self.scroll == 0 {
                0
            } else {
                self.scroll - 1
            };
        } else {
            self.scroll = 0;
            self.selected = if self.selected == 0 {
                0
            } else {
                self.selected - 1
            };
        }
    }

    /// The downward half of a vertical key: scroll down (saturating) while
    /// locked in, else move the selection down (clamped at the last menu
    /// entry) and reset the scroll offset.
    fn scroll_or_select_down(&mut self)
        ensures
            *final(self) == (if old(self).locked_in {
                App {
                    scroll: if old(self).scroll == u16::MAX {
                        u16::MAX
                    } else {
                        (old(self).scroll + 1) as u16
                    },
                    ..*old(self)
                }
            } else {
                App {
                    scroll: 0,
                    selected: if old(self).selected < MENU_LENGTH - 1 {
                        (old(self).selected + 1) as usize
                    } else {
                        (MENU_LENGTH - 1) as usize
                    },
                    ..*old(self)
                }
            }),
    {
        if self.locked_in {
            self.scroll = if self.scroll == u16::MAX {
                u16::MAX
            } else {
                self.scroll + 1
            };
        } else {
            self.scroll = 0;
            self.selected = if self.selected < MENU_LENGTH - 1 {
                self.selected + 1
            } else {
                MENU_LENGTH - 1
            };
        }
    }

    /// Handle a key press at any stage. Any key outside the list view skips
    /// the rest of the introduction: the state jumps straight to the list
    /// with the introduction marked finalized, whatever the key was.
    pub fn on_key(&mut self, key: KeyCode)
        ensures
            *final(self) == key_step(*old(self), key),
            old(self).wf() ==> final(self).wf(),
            !(old(self).status is List) ==> final(self).status is List
                && final(self).intro_finalized,
    {
        match self.status {
            AppStatus::List => self.handle_event(key),
            _ => {
                self.intro_finalized = true;
                self.status = AppStatus::List;
            },
        }
    }

    /// Handle a timed redraw tick, `elapsed_ms` milliseconds after the last
    /// timer reset. Returns whether the caller must reset its timer, which
    /// is the case exactly when `INTRO_STEP_MS` milliseconds have passed.
    pub fn on_tick(&mut self, elapsed_ms: u64) -> (reset: bool)
        ensures
            *final(self) == tick_step(*old(self), elapsed_ms),
            reset == (elapsed_ms >= INTRO_STEP_MS),
            old(self).wf() ==> final(self).wf(),
    {
        let mut elapsed = elapsed_ms;
        let mut reset = false;

        if !self.intro_finalized && elapsed >= INTRO_STEP_MS {
            let next = self.next_status();
            if next == self.status {
                self.intro_finalized = true;
            }
            self.status = next;
            elapsed = 0;
            reset = true;
        }

        if self.intro_finalized && self.status == AppStatus::IntroductionIdle && elapsed
            >= IDLE_REPLAY_MS {
            self.status = AppStatus::Introduction(MAX_INTRODUCTION - 1);
            self.intro_finalized = false;
            elapsed = 0;
            reset = true;
        }

        if self.intro_finalized && elapsed >= INTRO_STEP_MS {
            self.background = self.background.next();
            reset = true;
        }

        reset
    }
}

/// Law: from any list-mode state that is not locked in, `n` presses of the
/// down key land the selection on `min(selected + n, MENU_LENGTH - 1)` —
/// the selection clamps at the last entry instead of wrapping — and any
/// press leaves the scroll offset reset to zero; nothing else of the state
/// changes.
pub proof fn lemma_down_presses(app: App, n: nat)
    requires
        !app.locked_in,
        app.selected < MENU_LENGTH,
    ensures
        ({
            let r = iter_nav_step(app, KeyCode::Down, n);
            &&& r.selected == if app.selected + n < MENU_LENGTH {
                app.selected + n
            } else {
                (MENU_LENGTH - 1) as int
            }
            &&& n > 0 ==> r.scroll == 0 && r.scrollbar_position == 0
            &&& !r.locked_in
            &&& r.status == app.status
            &&& r.title_step == app.title_step
            &&& r.intro_finalized == app.intro_finalized
            &&& r.background == app.background
            &&& r.scrollbar_content_length == app.scrollbar_content_length
        }),
    decreases n,
{
    if n > 0 {
        lemma_down_presses(nav_step(app, KeyCode::Down), (n - 1) as nat);
    }
}

/// Law: entering the content panel with Enter and leaving it again with
/// Escape restores the exact prior list-mode state; in particular the
/// selection and the scroll offset are untouched.
pub proof fn lemma_lock_roundtrip(app: App)
    requires
        app.wf(),
        !app.locked_in,
    ensures
        nav_step(nav_step(app, KeyCode::Enter), KeyCode::Esc) == app,
{
}

impl Default for App {
    /// The state at startup: at the start of the introduction, first menu
    /// entry selected, nothing scrolled, background at its first phase.
    fn default() -> (r: Self)
        ensures
            r == (App {
                title_step: 0,
                status: AppStatus::IntroductionStart,
                intro_finalized: false,
                selected: 0,
                locked_in: false,
                scroll: 0,
                scrollbar_position: 0,
                scrollbar_content_length: 0,
                background: Background::First,
            }),
            r.wf(),
    {
        App {
            title_step: 0,
            status: AppStatus::IntroductionStart,
            intro_finalized: false,
            selected: 0,
            locked_in: false,
            scroll: 0,
            scrollbar_position: 0,
            scrollbar_content_length: 0,
            background: Background::First,
        }
    }
}

} // verus!
