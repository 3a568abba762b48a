use portfolio_tui::state::{App, AppStatus, KeyCode, IDLE_REPLAY_MS, INTRO_STEP_MS, MENU_LENGTH};
use portfolio_tui::Background;

fn active_app() -> App {
    let mut app = App::default();
    app.on_key(KeyCode::Other);
    assert_eq!(app.status, AppStatus::List);
    app
}

#[test]
fn next_status_reaches_idle_and_stays() {
    let mut app = App::default();
    app.status = AppStatus::Introduction(0);
    let mut steps = 0;
    while app.status != AppStatus::IntroductionIdle {
        app.status = app.next_status();
        steps += 1;
        assert!(steps <= 7, "the introduction must reach its idle fixed point");
    }
    assert_eq!(steps, 7);
    assert_eq!(app.next_status(), AppStatus::IntroductionIdle);
    assert_eq!(app.next_status(), AppStatus::IntroductionIdle);
}

#[test]
fn next_status_walks_every_step() {
    let mut app = App::default();
    assert_eq!(app.next_status(), AppStatus::Introduction(0));
    for k in 0..6 {
        app.status = AppStatus::Introduction(k);
        assert_eq!(app.next_status(), AppStatus::Introduction(k + 1));
    }
    app.status = AppStatus::Introduction(6);
    assert_eq!(app.next_status(), AppStatus::IntroductionIdle);
    app.status = AppStatus::List;
    assert_eq!(app.next_status(), AppStatus::List);
}

#[test]
fn any_key_outside_list_skips_intro() {
    let keys = [
        KeyCode::Enter,
        KeyCode::Esc,
        KeyCode::Up,
        KeyCode::Down,
        KeyCode::Char('q'),
        KeyCode::Other,
    ];
    let stages = [
        AppStatus::IntroductionStart,
        AppStatus::Introduction(0),
        AppStatus::Introduction(3),
        AppStatus::Introduction(6),
        AppStatus::IntroductionIdle,
    ];
    for &status in &stages {
        for &key in &keys {
            let mut app = App::default();
            app.status = status;
            app.on_key(key);
            assert_eq!(app.status, AppStatus::List);
            assert!(app.intro_finalized);
        }
    }
}

#[test]
fn down_presses_clamp_at_last_entry() {
    let mut app = active_app();
    for _ in 0..3 {
        app.on_key(KeyCode::Down);
    }
    assert_eq!(app.selected, 3);
    let mut app = active_app();
    for _ in 0..10 {
        app.on_key(KeyCode::Down);
    }
    assert_eq!(app.selected, MENU_LENGTH - 1);
    app.on_key(KeyCode::Down);
    assert_eq!(app.selected, MENU_LENGTH - 1);
}

#[test]
fn up_presses_clamp_at_first_entry() {
    let mut app = active_app();
    app.on_key(KeyCode::Down);
    app.on_key(KeyCode::Up);
    assert_eq!(app.selected, 0);
    app.on_key(KeyCode::Up);
    assert_eq!(app.selected, 0);
}

#[test]
fn vi_keys_move_the_selection_too() {
    let mut app = active_app();
    app.on_key(KeyCode::Char('j'));
    app.on_key(KeyCode::Char('j'));
    assert_eq!(app.selected, 2);
    app.on_key(KeyCode::Char('k'));
    assert_eq!(app.selected, 1);
}

#[test]
fn selection_change_resets_scroll() {
    let mut app = active_app();
    app.on_key(KeyCode::Enter);
    app.on_key(KeyCode::Down);
    app.on_key(KeyCode::Down);
    assert_eq!(app.scroll, 2);
    app.on_key(KeyCode::Esc);
    assert_eq!(app.scroll, 2);
    app.on_key(KeyCode::Down);
    assert_eq!(app.selected, 1);
    assert_eq!(app.scroll, 0);
    assert_eq!(app.scrollbar_position, 0);
}

#[test]
fn scroll_floor_stays_at_zero() {
    let mut app = active_app();
    app.on_key(KeyCode::Enter);
    assert!(app.locked_in);
    assert_eq!(app.scroll, 0);
    app.on_key(KeyCode::Up);
    assert_eq!(app.scroll, 0);
    app.on_key(KeyCode::Char('k'));
    assert_eq!(app.scroll, 0);
}

#[test]
fn enter_escape_roundtrip_restores_state() {
    let mut app = active_app();
    app.on_key(KeyCode::Down);
    app.on_key(KeyCode::Down);
    app.on_key(KeyCode::Down);
    let before = app;
    app.on_key(KeyCode::Enter);
    assert!(app.locked_in);
    app.on_key(KeyCode::Esc);
    assert_eq!(app, before);
}

#[test]
fn enter_while_locked_and_escape_while_not_are_ignored() {
    let mut app = active_app();
    app.on_key(KeyCode::Esc);
    assert!(!app.locked_in);
    app.on_key(KeyCode::Enter);
    app.on_key(KeyCode::Enter);
    assert!(app.locked_in);
}

#[test]
fn intro_plays_out_then_idles_then_replays_tail() {
    let mut app = App::default();
    // Start -> Introduction(0..=6) -> IntroductionIdle: eight timed advances,
    // and one more tick at the fixed point marks the intro finalized.
    for _ in 0..8 {
        assert!(app.on_tick(INTRO_STEP_MS));
    }
    assert_eq!(app.status, AppStatus::IntroductionIdle);
    assert!(!app.intro_finalized);
    assert!(app.on_tick(INTRO_STEP_MS));
    assert_eq!(app.status, AppStatus::IntroductionIdle);
    assert!(app.intro_finalized);
    // idling two seconds replays the tail of the introduction
    assert!(app.on_tick(IDLE_REPLAY_MS));
    assert_eq!(app.status, AppStatus::Introduction(5));
    assert!(!app.intro_finalized);
}

#[test]
fn short_tick_advances_nothing() {
    let mut app = App::default();
    assert!(!app.on_tick(INTRO_STEP_MS - 1));
    assert_eq!(app.status, AppStatus::IntroductionStart);
    assert_eq!(app, App::default());
}

#[test]
fn finalized_ticks_rotate_the_background() {
    let mut app = active_app();
    assert_eq!(app.background, Background::First);
    assert!(app.on_tick(INTRO_STEP_MS));
    assert_eq!(app.background, Background::Second);
    assert!(!app.on_tick(INTRO_STEP_MS - 1));
    assert_eq!(app.background, Background::Second);
    assert!(app.on_tick(INTRO_STEP_MS + 100));
    assert_eq!(app.background, Background::Third);
    assert!(app.on_tick(INTRO_STEP_MS));
    assert_eq!(app.background, Background::First);
}

#[test]
fn idle_background_keeps_rotating_until_replay() {
    let mut app = App::default();
    for _ in 0..9 {
        app.on_tick(INTRO_STEP_MS);
    }
    assert!(app.intro_finalized);
    assert_eq!(app.status, AppStatus::IntroductionIdle);
    // a tick between the two thresholds rotates the background only
    assert!(app.on_tick(IDLE_REPLAY_MS - 1));
    assert_eq!(app.status, AppStatus::IntroductionIdle);
    assert_eq!(app.background, Background::Second);
}

#[test]
fn title_sequence_advances_on_the_right_letters() {
    let mut app = active_app();
    for (i, c) in ['t', 'a', 'r', 'b', 'e', 't', 'u'].into_iter().enumerate() {
        assert_eq!(app.title_step, i);
        app.on_key(KeyCode::Char(c));
    }
    assert_eq!(app.title_step, 7);
    app.on_key(KeyCode::Char('t'));
    assert_eq!(app.title_step, 7);
}

#[test]
fn title_sequence_waits_for_the_right_letter() {
    let mut app = active_app();
    app.on_key(KeyCode::Char('a'));
    assert_eq!(app.title_step, 0);
    app.on_key(KeyCode::Char('t'));
    assert_eq!(app.title_step, 1);
    app.on_key(KeyCode::Char('t'));
    assert_eq!(app.title_step, 1);
    app.on_key(KeyCode::Char('a'));
    assert_eq!(app.title_step, 2);
}

#[test]
fn navigation_scenario_end_to_end() {
    let mut app = active_app();
    for _ in 0..3 {
        app.on_key(KeyCode::Down);
    }
    assert_eq!(app.selected, 3);
    app.on_key(KeyCode::Enter);
    assert!(app.locked_in);
    for _ in 0..3 {
        app.on_key(KeyCode::Down);
    }
    assert_eq!(app.selected, 3);
    assert_eq!(app.scroll, 3);
    assert_eq!(app.scrollbar_position, 3);
    app.on_key(KeyCode::Esc);
    assert!(!app.locked_in);
    assert_eq!(app.selected, 3);
    assert_eq!(app.scroll, 3);
    app.on_key(KeyCode::Down);
    assert_eq!(app.selected, 4);
    assert_eq!(app.scroll, 0);
}

#[test]
fn default_state() {
    let app = App::default();
    assert_eq!(app.status, AppStatus::IntroductionStart);
    assert!(!app.intro_finalized);
    assert_eq!(app.selected, 0);
    assert!(!app.locked_in);
    assert_eq!(app.scroll, 0);
    assert_eq!(app.scrollbar_position, 0);
    assert_eq!(app.scrollbar_content_length, 0);
    assert_eq!(app.background, Background::First);
    assert_eq!(app.title_step, 0);
    assert_eq!(App::menu_length(), 7);
    assert_eq!(AppStatus::max_introduction(), 6);
}
