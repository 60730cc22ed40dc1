use rs_pwsafe::pwserrors::PwSafeError;
use tui_pwsafe::contracts::TuiPwSafeErrors;
use tui_pwsafe::keys::{InputEvent, KeyCode, KeyEvent, KeyModifiers, SHIFT};
use tui_pwsafe::layout::Rect;
use tui_pwsafe::model::{Entry, SafeModel};
use tui_pwsafe::view_models::{
    next_view, poll_timeout, tick_due, App, Frame, Scheduler, SyncAction, ViewState, Widget,
    TICK_RATE_MS,
};

fn entry(group: &str, title: &str, pw: &str) -> Entry {
    Entry {
        group: Some(group.to_string()),
        title: Some(title.to_string()),
        username: None,
        password: Some(pw.to_string()),
    }
}

fn model() -> SafeModel {
    SafeModel::with_records(vec![entry("Work", "Wiki", "w"), entry("Home", "Bank", "b")])
}

fn press(app: &mut App, code: KeyCode) {
    app.handle_event(InputEvent::Key(KeyEvent::plain(code)));
}

fn screen() -> Rect {
    Rect { x: 0, y: 0, width: 100, height: 50 }
}

/// A controller whose prompt has just been completed.
fn unlocked_app() -> App {
    let mut app = App::new();
    app.begin_frame(&SafeModel::new());
    press(&mut app, KeyCode::Char('s'));
    press(&mut app, KeyCode::Enter);
    assert_eq!(app.update_model(&SafeModel::new()), SyncAction::Unlock("s".to_string()));
    app.unlock_finished(Ok(()));
    app
}

#[test]
fn next_view_follows_the_table() {
    assert_eq!(next_view(&ViewState::PasswordDialog), ViewState::ListStoreContent);
    assert_eq!(next_view(&ViewState::ListStoreContent), ViewState::CurrentView);
    assert_eq!(next_view(&ViewState::CurrentView), ViewState::CurrentView);
}

#[test]
fn controller_starts_with_the_prompt() {
    let app = App::new();
    assert_eq!(app.current_view(), ViewState::PasswordDialog);
    assert!(!app.should_quit());
    assert!(matches!(app.active(), Widget::Password(_)));
}

#[test]
fn first_frame_shows_a_fresh_prompt() {
    let mut app = App::new();
    press(&mut app, KeyCode::Char('x'));
    let frame = app.draw(&SafeModel::new(), screen()).unwrap();
    match frame {
        Frame::Password(f) => assert_eq!(f.input_text, ""),
        Frame::Browser(_) => panic!("the prompt was expected"),
    }
    press(&mut app, KeyCode::Char('y'));
    match app.draw(&SafeModel::new(), screen()).unwrap() {
        Frame::Password(f) => assert_eq!(f.input_text, "*"),
        Frame::Browser(_) => panic!("the prompt was expected"),
    }
}

#[test]
fn completed_prompt_is_replaced_by_the_browser_in_the_same_frame() {
    let mut app = unlocked_app();
    assert_eq!(app.current_view(), ViewState::PasswordDialog);
    let frame = app.draw(&model(), screen()).unwrap();
    match frame {
        Frame::Browser(f) => {
            assert_eq!(f.groups, vec!["Home".to_string(), "Work".to_string()]);
            assert_eq!(f.entries, vec!["Bank".to_string()]);
        },
        Frame::Password(_) => panic!("the browser was expected"),
    }
    assert_eq!(app.current_view(), ViewState::ListStoreContent);
    assert!(matches!(app.active(), Widget::Browser(_)));
}

#[test]
fn browser_is_never_replaced() {
    let mut app = unlocked_app();
    let m = model();
    app.begin_frame(&m);
    press(&mut app, KeyCode::Down);
    press(&mut app, KeyCode::Enter);
    for _ in 0..3 {
        app.update_model(&m);
        app.begin_frame(&m);
        assert_eq!(app.current_view(), ViewState::ListStoreContent);
    }
    match app.active() {
        Widget::Browser(browser) => {
            assert_eq!(browser.groups().selected(), Some(0));
            assert_eq!(browser.active_group_name(), "Home");
        },
        Widget::Password(_) => panic!("the browser was expected"),
    }
}

#[test]
fn failed_unlock_keeps_the_prompt() {
    let mut app = App::new();
    app.begin_frame(&SafeModel::new());
    press(&mut app, KeyCode::Char('s'));
    press(&mut app, KeyCode::Enter);
    app.unlock_finished(Err(TuiPwSafeErrors::from(PwSafeError::InvalidKey)));
    match app.draw(&SafeModel::new(), screen()).unwrap() {
        Frame::Password(f) => {
            assert_eq!(f.input_text, "*");
            assert_eq!(f.help_text, "Error in unlock pwsafe: Store file is not read");
        },
        Frame::Browser(_) => panic!("the prompt was expected"),
    }
    assert_eq!(app.update_model(&SafeModel::new()), SyncAction::Unlock("s".to_string()));
}

#[test]
fn prompt_asks_for_nothing_before_enter() {
    let mut app = App::new();
    app.begin_frame(&SafeModel::new());
    press(&mut app, KeyCode::Char('s'));
    assert_eq!(app.update_model(&SafeModel::new()), SyncAction::Idle);
}

#[test]
fn plain_escape_quits_and_does_not_reach_the_view() {
    let mut app = App::new();
    app.begin_frame(&SafeModel::new());
    press(&mut app, KeyCode::Char('a'));
    app.handle_event(InputEvent::Key(KeyEvent::ctrl(KeyCode::Other)));
    press(&mut app, KeyCode::Esc);
    assert!(app.should_quit());
    match app.active() {
        Widget::Password(prompt) => assert_eq!(prompt.displayed_text(), "a"),
        Widget::Browser(_) => panic!("the prompt was expected"),
    }
}

#[test]
fn escape_with_a_modifier_goes_to_the_view() {
    let mut app = App::new();
    app.begin_frame(&SafeModel::new());
    press(&mut app, KeyCode::Char('a'));
    app.handle_event(InputEvent::Key(KeyEvent::ctrl(KeyCode::Other)));
    app.handle_event(InputEvent::Key(KeyEvent::new(KeyCode::Esc, KeyModifiers { bits: SHIFT })));
    assert!(!app.should_quit());
    match app.active() {
        Widget::Password(prompt) => assert_eq!(prompt.displayed_text(), "*"),
        Widget::Browser(_) => panic!("the prompt was expected"),
    }
}

#[test]
fn pointer_and_other_events_change_nothing() {
    let mut app = App::new();
    app.begin_frame(&SafeModel::new());
    press(&mut app, KeyCode::Char('a'));
    app.handle_event(InputEvent::Key(KeyEvent::ctrl(KeyCode::Other)));
    app.handle_event(InputEvent::Pointer);
    app.handle_event(InputEvent::Other);
    assert!(!app.should_quit());
    match app.active() {
        Widget::Password(prompt) => assert_eq!(prompt.displayed_text(), "a"),
        Widget::Browser(_) => panic!("the prompt was expected"),
    }
}

#[test]
fn browser_hands_a_staged_value_to_the_loop_once() {
    let mut app = unlocked_app();
    let m = model();
    app.begin_frame(&m);
    press(&mut app, KeyCode::Down);
    assert_eq!(app.update_model(&m), SyncAction::Idle);
    press(&mut app, KeyCode::Tab);
    press(&mut app, KeyCode::Down);
    assert_eq!(app.update_model(&m), SyncAction::Idle);
    app.handle_event(InputEvent::Key(KeyEvent::ctrl(KeyCode::Char('p'))));
    assert_eq!(app.update_model(&m), SyncAction::Copy("b".to_string()));
    assert_eq!(app.update_model(&m), SyncAction::Idle);
    app.unlock_finished(Ok(()));
    app.copy_failed();
    match app.active() {
        Widget::Browser(browser) => assert_eq!(browser.status(), "Can't copy to clipboard"),
        Widget::Password(_) => panic!("the browser was expected"),
    }
}

#[test]
fn copy_failure_does_not_touch_the_prompt() {
    let mut app = App::new();
    app.copy_failed();
    match app.active() {
        Widget::Password(prompt) => assert_eq!(prompt.help_text(), "Left-Ctrl to unhide"),
        Widget::Browser(_) => panic!("the prompt was expected"),
    }
}

#[test]
fn poll_timeout_is_what_is_left_of_the_tick() {
    assert_eq!(TICK_RATE_MS, 17);
    assert_eq!(poll_timeout(17, 0), 17);
    assert_eq!(poll_timeout(17, 5), 12);
    assert_eq!(poll_timeout(17, 16), 1);
    assert_eq!(poll_timeout(17, 17), 0);
    assert_eq!(poll_timeout(17, 18), 0);
    assert_eq!(poll_timeout(17, u64::MAX), 0);
    assert_eq!(poll_timeout(u64::MAX, 0), u64::MAX);
    assert_eq!(poll_timeout(0, 0), 0);
}

#[test]
fn tick_is_due_once_the_tick_rate_has_passed() {
    assert!(!tick_due(17, 0));
    assert!(!tick_due(17, 16));
    assert!(tick_due(17, 17));
    assert!(tick_due(17, 40));
    assert!(tick_due(0, 0));
}

#[test]
fn slow_frame_polls_without_waiting_and_syncs_once() {
    let mut clock = Scheduler::new(17, 1000);
    assert_eq!(clock.poll_timeout(1040), 0);
    assert!(clock.due(1040));
    clock.restart(1040);
    assert!(!clock.due(1040));
    assert!(!clock.due(1056));
    assert_eq!(clock.poll_timeout(1050), 7);
    assert!(clock.due(1057));
}

#[test]
fn clock_that_runs_backwards_counts_no_time() {
    let clock = Scheduler::new(17, 1000);
    assert_eq!(clock.elapsed(990), 0);
    assert_eq!(clock.poll_timeout(990), 17);
    assert!(!clock.due(990));
    assert_eq!(clock.elapsed(1005), 5);
}

#[test]
fn browser_frame_is_owed_in_the_frame_that_builds_it() {
    for area in [
        Rect { x: 0, y: 0, width: 100, height: 50 },
        Rect { x: 0, y: 0, width: 1092, height: 3000 },
        Rect { x: 3, y: 7, width: 1, height: 1 },
        Rect { x: 0, y: 0, width: 0, height: 0 },
    ] {
        let mut app = unlocked_app();
        let frame = app.draw(&model(), area);
        assert!(matches!(frame, Some(Frame::Browser(_))));
        assert_eq!(app.current_view(), ViewState::ListStoreContent);
    }
}

#[test]
fn no_frame_where_the_screen_cannot_be_divided() {
    let mut app = unlocked_app();
    assert!(app.draw(&model(), Rect { x: 0, y: 0, width: 1093, height: 10 }).is_none());
    assert_eq!(app.current_view(), ViewState::ListStoreContent);
    assert!(app.draw(&model(), Rect { x: 65535, y: 0, width: 1, height: 10 }).is_none());
    let mut fresh = App::new();
    assert!(fresh.draw(&SafeModel::new(), Rect { x: 0, y: 0, width: 10, height: 2185 }).is_none());
    assert!(fresh.draw(&SafeModel::new(), Rect { x: 0, y: 65530, width: 10, height: 10 }).is_none());
    assert_eq!(fresh.current_view(), ViewState::PasswordDialog);
}
