use rs_pwsafe::pwserrors::PwSafeError;
use tui_pwsafe::contracts::TuiPwSafeErrors;
use tui_pwsafe::keys::{KeyCode, KeyEvent, KeyModifiers, ALT, CONTROL, SHIFT};
use tui_pwsafe::layout::Rect;
use tui_pwsafe::password_input::{panes, prompt_shares, PasswordWidget};

fn type_text(widget: &mut PasswordWidget, text: &str) {
    for c in text.chars() {
        widget.capture_key(KeyEvent::plain(KeyCode::Char(c)));
    }
}

#[test]
fn fresh_prompt_is_empty_and_open() {
    let widget = PasswordWidget::new();
    assert_eq!(widget.displayed_text(), "");
    assert_eq!(widget.help_text(), "Left-Ctrl to unhide");
    assert!(!widget.is_done());
    assert_eq!(widget.unlock_request(), None);
}

#[test]
fn typed_passphrase_is_masked() {
    let mut widget = PasswordWidget::new();
    type_text(&mut widget, "abc");
    assert_eq!(widget.displayed_text(), "***");
}

#[test]
fn control_reveals_and_the_next_plain_key_masks_again() {
    let mut widget = PasswordWidget::new();
    type_text(&mut widget, "abc");
    widget.capture_key(KeyEvent::ctrl(KeyCode::Other));
    assert_eq!(widget.displayed_text(), "abc");
    widget.capture_key(KeyEvent::plain(KeyCode::Other));
    assert_eq!(widget.displayed_text(), "***");
}

#[test]
fn control_with_other_modifiers_reveals_too() {
    let mut widget = PasswordWidget::new();
    type_text(&mut widget, "abc");
    widget.capture_key(KeyEvent::new(KeyCode::Other, KeyModifiers { bits: CONTROL | SHIFT }));
    assert_eq!(widget.displayed_text(), "abc");
    widget.capture_key(KeyEvent::new(KeyCode::Other, KeyModifiers { bits: SHIFT | ALT }));
    assert_eq!(widget.displayed_text(), "***");
}

#[test]
fn character_typed_with_control_is_appended_and_shown() {
    let mut widget = PasswordWidget::new();
    type_text(&mut widget, "ab");
    widget.capture_key(KeyEvent::ctrl(KeyCode::Char('c')));
    assert_eq!(widget.displayed_text(), "abc");
}

#[test]
fn backspace_removes_the_last_character() {
    let mut widget = PasswordWidget::new();
    type_text(&mut widget, "abc");
    widget.capture_key(KeyEvent::plain(KeyCode::Backspace));
    assert_eq!(widget.displayed_text(), "**");
    widget.capture_key(KeyEvent::ctrl(KeyCode::Other));
    assert_eq!(widget.displayed_text(), "ab");
}

#[test]
fn backspace_on_empty_buffer_does_nothing() {
    let mut widget = PasswordWidget::new();
    widget.capture_key(KeyEvent::plain(KeyCode::Backspace));
    assert_eq!(widget.displayed_text(), "");
    type_text(&mut widget, "x");
    widget.capture_key(KeyEvent::ctrl(KeyCode::Other));
    assert_eq!(widget.displayed_text(), "x");
}

#[test]
fn plain_enter_masks_a_revealed_passphrase() {
    let mut widget = PasswordWidget::new();
    type_text(&mut widget, "abc");
    widget.capture_key(KeyEvent::ctrl(KeyCode::Other));
    widget.capture_key(KeyEvent::plain(KeyCode::Enter));
    assert_eq!(widget.displayed_text(), "***");
}

#[test]
fn enter_submits_without_completing() {
    let mut widget = PasswordWidget::new();
    type_text(&mut widget, "secret");
    assert_eq!(widget.unlock_request(), None);
    widget.capture_key(KeyEvent::plain(KeyCode::Enter));
    assert_eq!(widget.unlock_request(), Some("secret".to_string()));
    assert!(!widget.is_done());
}

#[test]
fn outcome_without_submission_changes_nothing() {
    let mut widget = PasswordWidget::new();
    type_text(&mut widget, "secret");
    widget.update_model(Ok(()));
    assert!(!widget.is_done());
    widget.update_model(Err(TuiPwSafeErrors::StoreFileNotRead));
    assert_eq!(widget.help_text(), "Left-Ctrl to unhide");
}

#[test]
fn successful_unlock_completes_the_prompt() {
    let mut widget = PasswordWidget::new();
    type_text(&mut widget, "secret");
    widget.capture_key(KeyEvent::plain(KeyCode::Enter));
    widget.update_model(Ok(()));
    assert!(widget.is_done());
}

#[test]
fn failed_unlock_shows_the_failure_and_allows_retry() {
    let mut widget = PasswordWidget::new();
    type_text(&mut widget, "wrong");
    widget.capture_key(KeyEvent::plain(KeyCode::Enter));
    widget.update_model(Err(TuiPwSafeErrors::StoreFileNotRead));
    assert!(!widget.is_done());
    assert_eq!(widget.help_text(), "Error in unlock pwsafe: Store file is not read");
    widget.capture_key(KeyEvent::plain(KeyCode::Backspace));
    assert_eq!(widget.unlock_request(), Some("wron".to_string()));
    widget.update_model(Ok(()));
    assert!(widget.is_done());
}

#[test]
fn unknown_failure_is_shown_by_name() {
    let mut widget = PasswordWidget::new();
    widget.capture_key(KeyEvent::plain(KeyCode::Enter));
    widget.update_model(Err(TuiPwSafeErrors::from(PwSafeError::InvalidSignature)));
    assert_eq!(
        widget.help_text(),
        "Error in unlock pwsafe: Unexpected Error InvalidSignature"
    );
}

#[test]
fn frame_puts_the_cursor_behind_the_masked_text() {
    let mut widget = PasswordWidget::new();
    type_text(&mut widget, "abc");
    let input = Rect { x: 10, y: 5, width: 40, height: 3 };
    let help = Rect { x: 10, y: 8, width: 40, height: 2 };
    let frame = widget.frame_in(input, help).unwrap();
    assert_eq!(frame.input_text, "***");
    assert_eq!(frame.help_text, "Left-Ctrl to unhide");
    assert_eq!(frame.cursor, (14, 6));
    assert_eq!(frame.input_area, input);
    assert_eq!(frame.help_area, help);
}

#[test]
fn frame_counts_the_columns_of_wide_characters() {
    let mut widget = PasswordWidget::new();
    type_text(&mut widget, "日本");
    let input = Rect { x: 0, y: 0, width: 40, height: 3 };
    let help = Rect { x: 0, y: 3, width: 40, height: 2 };
    let masked = widget.frame_in(input, help).unwrap();
    assert_eq!(masked.input_text, "**");
    assert_eq!(masked.cursor, (3, 1));
    widget.capture_key(KeyEvent::ctrl(KeyCode::Other));
    let shown = widget.frame_in(input, help).unwrap();
    assert_eq!(shown.input_text, "日本");
    assert_eq!(shown.cursor, (5, 1));
}

#[test]
fn frame_is_missing_where_the_cursor_has_no_cell() {
    let mut widget = PasswordWidget::new();
    type_text(&mut widget, "abc");
    let help = Rect { x: 0, y: 0, width: 1, height: 1 };
    let far_right = Rect { x: 65532, y: 0, width: 3, height: 1 };
    assert!(widget.frame_in(far_right, help).is_none());
    let just_fits = Rect { x: 65531, y: 0, width: 3, height: 1 };
    assert_eq!(widget.frame_in(just_fits, help).unwrap().cursor, (65535, 1));
    let bottom = Rect { x: 0, y: 65535, width: 3, height: 0 };
    assert!(widget.frame_in(bottom, help).is_none());
}

#[test]
fn draw_centres_the_prompt() {
    let mut widget = PasswordWidget::new();
    type_text(&mut widget, "abc");
    let frame = widget.draw(Rect { x: 0, y: 0, width: 100, height: 50 }).unwrap();
    assert_eq!(frame.input_area, Rect { x: 20, y: 15, width: 60, height: 14 });
    assert_eq!(frame.help_area, Rect { x: 20, y: 29, width: 60, height: 6 });
    assert_eq!(frame.input_text, "***");
    assert_eq!(frame.cursor, (24, 16));
}

#[test]
fn draw_gives_nothing_for_an_area_beyond_the_coordinates() {
    let widget = PasswordWidget::new();
    assert!(widget.draw(Rect { x: 65000, y: 0, width: 1000, height: 10 }).is_none());
    assert!(widget.draw(Rect { x: 0, y: 0, width: 10, height: 3000 }).is_none());
}

#[test]
fn prompt_panes_split_seventy_to_thirty() {
    let (input, help) = panes(Rect { x: 2, y: 10, width: 30, height: 20 }).unwrap();
    assert_eq!(input, Rect { x: 2, y: 10, width: 30, height: 14 });
    assert_eq!(help, Rect { x: 2, y: 24, width: 30, height: 6 });
    assert!(panes(Rect { x: 0, y: 0, width: 10, height: 937 }).is_none());
    assert!(panes(Rect { x: 0, y: 0, width: 10, height: 936 }).is_some());
}

#[test]
fn prompt_shares_are_seventy_thirty() {
    assert_eq!(prompt_shares(), vec![70, 30]);
    let (input, help) = panes(Rect { x: 0, y: 0, width: 5, height: 100 }).unwrap();
    assert_eq!((input.y, input.height), (0, 70));
    assert_eq!((help.y, help.height), (70, 30));
}

#[test]
fn prompt_frame_is_owed_while_the_screen_has_room() {
    let mut widget = PasswordWidget::new();
    type_text(&mut widget, "abc");
    for area in [
        Rect { x: 0, y: 0, width: 100, height: 50 },
        Rect { x: 0, y: 0, width: 1, height: 1 },
        Rect { x: 0, y: 0, width: 0, height: 0 },
        Rect { x: 9, y: 9, width: 1092, height: 936 },
        Rect { x: 65000, y: 65000, width: 531, height: 534 },
    ] {
        let frame = widget.draw(area).unwrap();
        for pane in [frame.input_area, frame.help_area] {
            assert!(pane.x >= area.x && pane.y >= area.y);
            assert!(pane.x as u32 + pane.width as u32 <= area.x as u32 + area.width as u32);
            assert!(pane.y as u32 + pane.height as u32 <= area.y as u32 + area.height as u32);
        }
        assert_eq!(frame.cursor, (frame.input_area.x + 4, frame.input_area.y + 1));
    }
}
