use sndb_utils::{
    DisplayUpdate, InputEvent, InputMode, KeyCode, KeyEvent, KeyEventKind, Modifiers, ProgramInputHandler,
    Step, UiRequest,
};

fn press(code: KeyCode) -> InputEvent {
    InputEvent::Key(KeyEvent { code, modifiers: Modifiers::Plain, kind: KeyEventKind::Press })
}

fn type_text(h: &mut ProgramInputHandler, text: &str) {
    for c in text.chars() {
        let s = h.handle_input(press(KeyCode::Char(c)));
        assert!(!s.terminate);
    }
}

fn submit(h: &mut ProgramInputHandler, text: &str) -> Step {
    type_text(h, text);
    h.handle_input(press(KeyCode::Enter))
}

#[test]
fn three_submits_then_reset() {
    let mut h = ProgramInputHandler::new();
    submit(&mut h, "12345-1");
    submit(&mut h, "2");
    submit(&mut h, "3");
    assert_eq!(h.buffer_count(), 4);
    assert_eq!(h.current_index(), 3);

    h.handle_input(press(KeyCode::Char(':')));
    assert_eq!(h.mode(), InputMode::Command);
    assert_eq!(h.buffer_count(), 5);
    let s = submit(&mut h, "reset");
    assert!(!s.terminate);
    assert!(s.lookups.is_empty());
    assert!(s.ui.is_none());
    assert_eq!(h.buffer_count(), 3);
    assert_eq!(h.current_index(), 0);
    assert_eq!(h.mode(), InputMode::Prompt(false));
}

#[test]
fn submit_carries_previous_prefix() {
    let mut h = ProgramInputHandler::new();
    let s = submit(&mut h, "12345-1");
    assert_eq!(s.lookups, vec![String::from("12345-1")]);
    type_text(&mut h, "2");
    assert_eq!(h.prefix_hint(), "1234");
    let s = h.handle_input(press(KeyCode::Enter));
    assert_eq!(s.lookups, vec![String::from("12342")]);
    assert_eq!(h.buffer_count(), 3);
}

#[test]
fn submit_splits_on_whitespace() {
    let mut h = ProgramInputHandler::new();
    let s = submit(&mut h, " S00012  50-1234 ");
    assert_eq!(s.lookups, vec![String::from("S00012"), String::from("50-1234")]);
}

#[test]
fn blank_enter_terminates() {
    let mut h = ProgramInputHandler::new();
    submit(&mut h, "12345");
    let s = h.handle_input(press(KeyCode::Enter));
    assert!(s.terminate);
    assert!(s.lookups.is_empty());
}

#[test]
fn escape_at_top_level_terminates_and_closes_tips_otherwise() {
    let mut h = ProgramInputHandler::new();
    type_text(&mut h, "123");
    h.handle_input(press(KeyCode::Char('?')));
    assert_eq!(h.mode(), InputMode::Prompt(true));
    let s = h.handle_input(press(KeyCode::Esc));
    assert!(!s.terminate);
    assert_eq!(h.mode(), InputMode::Prompt(false));
    let s = h.handle_input(press(KeyCode::Esc));
    assert!(s.terminate);
}

#[test]
fn ctrl_c_release_terminates() {
    let mut h = ProgramInputHandler::new();
    submit(&mut h, "12345");
    type_text(&mut h, "9");
    let s = h.handle_input(InputEvent::Key(KeyEvent {
        code: KeyCode::Char('c'),
        modifiers: Modifiers::Control,
        kind: KeyEventKind::Release,
    }));
    assert!(s.terminate);
    assert!(s.lookups.is_empty());
}

#[test]
fn control_keys_other_than_ctrl_c_are_ignored() {
    let mut h = ProgramInputHandler::new();
    let s = h.handle_input(InputEvent::Key(KeyEvent {
        code: KeyCode::Char('x'),
        modifiers: Modifiers::Control,
        kind: KeyEventKind::Press,
    }));
    assert!(!s.terminate);
    assert!(h.buffer().is_empty());
    let s = h.handle_input(InputEvent::Key(KeyEvent {
        code: KeyCode::Char('X'),
        modifiers: Modifiers::Shift,
        kind: KeyEventKind::Press,
    }));
    assert!(!s.terminate);
    assert_eq!(h.buffer().text_string(), "X");
}

#[test]
fn command_clear_print_and_unknown() {
    let mut h = ProgramInputHandler::new();
    submit(&mut h, "12345");
    h.handle_input(press(KeyCode::Char(':')));
    let s = submit(&mut h, "C");
    assert!(matches!(s.ui, Some(UiRequest::ClearTable)));
    assert_eq!(h.mode(), InputMode::Prompt(false));
    assert_eq!(h.buffer_count(), 2);
    assert_eq!(h.current_index(), 1);

    h.handle_input(press(KeyCode::Char(':')));
    let s = submit(&mut h, "PRINT");
    assert!(matches!(s.ui, Some(UiRequest::CopyToClipboard)));

    h.handle_input(press(KeyCode::Char(':')));
    let s = submit(&mut h, "zz");
    match s.ui {
        Some(UiRequest::Message(m)) => assert_eq!(m, "unrecognized command `:zz`"),
        _ => panic!("expected a message"),
    }
    assert_eq!(h.buffer_count(), 2);
}

#[test]
fn escape_in_command_mode_discards_command_line() {
    let mut h = ProgramInputHandler::new();
    type_text(&mut h, "12");
    h.handle_input(press(KeyCode::Char(':')));
    assert_eq!(h.buffer().text_string(), ":");
    h.handle_input(press(KeyCode::Char('?')));
    assert_eq!(h.mode(), InputMode::Command);
    let s = h.handle_input(press(KeyCode::Esc));
    assert!(!s.terminate);
    assert_eq!(h.mode(), InputMode::Prompt(false));
    assert_eq!(h.buffer_count(), 1);
    assert_eq!(h.buffer().text_string(), "12");
}

#[test]
fn history_navigation_is_clamped() {
    let mut h = ProgramInputHandler::new();
    submit(&mut h, "11111");
    submit(&mut h, "22222");
    h.handle_input(press(KeyCode::Up));
    h.handle_input(press(KeyCode::Up));
    h.handle_input(press(KeyCode::Up));
    assert_eq!(h.current_index(), 0);
    assert_eq!(h.buffer().text_string(), "11111");
    h.handle_input(press(KeyCode::Down));
    h.handle_input(press(KeyCode::Down));
    h.handle_input(press(KeyCode::Down));
    assert_eq!(h.current_index(), 2);
}

#[test]
fn editing_keys_and_paste() {
    let mut h = ProgramInputHandler::new();
    type_text(&mut h, "abc");
    h.handle_input(press(KeyCode::Left));
    h.handle_input(press(KeyCode::Backspace));
    assert_eq!(h.buffer().to_string(), "a|c");
    h.handle_input(press(KeyCode::Home));
    h.handle_input(press(KeyCode::Delete));
    assert_eq!(h.buffer().to_string(), "|c");
    h.handle_input(InputEvent::Paste(String::from("xy")));
    assert_eq!(h.buffer().to_string(), "xy|c");
    h.handle_input(press(KeyCode::End));
    h.handle_input(press(KeyCode::Right));
    assert_eq!(h.buffer().to_string(), "xyc|");
}

#[test]
fn resize_and_print_screen() {
    let mut h = ProgramInputHandler::new();
    let s = h.handle_input(InputEvent::Resize);
    assert!(matches!(s.ui, Some(UiRequest::Redraw)));
    let s = h.handle_input(InputEvent::Key(KeyEvent {
        code: KeyCode::PrintScreen,
        modifiers: Modifiers::Plain,
        kind: KeyEventKind::Release,
    }));
    assert!(matches!(s.ui, Some(UiRequest::CopyToClipboard)));
    let u: DisplayUpdate<()> = DisplayUpdate::from_request(s.ui.unwrap());
    assert!(matches!(u, DisplayUpdate::CopyToClipboard));
}
