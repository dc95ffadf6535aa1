use p2p_chat::session::{Action, App, Focus, Key, BLINK_INTERVAL_MS};

fn fresh() -> App {
    App::new("alice".to_string(), "0.0.0.0:8080".to_string())
}

fn type_str(app: &mut App, text: &str) {
    for c in text.chars() {
        let a = app.handle_key(Key::Char(c));
        assert!(matches!(a, Action::Idle));
    }
}

#[test]
fn initial_state() {
    let app = fresh();
    assert!(matches!(app.focus, Focus::Address));
    assert_eq!(app.address, "");
    assert_eq!(app.input, "");
    assert!(app.messages.is_empty());
    assert!(app.blink_visible);
    assert_eq!(app.username, "alice");
    assert_eq!(app.ip_address, "0.0.0.0:8080");
}

#[test]
fn edits_go_to_the_focused_buffer_only() {
    let mut app = fresh();
    type_str(&mut app, "ab");
    app.handle_key(Key::Backspace);
    type_str(&mut app, "c");
    assert_eq!(app.address, "ac");
    assert_eq!(app.input, "");

    app.handle_key(Key::Tab);
    type_str(&mut app, "hello");
    app.handle_key(Key::Backspace);
    app.handle_key(Key::Backspace);
    assert_eq!(app.input, "hel");
    assert_eq!(app.address, "ac");
}

#[test]
fn backspace_on_empty_buffer_is_a_noop() {
    let mut app = fresh();
    let a = app.handle_key(Key::Backspace);
    assert!(matches!(a, Action::Idle));
    assert_eq!(app.address, "");
    assert_eq!(app.input, "");
}

#[test]
fn tab_toggles_focus_exactly_once_and_twice_restores_it() {
    let mut app = fresh();
    assert!(matches!(app.focus, Focus::Address));
    app.handle_key(Key::Tab);
    assert!(matches!(app.focus, Focus::Input));
    app.handle_key(Key::Tab);
    assert!(matches!(app.focus, Focus::Address));
}

#[test]
fn esc_and_ctrl_c_quit() {
    let mut app = fresh();
    assert!(matches!(app.handle_key(Key::Esc), Action::Quit));
    assert!(matches!(app.handle_key(Key::CtrlC), Action::Quit));
}

#[test]
fn submit_with_empty_input_does_nothing() {
    let mut app = fresh();
    type_str(&mut app, "127.0.0.1:9000");
    app.handle_key(Key::Tab);
    let a = app.handle_key(Key::Enter);
    assert!(matches!(a, Action::Idle));
    assert!(app.messages.is_empty());
    assert_eq!(app.address, "127.0.0.1:9000");
}

#[test]
fn submit_with_empty_address_does_nothing() {
    let mut app = fresh();
    app.handle_key(Key::Tab);
    type_str(&mut app, "hi");
    let a = app.handle_key(Key::Enter);
    assert!(matches!(a, Action::Idle));
    assert!(app.messages.is_empty());
    assert_eq!(app.input, "hi");
}

#[test]
fn submit_while_address_has_focus_does_nothing() {
    let mut app = fresh();
    type_str(&mut app, "127.0.0.1:9000");
    app.handle_key(Key::Tab);
    type_str(&mut app, "hi");
    app.handle_key(Key::Tab);
    let a = app.handle_key(Key::Enter);
    assert!(matches!(a, Action::Idle));
    assert!(app.messages.is_empty());
    assert_eq!(app.input, "hi");
}

#[test]
fn valid_submit_yields_notice_and_message_and_clears_input() {
    let mut app = fresh();
    type_str(&mut app, "127.0.0.1:9000");
    app.handle_key(Key::Tab);
    type_str(&mut app, "hi");
    let a = app.handle_key(Key::Enter);
    match a {
        Action::Submit { target, notice, msg } => {
            assert_eq!(target, "127.0.0.1:9000");
            assert_eq!(notice.username, "Server");
            assert_eq!(notice.message, "Sending message...");
            assert_eq!(msg.username, "alice");
            assert_eq!(msg.message, "hi");
        }
        _ => panic!("a valid submission must yield Action::Submit"),
    }
    assert_eq!(app.input, "");
    assert_eq!(app.address, "127.0.0.1:9000");
    assert!(app.messages.is_empty());
}

#[test]
fn blink_toggles_only_after_a_full_interval() {
    let mut app = fresh();
    assert!(app.blink_visible);
    app.tick_blink(BLINK_INTERVAL_MS - 1);
    assert!(app.blink_visible);
    assert_eq!(app.last_blink, 0);
    app.tick_blink(BLINK_INTERVAL_MS);
    assert!(!app.blink_visible);
    assert_eq!(app.last_blink, BLINK_INTERVAL_MS);
    app.tick_blink(BLINK_INTERVAL_MS + 100);
    assert!(!app.blink_visible);
    app.tick_blink(2 * BLINK_INTERVAL_MS);
    assert!(app.blink_visible);
}

#[test]
fn field_display_shows_cursor_on_the_focused_field_only() {
    let mut app = fresh();
    type_str(&mut app, "addr");
    assert_eq!(app.field_display(Focus::Address), "addr|");
    assert_eq!(app.field_display(Focus::Input), "");
    app.tick_blink(BLINK_INTERVAL_MS);
    assert_eq!(app.field_display(Focus::Address), "addr ");
    app.handle_key(Key::Tab);
    assert_eq!(app.field_display(Focus::Address), "addr");
    assert_eq!(app.field_display(Focus::Input), " ");
}

#[test]
fn display_line_joins_sender_and_body() {
    let m = p2p_chat::message::Message::new("bob".to_string(), "hi".to_string());
    assert_eq!(m.display_line(), "bob: hi");
}
