use cfuvrand::command_line::CommandLine;
use cfuvrand::input::{Key, KeyEvent};
use cfuvrand::model::{Mode, Model};
use cfuvrand::ui::Page;

fn key(k: Key) -> KeyEvent {
    KeyEvent { key: k, ctrl: false }
}

#[test]
fn mode_entry_then_example_scenario() {
    let mut m = Model::new();
    assert_eq!(m.mode, Mode::Normal);
    assert!(m.handle_input(key(Key::Char(':'))).is_none());
    assert_eq!(m.mode, Mode::CommandEntry);
    for c in ['e', 'x', 'a', 'm', 'p', 'l', 'e'] {
        assert!(m.handle_input(key(Key::Char(c))).is_none());
    }
    assert!(m.handle_input(key(Key::Enter)).is_none());
    assert!(matches!(m.page, Page::Example));
    assert_eq!(m.mode, Mode::Normal);
    assert!(m.command_input.current_text().is_empty());
    assert!(!m.exit);
}

#[test]
fn submit_qx_requests_exit() {
    let mut m = Model::new();
    m.handle_input(key(Key::Char(':')));
    m.handle_input(key(Key::Char('q')));
    m.handle_input(key(Key::Char('x')));
    assert_eq!(m.command_input.current_text(), vec!['q', 'x']);
    assert!(m.handle_input(key(Key::Enter)).is_none());
    assert!(m.exit);
    assert_eq!(m.mode, Mode::Normal);
}

#[test]
fn any_submission_clears_and_reverts() {
    for cmd in ["help", "q", "example", "prostite_please", "nonsense", ""] {
        let mut m = Model::new();
        m.handle_input(key(Key::Char(':')));
        for c in cmd.chars() {
            m.handle_input(key(Key::Char(c)));
        }
        let _ = m.handle_input(key(Key::Enter));
        assert_eq!(m.mode, Mode::Normal);
        assert!(m.command_input.current_text().is_empty());
    }
}

#[test]
fn help_submission_is_fatal() {
    let mut m = Model::new();
    m.handle_input(key(Key::Char(':')));
    for c in "help".chars() {
        m.handle_input(key(Key::Char(c)));
    }
    let fatal = m.handle_input(key(Key::Enter));
    assert_eq!(fatal, Some("no help available".to_string()));
    assert!(!m.exit);
    assert_eq!(m.mode, Mode::Normal);
}

#[test]
fn cancel_keeps_typed_text() {
    let mut m = Model::new();
    m.handle_input(key(Key::Char(':')));
    m.handle_input(key(Key::Char('a')));
    m.handle_input(key(Key::Esc));
    assert_eq!(m.mode, Mode::Normal);
    assert_eq!(m.command_input.current_text(), vec!['a']);
}

#[test]
fn reserved_control_combination_is_consumed() {
    let mut m = Model::new();
    m.handle_input(key(Key::Char(':')));
    m.handle_input(KeyEvent { key: Key::Char('m'), ctrl: true });
    assert_eq!(m.mode, Mode::CommandEntry);
    assert!(m.command_input.current_text().is_empty());
}

#[test]
fn normal_mode_ignores_other_keys() {
    let mut m = Model::new();
    m.handle_input(key(Key::Char('x')));
    m.handle_input(key(Key::Enter));
    assert_eq!(m.mode, Mode::Normal);
    assert!(m.command_input.current_text().is_empty());
    assert!(!m.exit);
}

#[test]
fn widget_edits_insert_move_delete() {
    let mut w = CommandLine::new();
    w.feed(key(Key::Char('a')));
    w.feed(key(Key::Char('c')));
    w.feed(key(Key::Left));
    w.feed(key(Key::Char('b')));
    assert_eq!(w.current_text(), vec!['a', 'b', 'c']);
    w.feed(key(Key::Backspace));
    assert_eq!(w.current_text(), vec!['a', 'c']);
    w.feed(key(Key::Home));
    w.feed(key(Key::Delete));
    assert_eq!(w.current_text(), vec!['c']);
    w.feed(key(Key::End));
    w.feed(key(Key::Backspace));
    assert!(w.current_text().is_empty());
}

#[test]
fn widget_rejects_line_breaks_and_control_chars() {
    let mut w = CommandLine::new();
    w.feed(key(Key::Char('\n')));
    w.feed(key(Key::Char('\r')));
    w.feed(KeyEvent { key: Key::Char('z'), ctrl: true });
    w.feed(key(Key::Enter));
    w.feed(key(Key::Other));
    assert!(w.current_text().is_empty());
}

#[test]
fn widget_clear_empties_line() {
    let mut w = CommandLine::new();
    w.feed(key(Key::Char('q')));
    w.clear();
    assert!(w.current_text().is_empty());
}
