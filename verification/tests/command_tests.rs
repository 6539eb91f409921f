use tedit::command::{process_ctrl, process_keypress, process_unmodified};
use tedit::command::{Command, KeyCode, KeyModifier, KeyPress, Move};

fn plain(code: KeyCode) -> KeyPress {
    KeyPress { code, modifier: KeyModifier::Plain }
}

fn ctrl(code: KeyCode) -> KeyPress {
    KeyPress { code, modifier: KeyModifier::Control }
}

#[test]
fn printable_char_resolves_to_insert() {
    assert_eq!(
        process_keypress(&plain(KeyCode::Char('a'))),
        Some(Command::Insert('a'))
    );
}

#[test]
fn arrows_resolve_to_moves() {
    assert_eq!(
        process_keypress(&plain(KeyCode::Up)),
        Some(Command::Move(Move::Up))
    );
    assert_eq!(
        process_keypress(&plain(KeyCode::Down)),
        Some(Command::Move(Move::Down))
    );
    assert_eq!(
        process_keypress(&plain(KeyCode::Left)),
        Some(Command::Move(Move::Left))
    );
    assert_eq!(
        process_keypress(&plain(KeyCode::Right)),
        Some(Command::Move(Move::Right))
    );
}

#[test]
fn enter_resolves_to_newline() {
    assert_eq!(process_keypress(&plain(KeyCode::Enter)), Some(Command::NewLine));
}

#[test]
fn backspace_resolves_to_backspace() {
    assert_eq!(
        process_keypress(&plain(KeyCode::Backspace)),
        Some(Command::BackSpace)
    );
}

#[test]
fn ctrl_q_resolves_to_exit() {
    assert_eq!(process_keypress(&ctrl(KeyCode::Char('q'))), Some(Command::Exit));
}

#[test]
fn ctrl_s_resolves_to_save() {
    assert_eq!(process_keypress(&ctrl(KeyCode::Char('s'))), Some(Command::Save));
}

#[test]
fn other_ctrl_chars_resolve_to_nothing() {
    assert_eq!(process_keypress(&ctrl(KeyCode::Char('x'))), None);
    assert_eq!(process_keypress(&ctrl(KeyCode::Up)), None);
    assert_eq!(process_keypress(&ctrl(KeyCode::Enter)), None);
}

#[test]
fn unknown_keys_resolve_to_nothing() {
    assert_eq!(process_keypress(&plain(KeyCode::Other)), None);
    let odd = KeyPress { code: KeyCode::Char('a'), modifier: KeyModifier::Other };
    assert_eq!(process_keypress(&odd), None);
}

#[test]
fn sub_resolvers_match_dispatch() {
    let k = plain(KeyCode::Char('k'));
    assert_eq!(process_unmodified(&k), process_keypress(&k));
    let q = ctrl(KeyCode::Char('q'));
    assert_eq!(process_ctrl(&q), process_keypress(&q));
}
