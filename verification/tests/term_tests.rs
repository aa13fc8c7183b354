use pixel_shell::keymap::Key;
use pixel_shell::term::Term;
use pixel_shell::COLS;

#[test]
fn fresh_terminal_with_prompt() {
    let mut t = Term::new();
    t.write_prompt();
    assert_eq!(t.grid[0], '>');
    assert_eq!(t.grid[1], ' ');
    assert_eq!(t.grid[2], '_');
    assert_eq!(t.cursor, 2);
    assert!(t.typed.is_empty());
}

#[test]
fn typing_appends_and_echoes() {
    let mut t = Term::new();
    t.write_prompt();
    t.type_key(&Key::H, false);
    t.type_key(&Key::I, false);
    assert_eq!(t.typed, vec!['h', 'i']);
    assert_eq!(t.grid[2], 'h');
    assert_eq!(t.grid[3], 'i');
    assert_eq!(t.grid[4], '_');
    assert_eq!(t.cursor, 4);
}

#[test]
fn shifted_typing_uses_shifted_table() {
    let mut t = Term::new();
    t.type_key(&Key::H, true);
    t.type_key(&Key::Key1, true);
    assert_eq!(t.typed, vec!['H', '!']);
}

#[test]
fn unmapped_key_changes_nothing() {
    let mut t = Term::new();
    t.write_prompt();
    let grid_before = t.grid.clone();
    t.type_key(&Key::Enter, false);
    assert_eq!(t.grid, grid_before);
    assert_eq!(t.cursor, 2);
    assert!(t.typed.is_empty());
}

#[test]
fn backspace_key_pops_typed_character() {
    let mut t = Term::new();
    t.write_prompt();
    t.type_key(&Key::A, false);
    t.type_key(&Key::B, false);
    t.backspace_key();
    assert_eq!(t.typed, vec!['a']);
    assert_eq!(t.cursor, 3);
    assert_eq!(t.grid[3], '_');
    assert_eq!(t.grid[4], ' ');
}

#[test]
fn backspace_key_at_zero_changes_nothing() {
    let mut t = Term::new();
    let grid_before = t.grid.clone();
    t.backspace_key();
    assert_eq!(t.cursor, 0);
    assert_eq!(t.grid, grid_before);
    assert!(t.typed.is_empty());
}

#[test]
fn enter_scenario_hi() {
    // pressing H, I with shift inactive, then Enter
    let mut t = Term::new();
    t.write_prompt();
    t.type_key(&Key::H, false);
    t.type_key(&Key::I, false);
    assert_eq!(t.typed, vec!['h', 'i']);

    // Enter, first half: the row is padded and the line handed back to send
    let line = t.enter_submit();
    assert_eq!(line, vec!['h', 'i']);
    assert_eq!(t.cursor, COLS);
    assert!(t.grid[4..COLS].iter().all(|c| *c == ' '));

    // a first chunk opening with the escape character is discarded exactly
    // when the typed line was non-empty
    let noise: Vec<char> = vec!['\u{1b}', '[', 'K'];
    assert!(t.wants_second_chunk(&noise));

    // the (second) chunk is echoed, the line cleared, a fresh prompt written
    let chunk: Vec<char> = vec!['o', 'k', '\n'];
    t.enter_output(&chunk);
    assert!(t.typed.is_empty());
    assert_eq!(t.grid[COLS], 'o');
    assert_eq!(t.grid[COLS + 1], 'k');
    assert!(t.grid[COLS + 2..2 * COLS].iter().all(|c| *c == ' '));
    assert_eq!(t.grid[2 * COLS], '>');
    assert_eq!(t.grid[2 * COLS + 1], ' ');
    assert_eq!(t.grid[2 * COLS + 2], '_');
    assert_eq!(t.cursor, 2 * COLS + 2);
}

#[test]
fn escape_chunk_kept_when_line_was_empty() {
    let mut t = Term::new();
    t.write_prompt();
    let noise: Vec<char> = vec!['\u{1b}', 'x'];
    assert!(!t.wants_second_chunk(&noise));
}

#[test]
fn ordinary_chunk_never_asks_for_second() {
    let mut t = Term::new();
    t.type_key(&Key::L, false);
    let chunk: Vec<char> = vec!['o', 'k'];
    assert!(!t.wants_second_chunk(&chunk));
    let empty: Vec<char> = Vec::new();
    assert!(!t.wants_second_chunk(&empty));
}

#[test]
fn enter_with_empty_line_sends_empty() {
    let mut t = Term::new();
    t.write_prompt();
    let line = t.enter_submit();
    assert!(line.is_empty());
    assert_eq!(t.cursor, COLS);
}
