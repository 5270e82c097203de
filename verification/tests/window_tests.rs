use chatshell::terminal::Terminal;
use chatshell::window::WindowManager;

#[test]
fn test_terminal_state() {
    let mut terminal = Terminal::new();
    assert!(!terminal.raw_mode_enabled);

    assert!(terminal.enter_raw_mode());
    assert!(terminal.raw_mode_enabled);

    assert!(terminal.leave_raw_mode());
    assert!(!terminal.raw_mode_enabled);

    // Entering and leaving are idempotent: the second call in the same
    // direction asks for no device switch and never errors.
    assert!(terminal.enter_raw_mode());
    assert!(!terminal.enter_raw_mode());
    assert!(terminal.raw_mode_enabled);

    assert!(terminal.leave_raw_mode());
    assert!(!terminal.leave_raw_mode());
    assert!(!terminal.raw_mode_enabled);
}

#[test]
fn test_popup_layout_basics() {
    let wm = WindowManager::new(80, 24);
    let w = wm.show_popup("Help", "abc\ndef");

    assert_eq!(w.title, "Help");
    assert_eq!(w.content, vec!["abc".to_string(), "def".to_string()]);
    // Width: the larger of widest line and title, plus borders and padding.
    assert_eq!(w.width, 8);
    // Height: two content lines plus the four border and title rows.
    assert_eq!(w.height, 6);
    // Centered.
    assert_eq!(w.x, (80 - 8) / 2);
    assert_eq!(w.y, (24 - 6) / 2);
}

#[test]
fn test_popup_line_splitting() {
    let wm = WindowManager::default();
    assert_eq!(wm.terminal_size, (80, 24));

    // A trailing newline adds no empty line; carriage returns are stripped.
    let w = wm.show_popup("T", "one\r\ntwo\n");
    assert_eq!(w.content, vec!["one".to_string(), "two".to_string()]);

    // Empty content gives no lines, and the title dictates the width.
    let w = wm.show_popup("Title", "");
    assert_eq!(w.content, Vec::<String>::new());
    assert_eq!(w.width, 5 + 4);
    assert_eq!(w.height, 4);

    // Interior empty lines are kept.
    let w = wm.show_popup("T", "a\n\nb");
    assert_eq!(w.content, vec!["a".to_string(), "".to_string(), "b".to_string()]);
}

#[test]
fn test_popup_width_from_content() {
    let wm = WindowManager::new(100, 40);
    let w = wm.show_popup("T", "a much wider line of content");
    assert_eq!(w.width, 28 + 4);
    assert_eq!(w.x, (100 - 32) / 2);
}

#[test]
fn test_popup_larger_than_terminal_sits_at_origin() {
    let wm = WindowManager::new(10, 3);
    let w = wm.show_popup("A very long popup title", "line");
    assert!(w.width > 10);
    assert_eq!(w.x, 0);
    assert_eq!(w.y, 0);
}

#[test]
fn test_input_popup_layout() {
    let wm = WindowManager::new(80, 24);
    let w = wm.show_input_popup("LLM Assistant", "Enter your prompt:");

    // Never narrower than sixty columns, and two rows taller than a plain
    // popup for the input row.
    assert_eq!(w.width, 60);
    assert_eq!(w.height, 1 + 6);
    assert_eq!(w.x, (80 - 60) / 2);
    assert_eq!(w.y, (24 - 7) / 2);

    let wide = wm.show_input_popup("T", &"x".repeat(70));
    assert_eq!(wide.width, 74);
}
