use chatshell::keys::{key_to_bytes, KeyCode, KeyInput, KeyModifiers};

#[test]
fn test_key_pattern_matching() {
    let key = KeyInput::new(KeyCode::Char(';'), KeyModifiers::new(true, false, false));
    assert!(key.matches_pattern("ctrl+;"));
    assert!(!key.matches_pattern("alt+;"));
    assert!(!key.matches_pattern("ctrl+a"));
}

#[test]
fn test_key_to_bytes() {
    let key = KeyInput::new(KeyCode::Char('a'), KeyModifiers::new(true, false, false));
    assert_eq!(key.raw_bytes, vec![1]);

    let key = KeyInput::new(KeyCode::Enter, KeyModifiers::empty());
    assert_eq!(key.raw_bytes, vec![13]);
}

#[test]
fn test_alt_key_combination() {
    let key = KeyInput::new(KeyCode::Char('a'), KeyModifiers::new(false, true, false));
    assert_eq!(key.raw_bytes, vec![27, 97]);
}

#[test]
fn test_special_key_conversion() {
    let up_key = KeyInput::new(KeyCode::Up, KeyModifiers::empty());
    assert_eq!(up_key.raw_bytes, vec![27, 91, 65]);

    let down_key = KeyInput::new(KeyCode::Down, KeyModifiers::empty());
    assert_eq!(down_key.raw_bytes, vec![27, 91, 66]);

    let right_key = KeyInput::new(KeyCode::Right, KeyModifiers::empty());
    assert_eq!(right_key.raw_bytes, vec![27, 91, 67]);

    let left_key = KeyInput::new(KeyCode::Left, KeyModifiers::empty());
    assert_eq!(left_key.raw_bytes, vec![27, 91, 68]);

    let f1_key = KeyInput::new(KeyCode::F(1), KeyModifiers::empty());
    assert_eq!(f1_key.raw_bytes, vec![27, 79, 80]);

    let f5_key = KeyInput::new(KeyCode::F(5), KeyModifiers::empty());
    assert_eq!(f5_key.raw_bytes, vec![27, 91, 49, 53, 126]);

    let ctrl_a = KeyInput::new(KeyCode::Char('a'), KeyModifiers::new(true, false, false));
    assert_eq!(ctrl_a.raw_bytes, vec![1]);

    let ctrl_c = KeyInput::new(KeyCode::Char('c'), KeyModifiers::new(true, false, false));
    assert_eq!(ctrl_c.raw_bytes, vec![3]);

    let alt_a = KeyInput::new(KeyCode::Char('a'), KeyModifiers::new(false, true, false));
    assert_eq!(alt_a.raw_bytes, vec![27, 97]);

    let enter = KeyInput::new(KeyCode::Enter, KeyModifiers::empty());
    assert_eq!(enter.raw_bytes, vec![13]);

    let tab = KeyInput::new(KeyCode::Tab, KeyModifiers::empty());
    assert_eq!(tab.raw_bytes, vec![9]);

    let backspace = KeyInput::new(KeyCode::Backspace, KeyModifiers::empty());
    assert_eq!(backspace.raw_bytes, vec![127]);

    let delete = KeyInput::new(KeyCode::Delete, KeyModifiers::empty());
    assert_eq!(delete.raw_bytes, vec![27, 91, 51, 126]);

    let home = KeyInput::new(KeyCode::Home, KeyModifiers::empty());
    assert_eq!(home.raw_bytes, vec![27, 91, 72]);

    let end = KeyInput::new(KeyCode::End, KeyModifiers::empty());
    assert_eq!(end.raw_bytes, vec![27, 91, 70]);

    let page_up = KeyInput::new(KeyCode::PageUp, KeyModifiers::empty());
    assert_eq!(page_up.raw_bytes, vec![27, 91, 53, 126]);

    let page_down = KeyInput::new(KeyCode::PageDown, KeyModifiers::empty());
    assert_eq!(page_down.raw_bytes, vec![27, 91, 54, 126]);
}

#[test]
fn test_hook_pattern_edge_cases() {
    let key = KeyInput::new(KeyCode::Char('A'), KeyModifiers::new(true, false, false));
    assert!(key.matches_pattern("ctrl+a"));

    let key = KeyInput::new(KeyCode::Char('c'), KeyModifiers::new(true, false, true));
    assert!(key.matches_pattern("ctrl+shift+c"));

    let key = KeyInput::new(KeyCode::Enter, KeyModifiers::new(false, true, false));
    assert!(key.matches_pattern("alt+enter"));

    let key = KeyInput::new(KeyCode::Tab, KeyModifiers::new(true, false, false));
    assert!(key.matches_pattern("ctrl+tab"));

    let key = KeyInput::new(KeyCode::Esc, KeyModifiers::empty());
    assert!(key.matches_pattern("esc"));

    let key = KeyInput::new(KeyCode::Char(' '), KeyModifiers::new(true, false, false));
    assert!(key.matches_pattern("ctrl+space"));
}

#[test]
fn test_pattern_case_and_exact_modifiers() {
    // Modifier and key names are case-insensitive.
    let key = KeyInput::new(KeyCode::Char('a'), KeyModifiers::new(true, false, false));
    assert!(key.matches_pattern("CTRL+A"));
    assert!(key.matches_pattern("Ctrl+a"));

    // Exact modifier-set equality: CONTROL alone never satisfies ctrl+shift+c.
    let key = KeyInput::new(KeyCode::Char('c'), KeyModifiers::new(true, false, false));
    assert!(!key.matches_pattern("ctrl+shift+c"));

    // A superset does not match either.
    let key = KeyInput::new(KeyCode::Char('c'), KeyModifiers::new(true, true, true));
    assert!(!key.matches_pattern("ctrl+shift+c"));
}

#[test]
fn test_pattern_fails_closed() {
    let key = KeyInput::new(KeyCode::Char('1'), KeyModifiers::new(true, false, false));
    // Only letters and the named keys are in the table; a digit is not.
    assert!(!key.matches_pattern("ctrl+1"));

    let key = KeyInput::new(KeyCode::Char('a'), KeyModifiers::new(true, false, false));
    assert!(!key.matches_pattern("super+a"));
    assert!(!key.matches_pattern("ctrl++a"));
    assert!(!key.matches_pattern(""));
    assert!(!key.matches_pattern("+"));
}

#[test]
fn test_unmapped_keys_encode_empty() {
    // Outside the table the encoding is empty: the key is dropped silently.
    assert!(key_to_bytes(KeyCode::Char(';'), KeyModifiers::new(true, false, false)).is_empty());
    assert!(key_to_bytes(KeyCode::Char('1'), KeyModifiers::new(true, false, false)).is_empty());
    assert!(key_to_bytes(KeyCode::F(13), KeyModifiers::empty()).is_empty());
    assert!(key_to_bytes(KeyCode::F(0), KeyModifiers::empty()).is_empty());
    assert!(key_to_bytes(KeyCode::Other, KeyModifiers::empty()).is_empty());
    assert!(key_to_bytes(KeyCode::Char('\u{00e9}'), KeyModifiers::empty()).is_empty());
}

#[test]
fn test_function_key_bands() {
    assert_eq!(key_to_bytes(KeyCode::F(4), KeyModifiers::empty()), vec![27, 79, 83]);
    assert_eq!(key_to_bytes(KeyCode::F(12), KeyModifiers::empty()), vec![27, 91, 49, 60, 126]);
    assert_eq!(key_to_bytes(KeyCode::Insert, KeyModifiers::empty()), vec![27, 91, 50, 126]);
    assert_eq!(key_to_bytes(KeyCode::Esc, KeyModifiers::empty()), vec![27]);
}
