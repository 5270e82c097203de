use chatshell::hooks::{
    create_default_hooks, parse_action, ActionType, Hook, HookConfig, HookManager,
    InterceptionResult,
};
use chatshell::keys::{KeyCode, KeyInput, KeyModifiers};

fn config(name: &str, pattern: &str, action: &str, enabled: bool) -> HookConfig {
    HookConfig {
        name: name.to_string(),
        key_combination: pattern.to_string(),
        action: action.to_string(),
        description: None,
        enabled,
    }
}

#[test]
fn test_hook_matching() {
    let config = HookConfig {
        name: "test".to_string(),
        key_combination: "ctrl+;".to_string(),
        action: "echo test".to_string(),
        description: None,
        enabled: true,
    };

    let hook = Hook::new(config);
    let key = KeyInput::new(KeyCode::Char(';'), KeyModifiers::new(true, false, false));

    assert!(hook.matches(&key));
}

#[test]
fn test_hook_manager() {
    let mut manager = HookManager::new();
    let config = HookConfig {
        name: "test".to_string(),
        key_combination: "ctrl+a".to_string(),
        action: "builtin:clear_screen".to_string(),
        description: None,
        enabled: true,
    };

    manager.add_hook(config);
    assert!(manager.get_hook("test").is_some());
    assert!(manager.remove_hook("test"));
    assert!(manager.get_hook("test").is_none());
}

#[test]
fn test_action_parsing() {
    let action = parse_action("cmd:ls -la");
    assert!(matches!(action, ActionType::Command(_)));

    let action = parse_action("fn:show_help");
    assert!(matches!(action, ActionType::Function(_)));

    let action = parse_action("builtin:clear_screen");
    assert!(matches!(action, ActionType::Builtin(_)));
}

#[test]
fn test_action_parsing_strips_prefixes() {
    match parse_action("cmd:ls -la") {
        ActionType::Command(c) => assert_eq!(c, "ls -la"),
        _ => panic!("expected a command"),
    }
    match parse_action("fn:show_help") {
        ActionType::Function(f) => assert_eq!(f, "show_help"),
        _ => panic!("expected a function"),
    }
    match parse_action("builtin:clear_screen") {
        ActionType::Builtin(b) => assert_eq!(b, "clear_screen"),
        _ => panic!("expected a builtin"),
    }
    assert!(matches!(parse_action("llm:prompt"), ActionType::LlmPrompt));
    assert!(matches!(parse_action("llm:reset"), ActionType::LlmReset));
    // Anything unrecognized falls back to a command, taken whole.
    match parse_action("echo 'Hook triggered!'") {
        ActionType::Command(c) => assert_eq!(c, "echo 'Hook triggered!'"),
        _ => panic!("expected the fallback command"),
    }
}

#[test]
fn test_hook_system() {
    let hooks = create_default_hooks();
    let manager = HookManager::from_configs(hooks);
    let all_consume = vec![true; manager.len()];

    // The help hook (ctrl+;) is enabled and consumes.
    let help_key = KeyInput::new(KeyCode::Char(';'), KeyModifiers::new(true, false, false));
    let result = manager.process_key(&help_key, &all_consume);
    assert_eq!(result, InterceptionResult::Consumed);

    // A key no hook matches passes through.
    let random_key = KeyInput::new(KeyCode::Char('x'), KeyModifiers::empty());
    let result = manager.process_key(&random_key, &all_consume);
    assert_eq!(result, InterceptionResult::PassThrough);

    // The time hook (ctrl+t) is disabled by default, so its key passes.
    let time_key = KeyInput::new(KeyCode::Char('t'), KeyModifiers::new(true, false, false));
    let result = manager.process_key(&time_key, &all_consume);
    assert_eq!(result, InterceptionResult::PassThrough);
}

#[test]
fn test_custom_hook_execution() {
    let mut manager = HookManager::new();

    let hook_config = HookConfig {
        name: "date_hook".to_string(),
        key_combination: "ctrl+d".to_string(),
        action: "cmd:date".to_string(),
        description: Some("Show current date".to_string()),
        enabled: true,
    };

    manager.add_hook(hook_config);

    let key = KeyInput::new(KeyCode::Char('d'), KeyModifiers::new(true, false, false));
    let result = manager.process_key(&key, &vec![true]);
    assert_eq!(result, InterceptionResult::Consumed);
}

#[test]
fn test_hook_consumes_and_passes_through() {
    // A hook on ctrl+; consumes the combination; the bare character passes.
    let mut manager = HookManager::new();
    manager.add_hook(config("semi", "ctrl+;", "cmd:true", true));
    let outcomes = vec![true; manager.len()];

    let combo = KeyInput::new(KeyCode::Char(';'), KeyModifiers::new(true, false, false));
    assert_eq!(manager.process_key(&combo, &outcomes), InterceptionResult::Consumed);

    let bare = KeyInput::new(KeyCode::Char(';'), KeyModifiers::empty());
    assert_eq!(manager.process_key(&bare, &outcomes), InterceptionResult::PassThrough);
}

#[test]
fn test_scan_order_and_consumption() {
    // Two hooks match the same key. The earlier one is asked first; once it
    // consumes, the later one is never reached.
    let mut manager = HookManager::new();
    manager.add_hook(config("first", "ctrl+k", "cmd:one", true));
    manager.add_hook(config("second", "ctrl+k", "cmd:two", true));
    let key = KeyInput::new(KeyCode::Char('k'), KeyModifiers::new(true, false, false));

    assert_eq!(manager.next_candidate(&key, 0), Some(0));
    assert_eq!(manager.next_candidate(&key, 1), Some(1));
    assert_eq!(manager.next_candidate(&key, 2), None);

    assert_eq!(manager.process_key(&key, &vec![true, true]), InterceptionResult::Consumed);
    // The first hook not consuming (or failing) lets the second decide.
    assert_eq!(manager.process_key(&key, &vec![false, true]), InterceptionResult::Consumed);
    // No hook consuming passes the key through.
    assert_eq!(manager.process_key(&key, &vec![false, false]), InterceptionResult::PassThrough);
}

#[test]
fn test_enable_disable_hook() {
    let mut manager = HookManager::new();
    manager.add_hook(config("toggle", "ctrl+g", "cmd:true", true));
    let key = KeyInput::new(KeyCode::Char('g'), KeyModifiers::new(true, false, false));
    let outcomes = vec![true];

    assert_eq!(manager.process_key(&key, &outcomes), InterceptionResult::Consumed);

    assert!(manager.enable_hook("toggle", false));
    assert_eq!(manager.process_key(&key, &outcomes), InterceptionResult::PassThrough);

    assert!(manager.enable_hook("toggle", true));
    assert_eq!(manager.process_key(&key, &outcomes), InterceptionResult::Consumed);

    assert!(!manager.enable_hook("missing", true));
    assert!(!manager.remove_hook("missing"));
}

#[test]
fn test_add_hook_replaces_same_name() {
    let mut manager = HookManager::new();
    manager.add_hook(config("dup", "ctrl+a", "cmd:one", true));
    manager.add_hook(config("other", "ctrl+b", "cmd:two", true));
    manager.add_hook(config("dup", "ctrl+z", "cmd:three", true));

    assert_eq!(manager.len(), 2);
    let hook = manager.get_hook("dup").unwrap();
    assert_eq!(hook.config.key_combination, "ctrl+z");

    let old_key = KeyInput::new(KeyCode::Char('a'), KeyModifiers::new(true, false, false));
    assert_eq!(manager.process_key(&old_key, &vec![true, true]), InterceptionResult::PassThrough);
}

#[test]
fn test_default_hooks_contents() {
    let hooks = create_default_hooks();
    assert_eq!(hooks.len(), 6);
    assert_eq!(hooks[0].name, "help");
    assert_eq!(hooks[0].key_combination, "ctrl+;");
    assert!(hooks[0].enabled);
    assert_eq!(hooks[3].name, "time");
    assert!(!hooks[3].enabled);
    assert!(!hooks[4].enabled);

    let manager = HookManager::from_configs(hooks);
    assert_eq!(manager.list_hooks().len(), 6);
    assert_eq!(manager.list_enabled_hooks().len(), 4);
}
