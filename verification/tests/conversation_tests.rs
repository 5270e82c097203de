use chatshell::conversation::{ChatMessage, ConversationContext};

#[test]
fn test_conversation_context() {
    let mut context = ConversationContext::new();
    assert!(context.messages.is_empty());

    context.add_message(ChatMessage {
        role: "user".to_string(),
        content: "Hello".to_string(),
        tool_calls: None,
    });

    assert_eq!(context.messages.len(), 1);
    assert_eq!(context.messages[0].role, "user");
    assert_eq!(context.messages[0].content, "Hello");
}

#[test]
fn test_context_clear() {
    let mut context = ConversationContext::new();
    let original_id = context.id.clone();

    context.add_message(ChatMessage {
        role: "user".to_string(),
        content: "Hello".to_string(),
        tool_calls: None,
    });

    context.clear();

    assert!(context.messages.is_empty());
    assert_ne!(context.id, original_id);
}

#[test]
fn test_context_id_is_hyphenated_uuid() {
    let context = ConversationContext::new();
    assert_eq!(context.id.len(), 36);
    assert_eq!(context.id.chars().filter(|c| *c == '-').count(), 4);
}
