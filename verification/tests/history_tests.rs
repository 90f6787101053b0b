use steelwool::ContentType;
use steelwool::ContextBuilder;
use steelwool::Message;
use steelwool::MessageRole;

fn user_message(content: &str) -> Message {
    Message {
        role: MessageRole::User,
        content: content.to_string(),
        content_type: ContentType::Text,
    }
}

#[test]
fn test_add_message_appends_in_order() {
    let ctx = ContextBuilder { history: vec![] }
        .add_message(user_message("first"))
        .add_message(user_message("second"))
        .add_message(user_message("third"));
    assert_eq!(ctx.history.len(), 3);
    assert_eq!(ctx.history[0].content, "first");
    assert_eq!(ctx.history[1].content, "second");
    assert_eq!(ctx.history[2].content, "third");
}

#[test]
fn test_add_message_preserves_old_state() {
    let ctx = ContextBuilder { history: vec![] }.add_message(user_message("kept"));
    let retained = ctx.clone();
    let grown = ctx.add_message(user_message("new"));
    assert_eq!(retained.history.len(), 1);
    assert_eq!(retained.history[0].content, "kept");
    assert_eq!(grown.history.len(), 2);
    assert_eq!(grown.history[1].content, "new");
}

#[test]
fn test_transform_with_applies_transformation() {
    let ctx = ContextBuilder { history: vec![] }.add_message(user_message("hello"));
    let transformed = ctx.transform_with(|c| c.add_message(user_message("from transformer")));
    assert_eq!(transformed.history.len(), 2);
    assert_eq!(transformed.history[1].content, "from transformer");
}

#[test]
fn test_message_roles_kept() {
    let roles = [
        MessageRole::User,
        MessageRole::Model,
        MessageRole::System,
        MessageRole::Function,
        MessageRole::Tool,
    ];
    let mut ctx = ContextBuilder { history: vec![] };
    for role in roles {
        ctx = ctx.add_message(Message {
            role,
            content: "x".to_string(),
            content_type: ContentType::Text,
        });
    }
    assert_eq!(ctx.history.len(), 5);
    assert_eq!(ctx.history[0].role, MessageRole::User);
    assert_eq!(ctx.history[1].role, MessageRole::Model);
    assert_eq!(ctx.history[2].role, MessageRole::System);
    assert_eq!(ctx.history[3].role, MessageRole::Function);
    assert_eq!(ctx.history[4].role, MessageRole::Tool);
}
