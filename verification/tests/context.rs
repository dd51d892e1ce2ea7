use event_chains::event_context::{ContextValue, EventContext};

#[test]
fn set_then_get_same_kind_returns_value() {
    let mut ctx = EventContext::new();
    ctx.set("count", ContextValue::Int(42));
    assert_eq!(ctx.get_int("count"), Some(42));

    ctx.set("flag", ContextValue::Bool(true));
    assert_eq!(ctx.get_bool("flag"), Some(true));

    ctx.set("who", ContextValue::Str("alice".to_string()));
    assert_eq!(ctx.get_str("who"), Some("alice".to_string()));
}

#[test]
fn get_with_other_kind_is_silent_miss() {
    let mut ctx = EventContext::new();
    ctx.set("count", ContextValue::Int(42));
    assert_eq!(ctx.get_bool("count"), None);
    assert_eq!(ctx.get_str("count"), None);
}

#[test]
fn get_absent_key_is_none() {
    let ctx = EventContext::new();
    assert_eq!(ctx.get_int("missing"), None);
    assert_eq!(ctx.get("missing"), None);
    assert!(!ctx.has("missing"));
}

#[test]
fn has_reports_presence_of_any_kind() {
    let mut ctx = EventContext::new();
    ctx.set("flag", ContextValue::Bool(false));
    assert!(ctx.has("flag"));
    assert!(!ctx.has("other"));
}

#[test]
fn get_returns_tagged_value() {
    let mut ctx = EventContext::new();
    ctx.set("who", ContextValue::Str("bob".to_string()));
    assert_eq!(ctx.get("who"), Some(ContextValue::Str("bob".to_string())));
}

#[test]
fn last_write_wins_even_across_kinds() {
    let mut ctx = EventContext::new();
    ctx.set("k", ContextValue::Int(1));
    ctx.set("k", ContextValue::Int(2));
    assert_eq!(ctx.get_int("k"), Some(2));

    ctx.set("k", ContextValue::Str("text".to_string()));
    assert_eq!(ctx.get_int("k"), None);
    assert_eq!(ctx.get_str("k"), Some("text".to_string()));
}

#[test]
fn default_context_is_empty() {
    let ctx = EventContext::default();
    assert!(!ctx.has("anything"));
}
