use xmip_core_context::text::{compare_chars, to_ascii_lowercase, KeyOrder};
use xmip_core_context::{ContextValue, MessageContext};

#[test]
fn context_is_built_immutably() {
    let context = MessageContext::new()
        .with_value("source.uri", ContextValue::Text("file:///in/a.xml".into()));
    assert!(context.contains_key("source.uri"));
}

#[test]
fn a_read_gives_back_what_was_promoted() {
    let context = MessageContext::new()
        .with_value("b", ContextValue::Integer(2))
        .with_value("a", ContextValue::Boolean(true))
        .with_value("c", ContextValue::Text("three".into()));
    assert_eq!(context.get("a"), Some(&ContextValue::Boolean(true)));
    assert_eq!(context.get("b"), Some(&ContextValue::Integer(2)));
    assert_eq!(context.get("c"), Some(&ContextValue::Text("three".into())));
    assert_eq!(context.get("d"), None);
    assert!(!context.contains_key("d"));
    assert!(!context.contains_key(""));
}

#[test]
fn a_later_value_replaces_an_earlier_one() {
    let context = MessageContext::new()
        .with_value("k", ContextValue::Integer(1))
        .with_value("other", ContextValue::Integer(5))
        .with_value("k", ContextValue::Integer(2));
    assert_eq!(context.get("k"), Some(&ContextValue::Integer(2)));
    assert_eq!(context.get("other"), Some(&ContextValue::Integer(5)));
    assert_eq!(context.iter().len(), 2);
}

#[test]
fn entries_come_in_the_order_of_their_names() {
    let context = MessageContext::new()
        .with_value("xmip.party", ContextValue::Text("p".into()))
        .with_value("Z", ContextValue::Integer(0))
        .with_value("é", ContextValue::Integer(1))
        .with_value("http.method", ContextValue::Text("POST".into()))
        .with_value("http", ContextValue::Boolean(false));
    let names: Vec<&str> = context.iter().into_iter().map(|(name, _)| name).collect();
    assert_eq!(names, vec!["Z", "http", "http.method", "xmip.party", "é"]);
    let mut sorted = names.clone();
    sorted.sort();
    assert_eq!(names, sorted);
}

#[test]
fn an_empty_context_holds_nothing() {
    let context = MessageContext::default();
    assert!(context.iter().is_empty());
    assert_eq!(context, MessageContext::new());
    assert_eq!(context.clone(), context);
}

#[test]
fn a_clone_holds_the_same_entries() {
    let context = MessageContext::new()
        .with_value("a", ContextValue::Integer(1))
        .with_value("b", ContextValue::Text("x".into()));
    let copy = context.clone();
    assert_eq!(copy, context);
    assert_eq!(copy.get("b"), Some(&ContextValue::Text("x".into())));
}

#[test]
fn lower_case_touches_only_ascii_letters() {
    assert_eq!(to_ascii_lowercase("Content-Type"), "content-type");
    assert_eq!(to_ascii_lowercase("ÄÖÜ-AZ-az-09@[`{"), "ÄÖÜ-az-az-09@[`{");
    assert_eq!(to_ascii_lowercase(""), "");
}

#[test]
fn keys_compare_by_code_point_and_length() {
    let chars = |s: &str| s.chars().collect::<Vec<char>>();
    assert!(matches!(compare_chars(&chars("a"), &chars("b")), KeyOrder::Before));
    assert!(matches!(compare_chars(&chars("ab"), &chars("a")), KeyOrder::After));
    assert!(matches!(compare_chars(&chars("a"), &chars("a")), KeyOrder::Same));
    assert!(matches!(compare_chars(&chars(""), &chars("a")), KeyOrder::Before));
    assert!(matches!(compare_chars(&chars("é"), &chars("z")), KeyOrder::After));
}
