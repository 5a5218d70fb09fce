use declmodel::util::{str_eq, truncate};

#[test]
fn test_truncate() {
    assert_eq!(truncate("hello world".to_string(), 5), "hello");
    assert_eq!(truncate("hi".to_string(), 10), "hi");
    assert_eq!(truncate("abc".to_string(), 0), "");
    assert_eq!(truncate(String::new(), 4), "");
}

#[test]
fn test_str_eq() {
    assert!(str_eq("Option", "Option"));
    assert!(!str_eq("Option", "option"));
    assert!(!str_eq("Vec", "Vector"));
    assert!(str_eq("", ""));
}
