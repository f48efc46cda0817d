use honeybee::logging::{log_location, short_module, LogLevel};

#[test]
fn levels_ignore_case() {
    assert_eq!(LogLevel::parse("info"), Some(LogLevel::Info));
    assert_eq!(LogLevel::parse("INFO"), Some(LogLevel::Info));
    assert_eq!(LogLevel::parse("Debug"), Some(LogLevel::Debug));
    assert_eq!(LogLevel::parse("off"), Some(LogLevel::Off));
    assert_eq!(LogLevel::parse("trace"), Some(LogLevel::Trace));
    assert_eq!(LogLevel::parse("warn"), Some(LogLevel::Warn));
    assert_eq!(LogLevel::parse("error"), Some(LogLevel::Error));
    assert_eq!(LogLevel::parse("warning"), None);
    assert_eq!(LogLevel::parse(""), None);
}

#[test]
fn short_module_names() {
    assert_eq!(short_module("honeybee_core::node_manager::manager"), "manager");
    assert_eq!(short_module("main"), "main");
    assert_eq!(short_module("a:::b"), ":b");
    assert_eq!(short_module("a::"), "");
    for t in ["x::y::z", "a:::b", "::", "plain", "a::b::"] {
        assert_eq!(short_module(t), t.split("::").last().unwrap());
    }
}

#[test]
fn locations() {
    assert_eq!(log_location("core::node", Some(42)), "core::node:42");
    assert_eq!(log_location("core::node", None), "core::node");
}
