use js_processor::arena::RequestArena;
use js_processor::classify::{UnitKind, classify_source};
use js_processor::engine::read_output;
use js_processor::http_request::{SimpleHttpRequest, StringHttpRequest};
use js_processor::resolver::{format_log_line, resolve_module};
use js_processor::string_map::StringMap;
use js_processor::strutil::{contains_str, str_eq};

#[test]
fn test_classify_script_and_module() {
    assert_eq!(classify_source("function Process(req){ output.body = req.path; }"), UnitKind::Script);
    assert_eq!(classify_source("import React from 'react';"), UnitKind::Module);
    assert_eq!(classify_source("export default Component;"), UnitKind::Module);
    assert_eq!(classify_source(""), UnitKind::Script);
}

#[test]
fn test_classify_is_a_textual_heuristic() {
    // The token may sit inside a string or a name; the text still routes
    // through the module path.
    assert_eq!(classify_source("var s = 'import nothing';"), UnitKind::Module);
    assert_eq!(classify_source("var exporter = 1;"), UnitKind::Module);
}

#[test]
fn test_contains_str() {
    assert!(contains_str("hello world", "world"));
    assert!(contains_str("hello world", ""));
    assert!(!contains_str("hello world", "worlds"));
    assert!(!contains_str("", "a"));
    assert!(contains_str("aaab", "aab"));
}

#[test]
fn test_str_eq() {
    assert!(str_eq("", ""));
    assert!(str_eq("abc", "abc"));
    assert!(!str_eq("abc", "abd"));
    assert!(!str_eq("abc", "abcd"));
}

#[test]
fn test_string_map_insert_and_get() {
    let mut m = StringMap::new();
    assert_eq!(m.len(), 0);
    assert_eq!(m.get("k"), None);
    m.insert("k".to_owned(), "v1".to_owned());
    assert_eq!(m.len(), 1);
    assert_eq!(m.get("k").map(String::as_str), Some("v1"));
    // Last write wins, and the key stays unique.
    m.insert("k".to_owned(), "v2".to_owned());
    assert_eq!(m.len(), 1);
    assert_eq!(m.get("k").map(String::as_str), Some("v2"));
    m.insert("other".to_owned(), "x".to_owned());
    assert_eq!(m.len(), 2);
    assert!(m.contains_key("other"));
    assert!(!m.contains_key("missing"));
}

#[test]
fn test_string_map_entries_keep_insertion_order() {
    let mut m = StringMap::new();
    m.insert("a".to_owned(), "1".to_owned());
    m.insert("b".to_owned(), "2".to_owned());
    let entries = m.entries();
    assert_eq!(entries.len(), 2);
    assert_eq!(entries[0], ("a".to_owned(), "1".to_owned()));
    assert_eq!(entries[1], ("b".to_owned(), "2".to_owned()));
}

#[test]
fn test_read_output_exact_contents() {
    let pairs = vec![
        ("body".to_owned(), "hello".to_owned()),
        ("status".to_owned(), "200".to_owned()),
    ];
    let out = read_output(&pairs);
    assert_eq!(out.len(), 2);
    assert_eq!(out.get("body").map(String::as_str), Some("hello"));
    assert_eq!(out.get("status").map(String::as_str), Some("200"));
    assert!(!out.contains_key("headers"));
}

#[test]
fn test_read_output_last_write_wins() {
    let pairs = vec![
        ("k".to_owned(), "first".to_owned()),
        ("k".to_owned(), "second".to_owned()),
    ];
    let out = read_output(&pairs);
    assert_eq!(out.len(), 1);
    assert_eq!(out.get("k").map(String::as_str), Some("second"));
}

#[test]
fn test_read_output_empty() {
    let out = read_output(&Vec::new());
    assert_eq!(out.len(), 0);
}

#[test]
fn test_arena_install_resolve_release() {
    let mut arena: RequestArena<StringHttpRequest> = RequestArena::new();
    let req = StringHttpRequest::new("/p", "h", "ua", "rf");
    let proxy = arena.install(req);
    assert_eq!(proxy.slot, 0);
    assert_eq!(arena.resolve(proxy).map(|r| r.path()), Some("/p"));

    arena.release(proxy);
    assert!(arena.resolve(proxy).is_none());

    let second = arena.install(StringHttpRequest::new("/q", "h", "ua", "rf"));
    assert_eq!(second.slot, 1);
    arena.drain();
    assert!(arena.resolve(second).is_none());
}

#[test]
fn test_resolve_module_shim() {
    let react = resolve_module("react");
    assert_eq!(react.functions, vec!["createElement".to_owned()]);
    let other = resolve_module("fs");
    assert!(other.functions.is_empty());
}

#[test]
fn test_format_log_line() {
    assert_eq!(format_log_line("hello"), "Logged: hello");
    assert_eq!(format_log_line(""), "Logged: ");
}
