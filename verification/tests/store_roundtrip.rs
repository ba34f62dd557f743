use quick_aliases::codec::{load_aliases, to_json};
use quick_aliases::render::{render_alias_lines, render_execute_line};
use quick_aliases::AliasStore;

#[test]
fn add_then_reload_contains_pair() {
    let mut store = AliasStore::new();
    let added = store.add(&"foo".to_string(), &"echo hi".to_string());
    assert!(added);
    let text = to_json(&store);
    let (reloaded, corrupt) = load_aliases(&text);
    assert!(!corrupt);
    assert_eq!(reloaded.get(&"foo".to_string()), Some("echo hi".to_string()));
    assert_eq!(reloaded.len(), 1);
}

#[test]
fn add_existing_name_keeps_command() {
    let mut store = AliasStore::new();
    assert!(store.add(&"foo".to_string(), &"echo hi".to_string()));
    let added = store.add(&"foo".to_string(), &"echo bye".to_string());
    assert!(!added);
    assert_eq!(store.get(&"foo".to_string()), Some("echo hi".to_string()));
    let text = to_json(&store);
    let (reloaded, _) = load_aliases(&text);
    assert_eq!(reloaded.get(&"foo".to_string()), Some("echo hi".to_string()));
}

#[test]
fn remove_present_name_drops_key_from_file() {
    let mut store = AliasStore::new();
    assert!(store.add(&"foo".to_string(), &"echo hi".to_string()));
    assert!(store.add(&"bar".to_string(), &"echo lo".to_string()));
    let removed = store.remove(&"foo".to_string());
    assert!(removed);
    let text = to_json(&store);
    assert!(!text.contains("foo"));
    let (reloaded, corrupt) = load_aliases(&text);
    assert!(!corrupt);
    assert_eq!(reloaded.get(&"foo".to_string()), None);
    assert_eq!(reloaded.get(&"bar".to_string()), Some("echo lo".to_string()));
}

#[test]
fn remove_absent_name_leaves_file_unchanged() {
    let mut store = AliasStore::new();
    assert!(store.add(&"foo".to_string(), &"echo hi".to_string()));
    let before = to_json(&store);
    let removed = store.remove(&"bar".to_string());
    assert!(!removed);
    let after = to_json(&store);
    assert_eq!(before, after);
}

#[test]
fn remove_all_persists_empty_object() {
    let mut store = AliasStore::new();
    assert!(store.add(&"foo".to_string(), &"echo hi".to_string()));
    assert!(store.add(&"bar".to_string(), &"echo lo".to_string()));
    store.remove_all();
    assert_eq!(store.len(), 0);
    let text = to_json(&store);
    assert_eq!(text, "{}");
    let (reloaded, corrupt) = load_aliases(&text);
    assert!(!corrupt);
    assert_eq!(reloaded.len(), 0);
}

#[test]
fn loading_invalid_json_yields_empty_store() {
    let (store, corrupt) = load_aliases("not json");
    assert!(corrupt);
    assert_eq!(store.len(), 0);
    assert_eq!(to_json(&store), "{}");
}

#[test]
fn loading_non_object_json_yields_empty_store() {
    let (store, corrupt) = load_aliases("[1, 2, 3]");
    assert!(corrupt);
    assert_eq!(store.len(), 0);
}

#[test]
fn loading_object_with_non_string_value_yields_empty_store() {
    let (store, corrupt) = load_aliases("{\"foo\": 3}");
    assert!(corrupt);
    assert_eq!(store.len(), 0);
}

#[test]
fn loading_empty_text_yields_empty_store() {
    let (store, corrupt) = load_aliases("");
    assert!(corrupt);
    assert_eq!(store.len(), 0);
}

#[test]
fn loading_real_object_yields_its_entries() {
    let (store, corrupt) = load_aliases("{\"b\": \"two\", \"a\": \"one\"}");
    assert!(!corrupt);
    assert_eq!(store.len(), 2);
    assert_eq!(store.get(&"a".to_string()), Some("one".to_string()));
    assert_eq!(store.get(&"b".to_string()), Some("two".to_string()));
}

#[test]
fn listing_contains_added_alias_line() {
    let mut store = AliasStore::new();
    assert!(store.add(&"foo".to_string(), &"echo hi".to_string()));
    let lines = render_alias_lines(&store);
    assert!(lines.iter().any(|l| l == "Name: foo, Command: echo hi"));
}

#[test]
fn execute_line_shows_resolved_command() {
    let mut store = AliasStore::new();
    assert!(store.add(&"build".to_string(), &"make -j4 all".to_string()));
    let command = store.get(&"build".to_string()).unwrap();
    assert_eq!(command, "make -j4 all");
    assert_eq!(render_execute_line(&command), "Execute command: make -j4 all");
}

#[test]
fn saved_text_is_pretty_json_object() {
    let mut store = AliasStore::new();
    assert!(store.add(&"foo".to_string(), &"echo hi".to_string()));
    let text = to_json(&store);
    assert!(text.starts_with('{'));
    assert!(text.ends_with('}'));
    assert!(text.contains("\"foo\""));
    assert!(text.contains("\"echo hi\""));
    assert_ne!(text, "{}");
}
