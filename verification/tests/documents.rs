use clarity_lsp::documents::DocumentStore;

fn s(text: &str) -> String {
    text.to_string()
}

#[test]
fn new_store_holds_nothing() {
    let store = DocumentStore::new();
    assert_eq!(store.get(&s("file:///a.clar")), None);
    assert!(!store.contains(&s("file:///a.clar")));
    assert!(!store.contains(&s("")));
    assert_eq!(store.len(), 0);
}

#[test]
fn upsert_then_get() {
    let mut store = DocumentStore::new();
    store.upsert(s("file:///a.clar"), s("(+ 1 2)"));
    assert_eq!(store.get(&s("file:///a.clar")), Some(&s("(+ 1 2)")));
    assert!(store.contains(&s("file:///a.clar")));
    assert_eq!(store.get(&s("file:///b.clar")), None);
}

#[test]
fn latest_write_wins() {
    let mut store = DocumentStore::new();
    store.upsert(s("file:///a.clar"), s("one"));
    store.upsert(s("file:///b.clar"), s("other"));
    store.upsert(s("file:///a.clar"), s("two"));
    store.upsert(s("file:///a.clar"), s("three"));
    assert_eq!(store.get(&s("file:///a.clar")), Some(&s("three")));
    assert_eq!(store.get(&s("file:///b.clar")), Some(&s("other")));
    assert_eq!(store.len(), 2);
}

#[test]
fn empty_uri_and_empty_text_are_kept() {
    let mut store = DocumentStore::new();
    store.upsert(s(""), s(""));
    assert_eq!(store.get(&s("")), Some(&s("")));
    store.upsert(s(""), s("x"));
    assert_eq!(store.get(&s("")), Some(&s("x")));
}

#[test]
fn uris_differ_by_case_and_space() {
    let mut store = DocumentStore::new();
    store.upsert(s("file:///a.clar"), s("lower"));
    store.upsert(s("file:///A.clar"), s("upper"));
    store.upsert(s("file:///a.clar "), s("spaced"));
    assert_eq!(store.get(&s("file:///a.clar")), Some(&s("lower")));
    assert_eq!(store.get(&s("file:///A.clar")), Some(&s("upper")));
    assert_eq!(store.get(&s("file:///a.clar ")), Some(&s("spaced")));
}
