use emu_studio::ipc::saved::{delete_named, save_into, saved_body, summaries_newest_first, SavedProfile};

fn names(store: &[SavedProfile]) -> Vec<String> {
    summaries_newest_first(store).into_iter().map(|s| s.name).collect()
}

#[test]
fn saved_profiles_crud() {
    let mut store: Vec<SavedProfile> = Vec::new();
    assert!(summaries_newest_first(&store).is_empty());
    save_into(&mut store, "QA baseline", "checkout regressions", r#"{"schemaVersion":"1.0"}"#, "2024-05-01T10:00:00Z");
    save_into(
        &mut store,
        "QA baseline",
        "updated",
        r#"{"schemaVersion":"1.0","name":"x"}"#,
        "2024-05-02T10:00:00Z",
    );
    let list = summaries_newest_first(&store);
    assert_eq!(list.len(), 1);
    assert_eq!(list[0].name, "QA baseline");
    assert_eq!(list[0].description, "updated");
    assert!(saved_body(&store, "QA baseline").unwrap().contains("\"name\":\"x\""));
    let (store, removed) = delete_named(store, "QA baseline");
    assert!(removed);
    let (store, removed_again) = delete_named(store, "QA baseline");
    assert!(!removed_again);
    assert!(store.is_empty());
}

#[test]
fn saving_again_keeps_first_saved_time_and_place() {
    let mut store: Vec<SavedProfile> = Vec::new();
    save_into(&mut store, "a", "one", "{}", "2024-01-01T00:00:00Z");
    save_into(&mut store, "b", "two", "{}", "2024-02-01T00:00:00Z");
    save_into(&mut store, "a", "one again", "{\"v\":2}", "2024-03-01T00:00:00Z");
    assert_eq!(store.len(), 2);
    assert_eq!(store[0].name, "a");
    assert_eq!(store[0].created_at, "2024-01-01T00:00:00Z");
    assert_eq!(store[0].description, "one again");
    assert_eq!(store[0].body, "{\"v\":2}");
    assert_eq!(store[1].name, "b");
}

#[test]
fn listing_is_newest_first_then_by_name() {
    let mut store: Vec<SavedProfile> = Vec::new();
    save_into(&mut store, "old", "", "{}", "2024-01-01T00:00:00Z");
    save_into(&mut store, "zeta", "", "{}", "2024-06-01T00:00:00Z");
    save_into(&mut store, "alpha", "", "{}", "2024-06-01T00:00:00Z");
    save_into(&mut store, "mid", "", "{}", "2024-03-01T00:00:00Z");
    assert_eq!(names(&store), vec!["alpha", "zeta", "mid", "old"]);
}

#[test]
fn reading_a_missing_or_deleted_name_finds_nothing() {
    let mut store: Vec<SavedProfile> = Vec::new();
    assert_eq!(saved_body(&store, "x"), None);
    save_into(&mut store, "x", "", "{\"k\":1}", "2024-01-01T00:00:00Z");
    save_into(&mut store, "y", "", "{\"k\":2}", "2024-01-02T00:00:00Z");
    assert_eq!(saved_body(&store, "x").as_deref(), Some("{\"k\":1}"));
    let (store, removed) = delete_named(store, "x");
    assert!(removed);
    assert_eq!(saved_body(&store, "x"), None);
    assert_eq!(saved_body(&store, "y").as_deref(), Some("{\"k\":2}"));
}
