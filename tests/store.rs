use moodflow::analytics::mood_summary;
use moodflow::mood::{Entry, EntryError, Timestamp};
use moodflow::store::EntryStore;

fn at(seconds: i64) -> Timestamp {
    Timestamp { seconds, nanos: 0, offset_seconds: 0 }
}

fn entry(mood: &str) -> Entry {
    Entry::new(at(1_700_000_000), mood.to_string(), None, Vec::new())
}

#[test]
fn append_three_entries_then_list_and_summarize() {
    let mut store = EntryStore::new();
    for mood in ["Happy", "Sad", "Happy"] {
        assert!(store.append(entry(mood)).is_ok());
    }
    let all = store.list_all();
    assert_eq!(all.len(), 3);
    assert_eq!(all[0].mood, "Happy");
    assert_eq!(all[1].mood, "Sad");
    assert_eq!(all[2].mood, "Happy");
    assert!(all.iter().all(|e| e.note.is_none()));
    let mut summary = mood_summary(all);
    summary.sort();
    assert_eq!(summary, vec![("Happy".to_string(), 2), ("Sad".to_string(), 1)]);
}

#[test]
fn appended_identities_are_unique_and_listed() {
    let mut store = EntryStore::new();
    let first = store
        .append(Entry::new(at(10), "Calm".to_string(), Some("tea".to_string()), vec!["#relaxed".to_string()]))
        .unwrap();
    let second = store.append(entry("Tired")).unwrap();
    assert_ne!(first, second);
    assert_eq!(first, 1);
    assert_eq!(second, 2);
    let all = store.list_all();
    let e = all.iter().find(|e| e.id == Some(first)).unwrap();
    assert_eq!(e.mood, "Calm");
    assert_eq!(e.note.as_deref(), Some("tea"));
    assert_eq!(e.tags, vec!["#relaxed".to_string()]);
    assert_eq!(e.date, at(10));
}

#[test]
fn append_replaces_a_given_identity() {
    let mut store = EntryStore::new();
    let mut e = entry("Happy");
    e.id = Some(42);
    assert_eq!(store.append(e), Ok(1));
    assert_eq!(store.list_all()[0].id, Some(1));
}

#[test]
fn empty_mood_is_rejected_and_store_unchanged() {
    let mut store = EntryStore::new();
    store.append(entry("Happy")).unwrap();
    assert_eq!(store.append(entry("")), Err(EntryError::EmptyMood));
    assert_eq!(store.len(), 1);
    assert_eq!(store.list_all()[0].mood, "Happy");
}

#[test]
fn malformed_timestamp_is_rejected() {
    let mut store = EntryStore::new();
    let bad_nanos = Entry::new(
        Timestamp { seconds: 0, nanos: 1_000_000_000, offset_seconds: 0 },
        "Happy".to_string(),
        None,
        Vec::new(),
    );
    assert_eq!(store.append(bad_nanos), Err(EntryError::MalformedTimestamp));
    let bad_offset = Entry::new(
        Timestamp { seconds: 0, nanos: 0, offset_seconds: 86_400 },
        "Happy".to_string(),
        None,
        Vec::new(),
    );
    assert_eq!(store.append(bad_offset), Err(EntryError::MalformedTimestamp));
    assert_eq!(store.len(), 0);
}

#[test]
fn empty_store_lists_nothing() {
    let store = EntryStore::new();
    assert!(store.list_all().is_empty());
    assert!(mood_summary(store.list_all()).is_empty());
}
