use moodflow::analytics::mood_summary;
use moodflow::mood::{Entry, Timestamp};

fn entries(moods: &[&str]) -> Vec<Entry> {
    moods
        .iter()
        .map(|m| Entry::new(Timestamp { seconds: 0, nanos: 0, offset_seconds: 0 }, m.to_string(), None, Vec::new()))
        .collect()
}

#[test]
fn summary_counts_each_mood() {
    let mut summary = mood_summary(&entries(&["Happy", "Happy", "Sad"]));
    summary.sort();
    assert_eq!(summary, vec![("Happy".to_string(), 2), ("Sad".to_string(), 1)]);
}

#[test]
fn summary_of_nothing_is_empty() {
    assert!(mood_summary(&[]).is_empty());
}

#[test]
fn summary_distinguishes_case() {
    let mut summary = mood_summary(&entries(&["Calm", "calm", "Tired", "Calm"]));
    summary.sort();
    assert_eq!(
        summary,
        vec![("Calm".to_string(), 2), ("Tired".to_string(), 1), ("calm".to_string(), 1)]
    );
}
