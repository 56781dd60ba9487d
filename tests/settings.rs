use moodflow::models::SettingsTab;
use moodflow::settings::UserSettings;

fn strings(items: &[&str]) -> Vec<String> {
    items.iter().map(|s| s.to_string()).collect()
}

#[test]
fn load_without_document_gives_all_defaults() {
    let s = UserSettings::load(None);
    assert_eq!(
        s.available_moods,
        strings(&["Happy", "Calm", "Tired", "Sad", "Motivated", "Exited"])
    );
    assert_eq!(
        s.tags,
        strings(&["#thinking", "#stressed", "#relaxed", "#unsure", "#angry"])
    );
    assert_eq!(s.goals, strings(&["No Alcohol", "No Cigarettes"]));
}

#[test]
fn load_fills_only_empty_lists() {
    let stored = UserSettings {
        available_moods: strings(&["Joyful"]),
        tags: Vec::new(),
        goals: strings(&["Run"]),
    };
    let s = UserSettings::load(Some(stored));
    assert_eq!(s.available_moods, strings(&["Joyful"]));
    assert_eq!(s.tags.len(), 5);
    assert_eq!(s.tags[0], "#thinking");
    assert_eq!(s.goals, strings(&["Run"]));
}

#[test]
fn load_fills_every_empty_list_of_a_document() {
    let s = UserSettings::load(Some(UserSettings::default()));
    assert_eq!(s.available_moods.len(), 6);
    assert_eq!(s.tags.len(), 5);
    assert_eq!(s.goals.len(), 2);
}

#[test]
fn load_keeps_a_complete_document_as_it_is() {
    let stored = UserSettings {
        available_moods: strings(&["A", "B"]),
        tags: strings(&["#x"]),
        goals: strings(&["G"]),
    };
    let once = UserSettings::load(Some(stored.clone()));
    assert_eq!(once.available_moods, stored.available_moods);
    assert_eq!(once.tags, stored.tags);
    assert_eq!(once.goals, stored.goals);
    let twice = UserSettings::load(Some(once.clone()));
    assert_eq!(twice.available_moods, once.available_moods);
    assert_eq!(twice.tags, once.tags);
    assert_eq!(twice.goals, once.goals);
}

#[test]
fn fill_defaults_on_empty_settings() {
    let mut s = UserSettings::default();
    s.fill_defaults();
    assert_eq!(s.available_moods[5], "Exited");
    assert_eq!(s.tags[4], "#angry");
    assert_eq!(s.goals[1], "No Cigarettes");
}

#[test]
fn add_blank_item_goes_to_the_tab_list() {
    let mut s = UserSettings::load(None);
    s.add_blank_item(SettingsTab::Moods);
    assert_eq!(s.available_moods.len(), 7);
    assert_eq!(s.available_moods[6], "");
    s.add_blank_item(SettingsTab::Tags);
    assert_eq!(s.tags.len(), 6);
    s.add_blank_item(SettingsTab::Goals);
    assert_eq!(s.goals.len(), 3);
    s.add_blank_item(SettingsTab::General);
    assert_eq!(s.available_moods.len(), 7);
    assert_eq!(s.tags.len(), 6);
    assert_eq!(s.goals.len(), 3);
}
