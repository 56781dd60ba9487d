//! The user's editable vocabulary: moods, tags and goals, each an ordered
//! list, with a built-in default for each list that comes back empty.
use vstd::prelude::*;
use crate::models::SettingsTab;

verus! {

broadcast use vstd::string::group_string_axioms;

/// The characters of each string of a list, in order.
pub open spec fn texts(v: Seq<String>) -> Seq<Seq<char>> {
    v.map_values(|s: String| s@)
}

/// The moods offered when the stored list is empty.
pub open spec fn default_moods() -> Seq<Seq<char>> {
    seq!["Happy"@, "Calm"@, "Tired"@, "Sad"@, "Motivated"@, "Exited"@]
}

/// The tags offered when the stored list is empty.
pub open spec fn default_tags() -> Seq<Seq<char>> {
    seq!["#thinking"@, "#stressed"@, "#relaxed"@, "#unsure"@, "#angry"@]
}

/// The goals offered when the stored list is empty.
pub open spec fn default_goals() -> Seq<Seq<char>> {
    seq!["No Alcohol"@, "No Cigarettes"@]
}

/// A list as it stands after loading: kept when it holds anything, else the
/// given default.
pub open spec fn filled(list: Seq<Seq<char>>, default: Seq<Seq<char>>) -> Seq<Seq<char>> {
    if list.len() == 0 {
        default
    } else {
        list
    }
}

/// The vocabulary that the journal offers when a mood entry is made.
#[derive(Clone)]
pub struct UserSettings {
    pub available_moods: Vec<String>,
    pub tags: Vec<String>,
    pub goals: Vec<String>,
}

/// The vocabulary as three lists of character sequences.
pub struct SettingsView {
    pub available_moods: Seq<Seq<char>>,
    pub tags: Seq<Seq<char>>,
    pub goals: Seq<Seq<char>>,
}

impl View for UserSettings {
    type V = SettingsView;

    open spec fn view(&self) -> SettingsView {
        SettingsView {
            available_moods: texts(self.available_moods@),
            tags: texts(self.tags@),
            goals: texts(self.goals@),
        }
    }
}

impl SettingsView {
    /// No list is empty.
    pub open spec fn complete(self) -> bool {
        self.available_moods.len() > 0 && self.tags.len() > 0 && self.goals.len() > 0
    }

    /// Each empty list replaced by its default, the others kept.
    pub open spec fn with_defaults(self) -> SettingsView {
        SettingsView {
            available_moods: filled(self.available_moods, default_moods()),
            tags: filled(self.tags, default_tags()),
            goals: filled(self.goals, default_goals()),
        }
    }

    /// The vocabulary with every list empty.
    pub open spec fn empty() -> SettingsView {
        SettingsView { available_moods: Seq::empty(), tags: Seq::empty(), goals: Seq::empty() }
    }
}

fn strings_of(items: &[&str]) -> (r: Vec<String>)
    ensures
        r@.len() == items@.len(),
        forall|i: int| 0 <= i < items@.len() ==> #[trigger] r@[i]@ == items@[i]@,
{
    let mut r: Vec<String> = Vec::new();
    let mut i: usize = 0;
    while i < items.len()
        invariant
            i <= items@.len(),
            r@.len() == i,
            forall|j: int| 0 <= j < i ==> #[trigger] r@[j]@ == items@[j]@,
        decreases items@.len() - i,
    {
        r.push(items[i].to_string());
        i += 1;
    }
    r
}

/// The built-in list of moods.
pub fn default_mood_list() -> (r: Vec<String>)
    ensures
        texts(r@) == default_moods(),
{
    let r = strings_of(&["Happy", "Calm", "Tired", "Sad", "Motivated", "Exited"]);
    assert(texts(r@) =~= default_moods());
    r
}


/// The built-in list of tags.
pub fn default_tag_list() -> (r: Vec<String>)
    ensures
        texts(r@) == default_tags(),
{
    let r = strings_of(&["#thinking", "#stressed", "#relaxed", "#unsure", "#angry"]);
    assert(texts(r@) =~= default_tags());
    r
}

/// The built-in list of goals.
pub fn default_goal_list() -> (r: Vec<String>)
    ensures
        texts(r@) == default_goals(),
{
    let r = strings_of(&["No Alcohol", "No Cigarettes"]);
    assert(texts(r@) =~= default_goals());
    r
}

impl Default for UserSettings {
    /// Every list empty: what a missing or unreadable settings document gives.
    fn default() -> (r: UserSettings)
        ensures
            r@ == SettingsView::empty(),
    {
        let r = UserSettings { available_moods: Vec::new(), tags: Vec::new(), goals: Vec::new() };
        assert(r@.available_moods =~= Seq::empty());
        assert(r@.tags =~= Seq::empty());
        assert(r@.goals =~= Seq::empty());
        r
    }
}

impl UserSettings {
    /// Replaces each empty list by its built-in default and keeps the others.
    pub fn fill_defaults(&mut self)
        ensures
            final(self)@ == old(self)@.with_defaults(),
    {
        if self.available_moods.len() == 0 {
            self.available_moods = default_mood_list();
        }
        if self.tags.len() == 0 {
            self.tags = default_tag_list();
        }
        if self.goals.len() == 0 {
            self.goals = default_goal_list();
        }
    }

    /// Adds a blank item at the end of the list that the settings tab `tab`
    /// edits; the general tab edits no list.
    pub fn add_blank_item(&mut self, tab: SettingsTab)
        ensures
            final(self)@ == match tab {
                SettingsTab::General => old(self)@,
                SettingsTab::Moods => SettingsView { available_moods: old(self)@.available_moods.push(Seq::empty()), ..old(self)@ },
                SettingsTab::Tags => SettingsView { tags: old(self)@.tags.push(Seq::empty()), ..old(self)@ },
                SettingsTab::Goals => SettingsView { goals: old(self)@.goals.push(Seq::empty()), ..old(self)@ },
            },
    {
        let ghost before = self@;
        match tab {
            SettingsTab::General => {},
            SettingsTab::Moods => {
                self.available_moods.push(String::new());
                assert(self@.available_moods =~= before.available_moods.push(Seq::empty()));
            },
            SettingsTab::Tags => {
                self.tags.push(String::new());
                assert(self@.tags =~= before.tags.push(Seq::empty()));
            },
            SettingsTab::Goals => {
                self.goals.push(String::new());
                assert(self@.goals =~= before.goals.push(Seq::empty()));
            },
        }
    }

    /// The vocabulary to work with, from the stored document: `None` where it
    /// is missing or cannot be read, in which case every list takes its
    /// default. Never fails.
    pub fn load(stored: Option<UserSettings>) -> (r: UserSettings)
        ensures
            r@ == match stored {
                Some(s) => s@.with_defaults(),
                None => SettingsView::empty().with_defaults(),
            },
            r@.complete(),
    {
        let mut r = match stored {
            Some(s) => s,
            None => UserSettings::default(),
        };
        r.fill_defaults();
        proof {
            load_fills_exactly_the_empty_lists(r@);
        }
        r
    }
}

/// Loading leaves no list empty: each empty list takes its default and each
/// list that holds anything is kept as it is.
pub proof fn load_fills_exactly_the_empty_lists(s: SettingsView)
    ensures
        s.with_defaults().complete(),
        s.available_moods.len() > 0 ==> s.with_defaults().available_moods == s.available_moods,
        s.tags.len() > 0 ==> s.with_defaults().tags == s.tags,
        s.goals.len() > 0 ==> s.with_defaults().goals == s.goals,
        s.available_moods.len() == 0 ==> s.with_defaults().available_moods == default_moods(),
        s.tags.len() == 0 ==> s.with_defaults().tags == default_tags(),
        s.goals.len() == 0 ==> s.with_defaults().goals == default_goals(),
{
}

/// A vocabulary with no empty list loads as itself, so saving it right after
/// loading writes back the lists that were read; and loading twice is loading
/// once.
pub proof fn load_keeps_complete_settings(s: SettingsView)
    ensures
        s.complete() ==> s.with_defaults() == s,
        s.with_defaults().with_defaults() == s.with_defaults(),
{
    load_fills_exactly_the_empty_lists(s);
    load_fills_exactly_the_empty_lists(s.with_defaults());
}

} // verus!
