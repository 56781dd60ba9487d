//! Mood entries: one journaled observation each.
use vstd::prelude::*;
use crate::settings::texts;
use vstd::string::StringExecFns;

verus! {

/// A point in time as the journal keeps it: whole seconds since the Unix
/// epoch, the nanoseconds within that second, and the offset of the local
/// time zone from UTC, in seconds.
#[derive(Clone, Copy, PartialEq, Eq, Structural, Debug)]
pub struct Timestamp {
    pub seconds: i64,
    pub nanos: u32,
    pub offset_seconds: i32,
}

/// The first second of chrono's calendar, counted from the Unix epoch.
pub const MIN_CALENDAR_SECONDS: i64 = -8_334_601_228_800;

/// The last second of chrono's calendar, counted from the Unix epoch.
pub const MAX_CALENDAR_SECONDS: i64 = 8_210_266_876_799;

/// The first second whose local time, at any offset, has a four-digit year:
/// 0000-01-01T00:00:00, counted from the Unix epoch.
pub const FIRST_STORABLE_SECONDS: i64 = -62_167_219_200;

/// The last second whose local time has a four-digit year:
/// 9999-12-31T23:59:59, counted from the Unix epoch.
pub const LAST_STORABLE_SECONDS: i64 = 253_402_300_799;

/// The RFC 3339 text that chrono writes for a time given as seconds since
/// the epoch, nanoseconds and a UTC offset in seconds.
pub uninterp spec fn rfc3339_of(seconds: i64, nanos: u32, offset_seconds: i32) -> Seq<char>;

/// What chrono reads from an RFC 3339 text: seconds since the epoch,
/// nanoseconds and UTC offset in seconds, or `None` where the text is not
/// RFC 3339.
pub uninterp spec fn rfc3339_fields(text: Seq<char>) -> Option<(i64, u32, i32)>;

/// The time as the history shows it, `%Y-%m-%d %H:%M` in the time's own
/// offset, as chrono formats it.
pub uninterp spec fn minute_text_of(seconds: i64, nanos: u32, offset_seconds: i32) -> Seq<char>;

/// Relies on std's `SystemTime::now` and `SystemTime::duration_since` with
/// `UNIX_EPOCH`: `true` with the time since the epoch, or, for a clock that
/// reads earlier, `false` with the time from the clock to the epoch, which
/// `SystemTimeError::duration` gives. Seconds and nanoseconds come from
/// `Duration::as_secs` and `Duration::subsec_nanos`, the latter always below
/// one second.
#[verifier::external_body]
fn system_clock() -> (r: (bool, u64, u32))
    ensures
        r.2 < 1_000_000_000,
{
    match std::time::SystemTime::now().duration_since(std::time::UNIX_EPOCH) {
        Ok(d) => (true, d.as_secs(), d.subsec_nanos()),
        Err(e) => (false, e.duration().as_secs(), e.duration().subsec_nanos()),
    }
}

/// Relies on chrono's `DateTime::from_timestamp`, which is `Some` for
/// nanoseconds below one second exactly on the days of chrono's calendar, and
/// on `DateTime::with_timezone` with `Local`, whose offset is a `FixedOffset`
/// and so less than a day. The offset depends on the machine's time zone.
#[verifier::external_body]
fn local_offset_at(seconds: i64, nanos: u32) -> (r: Option<i32>)
    ensures
        r is Some ==> MIN_CALENDAR_SECONDS <= seconds <= MAX_CALENDAR_SECONDS,
        r matches Some(o) ==> -86_400 < o < 86_400,
{
    let utc = chrono::DateTime::from_timestamp(seconds, nanos)?;
    Some(utc.with_timezone(&chrono::Local).offset().local_minus_utc())
}

/// Signed seconds and nanoseconds since the Unix epoch, from a reading of the
/// clock: the time since the epoch (`after_epoch`) or the time up to it.
pub open spec fn unix_time_of(after_epoch: bool, secs: u64, nanos: u32) -> (int, int) {
    if after_epoch {
        (secs as int, nanos as int)
    } else if nanos == 0 {
        (-(secs as int), 0)
    } else {
        (-(secs as int) - 1, 1_000_000_000 - nanos)
    }
}

/// Signed seconds and nanoseconds since the Unix epoch, from a reading of the
/// clock; `None` where the seconds do not fit an `i64`.
pub fn unix_time(after_epoch: bool, secs: u64, nanos: u32) -> (r: Option<(i64, u32)>)
    requires
        nanos < 1_000_000_000,
    ensures
        match r {
            Some(t) => (t.0 as int, t.1 as int) == unix_time_of(after_epoch, secs, nanos),
            None => !(i64::MIN <= unix_time_of(after_epoch, secs, nanos).0 <= i64::MAX),
        },
{
    if after_epoch {
        if secs <= i64::MAX as u64 {
            Some((secs as i64, nanos))
        } else {
            None
        }
    } else if secs <= i64::MAX as u64 {
        if nanos == 0 {
            Some((-(secs as i64), 0))
        } else {
            Some((-(secs as i64) - 1, 1_000_000_000 - nanos))
        }
    } else if nanos == 0 && secs == i64::MAX as u64 + 1 {
        Some((i64::MIN, 0))
    } else {
        None
    }
}

/// Relies on chrono's `DateTime::to_rfc3339`, whose result depends on the
/// time and offset alone. `FixedOffset::east_opt` accepts any offset of less
/// than a day, and `DateTime::from_timestamp` any nanoseconds below one second
/// on a day between the first of `NaiveDate::MIN` and the last of
/// `NaiveDate::MAX`; otherwise `None`.
#[verifier::external_body]
fn rfc3339_text(t: &Timestamp) -> (r: Option<String>)
    ensures
        r matches Some(s) ==> s@ == rfc3339_of(t.seconds, t.nanos, t.offset_seconds),
        t.wf() && t.in_calendar() ==> r is Some,
{
    let offset = chrono::FixedOffset::east_opt(t.offset_seconds)?;
    let d = chrono::DateTime::from_timestamp(t.seconds, t.nanos)?.with_timezone(&offset);
    Some(d.to_rfc3339())
}

/// Relies on chrono's `DateTime::format` with `%Y-%m-%d %H:%M`, whose result
/// depends on the time and offset alone; the time is built as for
/// `rfc3339_text`, so it is `None` on the same inputs.
#[verifier::external_body]
fn minute_text(t: &Timestamp) -> (r: Option<String>)
    ensures
        r matches Some(s) ==> s@ == minute_text_of(t.seconds, t.nanos, t.offset_seconds),
        t.wf() && t.in_calendar() ==> r is Some,
{
    let offset = chrono::FixedOffset::east_opt(t.offset_seconds)?;
    let d = chrono::DateTime::from_timestamp(t.seconds, t.nanos)?.with_timezone(&offset);
    Some(d.format("%Y-%m-%d %H:%M").to_string())
}

/// Relies on chrono's `DateTime::parse_from_rfc3339`: the fields of what it
/// reads, or `None` on a parse error. Its offset is a `FixedOffset`, which is
/// less than a day.
#[verifier::external_body]
fn parse_rfc3339(text: &str) -> (r: Option<Timestamp>)
    ensures
        r matches Some(t) ==> -86_400 < t.offset_seconds < 86_400,
        rfc3339_fields(text@) == match r {
            Some(t) => Some((t.seconds, t.nanos, t.offset_seconds)),
            None => None::<(i64, u32, i32)>,
        },
{
    let d = chrono::DateTime::parse_from_rfc3339(text).ok()?;
    Some(Timestamp {
        seconds: d.timestamp(),
        nanos: d.timestamp_subsec_nanos(),
        offset_seconds: d.offset().local_minus_utc(),
    })
}

impl Timestamp {
    /// Nanoseconds below one second and an offset of less than a day.
    pub open spec fn wf(self) -> bool {
        self.nanos < 1_000_000_000 && -86_400 < self.offset_seconds < 86_400
    }

    /// The seconds fall on a day that chrono's calendar holds: from
    /// January 1 of year -262143 to December 31 of year 262142, UTC.
    pub open spec fn in_calendar(self) -> bool {
        MIN_CALENDAR_SECONDS <= self.seconds <= MAX_CALENDAR_SECONDS
    }

    /// The local time has a year of four digits, which RFC 3339 text, and so
    /// the stored form, can hold.
    pub open spec fn storable(self) -> bool {
        FIRST_STORABLE_SECONDS <= self.seconds + self.offset_seconds <= LAST_STORABLE_SECONDS
    }

    /// Tells whether the local time has a year of four digits.
    pub fn is_storable(&self) -> (r: bool)
        ensures
            r == self.storable(),
    {
        let local: i128 = self.seconds as i128 + self.offset_seconds as i128;
        FIRST_STORABLE_SECONDS as i128 <= local && local <= LAST_STORABLE_SECONDS as i128
    }

    /// The time now, at the machine's offset; `None` where the clock reads
    /// outside chrono's calendar or no offset can be had for it.
    pub fn now() -> (r: Option<Timestamp>)
        ensures
            r matches Some(t) ==> t.wf() && t.in_calendar(),
    {
        let (after_epoch, secs, nanos) = system_clock();
        match unix_time(after_epoch, secs, nanos) {
            None => None,
            Some((seconds, nanos)) => match local_offset_at(seconds, nanos) {
                None => None,
                Some(offset_seconds) => Some(Timestamp { seconds, nanos, offset_seconds }),
            },
        }
    }

    /// Tells whether the timestamp is well formed.
    pub fn is_well_formed(&self) -> (r: bool)
        ensures
            r == self.wf(),
    {
        self.nanos < 1_000_000_000 && -86_400 < self.offset_seconds && self.offset_seconds < 86_400
    }
}

/// One mood entry: an identity that the store assigns, the time it was made,
/// a mood label, an optional note and a set of tags.
pub struct Entry {
    pub id: Option<i32>,
    pub date: Timestamp,
    pub mood: String,
    pub note: Option<String>,
    pub tags: Vec<String>,
}

/// An entry with its text as character sequences.
pub struct EntryView {
    pub id: Option<i32>,
    pub date: Timestamp,
    pub mood: Seq<char>,
    pub note: Option<Seq<char>>,
    pub tags: Seq<Seq<char>>,
}

/// The characters of an optional string.
pub open spec fn opt_text(s: Option<String>) -> Option<Seq<char>> {
    match s {
        Some(t) => Some(t@),
        None => None,
    }
}

impl View for Entry {
    type V = EntryView;

    open spec fn view(&self) -> EntryView {
        EntryView {
            id: self.id,
            date: self.date,
            mood: self.mood@,
            note: opt_text(self.note),
            tags: texts(self.tags@),
        }
    }
}

impl EntryView {
    /// The same entry under another identity.
    pub open spec fn with_id(self, id: Option<i32>) -> EntryView {
        EntryView { id, ..self }
    }

    /// The same fields, whatever the identity.
    pub open spec fn same_fields(self, other: EntryView) -> bool {
        self.with_id(None) == other.with_id(None)
    }

    /// What the journal accepts: a mood label and a well-formed time that
    /// can be stored.
    pub open spec fn valid(self) -> bool {
        self.mood.len() > 0 && self.date.wf() && self.date.storable()
    }
}

/// The text that the history shows for an entry, given the text of its
/// time: time, mood and note, the note empty where there is none.
pub open spec fn history_line_of(time: Seq<char>, e: EntryView) -> Seq<char> {
    time + " \u{2014} "@ + e.mood + " ("@ + match e.note {
        Some(n) => n,
        None => Seq::empty(),
    } + ")"@
}

/// `s` without any occurrence of `t`, the rest in order.
pub open spec fn without(s: Seq<Seq<char>>, t: Seq<char>) -> Seq<Seq<char>>
    decreases s.len(),
{
    if s.len() == 0 {
        s
    } else if s.last() == t {
        without(s.drop_last(), t)
    } else {
        without(s.drop_last(), t).push(s.last())
    }
}

/// The tags after `t` is selected (`on`) or deselected: selecting adds it at
/// the end unless it is there already; deselecting removes every copy.
pub open spec fn tags_after(tags: Seq<Seq<char>>, t: Seq<char>, on: bool) -> Seq<Seq<char>> {
    if on {
        if tags.contains(t) {
            tags
        } else {
            tags.push(t)
        }
    } else {
        without(tags, t)
    }
}

/// Why an entry was refused.
#[derive(Clone, Copy, PartialEq, Eq, Structural, Debug)]
pub enum EntryError {
    /// The mood label is empty.
    EmptyMood,
    /// The time stamp is not well formed, or its year has more than four
    /// digits.
    MalformedTimestamp,
    /// No identity is left to assign.
    StoreFull,
}

/// The reason an entry is refused, if any.
pub open spec fn validation_error(e: EntryView) -> Option<EntryError> {
    if e.mood.len() == 0 {
        Some(EntryError::EmptyMood)
    } else if !e.date.wf() || !e.date.storable() {
        Some(EntryError::MalformedTimestamp)
    } else {
        None
    }
}

fn copy_strings(v: &Vec<String>) -> (r: Vec<String>)
    ensures
        texts(r@) == texts(v@),
{
    let mut r: Vec<String> = Vec::new();
    let mut i: usize = 0;
    while i < v.len()
        invariant
            i <= v@.len(),
            r@.len() == i,
            forall|j: int| 0 <= j < i ==> #[trigger] r@[j]@ == v@[j]@,
        decreases v@.len() - i,
    {
        r.push(v[i].clone());
        i += 1;
    }
    assert(texts(r@) =~= texts(v@));
    r
}

impl Default for Entry {
    /// An entry made now, not yet stored, with the mood `Stable`, no note and
    /// no tags. Where the clock cannot be read as a time of chrono's
    /// calendar, the entry is dated at the Unix epoch, UTC.
    fn default() -> (r: Entry)
        ensures
            r.id is None,
            r.date.wf(),
            r.date.in_calendar(),
            r.mood@ == "Stable"@,
            r.note is None,
            r.tags@.len() == 0,
    {
        let date = match Timestamp::now() {
            Some(t) => t,
            None => Timestamp { seconds: 0, nanos: 0, offset_seconds: 0 },
        };
        Entry { id: None, date, mood: String::from_str("Stable"), note: None, tags: Vec::new() }
    }
}

impl Entry {
    /// A new entry, not yet stored: no identity.
    pub fn new(date: Timestamp, mood: String, note: Option<String>, tags: Vec<String>) -> (r: Entry)
        ensures
            r@ == (EntryView { id: None, date, mood: mood@, note: opt_text(note), tags: texts(tags@) }),
    {
        Entry { id: None, date, mood, note, tags }
    }

    /// An entry read back from storage: its time as RFC 3339 text, its mood
    /// and its note. Refused where the text is not RFC 3339 or the entry is
    /// not valid.
    pub fn from_row(date: &str, mood: String, note: Option<String>) -> (r: Result<Entry, EntryError>)
        ensures
            Entry::outcome_of_stored(match rfc3339_fields(date@) {
                Some(f) => Some(Timestamp { seconds: f.0, nanos: f.1, offset_seconds: f.2 }),
                None => None,
            }, mood@, opt_text(note)) == match r {
                Ok(e) => Ok(e@),
                Err(err) => Err(err),
            },
    {
        Entry::from_stored(parse_rfc3339(date), mood, note)
    }

    /// What reading back an entry gives, given the time that was read from
    /// its text, if any.
    pub open spec fn outcome_of_stored(date: Option<Timestamp>, mood: Seq<char>, note: Option<Seq<char>>) -> Result<EntryView, EntryError> {
        match date {
            None => Err(EntryError::MalformedTimestamp),
            Some(t) => {
                let e = EntryView { id: None, date: t, mood, note, tags: Seq::empty() };
                match validation_error(e) {
                    Some(err) => Err(err),
                    None => Ok(e),
                }
            },
        }
    }

    /// An entry read back from storage, given the time read from its text
    /// (`None` where that text could not be read), its mood and its note.
    pub fn from_stored(date: Option<Timestamp>, mood: String, note: Option<String>) -> (r: Result<Entry, EntryError>)
        ensures
            Entry::outcome_of_stored(date, mood@, opt_text(note)) == match r {
                Ok(e) => Ok(e@),
                Err(err) => Err(err),
            },
    {
        match date {
            None => Err(EntryError::MalformedTimestamp),
            Some(t) => {
                let e = Entry::new(t, mood, note, Vec::new());
                assert(texts(e.tags@) =~= Seq::empty());
                match e.validate() {
                    Ok(()) => Ok(e),
                    Err(err) => Err(err),
                }
            },
        }
    }

    /// The entry's time as RFC 3339 text, the form in which it is stored;
    /// `None` only for a time that is not well formed or lies outside
    /// chrono's calendar.
    pub fn date_text(&self) -> (r: Option<String>)
        ensures
            r matches Some(s) ==> s@ == rfc3339_of(self.date.seconds, self.date.nanos, self.date.offset_seconds),
            self.date.wf() && self.date.in_calendar() ==> r is Some,
    {
        rfc3339_text(&self.date)
    }

    /// The line that the history shows for the entry, given the text of its
    /// time.
    pub fn history_line_at(&self, time: &str) -> (r: String)
        ensures
            r@ == history_line_of(time@, self@),
    {
        let mut r = String::from_str(time);
        r.append(" \u{2014} ");
        r.append(self.mood.as_str());
        r.append(" (");
        match &self.note {
            Some(n) => r.append(n.as_str()),
            None => {},
        }
        r.append(")");
        proof {
            assert(r@ =~= history_line_of(time@, self@));
        }
        r
    }

    /// The line that the history shows for the entry: its time to the
    /// minute, its mood and its note; `None` only for a time that is not
    /// well formed or lies outside chrono's calendar.
    pub fn history_line(&self) -> (r: Option<String>)
        ensures
            r matches Some(s) ==> s@ == history_line_of(
                minute_text_of(self.date.seconds, self.date.nanos, self.date.offset_seconds),
                self@,
            ),
            self.date.wf() && self.date.in_calendar() ==> r is Some,
    {
        match minute_text(&self.date) {
            Some(t) => Some(self.history_line_at(t.as_str())),
            None => None,
        }
    }

    /// Selects the tag `tag` for the entry (`selected`) or deselects it.
    pub fn select_tag(&mut self, tag: &str, selected: bool)
        ensures
            final(self)@ == (EntryView { tags: tags_after(old(self)@.tags, tag@, selected), ..old(self)@ }),
    {
        let ghost s = texts(self.tags@);
        let wanted = String::from_str(tag);
        let mut kept: Vec<String> = Vec::new();
        let mut found: bool = false;
        let mut i: usize = 0;
        while i < self.tags.len()
            invariant
                i <= self.tags@.len(),
                s == texts(self.tags@),
                texts(kept@) == without(s.take(i as int), tag@),
                found == s.take(i as int).contains(tag@),
                wanted@ == tag@,
            decreases self.tags@.len() - i,
        {
            let ghost prev = s.take(i as int);
            let ghost next = s.take(i + 1);
            assert(next.drop_last() =~= prev);
            assert(s[i as int] == self.tags@[i as int]@);
            assert(next.last() == self.tags@[i as int]@);
            if self.tags[i] == wanted {
                found = true;
                assert(next.contains(tag@)) by {
                    assert(next[i as int] == tag@);
                }
            } else {
                kept.push(self.tags[i].clone());
                assert(texts(kept@) =~= without(prev, tag@).push(self.tags@[i as int]@));
                assert(next.contains(tag@) == prev.contains(tag@)) by {
                    if next.contains(tag@) {
                        let k = choose|k: int| 0 <= k < next.len() && next[k] == tag@;
                        assert(k != i);
                        assert(prev[k] == tag@);
                    }
                    if prev.contains(tag@) {
                        let k = choose|k: int| 0 <= k < prev.len() && prev[k] == tag@;
                        assert(next[k] == tag@);
                    }
                }
            }
            i += 1;
        }
        assert(s.take(self.tags@.len() as int) =~= s);
        if selected {
            if !found {
                self.tags.push(wanted);
                assert(texts(self.tags@) =~= s.push(tag@));
            }
        } else {
            self.tags = kept;
        }
    }

    /// A copy of the entry, field by field.
    pub fn duplicate(&self) -> (r: Entry)
        ensures
            r@ == self@,
    {
        let note = match &self.note {
            Some(n) => Some(n.clone()),
            None => None,
        };
        Entry {
            id: self.id,
            date: self.date,
            mood: self.mood.clone(),
            note,
            tags: copy_strings(&self.tags),
        }
    }

    /// Checks what the journal asks of an entry: a mood label that is not
    /// empty, then a well-formed time.
    pub fn validate(&self) -> (r: Result<(), EntryError>)
        ensures
            r == match validation_error(self@) {
                Some(err) => Err(err),
                None => Ok(()),
            },
    {
        if self.mood.as_str().is_empty() {
            Err(EntryError::EmptyMood)
        } else if !self.date.is_well_formed() || !self.date.is_storable() {
            Err(EntryError::MalformedTimestamp)
        } else {
            Ok(())
        }
    }
}

} // verus!
