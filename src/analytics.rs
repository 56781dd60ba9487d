//! Counts of entries per mood label.
use vstd::prelude::*;
use crate::mood::Entry;

verus! {

/// The mood labels of a sequence of entries, in order.
pub open spec fn moods_of(entries: Seq<Entry>) -> Seq<Seq<char>> {
    entries.map_values(|e: Entry| e.mood@)
}

/// How often `m` occurs in `s`.
pub open spec fn occurrences(s: Seq<Seq<char>>, m: Seq<char>) -> nat
    decreases s.len(),
{
    if s.len() == 0 {
        0
    } else {
        occurrences(s.drop_last(), m) + if s.last() == m { 1nat } else { 0nat }
    }
}

/// `r` holds each mood of `s` once, with the number of times it occurs, and
/// nothing else.
pub open spec fn is_summary(r: Seq<(String, usize)>, s: Seq<Seq<char>>) -> bool {
    &&& forall|j: int, k: int| 0 <= j < k < r.len() ==> r[j].0@ != r[k].0@
    &&& forall|j: int| 0 <= j < r.len() ==> #[trigger] r[j].1 as nat == occurrences(s, r[j].0@)
    &&& forall|j: int| 0 <= j < r.len() ==> #[trigger] occurrences(s, r[j].0@) > 0
    &&& forall|m: Seq<char>| #[trigger] occurrences(s, m) > 0 ==> exists|j: int| 0 <= j < r.len() && #[trigger] r[j].0@ == m
}

proof fn occurrences_bounded(s: Seq<Seq<char>>, m: Seq<char>)
    ensures
        occurrences(s, m) <= s.len(),
    decreases s.len(),
{
    if s.len() > 0 {
        occurrences_bounded(s.drop_last(), m);
    }
}

/// The number of entries for each mood label that occurs among `entries`,
/// each label once; the order of the pairs is not significant.
pub fn mood_summary(entries: &[Entry]) -> (r: Vec<(String, usize)>)
    ensures
        is_summary(r@, moods_of(entries@)),
{
    let ghost s = moods_of(entries@);
    let mut keys: Vec<String> = Vec::new();
    let mut counts: Vec<usize> = Vec::new();
    let mut i: usize = 0;
    while i < entries.len()
        invariant
            i <= entries@.len(),
            s == moods_of(entries@),
            keys@.len() == counts@.len(),
            forall|j: int, k: int| 0 <= j < k < keys@.len() ==> keys@[j]@ != keys@[k]@,
            forall|j: int| 0 <= j < keys@.len() ==> #[trigger] counts@[j] as nat == occurrences(s.take(i as int), keys@[j]@),
            forall|j: int| 0 <= j < keys@.len() ==> #[trigger] occurrences(s.take(i as int), keys@[j]@) > 0,
            forall|m: Seq<char>| #[trigger] occurrences(s.take(i as int), m) > 0 ==> exists|j: int| 0 <= j < keys@.len() && #[trigger] keys@[j]@ == m,
            forall|j: int| 0 <= j < counts@.len() ==> #[trigger] counts@[j] <= i,
        decreases entries@.len() - i,
    {
        let mood = &entries[i].mood;
        let ghost prev = s.take(i as int);
        let ghost next = s.take(i + 1);
        assert(next.drop_last() =~= prev);
        assert(next.last() == mood@);
        let ghost old_keys = keys@;
        let ghost old_counts = counts@;
        let mut j: usize = 0;
        let mut found: bool = false;
        while j < keys.len() && !found
            invariant
                j <= keys@.len(),
                found ==> j < keys@.len() && keys@[j as int]@ == mood@,
                !found ==> forall|k: int| 0 <= k < j ==> keys@[k]@ != mood@,
            decreases keys@.len() - j + if found { 0int } else { 1int },
        {
            if keys[j] == *mood {
                found = true;
            } else {
                j += 1;
            }
        }
        proof {
            occurrences_bounded(prev, mood@);
        }
        if found {
            let c = counts[j];
            counts.set(j, c + 1);
        } else {
            keys.push(mood.clone());
            counts.push(1);
        }
        assert forall|k: int| 0 <= k < old_keys.len() implies #[trigger] keys@[k]@ == old_keys[k]@ by {}
        assert forall|k: int| 0 <= k < keys@.len() implies #[trigger] occurrences(next, keys@[k]@) > 0 && counts@[k] as nat == occurrences(next, keys@[k]@) by {
            assert(occurrences(next, keys@[k]@) == occurrences(prev, keys@[k]@) + if keys@[k]@ == mood@ { 1nat } else { 0nat });
            if k < old_keys.len() {
                assert(occurrences(prev, old_keys[k]@) > 0);
            }
        }
        assert forall|m: Seq<char>| #[trigger] occurrences(next, m) > 0 implies exists|k: int| 0 <= k < keys@.len() && #[trigger] keys@[k]@ == m by {
            if m != mood@ {
                assert(occurrences(prev, m) > 0);
                let k = choose|k: int| 0 <= k < old_keys.len() && #[trigger] old_keys[k]@ == m;
                assert(keys@[k]@ == m);
            } else if found {
                assert(keys@[j as int]@ == m);
            } else {
                assert(keys@[keys@.len() - 1]@ == m);
            }
        }
        i += 1;
    }
    assert(s.take(entries@.len() as int) =~= s);
    let mut r: Vec<(String, usize)> = Vec::new();
    let mut j: usize = 0;
    while j < keys.len()
        invariant
            j <= keys@.len(),
            keys@.len() == counts@.len(),
            r@.len() == j,
            forall|k: int| 0 <= k < j ==> #[trigger] r@[k].0@ == keys@[k]@ && r@[k].1 == counts@[k],
        decreases keys@.len() - j,
    {
        r.push((keys[j].clone(), counts[j]));
        j += 1;
    }
    assert forall|m: Seq<char>| #[trigger] occurrences(s, m) > 0 implies exists|k: int| 0 <= k < r@.len() && #[trigger] r@[k].0@ == m by {
        let k = choose|k: int| 0 <= k < keys@.len() && #[trigger] keys@[k]@ == m;
        assert(r@[k].0@ == m);
    }
    r
}

/// Counting the moods of no entries gives no counts at all.
pub proof fn summary_of_no_entries_is_empty(r: Seq<(String, usize)>)
    requires
        is_summary(r, Seq::empty()),
    ensures
        r.len() == 0,
{
    if r.len() > 0 {
        assert(occurrences(Seq::empty(), r[0].0@) > 0);
    }
}

} // verus!
