//! Time entries as the tracking service reports them.

use vstd::prelude::*;

use crate::time::Timestamp;

verus! {

/// One record of tracked time.
///
/// A list of entries is in ascending chronological order: its last element
/// is the most recent entry, which may still be running.
#[derive(Debug)]
pub struct TimeEntry {
    /// Free text that says what the time was spent on.
    pub description: String,
    /// Length in seconds. A negative value marks an entry that still runs;
    /// only its sign counts then.
    pub duration: i64,
    pub project_id: Option<u64>,
    pub project_name: Option<String>,
    pub start: Timestamp,
    /// Absent while the entry is running.
    pub stop: Option<Timestamp>,
    pub tags: Vec<String>,
}

/// What a [`TimeEntry`] holds, as mathematical values.
pub ghost struct EntryView {
    pub description: Seq<char>,
    pub duration: int,
    pub project_id: Option<u64>,
    pub project_name: Option<Seq<char>>,
    pub start: int,
    pub stop: Option<int>,
    pub tags: Seq<Seq<char>>,
}

impl View for TimeEntry {
    type V = EntryView;

    open spec fn view(&self) -> EntryView {
        EntryView {
            description: self.description@,
            duration: self.duration as int,
            project_id: self.project_id,
            project_name: match self.project_name {
                Some(name) => Some(name@),
                None => None,
            },
            start: self.start@,
            stop: match self.stop {
                Some(t) => Some(t@),
                None => None,
            },
            tags: self.tags.deep_view(),
        }
    }
}

/// The views of a list of entries, in the same order.
pub open spec fn entry_views(entries: Seq<TimeEntry>) -> Seq<EntryView> {
    Seq::new(entries.len(), |i: int| entries[i]@)
}

impl EntryView {
    /// Whether the entry is still running.
    pub open spec fn is_running(self) -> bool {
        self.duration < 0
    }

    /// Whether two entries record the same task: the same description, the
    /// same project and the same set of tags. Neither the order of the tags
    /// nor a repeated tag makes a difference.
    pub open spec fn same_task(self, other: EntryView) -> bool {
        &&& self.description == other.description
        &&& self.project_id == other.project_id
        &&& self.tags.to_set() == other.tags.to_set()
    }
}

/// Whether `tags` holds a tag equal to `wanted`.
pub fn has_tag(tags: &Vec<String>, wanted: &String) -> (found: bool)
    ensures
        found == tags.deep_view().contains(wanted@),
{
    let mut i: usize = 0;
    while i < tags.len()
        invariant
            i <= tags.len(),
            forall|j: int| 0 <= j < i ==> tags.deep_view()[j] != wanted@,
        decreases tags.len() - i,
    {
        if tags[i] == *wanted {
            assert(tags.deep_view()[i as int] == wanted@);
            return true;
        }
        i += 1;
    }
    false
}

/// Whether every tag of `a` is among the tags of `b`.
pub fn tags_within(a: &Vec<String>, b: &Vec<String>) -> (within: bool)
    ensures
        within == a.deep_view().to_set().subset_of(b.deep_view().to_set()),
{
    let mut i: usize = 0;
    while i < a.len()
        invariant
            i <= a.len(),
            forall|j: int| 0 <= j < i ==> b.deep_view().contains(#[trigger] a.deep_view()[j]),
        decreases a.len() - i,
    {
        if !has_tag(b, &a[i]) {
            assert(a.deep_view().to_set().contains(a.deep_view()[i as int]));
            return false;
        }
        i += 1;
    }
    true
}

/// Whether two lists of tags hold the same set of tags.
pub fn same_tags(a: &Vec<String>, b: &Vec<String>) -> (same: bool)
    ensures
        same == (a.deep_view().to_set() == b.deep_view().to_set()),
{
    let same = tags_within(a, b) && tags_within(b, a);
    assert(same ==> a.deep_view().to_set() =~= b.deep_view().to_set());
    same
}

impl TimeEntry {
    /// Whether `self` and `other` record the same task: the same
    /// description, the same project and the same set of tags.
    pub fn same_task(&self, other: &TimeEntry) -> (same: bool)
        ensures
            same == self@.same_task(other@),
    {
        self.description == other.description && self.project_id == other.project_id && same_tags(
            &self.tags,
            &other.tags,
        )
    }
}

/// The envelope in which the tracking service wraps a payload.
#[derive(Debug)]
pub struct Data<T> {
    pub data: T,
}

} // verus!
