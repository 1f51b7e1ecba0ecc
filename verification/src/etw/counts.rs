//! Event counts by name.

use crate::text::same;
use vstd::prelude::*;

verus! {

/// How often an event of a given name was seen.
#[derive(Debug, Clone, Copy)]
pub struct EventCount {
    pub name: &'static str,
    pub count: u64,
}

/// A fixed list of names, each with a count.
#[derive(Debug)]
pub struct EventCounts {
    pub entries: Vec<EventCount>,
}

impl View for EventCounts {
    type V = Seq<(Seq<char>, nat)>;

    open spec fn view(&self) -> Seq<(Seq<char>, nat)> {
        self.entries@.map_values(|e: EventCount| (e.name@, e.count as nat))
    }
}

/// The list with one more event of the given name; a name that is not listed is not counted.
pub open spec fn counted(entries: Seq<(Seq<char>, nat)>, name: Seq<char>) -> Seq<(Seq<char>, nat)> {
    entries.map_values(
        |e: (Seq<char>, nat)|
            if e.0 == name {
                (e.0, e.1 + 1)
            } else {
                e
            },
    )
}

/// The count of the first entry of the given name.
pub open spec fn count_of(entries: Seq<(Seq<char>, nat)>, name: Seq<char>) -> Option<nat>
    decreases entries.len(),
{
    if entries.len() == 0 {
        None
    } else if entries[0].0 == name {
        Some(entries[0].1)
    } else {
        count_of(entries.drop_first(), name)
    }
}

/// A list of names with nothing counted yet.
pub open spec fn zero_counts(names: Seq<Seq<char>>) -> Seq<(Seq<char>, nat)> {
    names.map_values(|n: Seq<char>| (n, 0nat))
}

/// Whether no count exceeds `limit`.
pub open spec fn counts_within(entries: Seq<(Seq<char>, nat)>, limit: nat) -> bool {
    forall|i: int| 0 <= i < entries.len() ==> (#[trigger] entries[i]).1 <= limit
}

/// Counting one event raises the count of its name by one and leaves all other counts alone.
pub proof fn counted_raises_one(entries: Seq<(Seq<char>, nat)>, name: Seq<char>, other: Seq<char>)
    ensures
        count_of(counted(entries, name), other) == match count_of(entries, other) {
            Some(n) => Some(
                if other == name {
                    n + 1
                } else {
                    n
                },
            ),
            None => None,
        },
    decreases entries.len(),
{
    if entries.len() > 0 {
        counted_raises_one(entries.drop_first(), name, other);
        assert(counted(entries, name).drop_first() =~= counted(entries.drop_first(), name));
    }
}

impl EventCounts {
    /// A list of names with nothing counted yet.
    pub fn new(names: &[&'static str]) -> (r: EventCounts)
        ensures
            r@ == zero_counts(names@.map_values(|s: &'static str| s@)),
    {
        let mut entries: Vec<EventCount> = Vec::new();
        let mut i: usize = 0;
        while i < names.len()
            invariant
                i <= names@.len(),
                entries@.len() == i,
                forall|j: int|
                    0 <= j < i ==> (#[trigger] entries@[j]).name == names@[j] && entries@[j].count == 0,
            decreases names@.len() - i,
        {
            entries.push(EventCount { name: names[i], count: 0 });
            i += 1;
        }
        let r = EventCounts { entries };
        assert(r@ =~= zero_counts(names@.map_values(|s: &'static str| s@)));
        r
    }

    /// Counts one event.
    pub fn bump(&mut self, name: &str)
        requires
            counts_within(old(self)@, (u64::MAX - 1) as nat),
        ensures
            final(self)@ == counted(old(self)@, name@),
    {
        let ghost before = self.entries@;
        let mut i: usize = 0;
        while i < self.entries.len()
            invariant
                i <= self.entries@.len(),
                before == old(self).entries@,
                self.entries@.len() == before.len(),
                counts_within(old(self)@, (u64::MAX - 1) as nat),
                forall|j: int| i <= j < before.len() ==> #[trigger] self.entries@[j] == before[j],
                forall|j: int|
                    0 <= j < i ==> (#[trigger] self.entries@[j]).name == before[j].name
                        && self.entries@[j].count == if before[j].name@ == name@ {
                        before[j].count + 1
                    } else {
                        before[j].count as int
                    },
            decreases self.entries@.len() - i,
        {
            let entry = self.entries[i];
            assert(old(self)@[i as int].1 <= u64::MAX - 1);
            if same(entry.name, name) {
                self.entries[i] = EventCount { name: entry.name, count: entry.count + 1 };
            }
            i += 1;
        }
        assert(self@ =~= counted(old(self)@, name@));
    }

    /// The count of a name.
    pub fn get(&self, name: &str) -> (r: Option<u64>)
        ensures
            match r {
                Some(n) => count_of(self@, name@) == Some(n as nat),
                None => count_of(self@, name@) is None,
            },
    {
        let mut i: usize = 0;
        assert(self@.skip(0) =~= self@);
        while i < self.entries.len()
            invariant
                i <= self.entries@.len(),
                count_of(self@, name@) == count_of(self@.skip(i as int), name@),
            decreases self.entries@.len() - i,
        {
            assert(self@.skip(i as int)[0] == (self.entries@[i as int].name@, self.entries@[i as int].count as nat));
            if same(self.entries[i].name, name) {
                return Some(self.entries[i].count);
            }
            assert(self@.skip(i as int).drop_first() =~= self@.skip(i as int + 1));
            i += 1;
        }
        None
    }

    /// Whether a name is listed.
    pub fn contains_key(&self, name: &str) -> (r: bool)
        ensures
            r == (count_of(self@, name@) is Some),
    {
        self.get(name).is_some()
    }
}

} // verus!
