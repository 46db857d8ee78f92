//! A table from labels to values.

use vstd::prelude::*;
use vstd::string::*;

use crate::broker::Registration;

verus! {

/// A table that holds at most one value for each label.
pub struct LabelTable<T> {
    entries: Vec<(String, T)>,
}

/// Whether entry `i` is the one for the label.
spec fn entry_at<T>(entries: Seq<(String, T)>, label: Seq<char>, i: int) -> bool {
    0 <= i < entries.len() && entries[i].0@ == label
}

/// No label has two entries.
spec fn distinct_labels<T>(entries: Seq<(String, T)>) -> bool {
    forall|i: int, j: int|
        0 <= i < j < entries.len() ==> (#[trigger] entries[i]).0@ != (#[trigger] entries[j]).0@
}

/// The table that a list of entries makes.
spec fn as_map<T>(entries: Seq<(String, T)>) -> Map<Seq<char>, T> {
    Map::new(
        |label: Seq<char>| exists|i: int| entry_at(entries, label, i),
        |label: Seq<char>| entries[choose|i: int| entry_at(entries, label, i)].1,
    )
}

/// An entry is what the table holds for its label.
proof fn entry_is_value<T>(entries: Seq<(String, T)>, i: int)
    requires
        distinct_labels(entries),
        0 <= i < entries.len(),
    ensures
        as_map(entries).contains_key(entries[i].0@),
        as_map(entries)[entries[i].0@] == entries[i].1,
{
    let label = entries[i].0@;
    assert(entry_at(entries, label, i));
    let j = choose|j: int| entry_at(entries, label, j);
    assert(entry_at(entries, label, j));
    assert(i == j);
}

/// Without one entry, the table lacks its label and is otherwise the same.
proof fn entry_leaves<T>(before: Seq<(String, T)>, i: int)
    requires
        distinct_labels(before),
        0 <= i < before.len(),
    ensures
        distinct_labels(before.remove(i)),
        as_map(before.remove(i)) == as_map(before).remove(before[i].0@),
{
    let after = before.remove(i);
    let label = before[i].0@;
    assert forall|l: Seq<char>| #[trigger] as_map(after).contains_key(l) == as_map(before).remove(
        label,
    ).contains_key(l) by {
        if as_map(after).contains_key(l) {
            let j = choose|j: int| entry_at(after, l, j);
            let k = if j < i { j } else { j + 1 };
            assert(entry_at(before, l, k));
            assert(before[k].0@ != before[i].0@);
        }
        if as_map(before).remove(label).contains_key(l) {
            let k = choose|k: int| entry_at(before, l, k);
            let j = if k < i { k } else { k - 1 };
            assert(entry_at(after, l, j));
        }
    }
    assert forall|l: Seq<char>| #[trigger] as_map(after).contains_key(l) implies as_map(after)[l]
        == as_map(before)[l] by {
        let j = choose|j: int| entry_at(after, l, j);
        let k = if j < i { j } else { j + 1 };
        entry_is_value(after, j);
        entry_is_value(before, k);
    }
    assert(as_map(after) =~= as_map(before).remove(label));
}

impl<T> View for LabelTable<T> {
    type V = Map<Seq<char>, T>;

    closed spec fn view(&self) -> Map<Seq<char>, T> {
        as_map(self.entries@)
    }
}

impl<T> LabelTable<T> {
    #[verifier::type_invariant]
    spec fn well_formed(self) -> bool {
        distinct_labels(self.entries@)
    }

    /// An empty table.
    pub fn new() -> (table: Self)
        ensures
            table@ == Map::<Seq<char>, T>::empty(),
    {
        let table = LabelTable { entries: Vec::new() };
        proof {
            assert(table@ =~= Map::<Seq<char>, T>::empty());
        }
        table
    }

    /// Where the entry for the label is.
    fn find(&self, label: &str) -> (found: Option<usize>)
        ensures
            match found {
                Some(i) => entry_at(self.entries@, label@, i as int) && self@.contains_key(label@)
                    && self@[label@] == self.entries@[i as int].1,
                None => !self@.contains_key(label@) && forall|i: int|
                    !#[trigger] entry_at(self.entries@, label@, i),
            },
    {
        proof {
            use_type_invariant(self);
        }
        let wanted = label.to_owned();
        let n: usize = self.entries.len();
        for i in 0..n
            invariant
                n == self.entries@.len(),
                wanted@ == label@,
                distinct_labels(self.entries@),
                forall|j: int| 0 <= j < i ==> !#[trigger] entry_at(self.entries@, label@, j),
        {
            if self.entries[i].0 == wanted {
                proof {
                    entry_is_value(self.entries@, i as int);
                }
                return Some(i);
            }
        }
        None
    }

    /// The value for the label.
    pub fn get(&self, label: &str) -> (value: Option<&T>)
        ensures
            match value {
                Some(v) => self@.contains_key(label@) && *v == self@[label@],
                None => !self@.contains_key(label@),
            },
    {
        match self.find(label) {
            Some(i) => Some(&self.entries[i].1),
            None => None,
        }
    }

    /// Removes the label and gives back its value.
    pub fn remove(&mut self, label: &str) -> (removed: Option<T>)
        ensures
            final(self)@ == old(self)@.remove(label@),
            match removed {
                Some(v) => old(self)@.contains_key(label@) && v == old(self)@[label@],
                None => !old(self)@.contains_key(label@),
            },
    {
        proof {
            use_type_invariant(&*self);
        }
        match self.find(label) {
            Some(i) => {
                let mut entries: Vec<(String, T)> = Vec::new();
                std::mem::swap(&mut entries, &mut self.entries);
                let ghost before = entries@;
                let (_, value) = entries.remove(i);
                proof {
                    entry_leaves(before, i as int);
                }
                self.entries = entries;
                Some(value)
            },
            None => {
                proof {
                    assert(self@.remove(label@) =~= self@);
                }
                None
            },
        }
    }

    /// Sets the value for the label and gives back the one that it replaces.
    pub fn insert(&mut self, label: String, value: T) -> (replaced: Option<T>)
        ensures
            final(self)@ == old(self)@.insert(label@, value),
            match replaced {
                Some(v) => old(self)@.contains_key(label@) && v == old(self)@[label@],
                None => !old(self)@.contains_key(label@),
            },
    {
        let replaced = self.remove(label.as_str());
        proof {
            use_type_invariant(&*self);
        }
        let mut entries: Vec<(String, T)> = Vec::new();
        std::mem::swap(&mut entries, &mut self.entries);
        let ghost before = entries@;
        proof {
            assert(!as_map(before).contains_key(label@));
            assert forall|i: int| 0 <= i < before.len() implies (#[trigger] before[i]).0@
                != label@ by {
                if before[i].0@ == label@ {
                    assert(entry_at(before, label@, i));
                }
            }
        }
        entries.push((label, value));
        proof {
            let after = entries@;
            assert(distinct_labels(after));
            entry_is_value(after, before.len() as int);
            assert forall|l: Seq<char>| #[trigger]
                as_map(after).contains_key(l) == as_map(before).insert(
                    label@,
                    value,
                ).contains_key(l) by {
                if as_map(after).contains_key(l) {
                    let j = choose|j: int| entry_at(after, l, j);
                    if j < before.len() {
                        assert(entry_at(before, l, j));
                    }
                }
                if as_map(before).contains_key(l) {
                    let j = choose|j: int| entry_at(before, l, j);
                    assert(entry_at(after, l, j));
                }
            }
            assert forall|l: Seq<char>| #[trigger] as_map(before).contains_key(l) implies as_map(
                after,
            )[l] == as_map(before)[l] by {
                let j = choose|j: int| entry_at(before, l, j);
                entry_is_value(before, j);
                entry_is_value(after, j);
            }
            assert(as_map(after) =~= as_map(before).insert(label@, value));
        }
        self.entries = entries;
        proof {
            assert(old(self)@.remove(label@).insert(label@, value) =~= old(self)@.insert(
                label@,
                value,
            ));
        }
        replaced
    }

    /// Removes every label.
    pub fn clear(&mut self)
        ensures
            final(self)@ == Map::<Seq<char>, T>::empty(),
    {
        self.entries = Vec::new();
        proof {
            assert(self@ =~= Map::<Seq<char>, T>::empty());
        }
    }
}

/// A table without the registrations of a session.
pub open spec fn without_session<C>(table: Map<Seq<char>, Registration<C>>, session: u64) -> Map<
    Seq<char>,
    Registration<C>,
> {
    Map::new(
        |label: Seq<char>| table.contains_key(label) && table[label].session != session,
        |label: Seq<char>| table[label],
    )
}

impl<C> LabelTable<Registration<C>> {
    /// Removes every label that the session has registered.
    pub fn remove_session(&mut self, session: u64)
        ensures
            final(self)@ == without_session(old(self)@, session),
    {
        proof {
            use_type_invariant(&*self);
        }
        let mut entries: Vec<(String, Registration<C>)> = Vec::new();
        std::mem::swap(&mut entries, &mut self.entries);
        let ghost before = entries@;
        let mut i: usize = 0;
        while i < entries.len()
            invariant
                i <= entries@.len(),
                distinct_labels(entries@),
                without_session(as_map(entries@), session) == without_session(as_map(before), session),
                forall|j: int| 0 <= j < i ==> (#[trigger] entries@[j]).1.session != session,
            decreases entries@.len() - i,
        {
            if entries[i].1.session == session {
                let ghost now = entries@;
                proof {
                    entry_leaves(now, i as int);
                    entry_is_value(now, i as int);
                    assert(without_session(as_map(now.remove(i as int)), session) =~= without_session(
                        as_map(now),
                        session,
                    ));
                }
                entries.remove(i);
            } else {
                i = i + 1;
            }
        }
        proof {
            assert forall|l: Seq<char>| #[trigger] as_map(entries@).contains_key(l) implies as_map(
                entries@,
            )[l].session != session by {
                let j = choose|j: int| entry_at(entries@, l, j);
                entry_is_value(entries@, j);
            }
            assert(without_session(as_map(entries@), session) =~= as_map(entries@));
        }
        self.entries = entries;
    }
}

} // verus!
