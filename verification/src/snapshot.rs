//! Location snapshots: the flattened, string-coerced property bag of one
//! location resource at one point in time.
//!
//! A snapshot maps each property name to the coerced string form of its
//! value. It is built fresh for each detected change, serialized, and
//! discarded; it is never mutated after construction and never cached
//! across loop iterations. Duplicate property names should not occur, but
//! if the service ever reports one, the last value reported wins.

use crate::coerce::PropValue;
use crate::coerce::coerce;
use crate::coerce::coerced;
use vstd::prelude::*;

verus! {

/// The mapping described by a list of entries, later entries winning over
/// earlier ones with the same key.
pub open spec fn map_of(entries: Seq<(String, String)>) -> Map<Seq<char>, Seq<char>>
    decreases entries.len(),
{
    if entries.len() == 0 {
        Map::empty()
    } else {
        map_of(entries.drop_last()).insert(entries.last().0@, entries.last().1@)
    }
}

/// No two entries share a key.
pub open spec fn unique_keys(entries: Seq<(String, String)>) -> bool {
    forall|i: int, j: int|
        0 <= i < j < entries.len() ==> entries[i].0@ != entries[j].0@
}

/// A key that no entry carries is not in the described mapping.
proof fn lemma_map_of_absent(entries: Seq<(String, String)>, k: Seq<char>)
    requires
        forall|i: int| 0 <= i < entries.len() ==> entries[i].0@ != k,
    ensures
        !map_of(entries).contains_key(k),
    decreases entries.len(),
{
    if entries.len() > 0 {
        lemma_map_of_absent(entries.drop_last(), k);
    }
}

/// Under unique keys, the entry at `j` is in the described mapping.
proof fn lemma_map_of_present(entries: Seq<(String, String)>, j: int)
    requires
        unique_keys(entries),
        0 <= j < entries.len(),
    ensures
        map_of(entries).contains_key(entries[j].0@),
        map_of(entries)[entries[j].0@] == entries[j].1@,
    decreases entries.len(),
{
    if j == entries.len() - 1 {
    } else {
        lemma_map_of_present(entries.drop_last(), j);
        assert(entries[j].0@ != entries.last().0@);
    }
}

/// Under unique keys, replacing the entry that carries a key describes the
/// same mapping as inserting that key anew.
proof fn lemma_map_of_update(entries: Seq<(String, String)>, j: int, p: (String, String))
    requires
        unique_keys(entries),
        0 <= j < entries.len(),
        entries[j].0@ == p.0@,
    ensures
        map_of(entries.update(j, p)) == map_of(entries).insert(p.0@, p.1@),
    decreases entries.len(),
{
    let u = entries.update(j, p);
    if j == entries.len() - 1 {
        assert(u.drop_last() =~= entries.drop_last());
        assert(u.last() == p);
        assert(map_of(u) =~= map_of(entries).insert(p.0@, p.1@));
    } else {
        let shorter = entries.drop_last();
        assert(u.drop_last() =~= shorter.update(j, p));
        assert(u.last() == entries.last());
        lemma_map_of_update(shorter, j, p);
        assert(entries[j].0@ != entries.last().0@);
        assert(map_of(u) =~= map_of(entries).insert(p.0@, p.1@));
    }
}

/// The flattened, string-coerced property bag of one location resource.
pub struct Snapshot {
    pub(crate) entries: Vec<(String, String)>,
}

impl View for Snapshot {
    type V = Map<Seq<char>, Seq<char>>;

    closed spec fn view(&self) -> Map<Seq<char>, Seq<char>> {
        map_of(self.entries@)
    }
}

impl Snapshot {
    /// The snapshot keeps one entry per key.
    pub closed spec fn wf(&self) -> bool {
        unique_keys(self.entries@)
    }

    /// An empty snapshot.
    pub fn new() -> (s: Snapshot)
        ensures
            s.wf(),
            s@ == Map::<Seq<char>, Seq<char>>::empty(),
    {
        Snapshot { entries: Vec::new() }
    }

    /// The position of the entry carrying `key`, if any.
    fn find(&self, key: &String) -> (r: Option<usize>)
        ensures
            match r {
                Some(i) => i < self.entries@.len() && self.entries@[i as int].0@ == key@,
                None => forall|k: int|
                    0 <= k < self.entries@.len() ==> self.entries@[k].0@ != key@,
            },
    {
        let mut i: usize = 0;
        while i < self.entries.len()
            invariant
                i <= self.entries@.len(),
                forall|k: int| 0 <= k < i ==> self.entries@[k].0@ != key@,
            decreases self.entries@.len() - i,
        {
            if self.entries[i].0 == *key {
                return Some(i);
            }
            i = i + 1;
        }
        None
    }

    /// Records `value` under `key`, overwriting any value the key had.
    pub fn insert(&mut self, key: String, value: String)
        requires
            old(self).wf(),
        ensures
            final(self).wf(),
            final(self)@ == old(self)@.insert(key@, value@),
    {
        match self.find(&key) {
            Some(i) => {
                let ghost before = self.entries@;
                self.entries.set(i, (key, value));
                proof {
                    lemma_map_of_update(before, i as int, self.entries@[i as int]);
                    assert forall|a: int, b: int|
                        0 <= a < b < self.entries@.len() implies self.entries@[a].0@
                        != self.entries@[b].0@ by {
                        assert(before[a].0@ != before[b].0@);
                    }
                }
            },
            None => {
                let ghost before = self.entries@;
                self.entries.push((key, value));
                proof {
                    assert(self.entries@.drop_last() =~= before);
                    assert forall|a: int, b: int|
                        0 <= a < b < self.entries@.len() implies self.entries@[a].0@
                        != self.entries@[b].0@ by {
                        if b < before.len() {
                            assert(before[a].0@ != before[b].0@);
                        }
                    }
                }
            },
        }
    }

    /// The recorded value for `key`, if any.
    pub fn get(&self, key: &String) -> (r: Option<&String>)
        requires
            self.wf(),
        ensures
            match r {
                Some(v) => self@.contains_key(key@) && v@ == self@[key@],
                None => !self@.contains_key(key@),
            },
    {
        match self.find(key) {
            Some(i) => {
                proof {
                    lemma_map_of_present(self.entries@, i as int);
                }
                Some(&self.entries[i].1)
            },
            None => {
                proof {
                    lemma_map_of_absent(self.entries@, key@);
                }
                None
            },
        }
    }
}

/// The mapping a snapshot built from `props` must hold: every reported
/// property name, bound to the coerced form of its value, the last value
/// winning on a duplicated name.
pub open spec fn snapshot_of(props: Seq<(String, PropValue)>) -> Map<Seq<char>, Seq<char>>
    decreases props.len(),
{
    if props.len() == 0 {
        Map::empty()
    } else {
        snapshot_of(props.drop_last()).insert(
            props.last().0@,
            coerced(props.last().1),
        )
    }
}

/// Assembles the snapshot of one location resource from its reported
/// property set: each value is coerced to its string form and recorded
/// under its property name.
pub fn build_snapshot(props: &Vec<(String, PropValue)>) -> (s: Snapshot)
    ensures
        s.wf(),
        s@ == snapshot_of(props@),
{
    let mut s = Snapshot::new();
    let mut i: usize = 0;
    while i < props.len()
        invariant
            i <= props@.len(),
            s.wf(),
            s@ == snapshot_of(props@.subrange(0, i as int)),
        decreases props@.len() - i,
    {
        let key = props[i].0.clone();
        let value = coerce(&props[i].1);
        s.insert(key, value);
        proof {
            let upto = props@.subrange(0, i + 1 as int);
            assert(upto.drop_last() =~= props@.subrange(0, i as int));
            assert(upto.last() == props@[i as int]);
        }
        i = i + 1;
    }
    proof {
        assert(props@.subrange(0, props@.len() as int) =~= props@);
    }
    s
}

} // verus!
