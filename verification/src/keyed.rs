//! A list of name/value entries with pairwise-distinct names, keeping
//! insertion order. It stands in for a string-keyed map: lookups go by name,
//! and inserting an existing name overwrites its value in place.

use vstd::prelude::*;

verus! {

/// No two entries share a name.
pub open spec fn names_unique<V>(s: Seq<(Seq<char>, V)>) -> bool {
    forall|i: int, j: int| 0 <= i < j < s.len() ==> (#[trigger] s[i]).0 != (#[trigger] s[j]).0
}

/// Some entry carries this name.
pub open spec fn has_name<V>(s: Seq<(Seq<char>, V)>, name: Seq<char>) -> bool {
    exists|i: int| 0 <= i < s.len() && (#[trigger] s[i]).0 == name
}

/// The position of the entry carrying this name.
pub open spec fn index_of_name<V>(s: Seq<(Seq<char>, V)>, name: Seq<char>) -> int {
    choose|i: int| 0 <= i < s.len() && (#[trigger] s[i]).0 == name
}

/// The value stored under this name.
pub open spec fn value_of_name<V>(s: Seq<(Seq<char>, V)>, name: Seq<char>) -> V {
    s[index_of_name(s, name)].1
}

/// The entries after storing `value` under `name`: overwritten in place when
/// the name is present, appended otherwise.
pub open spec fn insert_entry<V>(s: Seq<(Seq<char>, V)>, name: Seq<char>, value: V) -> Seq<
    (Seq<char>, V),
> {
    if has_name(s, name) {
        s.update(index_of_name(s, name), (name, value))
    } else {
        s.push((name, value))
    }
}

/// With distinct names, the position of a name is the only index carrying it.
pub proof fn lemma_index_of_name_unique<V>(s: Seq<(Seq<char>, V)>, name: Seq<char>, i: int)
    requires
        names_unique(s),
        0 <= i < s.len(),
        s[i].0 == name,
    ensures
        has_name(s, name),
        index_of_name(s, name) == i,
{
    assert(has_name(s, name));
    let j = index_of_name(s, name);
    assert(0 <= j < s.len() && s[j].0 == name);
}

pub struct KeyedList<V> {
    entries: Vec<(String, V)>,
}

impl<V> View for KeyedList<V> {
    type V = Seq<(Seq<char>, V)>;

    closed spec fn view(&self) -> Seq<(Seq<char>, V)> {
        self.entries@.map_values(|p: (String, V)| (p.0@, p.1))
    }
}

impl<V> KeyedList<V> {
    /// The list is well formed when its names are pairwise distinct.
    pub open spec fn wf(self) -> bool {
        names_unique(self@)
    }

    pub fn new() -> (r: Self)
        ensures
            r@ == Seq::<(Seq<char>, V)>::empty(),
            r.wf(),
    {
        let r = KeyedList { entries: Vec::new() };
        proof {
            assert(r@ =~= Seq::<(Seq<char>, V)>::empty());
        }
        r
    }

    pub fn len(&self) -> (n: usize)
        ensures
            n == self@.len(),
    {
        self.entries.len()
    }

    /// The position of `name`, if some entry carries it.
    pub fn position_of(&self, name: &String) -> (r: Option<usize>)
        ensures
            match r {
                Some(i) => i < self@.len() && self@[i as int].0 == name@,
                None => !has_name(self@, name@),
            },
    {
        let n = self.entries.len();
        let mut i: usize = 0;
        while i < n
            invariant
                i <= n,
                n == self@.len(),
                forall|k: int| 0 <= k < i ==> (#[trigger] self@[k]).0 != name@,
            decreases n - i,
        {
            if self.entries[i].0 == *name {
                return Some(i);
            }
            i = i + 1;
        }
        None
    }

    pub fn contains(&self, name: &String) -> (r: bool)
        ensures
            r == has_name(self@, name@),
    {
        match self.position_of(name) {
            Some(_) => true,
            None => false,
        }
    }

    /// The value under `name`, if some entry carries it.
    pub fn get(&self, name: &String) -> (r: Option<&V>)
        requires
            self.wf(),
        ensures
            match r {
                Some(v) => has_name(self@, name@) && *v == value_of_name(self@, name@),
                None => !has_name(self@, name@),
            },
    {
        match self.position_of(name) {
            Some(i) => {
                proof {
                    lemma_index_of_name_unique(self@, name@, i as int);
                }
                Some(&self.entries[i].1)
            },
            None => None,
        }
    }

    /// Stores `value` under `name`: overwrites in place when the name is
    /// present, appends otherwise.
    pub fn insert(&mut self, name: String, value: V)
        requires
            old(self).wf(),
        ensures
            final(self)@ == insert_entry(old(self)@, name@, value),
            final(self).wf(),
    {
        match self.position_of(&name) {
            Some(i) => {
                proof {
                    lemma_index_of_name_unique(old(self)@, name@, i as int);
                }
                let entry = &mut self.entries[i];
                *entry = (name, value);
                proof {
                    assert(final(self)@ =~= insert_entry(old(self)@, name@, value));
                }
            },
            None => {
                self.entries.push((name, value));
                proof {
                    assert(final(self)@ =~= old(self)@.push((name@, value)));
                }
            },
        }
    }

    pub fn clear(&mut self)
        ensures
            final(self)@ == Seq::<(Seq<char>, V)>::empty(),
            final(self).wf(),
    {
        self.entries.clear();
        proof {
            assert(final(self)@ =~= Seq::<(Seq<char>, V)>::empty());
        }
    }

    /// The entry at a position, by reference.
    pub fn entry_at(&self, i: usize) -> (r: &(String, V))
        requires
            i < self@.len(),
        ensures
            r.0@ == self@[i as int].0,
            r.1 == self@[i as int].1,
    {
        &self.entries[i]
    }
}

} // verus!
