//! The Rust types that need to be counted, each with its number.

use vstd::prelude::*;

verus! {

/// A table from Rust types to numbers. Each type stands in it at most once.
#[derive(Debug)]
pub struct NeedCount {
    entries: Vec<(String, usize)>,
}

/// The table that a list of entries makes up.
closed spec fn table(entries: Seq<(String, usize)>) -> Map<Seq<char>, usize>
    decreases entries.len(),
{
    if entries.len() == 0 {
        Map::empty()
    } else {
        table(entries.drop_last()).insert(entries.last().0@, entries.last().1)
    }
}

/// No type stands twice in the entries.
closed spec fn distinct(entries: Seq<(String, usize)>) -> bool {
    forall|i: int, j: int|
        0 <= i < j < entries.len() ==> #[trigger] entries[i].0@ != #[trigger] entries[j].0@
}

/// A type stands in the table if and only if an entry names it.
proof fn lemma_table_domain(entries: Seq<(String, usize)>, key: Seq<char>)
    ensures
        table(entries).contains_key(key) <==> exists|i: int|
            0 <= i < entries.len() && #[trigger] entries[i].0@ == key,
    decreases entries.len(),
{
    if entries.len() > 0 {
        let front = entries.drop_last();
        lemma_table_domain(front, key);
        if entries.last().0@ == key {
            assert(entries[entries.len() - 1].0@ == key);
        } else if table(front).contains_key(key) {
            let i = choose|i: int| 0 <= i < front.len() && #[trigger] front[i].0@ == key;
            assert(entries[i].0@ == key);
        } else if exists|i: int| 0 <= i < entries.len() && #[trigger] entries[i].0@ == key {
            let i = choose|i: int| 0 <= i < entries.len() && #[trigger] entries[i].0@ == key;
            assert(front[i].0@ == key);
        }
    }
}

/// The table gives each entry's number.
proof fn lemma_table_entry(entries: Seq<(String, usize)>, i: int)
    requires
        distinct(entries),
        0 <= i < entries.len(),
    ensures
        table(entries).contains_key(entries[i].0@),
        table(entries)[entries[i].0@] == entries[i].1,
    decreases entries.len(),
{
    let front = entries.drop_last();
    if i < front.len() {
        assert(distinct(front)) by {
            assert forall|a: int, b: int| 0 <= a < b < front.len() implies #[trigger] front[a].0@
                != #[trigger] front[b].0@ by {
                assert(entries[a].0@ != entries[b].0@);
            }
        }
        lemma_table_entry(front, i);
        assert(front[i] == entries[i]);
        assert(entries[i].0@ != entries[entries.len() - 1].0@);
    }
}

/// Giving the entry of a type another number changes the table there alone.
proof fn lemma_table_update(entries: Seq<(String, usize)>, i: int, e: (String, usize))
    requires
        distinct(entries),
        0 <= i < entries.len(),
        e.0@ == entries[i].0@,
    ensures
        table(entries.update(i, e)) == table(entries).insert(e.0@, e.1),
        distinct(entries.update(i, e)),
    decreases entries.len(),
{
    let front = entries.drop_last();
    let changed = entries.update(i, e);
    assert(distinct(changed)) by {
        assert forall|a: int, b: int| 0 <= a < b < changed.len() implies #[trigger] changed[a].0@
            != #[trigger] changed[b].0@ by {
            assert(entries[a].0@ != entries[b].0@);
        }
    }
    if i < front.len() {
        assert(distinct(front)) by {
            assert forall|a: int, b: int| 0 <= a < b < front.len() implies #[trigger] front[a].0@
                != #[trigger] front[b].0@ by {
                assert(entries[a].0@ != entries[b].0@);
            }
        }
        lemma_table_update(front, i, e);
        assert(changed.drop_last() =~= front.update(i, e));
        assert(entries[i].0@ != entries[entries.len() - 1].0@);
        assert(table(changed) =~= table(entries).insert(e.0@, e.1));
    } else {
        assert(changed.drop_last() =~= front);
        assert(table(changed) =~= table(entries).insert(e.0@, e.1));
    }
}

impl View for NeedCount {
    type V = Map<Seq<char>, usize>;

    closed spec fn view(&self) -> Map<Seq<char>, usize> {
        table(self.entries@)
    }
}

impl NeedCount {
    #[verifier::type_invariant]
    spec fn well_formed(self) -> bool {
        distinct(self.entries@)
    }

    /// The empty table.
    pub fn new() -> (t: NeedCount)
        ensures
            t@ == Map::<Seq<char>, usize>::empty(),
    {
        NeedCount { entries: Vec::new() }
    }

    /// The place of `key` among the entries.
    fn position(&self, key: &String) -> (r: Option<usize>)
        ensures
            r matches Some(i) ==> i < self.entries@.len() && self.entries@[i as int].0@ == key@,
            r is None ==> forall|j: int|
                0 <= j < self.entries@.len() ==> #[trigger] self.entries@[j].0@ != key@,
    {
        let mut i: usize = 0;
        while i < self.entries.len()
            invariant
                i <= self.entries@.len(),
                forall|j: int| 0 <= j < i ==> #[trigger] self.entries@[j].0@ != key@,
            decreases self.entries@.len() - i,
        {
            if self.entries[i].0 == *key {
                return Some(i);
            }
            i = i + 1;
        }
        None
    }

    /// The number of `key`, if it stands in the table.
    pub fn get(&self, key: &String) -> (r: Option<usize>)
        ensures
            r == (if self@.contains_key(key@) {
                Some(self@[key@])
            } else {
                None
            }),
    {
        proof {
            use_type_invariant(self);
            lemma_table_domain(self.entries@, key@);
        }
        match self.position(key) {
            Some(i) => {
                proof {
                    lemma_table_entry(self.entries@, i as int);
                }
                Some(self.entries[i].1)
            },
            None => None,
        }
    }

    /// Gives `key` the number `n`.
    pub fn insert(&mut self, key: String, n: usize)
        ensures
            final(self)@ == old(self)@.insert(key@, n),
    {
        proof {
            use_type_invariant(&*self);
        }
        let place = self.position(&key);
        let mut entries: Vec<(String, usize)> = Vec::new();
        std::mem::swap(&mut entries, &mut self.entries);
        match place {
            Some(i) => {
                proof {
                    lemma_table_update(entries@, i as int, (key, n));
                }
                entries.set(i, (key, n));
            },
            None => {
                let ghost before = entries@;
                entries.push((key, n));
                assert(entries@.drop_last() =~= before);
            },
        }
        self.entries = entries;
    }
}

} // verus!
