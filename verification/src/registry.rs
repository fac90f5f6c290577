//! The table of running sidecars: logical name to process id.

use vstd::prelude::*;

verus! {

/// No name stands twice in `entries`.
pub open spec fn names_distinct(entries: Seq<(Seq<char>, u32)>) -> bool {
    forall|i: int, j: int|
        0 <= i < j < entries.len() ==> (#[trigger] entries[i]).0 != (#[trigger] entries[j]).0
}

/// `entries` lists every binding of `table` exactly once.
pub open spec fn lists_exactly(entries: Seq<(Seq<char>, u32)>, table: Map<Seq<char>, u32>) -> bool {
    &&& names_distinct(entries)
    &&& forall|i: int|
        0 <= i < entries.len() ==> table.contains_key((#[trigger] entries[i]).0)
            && table[entries[i].0] == entries[i].1
    &&& forall|name: Seq<char>| #[trigger]
        table.contains_key(name) ==> exists|i: int|
            0 <= i < entries.len() && (#[trigger] entries[i]).0 == name
}

/// The table without bindings.
pub open spec fn no_sidecars() -> Map<Seq<char>, u32> {
    Map::empty()
}

/// What a lookup of `name` in `table` finds.
pub open spec fn bound(table: Map<Seq<char>, u32>, name: Seq<char>) -> Option<u32> {
    if table.contains_key(name) {
        Some(table[name])
    } else {
        None
    }
}

/// The names and process ids that a list of owned entries holds.
pub open spec fn entry_views(entries: Seq<(String, u32)>) -> Seq<(Seq<char>, u32)> {
    entries.map_values(|e: (String, u32)| (e.0@, e.1))
}

/// The table that a list of entries with distinct names stands for.
spec fn table_of(held: Seq<(Seq<char>, u32)>) -> Map<Seq<char>, u32> {
    Map::new(
        |name: Seq<char>| exists|i: int| 0 <= i < held.len() && (#[trigger] held[i]).0 == name,
        |name: Seq<char>|
            held[choose|i: int| 0 <= i < held.len() && (#[trigger] held[i]).0 == name].1,
    )
}

/// A list of entries with distinct names lists exactly the table it stands
/// for, which has as many bindings as the list has entries.
proof fn lemma_table_lists(held: Seq<(Seq<char>, u32)>)
    requires
        names_distinct(held),
    ensures
        lists_exactly(held, table_of(held)),
        table_of(held).dom().finite(),
        table_of(held).dom().len() == held.len(),
    decreases held.len(),
{
    let table = table_of(held);
    assert forall|i: int| 0 <= i < held.len() implies table.contains_key((#[trigger] held[i]).0)
        && table[held[i].0] == held[i].1 by {
        let k = choose|k: int| 0 <= k < held.len() && (#[trigger] held[k]).0 == held[i].0;
        assert(k == i);
    }
    if held.len() == 0 {
        assert(table.dom() =~= Set::<Seq<char>>::empty());
    } else {
        let rest = held.drop_last();
        let last = held.last();
        assert(names_distinct(rest)) by {
            assert forall|i: int, j: int| 0 <= i < j < rest.len() implies (#[trigger] rest[i]).0
                != (#[trigger] rest[j]).0 by {
                assert(rest[i] == held[i] && rest[j] == held[j]);
            }
        }
        lemma_table_lists(rest);
        assert(table.dom() =~= table_of(rest).dom().insert(last.0)) by {
            assert forall|n: Seq<char>| table.dom().contains(n) implies table_of(
                rest,
            ).dom().insert(last.0).contains(n) by {
                let k = choose|k: int| 0 <= k < held.len() && (#[trigger] held[k]).0 == n;
                if k < rest.len() {
                    assert(rest[k].0 == n);
                }
            }
            assert forall|n: Seq<char>| table_of(rest).dom().insert(last.0).contains(
                n,
            ) implies table.dom().contains(n) by {
                if n == last.0 {
                    assert(held[held.len() - 1].0 == n);
                } else {
                    let k = choose|k: int| 0 <= k < rest.len() && (#[trigger] rest[k]).0 == n;
                    assert(held[k].0 == n);
                }
            }
        }
        assert(!table_of(rest).dom().contains(last.0)) by {
            if table_of(rest).dom().contains(last.0) {
                let k = choose|k: int| 0 <= k < rest.len() && (#[trigger] rest[k]).0 == last.0;
                assert(held[k].0 == held[held.len() - 1].0);
            }
        }
    }
}

/// Adding an entry with a new name binds the name.
proof fn lemma_table_push(held: Seq<(Seq<char>, u32)>, name: Seq<char>, pid: u32)
    requires
        names_distinct(held),
        forall|i: int| 0 <= i < held.len() ==> (#[trigger] held[i]).0 != name,
    ensures
        names_distinct(held.push((name, pid))),
        table_of(held.push((name, pid))) == table_of(held).insert(name, pid),
{
    let after = held.push((name, pid));
    lemma_table_lists(held);
    lemma_table_lists(after);
    let want = table_of(held).insert(name, pid);
    assert forall|n: Seq<char>| #[trigger] want.dom().contains(n) implies table_of(
        after,
    ).dom().contains(n) && table_of(after)[n] == want[n] by {
        if n == name {
            assert(after[held.len() as int].0 == n);
        } else {
            let k = choose|k: int| 0 <= k < held.len() && (#[trigger] held[k]).0 == n;
            assert(after[k] == held[k]);
        }
    }
    assert forall|n: Seq<char>| #[trigger] table_of(after).dom().contains(n) implies want.dom().contains(
        n,
    ) by {
        let k = choose|k: int| 0 <= k < after.len() && (#[trigger] after[k]).0 == n;
        if k < held.len() {
            assert(after[k] == held[k]);
        }
    }
    assert(table_of(after) =~= want);
}

/// Changing the process id of an entry binds its name anew.
proof fn lemma_table_update(held: Seq<(Seq<char>, u32)>, at: int, pid: u32)
    requires
        names_distinct(held),
        0 <= at < held.len(),
    ensures
        names_distinct(held.update(at, (held[at].0, pid))),
        table_of(held.update(at, (held[at].0, pid))) == table_of(held).insert(held[at].0, pid),
{
    let name = held[at].0;
    let after = held.update(at, (name, pid));
    assert forall|i: int| 0 <= i < after.len() implies (#[trigger] after[i]).0 == held[i].0 by {}
    assert(names_distinct(after));
    lemma_table_lists(held);
    lemma_table_lists(after);
    let want = table_of(held).insert(name, pid);
    assert forall|n: Seq<char>| #[trigger] want.dom().contains(n) implies table_of(
        after,
    ).dom().contains(n) && table_of(after)[n] == want[n] by {
        if n == name {
            assert(after[at].0 == n);
        } else {
            let k = choose|k: int| 0 <= k < held.len() && (#[trigger] held[k]).0 == n;
            assert(after[k] == held[k]);
        }
    }
    assert forall|n: Seq<char>| #[trigger] table_of(after).dom().contains(n) implies want.dom().contains(
        n,
    ) by {
        let k = choose|k: int| 0 <= k < after.len() && (#[trigger] after[k]).0 == n;
        assert(held[k].0 == n);
    }
    assert(table_of(after) =~= want);
}

/// Taking out an entry unbinds its name.
proof fn lemma_table_remove(held: Seq<(Seq<char>, u32)>, at: int)
    requires
        names_distinct(held),
        0 <= at < held.len(),
    ensures
        names_distinct(held.remove(at)),
        table_of(held.remove(at)) == table_of(held).remove(held[at].0),
{
    let name = held[at].0;
    let after = held.remove(at);
    assert forall|i: int| 0 <= i < after.len() implies #[trigger] after[i] == held[if i < at {
        i
    } else {
        i + 1
    }] by {}
    assert(names_distinct(after)) by {
        assert forall|i: int, j: int| 0 <= i < j < after.len() implies (#[trigger] after[i]).0
            != (#[trigger] after[j]).0 by {
            let i0 = if i < at { i } else { i + 1 };
            let j0 = if j < at { j } else { j + 1 };
            assert(after[i] == held[i0] && after[j] == held[j0]);
        }
    }
    lemma_table_lists(held);
    lemma_table_lists(after);
    let want = table_of(held).remove(name);
    assert forall|n: Seq<char>| #[trigger] want.dom().contains(n) implies table_of(
        after,
    ).dom().contains(n) && table_of(after)[n] == want[n] by {
        let k = choose|k: int| 0 <= k < held.len() && (#[trigger] held[k]).0 == n;
        let k1 = if k < at { k } else { k - 1 };
        assert(after[k1] == held[k]);
    }
    assert forall|n: Seq<char>| #[trigger] table_of(after).dom().contains(n) implies want.dom().contains(
        n,
    ) by {
        let k = choose|k: int| 0 <= k < after.len() && (#[trigger] after[k]).0 == n;
        let k0 = if k < at { k } else { k + 1 };
        assert(after[k] == held[k0]);
        assert(held[k0].0 == n);
    }
    assert(table_of(after) =~= want);
}

/// The name to process id table of the supervisor.
///
/// A name is bound to at most one process id; binding it again replaces the
/// earlier process id.
pub struct Registry {
    entries: Vec<(String, u32)>,
}

impl View for Registry {
    type V = Map<Seq<char>, u32>;

    closed spec fn view(&self) -> Map<Seq<char>, u32> {
        table_of(entry_views(self.entries@))
    }
}

impl Registry {
    /// No name is held twice.
    #[verifier::type_invariant]
    spec fn inv(self) -> bool {
        names_distinct(entry_views(self.entries@))
    }

    /// An empty table.
    pub fn new() -> (r: Registry)
        ensures
            r@ == no_sidecars(),
    {
        let r = Registry { entries: Vec::new() };
        assert(r@ =~= Map::<Seq<char>, u32>::empty());
        r
    }

    /// The index of the entry for `name`.
    fn position(&self, name: &String) -> (r: Option<usize>)
        ensures
            match r {
                Some(i) => i < self.entries@.len() && self.entries@[i as int].0@ == name@,
                None => forall|i: int|
                    0 <= i < self.entries@.len() ==> (#[trigger] entry_views(self.entries@)[i]).0
                        != name@,
            },
    {
        let mut i: usize = 0;
        while i < self.entries.len()
            invariant
                i <= self.entries@.len(),
                forall|k: int| 0 <= k < i ==> (#[trigger] entry_views(self.entries@)[k]).0 != name@,
            decreases self.entries@.len() - i,
        {
            if self.entries[i].0 == *name {
                return Some(i);
            }
            i += 1;
        }
        None
    }

    /// Hands out the entries and leaves the table empty.
    fn take_entries(&mut self) -> (held: Vec<(String, u32)>)
        ensures
            held == old(self).entries,
            final(self).entries@.len() == 0,
    {
        let mut held: Vec<(String, u32)> = Vec::new();
        core::mem::swap(&mut self.entries, &mut held);
        held
    }

    /// The process id bound to `name`, if any.
    pub fn lookup(&self, name: &str) -> (r: Option<u32>)
        ensures
            r == bound(self@, name@),
    {
        proof {
            use_type_invariant(self);
            lemma_table_lists(entry_views(self.entries@));
        }
        let key = name.to_owned();
        match self.position(&key) {
            Some(i) => {
                assert(entry_views(self.entries@)[i as int].0 == name@);
                Some(self.entries[i].1)
            },
            None => None,
        }
    }

    /// Binds `name` to `pid` and returns the process id that `name` was bound
    /// to before, if any. That process is not touched: it keeps running and
    /// can from now on be reached by its process id only.
    pub fn register(&mut self, name: &str, pid: u32) -> (previous: Option<u32>)
        ensures
            final(self)@ == old(self)@.insert(name@, pid),
            previous == bound(old(self)@, name@),
    {
        let ghost before = entry_views(self.entries@);
        proof {
            use_type_invariant(&*self);
            lemma_table_lists(before);
        }
        let key = name.to_owned();
        let found = self.position(&key);
        let mut held = self.take_entries();
        let previous = match found {
            Some(i) => {
                assert(before[i as int].0 == name@);
                let previous = held[i].1;
                held.set(i, (key, pid));
                proof {
                    lemma_table_update(before, i as int, pid);
                    assert(entry_views(held@) =~= before.update(i as int, (name@, pid)));
                }
                Some(previous)
            },
            None => {
                held.push((key, pid));
                proof {
                    lemma_table_push(before, name@, pid);
                    assert(entry_views(held@) =~= before.push((name@, pid)));
                }
                None
            },
        };
        self.entries = held;
        previous
    }

    /// Unbinds `name` and returns the process id it was bound to, if any. The
    /// process itself is not touched.
    pub fn remove(&mut self, name: &str) -> (removed: Option<u32>)
        ensures
            final(self)@ == old(self)@.remove(name@),
            removed == bound(old(self)@, name@),
    {
        let ghost before = entry_views(self.entries@);
        proof {
            use_type_invariant(&*self);
            lemma_table_lists(before);
        }
        let key = name.to_owned();
        match self.position(&key) {
            Some(i) => {
                assert(before[i as int].0 == name@);
                let mut held = self.take_entries();
                let entry = held.remove(i);
                proof {
                    lemma_table_remove(before, i as int);
                    assert(entry_views(held@) =~= before.remove(i as int));
                }
                self.entries = held;
                Some(entry.1)
            },
            None => {
                assert(self@ =~= old(self)@.remove(name@));
                None
            },
        }
    }

    /// Empties the table and returns what it held, each binding once.
    pub fn drain(&mut self) -> (held: Vec<(String, u32)>)
        ensures
            final(self)@ == no_sidecars(),
            lists_exactly(entry_views(held@), old(self)@),
            held@.len() == old(self)@.dom().len(),
    {
        proof {
            use_type_invariant(&*self);
            lemma_table_lists(entry_views(self.entries@));
        }
        let held = self.take_entries();
        assert(self@ =~= Map::<Seq<char>, u32>::empty());
        held
    }

    /// The number of names bound.
    pub fn len(&self) -> (n: usize)
        ensures
            n == self@.dom().len(),
            self@.dom().finite(),
    {
        proof {
            use_type_invariant(self);
            lemma_table_lists(entry_views(self.entries@));
        }
        self.entries.len()
    }

    /// Whether no name is bound.
    pub fn is_empty(&self) -> (r: bool)
        ensures
            r == (self@ == no_sidecars()),
    {
        proof {
            use_type_invariant(self);
            lemma_table_lists(entry_views(self.entries@));
            if self.entries@.len() == 0 {
                assert(self@ =~= Map::<Seq<char>, u32>::empty());
            } else {
                assert(self@.contains_key(entry_views(self.entries@)[0].0));
            }
        }
        self.entries.len() == 0
    }
}

/// Right after `name` is bound to `pid`, a lookup of `name` finds `pid`, and
/// a lookup of any other name finds what it found before.
pub proof fn lemma_lookup_after_register(
    table: Map<Seq<char>, u32>,
    name: Seq<char>,
    pid: u32,
    other: Seq<char>,
)
    ensures
        bound(table.insert(name, pid), name) == Some(pid),
        other != name ==> bound(table.insert(name, pid), other) == bound(table, other),
{
}

/// Binding a name again replaces the process id it was bound to: the table
/// is what it would be had the name never been bound to the earlier process,
/// the name leads to the later process, and every other name leads where it
/// led before.
pub proof fn lemma_register_overwrites(
    table: Map<Seq<char>, u32>,
    name: Seq<char>,
    first: u32,
    second: u32,
    other: Seq<char>,
)
    ensures
        table.insert(name, first).insert(name, second) == table.insert(name, second),
        bound(table.insert(name, first).insert(name, second), name) == Some(second),
        other != name ==> bound(table.insert(name, first).insert(name, second), other) == bound(
            table,
            other,
        ),
{
    assert(table.insert(name, first).insert(name, second) =~= table.insert(name, second));
}

} // verus!
