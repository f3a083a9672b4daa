use vstd::prelude::*;

verus! {

/// A mapping from event name to a single handler.
///
/// Registering a name that is already present replaces its handler, so a
/// lookup always yields the most recent registration for that name.
pub struct EventRegistry<H> {
    entries: Vec<(String, H)>,
}

/// The registry as a map from event name to handler.
pub open spec fn entries_map<H>(entries: Seq<(String, H)>) -> Map<Seq<char>, H> {
    Map::new(
        |k: Seq<char>| exists|i: int| 0 <= i < entries.len() && (#[trigger] entries[i]).0@ == k,
        |k: Seq<char>| entries[choose|i: int| 0 <= i < entries.len() && (#[trigger] entries[i]).0@ == k].1,
    )
}

/// No event name occurs twice among the entries.
pub open spec fn names_unique<H>(entries: Seq<(String, H)>) -> bool {
    forall|i: int, j: int|
        0 <= i < entries.len() && 0 <= j < entries.len() && i != j
            ==> (#[trigger] entries[i]).0@ != (#[trigger] entries[j]).0@
}

/// In a registry whose names are unique, the entry at `i` is what the map
/// holds for its name.
proof fn lemma_entry_in_map<H>(entries: Seq<(String, H)>, i: int)
    requires
        names_unique(entries),
        0 <= i < entries.len(),
    ensures
        entries_map(entries).contains_key(entries[i].0@),
        entries_map(entries)[entries[i].0@] == entries[i].1,
{
    let k = entries[i].0@;
    assert(entries_map(entries).dom().contains(k));
    let j = choose|j: int| 0 <= j < entries.len() && (#[trigger] entries[j]).0@ == k;
    assert(j == i);
}

/// Registering two handlers under one name leaves only the second in
/// effect: the result is as if the first had never been registered.
pub proof fn lemma_register_overwrites<H>(
    handlers: Map<Seq<char>, H>,
    name: Seq<char>,
    first: H,
    second: H,
)
    ensures
        handlers.insert(name, first).insert(name, second) == handlers.insert(name, second),
        handlers.insert(name, first).insert(name, second)[name] == second,
{
    assert(handlers.insert(name, first).insert(name, second) =~= handlers.insert(name, second));
}

impl<H> View for EventRegistry<H> {
    type V = Map<Seq<char>, H>;

    closed spec fn view(&self) -> Map<Seq<char>, H> {
        entries_map(self.entries@)
    }
}

impl<H> EventRegistry<H> {
    /// No event name is held twice.
    pub closed spec fn well_formed(&self) -> bool {
        names_unique(self.entries@)
    }

    /// An empty registry.
    pub fn new() -> (r: Self)
        ensures
            r.well_formed(),
            r@ == Map::<Seq<char>, H>::empty(),
    {
        let r = EventRegistry { entries: Vec::new() };
        assert(r@ =~= Map::<Seq<char>, H>::empty());
        r
    }

    /// Index of the entry named `key`, if any.
    fn position(&self, key: &String) -> (r: Option<usize>)
        ensures
            match r {
                Some(i) => i < self.entries@.len() && self.entries@[i as int].0@ == key@,
                None => forall|i: int|
                    0 <= i < self.entries@.len() ==> (#[trigger] self.entries@[i]).0@ != key@,
            },
    {
        let mut i: usize = 0;
        while i < self.entries.len()
            invariant
                i <= self.entries@.len(),
                forall|j: int| 0 <= j < i ==> (#[trigger] self.entries@[j]).0@ != key@,
            decreases self.entries@.len() - i,
        {
            if self.entries[i].0 == *key {
                return Some(i);
            }
            i += 1;
        }
        None
    }

    /// Whether a handler is registered under `name`.
    pub fn contains(&self, name: &str) -> (r: bool)
        requires
            self.well_formed(),
        ensures
            r == self@.contains_key(name@),
    {
        let key = name.to_owned();
        match self.position(&key) {
            Some(i) => {
                proof {
                    lemma_entry_in_map(self.entries@, i as int);
                }
                true
            },
            None => false,
        }
    }

    /// Registers `handler` under `name`, replacing any earlier handler for
    /// that name.
    pub fn register(&mut self, name: &str, handler: H)
        requires
            old(self).well_formed(),
        ensures
            final(self).well_formed(),
            final(self)@ == old(self)@.insert(name@, handler),
    {
        let key = name.to_owned();
        let ghost before = self.entries@;
        match self.position(&key) {
            Some(i) => {
                self.entries.set(i, (key, handler));
                let ghost after = self.entries@;
                assert(names_unique(after)) by {
                    assert forall|a: int, b: int|
                        0 <= a < after.len() && 0 <= b < after.len() && a != b
                            implies (#[trigger] after[a]).0@ != (#[trigger] after[b]).0@ by {
                        if a != i && b != i {
                            assert(before[a] == after[a] && before[b] == after[b]);
                        } else if a == i {
                            assert(before[b] == after[b]);
                            assert(before[i as int].0@ != before[b].0@);
                        } else {
                            assert(before[a] == after[a]);
                            assert(before[i as int].0@ != before[a].0@);
                        }
                    }
                }
                assert(entries_map(after) =~= entries_map(before).insert(name@, handler)) by {
                    assert forall|k: Seq<char>|
                        #[trigger] entries_map(after).contains_key(k)
                            == entries_map(before).insert(name@, handler).contains_key(k) by {
                        if entries_map(before).contains_key(k) && k != name@ {
                            let j = choose|j: int| 0 <= j < before.len() && (#[trigger] before[j]).0@ == k;
                            assert(after[j] == before[j]);
                        }
                        if entries_map(after).contains_key(k) {
                            let j = choose|j: int| 0 <= j < after.len() && (#[trigger] after[j]).0@ == k;
                            if j != i {
                                assert(after[j] == before[j]);
                            }
                        }
                        lemma_entry_in_map(after, i as int);
                    }
                    assert forall|k: Seq<char>| #[trigger] entries_map(after).contains_key(k)
                        implies entries_map(after)[k] == entries_map(before).insert(name@, handler)[k] by {
                        let j = choose|j: int| 0 <= j < after.len() && (#[trigger] after[j]).0@ == k;
                        lemma_entry_in_map(after, j);
                        if j != i {
                            assert(after[j] == before[j]);
                            lemma_entry_in_map(before, j);
                        }
                    }
                }
            },
            None => {
                self.entries.push((key, handler));
                let ghost after = self.entries@;
                assert(names_unique(after)) by {
                    assert forall|a: int, b: int|
                        0 <= a < after.len() && 0 <= b < after.len() && a != b
                            implies (#[trigger] after[a]).0@ != (#[trigger] after[b]).0@ by {
                        if a < before.len() {
                            assert(before[a] == after[a]);
                        }
                        if b < before.len() {
                            assert(before[b] == after[b]);
                        }
                    }
                }
                assert(entries_map(after) =~= entries_map(before).insert(name@, handler)) by {
                    let n = before.len() as int;
                    lemma_entry_in_map(after, n);
                    assert forall|k: Seq<char>|
                        #[trigger] entries_map(after).contains_key(k)
                            == entries_map(before).insert(name@, handler).contains_key(k) by {
                        if entries_map(before).contains_key(k) {
                            let j = choose|j: int| 0 <= j < before.len() && (#[trigger] before[j]).0@ == k;
                            assert(after[j] == before[j]);
                        }
                        if entries_map(after).contains_key(k) && k != name@ {
                            let j = choose|j: int| 0 <= j < after.len() && (#[trigger] after[j]).0@ == k;
                            assert(after[j] == before[j]);
                        }
                    }
                    assert forall|k: Seq<char>| #[trigger] entries_map(after).contains_key(k)
                        implies entries_map(after)[k] == entries_map(before).insert(name@, handler)[k] by {
                        let j = choose|j: int| 0 <= j < after.len() && (#[trigger] after[j]).0@ == k;
                        lemma_entry_in_map(after, j);
                        if j != n {
                            assert(after[j] == before[j]);
                            lemma_entry_in_map(before, j);
                        }
                    }
                }
            },
        }
    }

    /// The handler registered under `name`, if any.
    pub fn lookup(&self, name: &str) -> (r: Option<&H>)
        requires
            self.well_formed(),
        ensures
            match r {
                Some(h) => self@.contains_key(name@) && *h == self@[name@],
                None => !self@.contains_key(name@),
            },
    {
        let key = name.to_owned();
        match self.position(&key) {
            Some(i) => {
                proof {
                    lemma_entry_in_map(self.entries@, i as int);
                }
                Some(&self.entries[i].1)
            },
            None => None,
        }
    }
}

} // verus!
