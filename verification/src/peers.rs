//! The nodes that are connected.
use crate::text::same_text;
use vstd::prelude::*;

verus! {

/// The table of connected nodes: for each device id the handle of its connection.
pub struct PeerTable<S> {
    entries: Vec<(String, S)>,
}

/// The table that a list of entries stands for.
pub open spec fn table_of<S>(entries: Seq<(String, S)>) -> Map<Seq<char>, S>
    decreases entries.len(),
{
    if entries.len() == 0 {
        Map::empty()
    } else {
        table_of(entries.drop_last()).insert(entries.last().0@, entries.last().1)
    }
}

/// Whether no id stands twice in a list of entries.
pub open spec fn ids_differ<S>(entries: Seq<(String, S)>) -> bool {
    forall|i: int, j: int|
        0 <= i < j < entries.len() ==> (#[trigger] entries[i]).0@ != (#[trigger] entries[j]).0@
}

/// What a list of entries with different ids stands for, entry by entry.
proof fn table_entries<S>(entries: Seq<(String, S)>)
    requires
        ids_differ(entries),
    ensures
        table_of(entries).dom().finite(),
        table_of(entries).len() == entries.len(),
        forall|i: int|
            0 <= i < entries.len() ==> {
                &&& table_of(entries).dom().contains((#[trigger] entries[i]).0@)
                &&& table_of(entries)[entries[i].0@] == entries[i].1
            },
        forall|id: Seq<char>| #[trigger]
            table_of(entries).dom().contains(id) ==> exists|i: int|
                0 <= i < entries.len() && (#[trigger] entries[i]).0@ == id,
    decreases entries.len(),
{
    if entries.len() > 0 {
        let head = entries.drop_last();
        assert(ids_differ(head)) by {
            assert forall|i: int, j: int| 0 <= i < j < head.len() implies (
            #[trigger] head[i]).0@ != (#[trigger] head[j]).0@ by {
                assert(entries[i].0@ != entries[j].0@);
            }
        }
        table_entries(head);
        let last = entries.last();
        assert(!table_of(head).dom().contains(last.0@)) by {
            if table_of(head).dom().contains(last.0@) {
                let i = choose|i: int| 0 <= i < head.len() && (#[trigger] head[i]).0@ == last.0@;
                assert(entries[i].0@ != entries[entries.len() - 1].0@);
            }
        }
        assert forall|i: int| 0 <= i < entries.len() implies {
            &&& table_of(entries).dom().contains((#[trigger] entries[i]).0@)
            &&& table_of(entries)[entries[i].0@] == entries[i].1
        } by {
            if i < head.len() {
                assert(head[i] == entries[i]);
            }
        }
        assert forall|id: Seq<char>| #[trigger]
            table_of(entries).dom().contains(id) implies exists|i: int|
            0 <= i < entries.len() && (#[trigger] entries[i]).0@ == id by {
            if id == last.0@ {
                assert(entries[entries.len() - 1].0@ == id);
            } else {
                let i = choose|i: int| 0 <= i < head.len() && (#[trigger] head[i]).0@ == id;
                assert(entries[i].0@ == id);
            }
        }
    }
}

impl<S> PeerTable<S> {
    #[verifier::type_invariant]
    spec fn inv(self) -> bool {
        ids_differ(self.entries@)
    }
}

impl<S> View for PeerTable<S> {
    type V = Map<Seq<char>, S>;

    closed spec fn view(&self) -> Map<Seq<char>, S> {
        table_of(self.entries@)
    }
}

impl<S> PeerTable<S> {
    /// An empty table.
    pub fn new() -> (t: Self)
        ensures
            t@ == Map::<Seq<char>, S>::empty(),
    {
        PeerTable { entries: Vec::new() }
    }

    /// The number of connected nodes.
    pub fn len(&self) -> (n: usize)
        ensures
            n == self@.len(),
            self@.dom().finite(),
    {
        proof {
            use_type_invariant(self);
            table_entries(self.entries@);
        }
        self.entries.len()
    }

    /// Everyone a broadcast goes to: each connected node once, with its handle.
    pub fn recipients(&self) -> (list: Vec<(&str, &S)>)
        ensures
            list@.len() == self@.len(),
            forall|i: int|
                0 <= i < list@.len() ==> {
                    &&& self@.dom().contains((#[trigger] list@[i]).0@)
                    &&& *list@[i].1 == self@[list@[i].0@]
                },
            forall|i: int, j: int|
                0 <= i < j < list@.len() ==> (#[trigger] list@[i]).0@ != (#[trigger] list@[j]).0@,
            forall|id: Seq<char>| #[trigger]
                self@.dom().contains(id) ==> exists|i: int|
                    0 <= i < list@.len() && (#[trigger] list@[i]).0@ == id,
    {
        proof {
            use_type_invariant(self);
            table_entries(self.entries@);
        }
        let mut list: Vec<(&str, &S)> = Vec::new();
        let mut i: usize = 0;
        while i < self.entries.len()
            invariant
                i <= self.entries@.len(),
                list@.len() == i,
                forall|j: int|
                    0 <= j < i ==> {
                        &&& (#[trigger] list@[j]).0@ == self.entries@[j].0@
                        &&& *list@[j].1 == self.entries@[j].1
                    },
            decreases self.entries@.len() - i,
        {
            list.push((self.entries[i].0.as_str(), &self.entries[i].1));
            i += 1;
        }
        assert forall|i: int, j: int| 0 <= i < j < list@.len() implies (
        #[trigger] list@[i]).0@ != (#[trigger] list@[j]).0@ by {
            assert(self.entries@[i].0@ != self.entries@[j].0@);
        }
        assert forall|id: Seq<char>| #[trigger] self@.dom().contains(id) implies exists|i: int|
            0 <= i < list@.len() && (#[trigger] list@[i]).0@ == id by {
            let i = choose|i: int|
                0 <= i < self.entries@.len() && (#[trigger] self.entries@[i]).0@ == id;
            assert(list@[i].0@ == id);
        }
        list
    }

    /// The position of an id.
    fn find(&self, id: &str) -> (r: Option<usize>)
        ensures
            match r {
                Some(i) => i < self.entries@.len() && self.entries@[i as int].0@ == id@,
                None => forall|i: int|
                    0 <= i < self.entries@.len() ==> (#[trigger] self.entries@[i]).0@ != id@,
            },
    {
        let mut i: usize = 0;
        while i < self.entries.len()
            invariant
                i <= self.entries@.len(),
                forall|j: int| 0 <= j < i ==> (#[trigger] self.entries@[j]).0@ != id@,
            decreases self.entries@.len() - i,
        {
            if same_text(self.entries[i].0.as_str(), id) {
                return Some(i);
            }
            i += 1;
        }
        None
    }

    /// Whether a node is connected.
    pub fn contains_key(&self, id: &str) -> (r: bool)
        ensures
            r == self@.dom().contains(id@),
    {
        proof {
            use_type_invariant(self);
            table_entries(self.entries@);
        }
        self.find(id).is_some()
    }

    /// Enters a node unless it is in the table already, in which case the table
    /// stays as it is.
    pub fn try_insert(&mut self, id: &str, handle: S) -> (inserted: bool)
        ensures
            inserted == !old(self)@.dom().contains(id@),
            final(self)@ == if inserted {
                old(self)@.insert(id@, handle)
            } else {
                old(self)@
            },
    {
        proof {
            use_type_invariant(&*self);
            table_entries(self.entries@);
        }
        match self.find(id) {
            Some(_) => false,
            None => {
                let mut entries: Vec<(String, S)> = Vec::new();
                std::mem::swap(&mut entries, &mut self.entries);
                let ghost before = entries@;
                entries.push((id.to_owned(), handle));
                assert(entries@.drop_last() =~= before);
                assert(ids_differ(entries@)) by {
                    assert forall|i: int, j: int| 0 <= i < j < entries@.len() implies (
                    #[trigger] entries@[i]).0@ != (#[trigger] entries@[j]).0@ by {
                        assert(entries@[i] == before[i]);
                        if j < before.len() {
                            assert(entries@[j] == before[j]);
                        }
                    }
                }
                self.entries = entries;
                true
            },
        }
    }

    /// Takes a node out of the table.
    pub fn remove(&mut self, id: &str) -> (r: Option<S>)
        ensures
            match r {
                Some(handle) => old(self)@.dom().contains(id@) && handle == old(self)@[id@],
                None => !old(self)@.dom().contains(id@),
            },
            final(self)@ == old(self)@.remove(id@),
    {
        proof {
            use_type_invariant(&*self);
            table_entries(self.entries@);
        }
        match self.find(id) {
            Some(i) => {
                let mut entries: Vec<(String, S)> = Vec::new();
                std::mem::swap(&mut entries, &mut self.entries);
                let ghost before = entries@;
                let (_, handle) = entries.remove(i);
                proof {
                    remove_entry(before, i as int);
                    assert(entries@ =~= before.remove(i as int));
                }
                self.entries = entries;
                Some(handle)
            },
            None => {
                assert(self@.remove(id@) =~= self@);
                None
            },
        }
    }
}

/// Taking an entry out of the list takes its id out of the table.
proof fn remove_entry<S>(entries: Seq<(String, S)>, k: int)
    requires
        ids_differ(entries),
        0 <= k < entries.len(),
    ensures
        ids_differ(entries.remove(k)),
        table_of(entries.remove(k)) == table_of(entries).remove(entries[k].0@),
{
    let rest = entries.remove(k);
    let id = entries[k].0@;
    assert forall|i: int, j: int| 0 <= i < j < rest.len() implies (#[trigger] rest[i]).0@ != (
    #[trigger] rest[j]).0@ by {
        let x = if i < k { i } else { i + 1 };
        let y = if j < k { j } else { j + 1 };
        assert(entries[x].0@ != entries[y].0@);
    }
    table_entries(entries);
    table_entries(rest);
    let a = table_of(rest);
    let b = table_of(entries).remove(id);
    assert forall|x: Seq<char>| #[trigger] a.dom().contains(x) <==> b.dom().contains(x) by {
        if a.dom().contains(x) {
            let i = choose|i: int| 0 <= i < rest.len() && (#[trigger] rest[i]).0@ == x;
            let j = if i < k { i } else { i + 1 };
            assert(entries[j].0@ == x);
            if j < k {
                assert(entries[j].0@ != entries[k].0@);
            } else {
                assert(entries[k].0@ != entries[j].0@);
            }
        }
        if b.dom().contains(x) {
            let j = choose|j: int| 0 <= j < entries.len() && (#[trigger] entries[j]).0@ == x;
            let i = if j < k { j } else { j - 1 };
            assert(rest[i].0@ == x);
        }
    }
    assert forall|x: Seq<char>| a.dom().contains(x) implies a[x] == b[x] by {
        let i = choose|i: int| 0 <= i < rest.len() && (#[trigger] rest[i]).0@ == x;
        let j = if i < k { i } else { i + 1 };
        assert(rest[i] == entries[j]);
        assert(table_of(entries)[entries[j].0@] == entries[j].1);
    }
    assert(a =~= b);
}

} // verus!
