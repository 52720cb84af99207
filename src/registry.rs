use vstd::prelude::*;

verus! {

/// A table from operator names to the engine's handles for them, built once
/// and read afterwards. Names are kept unique: inserting a name that is
/// present replaces its handle, as a map does.
pub struct Registry<H> {
    names: Vec<String>,
    handles: Vec<H>,
}

/// The map that a list of (name, handle) entries builds when they are
/// inserted in order: a later entry of a name replaces an earlier one.
pub open spec fn entries_map<H>(entries: Seq<(String, H)>) -> Map<Seq<char>, H>
    decreases entries.len(),
{
    if entries.len() == 0 {
        Map::empty()
    } else {
        entries_map(entries.drop_last()).insert(entries.last().0@, entries.last().1)
    }
}

impl<H> View for Registry<H> {
    type V = Map<Seq<char>, H>;

    closed spec fn view(&self) -> Map<Seq<char>, H> {
        Map::new(
            |k: Seq<char>| exists|i: int| 0 <= i < self.names@.len() && #[trigger] self.names@[i]@ == k,
            |k: Seq<char>|
                self.handles@[choose|i: int| 0 <= i < self.names@.len() && #[trigger] self.names@[i]@ == k],
        )
    }
}

impl<H> Registry<H> {
    /// Names and handles stand in parallel, and no name occurs twice.
    pub closed spec fn wf(&self) -> bool {
        &&& self.names@.len() == self.handles@.len()
        &&& forall|i: int, j: int|
            0 <= i < self.names@.len() && 0 <= j < self.names@.len() && i != j
                ==> #[trigger] self.names@[i]@ != #[trigger] self.names@[j]@
    }

    proof fn lemma_at(&self, i: int)
        requires
            self.wf(),
            0 <= i < self.names@.len(),
        ensures
            self@.contains_key(self.names@[i]@),
            self@[self.names@[i]@] == self.handles@[i],
    {
        let k = self.names@[i]@;
        assert(self@.contains_key(k));
        let c = choose|j: int| 0 <= j < self.names@.len() && #[trigger] self.names@[j]@ == k;
        assert(c == i);
    }

    pub fn new() -> (r: Self)
        ensures
            r.wf(),
            r@ == Map::<Seq<char>, H>::empty(),
    {
        let r = Registry { names: Vec::new(), handles: Vec::new() };
        assert(r@ =~= Map::<Seq<char>, H>::empty());
        r
    }

    /// The position of `name`, if it is present.
    fn find(&self, name: &String) -> (r: Option<usize>)
        requires
            self.wf(),
        ensures
            r matches Some(i) ==> i < self.names@.len() && self.names@[i as int]@ == name@,
            r is None ==> !self@.contains_key(name@),
    {
        let mut i: usize = 0;
        while i < self.names.len()
            invariant
                self.wf(),
                0 <= i <= self.names@.len(),
                forall|j: int| 0 <= j < i ==> self.names@[j]@ != name@,
            decreases self.names@.len() - i,
        {
            if self.names[i] == *name {
                return Some(i);
            }
            i = i + 1;
        }
        None
    }

    /// Bind `name` to `handle`, replacing an earlier handle of that name.
    pub fn insert(&mut self, name: String, handle: H)
        requires
            old(self).wf(),
        ensures
            final(self).wf(),
            final(self)@ == old(self)@.insert(name@, handle),
    {
        match self.find(&name) {
            Some(i) => {
                let ghost pre = *self;
                self.handles.set(i, handle);
                assert forall|k: Seq<char>| #[trigger]
                    self@.contains_key(k) == pre@.insert(name@, handle).contains_key(k) by {
                    if pre@.contains_key(k) {
                        let j = choose|j: int| 0 <= j < pre.names@.len() && #[trigger] pre.names@[j]@ == k;
                        assert(self.names@[j]@ == k);
                    }
                    if self@.contains_key(k) {
                        let j = choose|j: int| 0 <= j < self.names@.len() && #[trigger] self.names@[j]@ == k;
                        assert(pre.names@[j]@ == k);
                    }
                };
                assert forall|k: Seq<char>| #[trigger] self@.contains_key(k) implies
                    self@[k] == pre@.insert(name@, handle)[k] by {
                    let j = choose|j: int| 0 <= j < self.names@.len() && #[trigger] self.names@[j]@ == k;
                    self.lemma_at(j);
                    if j != i {
                        pre.lemma_at(j);
                    }
                };
                assert(self@ =~= pre@.insert(name@, handle));
            },
            None => {
                let ghost pre = *self;
                let ghost n = name@;
                self.names.push(name);
                self.handles.push(handle);
                let ghost last = pre.names@.len() as int;
                assert(self.names@[last]@ == n);
                assert forall|k: Seq<char>| #[trigger]
                    self@.contains_key(k) == pre@.insert(n, handle).contains_key(k) by {
                    if pre@.contains_key(k) {
                        let j = choose|j: int| 0 <= j < pre.names@.len() && #[trigger] pre.names@[j]@ == k;
                        assert(self.names@[j]@ == k);
                    }
                    if k == n {
                        assert(self.names@[last]@ == k);
                    }
                    if self@.contains_key(k) {
                        let j = choose|j: int| 0 <= j < self.names@.len() && #[trigger] self.names@[j]@ == k;
                        if j < last {
                            assert(pre.names@[j]@ == k);
                        }
                    }
                };
                assert forall|k: Seq<char>| #[trigger] self@.contains_key(k) implies
                    self@[k] == pre@.insert(n, handle)[k] by {
                    let j = choose|j: int| 0 <= j < self.names@.len() && #[trigger] self.names@[j]@ == k;
                    self.lemma_at(j);
                    if j < last {
                        pre.lemma_at(j);
                    }
                };
                assert(self@ =~= pre@.insert(n, handle));
            },
        }
    }

    /// The handle bound to `name`, if any.
    pub fn get(&self, name: &String) -> (r: Option<&H>)
        requires
            self.wf(),
        ensures
            r matches Some(h) <==> self@.contains_key(name@),
            r matches Some(h) ==> *h == self@[name@],
    {
        match self.find(name) {
            Some(i) => {
                proof {
                    self.lemma_at(i as int);
                }
                Some(&self.handles[i])
            },
            None => None,
        }
    }

    /// The registry of the given entries, inserted in order.
    pub fn from_entries(entries: Vec<(String, H)>) -> (r: Self)
        ensures
            r.wf(),
            r@ == entries_map(entries@),
    {
        let mut entries = entries;
        let ghost all = entries@;
        let mut r = Self::new();
        while entries.len() > 0
            invariant
                r.wf(),
                0 <= all.len() - entries@.len() <= all.len(),
                entries@ == all.skip(all.len() - entries@.len()),
                r@ == entries_map(all.take(all.len() - entries@.len())),
            decreases entries@.len(),
        {
            let ghost done = all.len() - entries@.len();
            let (name, handle) = entries.remove(0);
            proof {
                assert(all.take(done + 1).drop_last() =~= all.take(done));
                assert(entries@ =~= all.skip(done + 1));
            }
            r.insert(name, handle);
        }
        assert(all.take(all.len() as int) =~= all);
        r
    }
}

} // verus!
