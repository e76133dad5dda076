//! The scheduler's registry of running check loops: at most one handle per
//! service, so that starting a service's loop again replaces the old one and
//! stopping it finds the loop to abort.

use vstd::prelude::*;

verus! {

/// The handles of the running check loops, by service id.
pub struct TaskRegistry<H> {
    entries: Vec<(String, H)>,
}

/// The map from service ids to handles that a list of entries holds.
pub open spec fn entries_map<H>(s: Seq<(String, H)>) -> Map<Seq<char>, H>
    decreases s.len(),
{
    if s.len() == 0 {
        Map::empty()
    } else {
        entries_map(s.drop_last()).insert(s.last().0@, s.last().1)
    }
}

/// No service id occurs twice.
pub open spec fn distinct_ids<H>(s: Seq<(String, H)>) -> bool {
    forall|i: int, j: int| 0 <= i < j < s.len() ==> s[i].0@ != s[j].0@
}

proof fn lemma_entries_map_domain<H>(s: Seq<(String, H)>, k: Seq<char>)
    ensures
        entries_map(s).dom().contains(k) <==> exists|i: int| 0 <= i < s.len() && s[i].0@ == k,
    decreases s.len(),
{
    if s.len() > 0 {
        lemma_entries_map_domain(s.drop_last(), k);
        if entries_map(s).dom().contains(k) && k != s.last().0@ {
            let i = choose|i: int| 0 <= i < s.len() - 1 && s.drop_last()[i].0@ == k;
            assert(s[i].0@ == k);
        }
        if exists|i: int| 0 <= i < s.len() && s[i].0@ == k {
            let i = choose|i: int| 0 <= i < s.len() && s[i].0@ == k;
            if i < s.len() - 1 {
                assert(s.drop_last()[i].0@ == k);
            }
        }
    }
}

proof fn lemma_entries_map_value<H>(s: Seq<(String, H)>, i: int)
    requires
        distinct_ids(s),
        0 <= i < s.len(),
    ensures
        entries_map(s).dom().contains(s[i].0@),
        entries_map(s)[s[i].0@] == s[i].1,
    decreases s.len(),
{
    if i < s.len() - 1 {
        lemma_entries_map_value(s.drop_last(), i);
    }
}

proof fn lemma_entries_map_remove<H>(s: Seq<(String, H)>, i: int)
    requires
        distinct_ids(s),
        0 <= i < s.len(),
    ensures
        entries_map(s.remove(i)) == entries_map(s).remove(s[i].0@),
        distinct_ids(s.remove(i)),
    decreases s.len(),
{
    let k = s[i].0@;
    if i == s.len() - 1 {
        assert(s.remove(i) =~= s.drop_last());
        lemma_entries_map_domain(s.drop_last(), k);
        assert(entries_map(s.drop_last()) =~= entries_map(s).remove(k));
    } else {
        let d = s.drop_last();
        lemma_entries_map_remove(d, i);
        assert(s.remove(i) =~= d.remove(i).push(s.last()));
        assert(s.remove(i).drop_last() =~= d.remove(i));
        assert(entries_map(s.remove(i)) =~= entries_map(s).remove(k));
    }
}

impl<H> TaskRegistry<H> {
    /// The registry's entries have distinct service ids.
    #[verifier::type_invariant]
    closed spec fn wf(&self) -> bool {
        distinct_ids(self.entries@)
    }

    /// The handles, by service id.
    pub closed spec fn handles(&self) -> Map<Seq<char>, H> {
        entries_map(self.entries@)
    }

    /// An empty registry.
    pub fn new() -> (res: Self)
        ensures
            res.handles() == Map::<Seq<char>, H>::empty(),
    {
        TaskRegistry { entries: Vec::new() }
    }

    /// The number of running loops.
    pub fn len(&self) -> (res: usize)
        ensures
            res == self.handles().len(),
    {
        proof {
            use_type_invariant(self);
            self.lemma_len();
        }
        self.entries.len()
    }

    proof fn lemma_len(&self)
        requires
            self.wf(),
        ensures
            self.handles().dom().finite(),
            self.handles().len() == self.entries@.len(),
    {
        lemma_entries_map_len(self.entries@);
    }

    fn find(&self, id: &String) -> (res: Option<usize>)
        requires
            self.wf(),
        ensures
            match res {
                Some(i) => i < self.entries@.len() && self.entries@[i as int].0@ == id@,
                None => !self.handles().dom().contains(id@),
            },
    {
        let n = self.entries.len();
        let mut i: usize = 0;
        while i < n
            invariant
                n == self.entries@.len(),
                i <= n,
                forall|k: int| 0 <= k < i ==> self.entries@[k].0@ != id@,
            decreases n - i,
        {
            if self.entries[i].0 == *id {
                return Some(i);
            }
            i = i + 1;
        }
        proof {
            lemma_entries_map_domain(self.entries@, id@);
        }
        None
    }

    /// Whether a loop runs for the service.
    pub fn contains(&self, id: &String) -> (res: bool)
        ensures
            res == self.handles().dom().contains(id@),
    {
        proof {
            use_type_invariant(self);
        }
        match self.find(id) {
            Some(i) => {
                proof {
                    lemma_entries_map_value(self.entries@, i as int);
                }
                true
            },
            None => false,
        }
    }

    /// Takes the handle of the service's loop out of the registry, where
    /// there is one, so that it can be aborted.
    pub fn remove(&mut self, id: &String) -> (res: Option<H>)
        ensures
            removed(old(self).handles(), id@, res, final(self).handles()),
    {
        proof {
            use_type_invariant(&*self);
        }
        match self.find(id) {
            Some(i) => {
                proof {
                    lemma_entries_map_value(self.entries@, i as int);
                    lemma_entries_map_remove(self.entries@, i as int);
                }
                let mut entries: Vec<(String, H)> = Vec::new();
                std::mem::swap(&mut entries, &mut self.entries);
                let (_, h) = entries.remove(i);
                self.entries = entries;
                Some(h)
            },
            None => {
                assert(self.handles() =~= self.handles().remove(id@));
                None
            },
        }
    }

    /// Records the handle of the service's loop, giving back the one it
    /// replaces, where there was one.
    pub fn insert(&mut self, id: String, handle: H) -> (res: Option<H>)
        ensures
            inserted(old(self).handles(), id@, handle, res, final(self).handles()),
    {
        let ghost before = self.handles();
        let previous = self.remove(&id);
        proof {
            use_type_invariant(&*self);
        }
        let ghost k = id@;
        let ghost mid = self.entries@;
        let mut entries: Vec<(String, H)> = Vec::new();
        std::mem::swap(&mut entries, &mut self.entries);
        entries.push((id, handle));
        assert(entries@.drop_last() =~= mid);
        proof {
            lemma_entries_map_domain(mid, k);
            assert(distinct_ids(entries@));
        }
        self.entries = entries;
        assert(self.entries@.drop_last() =~= mid);
        assert(self.entries@.last().0@ == k);
        assert(self.handles() =~= before.insert(k, handle));
        previous
    }
}

/// The handle that `handles` holds for `id`, as an operation hands it back:
/// `None` where there is none.
pub open spec fn previous_handle<H>(handles: Map<Seq<char>, H>, id: Seq<char>) -> Option<H> {
    if handles.dom().contains(id) {
        Some(handles[id])
    } else {
        None
    }
}

/// What [`TaskRegistry::remove`] does: the service's handle leaves the
/// registry and is handed back, where there was one.
pub open spec fn removed<H>(
    before: Map<Seq<char>, H>,
    id: Seq<char>,
    res: Option<H>,
    after: Map<Seq<char>, H>,
) -> bool {
    &&& after == before.remove(id)
    &&& res == previous_handle(before, id)
}

/// What [`TaskRegistry::insert`] does: the service's handle becomes
/// `handle`, and the one it replaces is handed back, where there was one.
pub open spec fn inserted<H>(
    before: Map<Seq<char>, H>,
    id: Seq<char>,
    handle: H,
    res: Option<H>,
    after: Map<Seq<char>, H>,
) -> bool {
    &&& after == before.insert(id, handle)
    &&& res == previous_handle(before, id)
}

/// Restarting a service's loop, by removing its old handle and then
/// inserting the new one, leaves the new handle for that service and every
/// other service's handle as it was; the insert replaces nothing.
pub proof fn lemma_restart_replaces<H>(
    before: TaskRegistry<H>,
    between: TaskRegistry<H>,
    after: TaskRegistry<H>,
    id: Seq<char>,
    old_handle: Option<H>,
    handle: H,
    replaced: Option<H>,
)
    requires
        removed(before.handles(), id, old_handle, between.handles()),
        inserted(between.handles(), id, handle, replaced, after.handles()),
    ensures
        after.handles() == before.handles().insert(id, handle),
        after.handles()[id] == handle,
        replaced is None,
        old_handle == previous_handle(before.handles(), id),
{
    assert(before.handles().remove(id).insert(id, handle) =~= before.handles().insert(id, handle));
}

/// Removing a service's handle right after inserting it hands back that
/// handle and leaves the registry as it was, less that service.
pub proof fn lemma_stop_after_start<H>(
    before: TaskRegistry<H>,
    between: TaskRegistry<H>,
    after: TaskRegistry<H>,
    id: Seq<char>,
    handle: H,
    replaced: Option<H>,
    stopped: Option<H>,
)
    requires
        inserted(before.handles(), id, handle, replaced, between.handles()),
        removed(between.handles(), id, stopped, after.handles()),
    ensures
        stopped == Some(handle),
        after.handles() == before.handles().remove(id),
{
    assert(before.handles().insert(id, handle).remove(id) =~= before.handles().remove(id));
}

/// Inserting or removing one service's handle leaves the handles of all
/// other services as they were.
pub proof fn lemma_other_services_untouched<H>(
    before: TaskRegistry<H>,
    after: TaskRegistry<H>,
    id: Seq<char>,
    other: Seq<char>,
    handle: H,
    res: Option<H>,
)
    requires
        other != id,
        inserted(before.handles(), id, handle, res, after.handles())
            || removed(before.handles(), id, res, after.handles()),
    ensures
        previous_handle(after.handles(), other) == previous_handle(before.handles(), other),
{
}

proof fn lemma_entries_map_len<H>(s: Seq<(String, H)>)
    requires
        distinct_ids(s),
    ensures
        entries_map(s).dom().finite(),
        entries_map(s).len() == s.len(),
    decreases s.len(),
{
    if s.len() > 0 {
        let d = s.drop_last();
        assert(distinct_ids(d));
        lemma_entries_map_len(d);
        lemma_entries_map_domain(d, s.last().0@);
    }
}

} // verus!
