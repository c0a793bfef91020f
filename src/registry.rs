use std::collections::HashMap;
use vstd::prelude::*;

verus! {

broadcast use vstd::std_specs::hash::group_hash_axioms;

/// The error of a lookup at a location identifier that has no mock value.
#[derive(Clone, Copy, Debug, PartialEq, Eq, Structural)]
pub struct MissingMock {
    /// The identifier that was looked up.
    pub location_id: usize,
}

/// What a lookup of `id` in a registry whose contents are `m` may return:
/// a copy of the installed value, or the error that names `id`.
pub open spec fn serves<V: Clone>(m: Map<usize, V>, id: usize, r: Result<V, MissingMock>) -> bool {
    match r {
        Ok(v) => m.contains_key(id) && cloned(m[id], v),
        Err(e) => !m.contains_key(id) && e == (MissingMock { location_id: id }),
    }
}

/// The contents of a registry that held `m` once `entries` were installed
/// in order: a later entry for an identifier replaces an earlier one.
pub open spec fn installed<V>(m: Map<usize, V>, entries: Seq<(usize, V)>) -> Map<usize, V>
    decreases entries.len(),
{
    if entries.len() == 0 {
        m
    } else {
        let last = entries.last();
        installed(m, entries.drop_last()).insert(last.0, last.1)
    }
}

/// One installed value serves every lookup of its identifier: each lookup
/// that follows the installation, however many there are, returns a copy of
/// that value.
pub proof fn law_one_install_serves_every_lookup<V: Clone>(
    m: Map<usize, V>,
    id: usize,
    v: V,
    results: Seq<Result<V, MissingMock>>,
)
    requires
        forall|k: int| 0 <= k < results.len() ==> serves(m.insert(id, v), id, #[trigger] results[k]),
    ensures
        forall|k: int|
            0 <= k < results.len() ==> (#[trigger] results[k] matches Ok(c) && cloned(v, c)),
{
    assert forall|k: int| 0 <= k < results.len() implies (#[trigger] results[k] matches Ok(c)
        && cloned(v, c)) by {
        assert(m.insert(id, v).contains_key(id));
        assert(m.insert(id, v)[id] == v);
    }
}

/// Within one installation the last entry for an identifier wins: whatever
/// the registry held before and whatever earlier entries gave for it.
pub proof fn law_later_entry_wins<V>(m: Map<usize, V>, entries: Seq<(usize, V)>, j: int)
    requires
        0 <= j < entries.len(),
        forall|k: int| j < k < entries.len() ==> (#[trigger] entries[k]).0 != entries[j].0,
    ensures
        installed(m, entries).contains_key(entries[j].0),
        installed(m, entries)[entries[j].0] == entries[j].1,
    decreases entries.len(),
{
    if j < entries.len() - 1 {
        let front = entries.drop_last();
        assert forall|k: int| j < k < front.len() implies (#[trigger] front[k]).0 != front[j].0 by {
            assert(front[k] == entries[k]);
        }
        law_later_entry_wins(m, front, j);
        assert(entries.last() == entries[entries.len() - 1]);
    }
}

/// A store of mock values, keyed by location identifier.
///
/// Values are installed by the test and handed out as copies, so one value
/// can serve any number of lookups. The handle is passed explicitly to the
/// code under test; lookups borrow it shared and installation borrows it
/// exclusively, so readers run together and a writer runs alone.
pub struct MockRegistry<V> {
    mocks: HashMap<usize, V>,
}

impl<V> View for MockRegistry<V> {
    type V = Map<usize, V>;

    closed spec fn view(&self) -> Map<usize, V> {
        self.mocks@
    }
}

impl<V> MockRegistry<V> {
    /// An empty registry.
    pub fn new() -> (r: Self)
        ensures
            r@ == Map::<usize, V>::empty(),
    {
        MockRegistry { mocks: HashMap::new() }
    }

    /// Inserts `value` under `id`, replacing any value that was there.
    pub fn install(&mut self, id: usize, value: V)
        ensures
            final(self)@ == old(self)@.insert(id, value),
    {
        self.mocks.insert(id, value);
    }

    /// Installs `entries` in order, then runs `test_code` against the
    /// registry and returns what it returns. The entries stay installed
    /// afterwards.
    pub fn with_context<R, F: FnOnce(&MockRegistry<V>) -> R>(
        &mut self,
        entries: Vec<(usize, V)>,
        test_code: F,
    ) -> (r: R)
        requires
            forall|m: &MockRegistry<V>|
                m@ == installed(old(self)@, entries@) ==> #[trigger] test_code.requires((m,)),
        ensures
            final(self)@ == installed(old(self)@, entries@),
            test_code.ensures((&*final(self),), r),
    {
        let ghost start = self@;
        let ghost all = entries@;
        let ghost mut done: int = 0;
        let mut entries = entries;
        while entries.len() > 0
            invariant
                0 <= done <= all.len(),
                entries@ == all.subrange(done, all.len() as int),
                self@ == installed(start, all.take(done)),
            decreases entries.len(),
        {
            let (id, value) = entries.remove(0);
            self.install(id, value);
            proof {
                assert(all.take(done + 1).drop_last() =~= all.take(done));
                done = done + 1;
            }
        }
        assert(all.take(all.len() as int) =~= all);
        test_code(&*self)
    }
}

impl<V: Clone> MockRegistry<V> {
    /// A copy of the value installed under `id`, or the error naming `id`.
    pub fn lookup(&self, id: usize) -> (r: Result<V, MissingMock>)
        ensures
            serves(self@, id, r),
    {
        match self.mocks.get(&id) {
            Some(v) => Ok(v.clone()),
            None => Err(MissingMock { location_id: id }),
        }
    }
}

} // verus!
