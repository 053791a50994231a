//! The result store: the one place where job records live, keyed by job id.

use vstd::prelude::*;
use crate::record::{CommandResult, Termination, VmDetails};

verus! {

/// Every record is well formed and filed under its own id.
pub open spec fn valid_records(m: Map<Seq<char>, CommandResult>) -> bool {
    forall|k: Seq<char>| #[trigger] m.contains_key(k) ==> m[k].wf() && m[k].id@ == k
}

/// The store `m` after the job under `id` is picked up by its executor.
pub open spec fn started_in(m: Map<Seq<char>, CommandResult>, id: Seq<char>) -> Map<
    Seq<char>,
    CommandResult,
> {
    if m.contains_key(id) {
        m.insert(id, m[id].spec_started())
    } else {
        m
    }
}

/// The store `m` after the machine `vm` is recorded for the job under `id`.
pub open spec fn attached_in(m: Map<Seq<char>, CommandResult>, id: Seq<char>, vm: VmDetails) -> Map<
    Seq<char>,
    CommandResult,
> {
    if m.contains_key(id) {
        m.insert(id, m[id].spec_with_vm(vm))
    } else {
        m
    }
}

/// The store `m` after the job under `id` terminates as `t` says.
pub open spec fn finished_in(m: Map<Seq<char>, CommandResult>, id: Seq<char>, t: Termination) -> Map<
    Seq<char>,
    CommandResult,
> {
    if m.contains_key(id) {
        m.insert(id, m[id].spec_terminated(t))
    } else {
        m
    }
}

/// A map from job id to job record. Lookups, inserts and in-place updates are
/// each one exclusive step, so a reader never sees a record half written.
pub struct JobStore {
    records: Vec<CommandResult>,
}

impl View for JobStore {
    type V = Map<Seq<char>, CommandResult>;

    closed spec fn view(&self) -> Map<Seq<char>, CommandResult> {
        Map::new(|k: Seq<char>| self.has_id(k), |k: Seq<char>| self.records@[self.index_of(k)])
    }
}

impl JobStore {
    spec fn has_id(&self, k: Seq<char>) -> bool {
        exists|i: int| 0 <= i < self.records@.len() && #[trigger] self.records@[i].id@ == k
    }

    spec fn index_of(&self, k: Seq<char>) -> int {
        choose|i: int| 0 <= i < self.records@.len() && #[trigger] self.records@[i].id@ == k
    }

    /// Ids are unique and every record is well formed.
    pub closed spec fn wf(&self) -> bool {
        &&& forall|i: int, j: int|
            0 <= i < j < self.records@.len() ==> #[trigger] self.records@[i].id@
                != #[trigger] self.records@[j].id@
        &&& forall|i: int| 0 <= i < self.records@.len() ==> (#[trigger] self.records@[i]).wf()
    }

    proof fn lemma_index_of(&self, i: int)
        requires
            self.wf(),
            0 <= i < self.records@.len(),
        ensures
            self.has_id(self.records@[i].id@),
            self.index_of(self.records@[i].id@) == i,
    {
        let k = self.records@[i].id@;
        assert(self.has_id(k));
        let j = self.index_of(k);
        if j != i {
            if j < i {
                assert(self.records@[j].id@ != self.records@[i].id@);
            } else {
                assert(self.records@[i].id@ != self.records@[j].id@);
            }
        }
    }

    /// A well-formed store files well-formed records, each under its own id.
    pub proof fn lemma_valid(&self)
        requires
            self.wf(),
        ensures
            valid_records(self@),
    {
        assert forall|k: Seq<char>| #[trigger] self@.contains_key(k) implies self@[k].wf()
            && self@[k].id@ == k by {
            let i = self.index_of(k);
            assert(self.has_id(k));
        }
    }

    /// An empty store.
    pub fn new() -> (r: JobStore)
        ensures
            r.wf(),
            r@ == Map::<Seq<char>, CommandResult>::empty(),
    {
        let r = JobStore { records: Vec::new() };
        assert(r@ =~= Map::<Seq<char>, CommandResult>::empty());
        r
    }

    /// The number of jobs held.
    pub fn len(&self) -> (r: usize)
        requires
            self.wf(),
        ensures
            r == self@.dom().len(),
    {
        proof {
            let ids = self.records@.map_values(|c: CommandResult| c.id@);
            assert forall|i: int, j: int| 0 <= i < ids.len() && 0 <= j < ids.len() && i != j
                implies ids[i] != ids[j] by {
                if i < j {
                    assert(self.records@[i].id@ != self.records@[j].id@);
                } else {
                    assert(self.records@[j].id@ != self.records@[i].id@);
                }
            }
            assert(ids.no_duplicates());
            assert forall|k: Seq<char>| self@.dom().contains(k) <==> ids.to_set().contains(k) by {
                if self@.dom().contains(k) {
                    let i = self.index_of(k);
                    assert(ids[i] == k);
                }
                if ids.to_set().contains(k) {
                    let i = choose|i: int| 0 <= i < ids.len() && ids[i] == k;
                    assert(self.records@[i].id@ == k);
                }
            }
            assert(self@.dom() =~= ids.to_set());
            ids.unique_seq_to_set();
        }
        self.records.len()
    }

    fn find(&self, id: &String) -> (r: Option<usize>)
        requires
            self.wf(),
        ensures
            match r {
                Some(i) => i < self.records@.len() && self.records@[i as int].id@ == id@
                    && self.index_of(id@) == i,
                None => !self.has_id(id@),
            },
    {
        let mut i: usize = 0;
        while i < self.records.len()
            invariant
                self.wf(),
                i <= self.records@.len(),
                forall|j: int| 0 <= j < i ==> self.records@[j].id@ != id@,
            decreases self.records@.len() - i,
        {
            if self.records[i].id == *id {
                proof {
                    self.lemma_index_of(i as int);
                }
                return Some(i);
            }
            i = i + 1;
        }
        None
    }

    /// Whether a job with this id is held.
    pub fn contains(&self, id: &String) -> (r: bool)
        requires
            self.wf(),
        ensures
            r == self@.contains_key(id@),
    {
        self.find(id).is_some()
    }

    /// A snapshot of the record filed under `id`, if any.
    pub fn get(&self, id: &String) -> (r: Option<CommandResult>)
        requires
            self.wf(),
        ensures
            match r {
                Some(c) => self@.contains_key(id@) && c == self@[id@],
                None => !self@.contains_key(id@),
            },
    {
        match self.find(id) {
            Some(i) => Some(self.records[i].snapshot()),
            None => None,
        }
    }

    fn replace(&mut self, i: usize, rec: CommandResult)
        requires
            old(self).wf(),
            i < old(self).records@.len(),
            rec.id@ == old(self).records@[i as int].id@,
            rec.wf(),
        ensures
            final(self).wf(),
            final(self)@ == old(self)@.insert(rec.id@, rec),
    {
        let ghost before = *self;
        self.records.set(i, rec);
        proof {
            let k = rec.id@;
            assert forall|a: int, b: int| 0 <= a < b < self.records@.len() implies
                #[trigger] self.records@[a].id@ != #[trigger] self.records@[b].id@ by {
                assert(before.records@[a].id@ != before.records@[b].id@);
            }
            assert forall|key: Seq<char>| #[trigger] self@.contains_key(key)
                == before@.insert(k, rec).contains_key(key) by {
                if self.has_id(key) {
                    let j = self.index_of(key);
                    assert(before.records@[j].id@ == key);
                }
                if before.has_id(key) {
                    let j = before.index_of(key);
                    assert(self.records@[j].id@ == key);
                }
                if key == k {
                    assert(self.records@[i as int].id@ == key);
                }
            }
            assert forall|key: Seq<char>| #[trigger] self@.contains_key(key) implies self@[key]
                == before@.insert(k, rec)[key] by {
                let j = self.index_of(key);
                self.lemma_index_of(j);
                if key == k {
                    self.lemma_index_of(i as int);
                } else {
                    before.lemma_index_of(j);
                }
            }
            assert(self@ =~= before@.insert(k, rec));
        }
    }

    /// Files `rec` under its id, replacing any record already there.
    pub fn put(&mut self, rec: CommandResult)
        requires
            old(self).wf(),
            rec.wf(),
        ensures
            final(self).wf(),
            final(self)@ == old(self)@.insert(rec.id@, rec),
    {
        match self.find(&rec.id) {
            Some(i) => self.replace(i, rec),
            None => {
                let ghost before = *self;
                let ghost k = rec.id@;
                self.records.push(rec);
                proof {
                    let n = before.records@.len() as int;
                    assert(self.records@[n].id@ == k);
                    assert forall|a: int, b: int| 0 <= a < b < self.records@.len() implies
                        #[trigger] self.records@[a].id@ != #[trigger] self.records@[b].id@ by {
                        if b < n {
                            assert(before.records@[a].id@ != before.records@[b].id@);
                        } else {
                            assert(before.records@[a].id@ == self.records@[a].id@);
                        }
                    }
                    assert forall|key: Seq<char>| #[trigger] self@.contains_key(key)
                        == before@.insert(k, rec).contains_key(key) by {
                        if self.has_id(key) {
                            let j = self.index_of(key);
                            if j < n {
                                assert(before.records@[j].id@ == key);
                            }
                        }
                        if before.has_id(key) {
                            let j = before.index_of(key);
                            assert(self.records@[j].id@ == key);
                        }
                    }
                    assert forall|key: Seq<char>| #[trigger] self@.contains_key(key) implies
                        self@[key] == before@.insert(k, rec)[key] by {
                        let j = self.index_of(key);
                        self.lemma_index_of(j);
                        if key != k {
                            before.lemma_index_of(j);
                        }
                    }
                    assert(self@ =~= before@.insert(k, rec));
                }
            },
        }
    }

    /// Replaces the record under `id` by `f(record)` when one is there; otherwise
    /// leaves the store as it was.
    pub fn update(&mut self, id: &String, f: impl Fn(CommandResult) -> CommandResult)
        requires
            old(self).wf(),
            forall|c: CommandResult| c.wf() ==> #[trigger] f.requires((c,)),
            forall|c: CommandResult, d: CommandResult| c.wf() && #[trigger] f.ensures((c,), d)
                ==> d.wf() && d.id@ == c.id@,
        ensures
            final(self).wf(),
            old(self)@.contains_key(id@) ==> exists|d: CommandResult|
                #[trigger] f.ensures((old(self)@[id@],), d) && final(self)@ == old(self)@.insert(
                    id@,
                    d,
                ),
            !old(self)@.contains_key(id@) ==> final(self)@ == old(self)@,
    {
        proof {
            self.lemma_valid();
        }
        match self.find(id) {
            Some(i) => {
                let cur = self.records[i].snapshot();
                let next = f(cur);
                self.replace(i, next);
            },
            None => {},
        }
    }

    /// Marks the job under `id` as running, if it is pending.
    pub fn mark_running(&mut self, id: &String)
        requires
            old(self).wf(),
        ensures
            final(self).wf(),
            final(self)@ == started_in(old(self)@, id@),
    {
        match self.find(id) {
            Some(i) => {
                let cur = self.records[i].snapshot();
                self.replace(i, cur.started());
            },
            None => {},
        }
    }

    /// Records which machine the job under `id` targets, unless it is terminal.
    pub fn attach_vm(&mut self, id: &String, vm: VmDetails)
        requires
            old(self).wf(),
        ensures
            final(self).wf(),
            final(self)@ == attached_in(old(self)@, id@, vm),
    {
        match self.find(id) {
            Some(i) => {
                let cur = self.records[i].snapshot();
                self.replace(i, cur.with_vm(vm));
            },
            None => {},
        }
    }

    /// Fills in how the job under `id` ended, in one step, unless it is already terminal.
    pub fn finish(&mut self, id: &String, t: Termination)
        requires
            old(self).wf(),
            t.wf(),
        ensures
            final(self).wf(),
            final(self)@ == finished_in(old(self)@, id@, t),
    {
        match self.find(id) {
            Some(i) => {
                let cur = self.records[i].snapshot();
                self.replace(i, cur.terminated(t));
            },
            None => {},
        }
    }
}

} // verus!
