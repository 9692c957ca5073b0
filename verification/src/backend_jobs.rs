//! Registry of background jobs: for each key only the latest job counts;
//! starting a newer job for a key cancels the previous one, and a job
//! finishing late never displaces the current one. Project operation lanes
//! give every (project, lane) pair one slot, so work in a lane is
//! serialised.

use vstd::prelude::*;
use crate::error::{CommandError, CommandResult, retryable_is, system_fault_is};
use crate::text::{cat3, chars_eq, chars_of, own};

verus! {

/// The handle through which a job learns that it was cancelled. Tokens are
/// issued by a [`BackendJobRegistry`], which holds their state.
#[derive(Debug, Clone, Copy, PartialEq, Eq, Structural)]
pub struct BackendCancellationToken {
    generation: u64,
}

/// A job started by `start_latest`.
#[derive(Debug, Clone)]
pub struct BackendLatestJob {
    pub key: String,
    pub label: String,
    pub generation: u64,
    pub cancellation: BackendCancellationToken,
}

#[derive(Debug, Clone)]
struct LatestJobState {
    key: String,
    generation: u64,
}

/// The registry of latest jobs, cancelled tokens and operation lanes.
#[derive(Debug)]
pub struct BackendJobRegistry {
    latest_jobs: Vec<LatestJobState>,
    cancelled: Vec<u64>,
    lanes: Vec<String>,
    next_generation: u64,
}

/// The generation recorded for key `k` in `s`, searching from the end.
pub open spec fn lookup(s: Seq<(Seq<char>, u64)>, k: Seq<char>) -> Option<u64>
    decreases s.len(),
{
    if s.len() == 0 {
        None
    } else if s.last().0 == k {
        Some(s.last().1)
    } else {
        lookup(s.drop_last(), k)
    }
}

pub open spec fn unique_keys(s: Seq<(Seq<char>, u64)>) -> bool {
    forall|i: int, j: int| 0 <= i < s.len() && 0 <= j < s.len() && i != j ==> s[i].0 != s[j].0
}

/// The latest-job table after `k` was given generation `g`.
pub open spec fn map_insert(m: Map<Seq<char>, u64>, k: Seq<char>, g: u64) -> Map<Seq<char>, u64> {
    m.insert(k, g)
}

/// The latest-job table after job (`k`, `g`) finished: the entry goes only
/// when it still holds `g`.
pub open spec fn map_finish(m: Map<Seq<char>, u64>, k: Seq<char>, g: u64) -> Map<Seq<char>, u64> {
    if m.contains_key(k) && m[k] == g {
        m.remove(k)
    } else {
        m
    }
}

/// The table as a map from key to generation.
pub open spec fn as_map(s: Seq<(Seq<char>, u64)>) -> Map<Seq<char>, u64> {
    Map::new(|k: Seq<char>| lookup(s, k) is Some, |k: Seq<char>| lookup(s, k)->0)
}

proof fn lemma_push_set(s: Seq<u64>, x: u64)
    ensures
        Set::new(|g: u64| s.push(x).contains(g)) =~= Set::new(|g: u64| s.contains(g)).insert(x),
{
    let a = Set::new(|g: u64| s.push(x).contains(g));
    let b = Set::new(|g: u64| s.contains(g)).insert(x);
    assert forall|g: u64| a.contains(g) <==> b.contains(g) by {
        if s.contains(g) {
            let i = choose|i: int| 0 <= i < s.len() && s[i] == g;
            assert(s.push(x)[i] == g);
        }
        if g == x {
            assert(s.push(x)[s.len() as int] == x);
        }
        if s.push(x).contains(g) {
            let i = choose|i: int| 0 <= i < s.len() + 1 && s.push(x)[i] == g;
            if i < s.len() {
                assert(s[i] == g);
            }
        }
    }
    assert(a =~= b);
}

proof fn lemma_lookup_at(s: Seq<(Seq<char>, u64)>, i: int)
    requires
        unique_keys(s),
        0 <= i < s.len(),
    ensures
        lookup(s, s[i].0) == Some(s[i].1),
    decreases s.len(),
{
    if i != s.len() - 1 {
        assert(s.last().0 != s[i].0);
        assert(unique_keys(s.drop_last()));
        lemma_lookup_at(s.drop_last(), i);
    }
}

proof fn lemma_lookup_absent(s: Seq<(Seq<char>, u64)>, k: Seq<char>)
    requires
        forall|j: int| 0 <= j < s.len() ==> s[j].0 != k,
    ensures
        lookup(s, k) is None,
    decreases s.len(),
{
    if s.len() > 0 {
        lemma_lookup_absent(s.drop_last(), k);
    }
}

proof fn lemma_lookup_found(s: Seq<(Seq<char>, u64)>, k: Seq<char>)
    requires
        lookup(s, k) is Some,
    ensures
        exists|j: int| 0 <= j < s.len() && s[j].0 == k && s[j].1 == lookup(s, k)->0,
    decreases s.len(),
{
    if s.last().0 != k {
        lemma_lookup_found(s.drop_last(), k);
        let j = choose|j: int| 0 <= j < s.drop_last().len() && s.drop_last()[j].0 == k && s.drop_last()[j].1 == lookup(s.drop_last(), k)->0;
        assert(s[j] == s.drop_last()[j]);
    } else {
        assert(s[s.len() - 1].0 == k);
    }
}

/// With unique keys, the map of `s` is determined by its entries.
proof fn lemma_map_equiv(s: Seq<(Seq<char>, u64)>, t: Seq<(Seq<char>, u64)>, m: Map<Seq<char>, u64>)
    requires
        unique_keys(t),
        forall|k: Seq<char>| #[trigger] m.contains_key(k) ==> exists|j: int| 0 <= j < t.len() && t[j].0 == k && t[j].1 == m[k],
        forall|j: int| 0 <= j < t.len() ==> #[trigger] m.contains_key(t[j].0) && m[t[j].0] == t[j].1,
    ensures
        as_map(t) =~= m,
{
    assert forall|k: Seq<char>| #[trigger] as_map(t).contains_key(k) <==> m.contains_key(k) by {
        if m.contains_key(k) {
            let j = choose|j: int| 0 <= j < t.len() && t[j].0 == k && t[j].1 == m[k];
            lemma_lookup_at(t, j);
        }
        if lookup(t, k) is Some {
            lemma_lookup_found(t, k);
            let j = choose|j: int| 0 <= j < t.len() && t[j].0 == k && t[j].1 == lookup(t, k)->0;
            assert(m.contains_key(t[j].0));
        }
    }
    assert forall|k: Seq<char>| as_map(t).contains_key(k) implies #[trigger] as_map(t)[k] == m[k] by {
        lemma_lookup_found(t, k);
        let j = choose|j: int| 0 <= j < t.len() && t[j].0 == k && t[j].1 == lookup(t, k)->0;
        assert(m.contains_key(t[j].0));
    }
}

impl BackendJobRegistry {
    /// The table of latest jobs as (key, generation) entries.
    pub closed spec fn entries(&self) -> Seq<(Seq<char>, u64)> {
        self.latest_jobs@.map_values(|e: LatestJobState| (e.key@, e.generation))
    }

    /// The latest job of each key, by generation.
    pub closed spec fn latest(&self) -> Map<Seq<char>, u64> {
        as_map(self.entries())
    }

    /// The generations whose tokens were cancelled.
    pub closed spec fn cancelled(&self) -> Set<u64> {
        Set::new(|g: u64| self.cancelled@.contains(g))
    }

    /// The generation most recently issued (0 before any job).
    pub closed spec fn issued(&self) -> u64 {
        self.next_generation
    }

    /// The operation lanes registered so far, by key.
    pub closed spec fn lanes(&self) -> Seq<Seq<char>> {
        self.lanes@.map_values(|l: String| l@)
    }

    #[verifier::type_invariant]
    closed spec fn consistent(self) -> bool {
        &&& unique_keys(self.entries())
        &&& forall|i: int| 0 <= i < self.latest_jobs.len() ==> 0 < #[trigger] self.latest_jobs@[i].generation <= self.next_generation
        &&& forall|i: int| 0 <= i < self.cancelled.len() ==> 0 < #[trigger] self.cancelled@[i] <= self.next_generation
    }

    /// An empty registry.
    pub fn new() -> (r: Self)
        ensures
            r.latest() == Map::<Seq<char>, u64>::empty(),
            r.cancelled() == Set::<u64>::empty(),
            r.issued() == 0,
            r.lanes() == Seq::<Seq<char>>::empty(),
    {
        let r = BackendJobRegistry { latest_jobs: Vec::new(), cancelled: Vec::new(), lanes: Vec::new(), next_generation: 0 };
        proof {
            assert(r.entries() =~= Seq::<(Seq<char>, u64)>::empty());
            assert(r.latest() =~= Map::<Seq<char>, u64>::empty());
            assert(r.cancelled() =~= Set::<u64>::empty());
            assert(r.lanes() =~= Seq::<Seq<char>>::empty());
        }
        r
    }

    /// The index of `key` in the latest-job table.
    fn find(&self, key: &Vec<char>) -> (r: Option<usize>)
        ensures
            r matches Some(i) ==> i < self.entries().len() && self.entries()[i as int].0 == key@,
            r is None ==> forall|j: int| 0 <= j < self.entries().len() ==> self.entries()[j].0 != key@,
    {
        let mut i: usize = 0;
        while i < self.latest_jobs.len()
            invariant
                i <= self.latest_jobs.len(),
                forall|j: int| 0 <= j < i ==> self.entries()[j].0 != key@,
            decreases self.latest_jobs.len() - i,
        {
            let k = chars_of(self.latest_jobs[i].key.as_str());
            if chars_eq(&k, key) {
                return Some(i);
            }
            i = i + 1;
        }
        None
    }

    /// Starts the latest job for `key`: it gets a fresh generation, becomes
    /// the key's latest job, and the key's previous job, if any, is cancelled.
    pub fn start_latest(&mut self, key: &str, label: &str) -> (job: BackendLatestJob)
        requires
            old(self).issued() < u64::MAX,
        ensures
            job.key@ == key@,
            job.label@ == label@,
            job.generation == old(self).issued() + 1,
            job.cancellation.generation() == job.generation,
            !final(self).cancelled().contains(job.generation),
            final(self).issued() == job.generation,
            final(self).latest() == map_insert(old(self).latest(), key@, job.generation),
            final(self).cancelled() == if old(self).latest().contains_key(key@) {
                old(self).cancelled().insert(old(self).latest()[key@])
            } else {
                old(self).cancelled()
            },
            final(self).lanes() == old(self).lanes(),
    {
        proof {
            use_type_invariant(&*self);
        }
        let kv = chars_of(key);
        let generation = self.next_generation + 1;
        let found = self.find(&kv);
        let ghost old_entries = self.entries();
        let ghost old_map = self.latest();
        let mut jobs: Vec<LatestJobState> = Vec::new();
        std::mem::swap(&mut jobs, &mut self.latest_jobs);
        let mut cancelled: Vec<u64> = Vec::new();
        std::mem::swap(&mut cancelled, &mut self.cancelled);
        let ghost old_cancelled = cancelled@;
        match found {
            Some(i) => {
                let previous = jobs[i].generation;
                proof {
                    lemma_lookup_at(old_entries, i as int);
                }
                cancelled.push(previous);
                jobs.set(i, LatestJobState { key: own(key), generation });
                proof {
                    lemma_push_set(old_cancelled, previous);
                }
            },
            None => {
                proof {
                    lemma_lookup_absent(old_entries, key@);
                }
                jobs.push(LatestJobState { key: own(key), generation });
            },
        }
        let ghost new_entries = jobs@.map_values(|e: LatestJobState| (e.key@, e.generation));
        proof {
            let m = map_insert(old_map, key@, generation);
            if found is Some {
                let i = found->0 as int;
                assert(new_entries =~= old_entries.update(i, (key@, generation)));
            } else {
                assert(new_entries =~= old_entries.push((key@, generation)));
            }
            assert(unique_keys(new_entries));
            assert forall|k: Seq<char>| #[trigger] m.contains_key(k) implies exists|j: int| 0 <= j < new_entries.len() && new_entries[j].0 == k && new_entries[j].1 == m[k] by {
                if k == key@ {
                    if found is Some {
                        assert(new_entries[found->0 as int].0 == k);
                    } else {
                        assert(new_entries[new_entries.len() - 1].0 == k);
                    }
                } else {
                    lemma_lookup_found(old_entries, k);
                    let j = choose|j: int| 0 <= j < old_entries.len() && old_entries[j].0 == k && old_entries[j].1 == lookup(old_entries, k)->0;
                    assert(new_entries[j] == old_entries[j]);
                }
            }
            assert forall|j: int| 0 <= j < new_entries.len() implies #[trigger] m.contains_key(new_entries[j].0) && m[new_entries[j].0] == new_entries[j].1 by {
                if new_entries[j].0 != key@ {
                    assert(j < old_entries.len() && new_entries[j] == old_entries[j]);
                    lemma_lookup_at(old_entries, j);
                }
            }
            lemma_map_equiv(old_entries, new_entries, m);
            assert forall|j: int| 0 <= j < jobs.len() implies 0 < #[trigger] jobs@[j].generation <= generation by {
                if jobs@[j].generation != generation {
                    assert(new_entries[j].0 != key@);
                    assert(j < old_entries.len());
                }
            }
        }
        self.next_generation = generation;
        self.latest_jobs = jobs;
        self.cancelled = cancelled;
        BackendLatestJob {
            key: own(key),
            label: own(label),
            generation,
            cancellation: BackendCancellationToken { generation },
        }
    }

    /// Whether `job` is still the latest job of its key.
    pub fn is_latest(&self, job: &BackendLatestJob) -> (r: bool)
        ensures
            r == (self.latest().contains_key(job.key@) && self.latest()[job.key@] == job.generation),
    {
        proof {
            use_type_invariant(self);
        }
        let kv = chars_of(job.key.as_str());
        match self.find(&kv) {
            Some(i) => {
                proof {
                    lemma_lookup_at(self.entries(), i as int);
                }
                self.latest_jobs[i].generation == job.generation
            },
            None => {
                proof {
                    lemma_lookup_absent(self.entries(), job.key@);
                }
                false
            },
        }
    }

    /// Removes entry `i` of the latest-job table.
    fn remove_at(&mut self, i: usize)
        requires
            i < old(self).entries().len(),
        ensures
            final(self).latest() == old(self).latest().remove(old(self).entries()[i as int].0),
            final(self).cancelled() == old(self).cancelled(),
            final(self).issued() == old(self).issued(),
            final(self).lanes() == old(self).lanes(),
    {
        proof {
            use_type_invariant(&*self);
        }
        let ghost old_entries = self.entries();
        let ghost key = old_entries[i as int].0;
        let ghost m = self.latest().remove(key);
        let mut jobs: Vec<LatestJobState> = Vec::new();
        std::mem::swap(&mut jobs, &mut self.latest_jobs);
        jobs.remove(i);
        let ghost new_entries = jobs@.map_values(|e: LatestJobState| (e.key@, e.generation));
        proof {
            assert(new_entries =~= old_entries.remove(i as int));
            assert(unique_keys(new_entries));
            assert forall|k: Seq<char>| #[trigger] m.contains_key(k) implies exists|j: int| 0 <= j < new_entries.len() && new_entries[j].0 == k && new_entries[j].1 == m[k] by {
                lemma_lookup_found(old_entries, k);
                let j = choose|j: int| 0 <= j < old_entries.len() && old_entries[j].0 == k && old_entries[j].1 == lookup(old_entries, k)->0;
                if j < i {
                    assert(new_entries[j] == old_entries[j]);
                } else {
                    assert(j != i);
                    assert(new_entries[j - 1] == old_entries[j]);
                }
            }
            assert forall|j: int| 0 <= j < new_entries.len() implies #[trigger] m.contains_key(new_entries[j].0) && m[new_entries[j].0] == new_entries[j].1 by {
                let oj = if j < i { j } else { j + 1 };
                assert(new_entries[j] == old_entries[oj]);
                lemma_lookup_at(old_entries, oj);
            }
            lemma_map_equiv(old_entries, new_entries, m);
        }
        self.latest_jobs = jobs;
    }

    /// Forgets `job` as the latest job of its key, but only while it still is.
    pub fn finish_latest(&mut self, job: &BackendLatestJob)
        ensures
            final(self).latest() == map_finish(old(self).latest(), job.key@, job.generation),
            final(self).cancelled() == old(self).cancelled(),
            final(self).issued() == old(self).issued(),
            final(self).lanes() == old(self).lanes(),
    {
        proof {
            use_type_invariant(&*self);
        }
        let kv = chars_of(job.key.as_str());
        match self.find(&kv) {
            Some(i) => {
                proof {
                    lemma_lookup_at(self.entries(), i as int);
                }
                if self.latest_jobs[i].generation == job.generation {
                    self.remove_at(i);
                }
            },
            None => {
                proof {
                    lemma_lookup_absent(self.entries(), job.key@);
                }
            },
        }
    }

    /// Forgets the latest job of `key` and cancels its token.
    pub fn cancel_latest(&mut self, key: &str)
        ensures
            final(self).latest() == old(self).latest().remove(key@),
            final(self).cancelled() == if old(self).latest().contains_key(key@) {
                old(self).cancelled().insert(old(self).latest()[key@])
            } else {
                old(self).cancelled()
            },
            final(self).issued() == old(self).issued(),
            final(self).lanes() == old(self).lanes(),
    {
        proof {
            use_type_invariant(&*self);
        }
        let kv = chars_of(key);
        match self.find(&kv) {
            Some(i) => {
                proof {
                    lemma_lookup_at(self.entries(), i as int);
                }
                let previous = self.latest_jobs[i].generation;
                self.remove_at(i);
                proof {
                    use_type_invariant(&*self);
                }
                let mut cancelled: Vec<u64> = Vec::new();
                std::mem::swap(&mut cancelled, &mut self.cancelled);
                let ghost before = cancelled@;
                cancelled.push(previous);
                proof {
                    lemma_push_set(before, previous);
                }
                self.cancelled = cancelled;
            },
            None => {
                proof {
                    lemma_lookup_absent(self.entries(), key@);
                    assert(self.latest().remove(key@) =~= self.latest());
                }
            },
        }
    }

    /// The slot of the operation lane of (`project_id`, `lane`); the same
    /// pair always gets the same slot, and distinct pairs distinct slots.
    pub fn project_lane(&mut self, project_id: &str, lane: &str) -> (slot: usize)
        ensures
            slot < final(self).lanes().len(),
            final(self).lanes()[slot as int] == lane_key(project_id@, lane@),
            old(self).lanes().contains(lane_key(project_id@, lane@)) ==> final(self).lanes() == old(self).lanes(),
            !old(self).lanes().contains(lane_key(project_id@, lane@)) ==> final(self).lanes() == old(self).lanes().push(lane_key(project_id@, lane@)),
            final(self).latest() == old(self).latest(),
            final(self).cancelled() == old(self).cancelled(),
            final(self).issued() == old(self).issued(),
    {
        proof {
            use_type_invariant(&*self);
        }
        let key = lane_key_string(project_id, lane);
        let kv = chars_of(key.as_str());
        let mut i: usize = 0;
        while i < self.lanes.len()
            invariant
                i <= self.lanes.len(),
                kv@ == lane_key(project_id@, lane@),
                forall|j: int| 0 <= j < i ==> self.lanes()[j] != kv@,
            decreases self.lanes.len() - i,
        {
            let l = chars_of(self.lanes[i].as_str());
            if chars_eq(&l, &kv) {
                proof {
                    assert(self.lanes()[i as int] == kv@);
                    assert(self.lanes().contains(kv@));
                }
                return i;
            }
            i = i + 1;
        }
        let ghost before = self.lanes();
        let mut lanes: Vec<String> = Vec::new();
        std::mem::swap(&mut lanes, &mut self.lanes);
        lanes.push(key);
        self.lanes = lanes;
        proof {
            assert(self.lanes() =~= before.push(kv@));
            assert(!before.contains(kv@));
        }
        self.lanes.len() - 1
    }
}

/// The key of an operation lane: the project id, a NUL, and the lane.
pub open spec fn lane_key(project_id: Seq<char>, lane: Seq<char>) -> Seq<char> {
    project_id + seq!['\0'] + lane
}

fn lane_key_string(project_id: &str, lane: &str) -> (s: String)
    ensures
        s@ == lane_key(project_id@, lane@),
{
    let mut s = own(project_id);
    crate::text::push_char(&mut s, '\0');
    s.append(lane);
    s
}

impl BackendCancellationToken {
    /// The generation of the job this token belongs to.
    pub closed spec fn generation(&self) -> u64 {
        self.generation
    }

    /// Marks this token cancelled in `registry`. A token holds the
    /// generation of a job; a generation that `registry` has not issued
    /// names no job of it, and nothing changes.
    pub fn cancel(&self, registry: &mut BackendJobRegistry)
        ensures
            final(registry).cancelled() == if 0 < self.generation() <= old(registry).issued() {
                old(registry).cancelled().insert(self.generation())
            } else {
                old(registry).cancelled()
            },
            final(registry).latest() == old(registry).latest(),
            final(registry).issued() == old(registry).issued(),
            final(registry).lanes() == old(registry).lanes(),
    {
        proof {
            use_type_invariant(&*registry);
        }
        if self.generation == 0 || self.generation > registry.next_generation {
            return;
        }
        let mut cancelled: Vec<u64> = Vec::new();
        std::mem::swap(&mut cancelled, &mut registry.cancelled);
        let ghost before = cancelled@;
        cancelled.push(self.generation);
        proof {
            lemma_push_set(before, self.generation);
        }
        registry.cancelled = cancelled;
    }

    /// Whether this token was cancelled in `registry`.
    pub fn is_cancelled(&self, registry: &BackendJobRegistry) -> (r: bool)
        ensures
            r == registry.cancelled().contains(self.generation()),
    {
        let mut i: usize = 0;
        while i < registry.cancelled.len()
            invariant
                i <= registry.cancelled.len(),
                forall|j: int| 0 <= j < i ==> registry.cancelled@[j] != self.generation,
            decreases registry.cancelled.len() - i,
        {
            if registry.cancelled[i] == self.generation {
                assert(registry.cancelled@.contains(self.generation));
                return true;
            }
            i = i + 1;
        }
        false
    }

    /// Fails with `backend_job_cancelled` when this token was cancelled.
    pub fn check_cancelled(&self, registry: &BackendJobRegistry, label: &str) -> (r: CommandResult<()>)
        ensures
            r is Err <==> registry.cancelled().contains(self.generation()),
            r matches Err(e) ==> retryable_is(e, "backend_job_cancelled"@, cancelled_message(label@)),
    {
        if self.is_cancelled(registry) {
            return Err(cancelled_error(label));
        }
        Ok(())
    }
}

pub open spec fn cancelled_message(label: Seq<char>) -> Seq<char> {
    "Xero cancelled stale "@ + label + " work because a newer request replaced it."@
}

pub open spec fn stale_message(label: Seq<char>) -> Seq<char> {
    "Xero ignored stale "@ + label + " work because a newer request completed first."@
}

/// The error for work cancelled because a newer request replaced it.
pub fn cancelled_error(label: &str) -> (e: CommandError)
    ensures
        retryable_is(e, "backend_job_cancelled"@, cancelled_message(label@)),
{
    let m = cat3("Xero cancelled stale ", label, " work because a newer request replaced it.");
    CommandError::retryable("backend_job_cancelled", m.as_str())
}

/// The error for a result dropped because a newer request completed first.
pub fn stale_error(label: &str) -> (e: CommandError)
    ensures
        retryable_is(e, "backend_job_stale_result"@, stale_message(label@)),
{
    let m = cat3("Xero ignored stale ", label, " work because a newer request completed first.");
    CommandError::retryable("backend_job_stale_result", m.as_str())
}

/// The error for background work that could not finish; `detail` is the
/// failure's own text.
pub fn join_error(label: &str, detail: &str) -> (e: CommandError)
    ensures
        system_fault_is(
            e,
            "backend_job_failed"@,
            "Xero could not finish background "@ + label@ + " work: "@ + detail@,
        ),
{
    let m = crate::text::cat5("Xero could not finish background ", label, " work: ", detail, "");
    proof {
        assert(""@ =~= Seq::<char>::empty()) by {
            reveal_strlit("");
        }
    }
    CommandError::system_fault("backend_job_failed", m.as_str())
}

/// Starting a job for a key and then finishing an older job of the same key
/// leaves the newer job as the key's latest job.
pub proof fn law_finishing_a_replaced_job_keeps_the_current_job(
    m: Map<Seq<char>, u64>,
    key: Seq<char>,
    older: u64,
    newer: u64,
)
    requires
        older != newer,
    ensures
        map_finish(map_insert(map_insert(m, key, older), key, newer), key, older).contains_key(key),
        map_finish(map_insert(map_insert(m, key, older), key, newer), key, older)[key] == newer,
{
}

/// Finishing the latest job of a key removes exactly that key.
pub proof fn law_finishing_the_latest_job_forgets_its_key(m: Map<Seq<char>, u64>, key: Seq<char>, g: u64)
    ensures
        map_finish(map_insert(m, key, g), key, g) == m.remove(key),
{
    assert(map_insert(m, key, g).remove(key) =~= m.remove(key));
}

} // verus!
