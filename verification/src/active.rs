//! What the dynamic managers run: the cron jobs keyed by scheduler id and the result listeners
//! keyed by name, and how an event about a configuration changes them.
use vstd::prelude::*;
use std::collections::HashMap;
use crate::server_manager::RunningChange;
use crate::dynamic::{deref_server, plan_cron_job, server_endpoint_of, spec_plan_error_message, PlanError, PlanErrorKind};
use crate::model::{CronScheduler, CronSchedulerId, JobworkerpServer};

verus! {

broadcast use vstd::std_specs::hash::group_hash_axioms;

/// The cron jobs that run, keyed by cron scheduler id, each with its name and handle.
pub struct ActiveJobs<H> {
    jobs: HashMap<i64, (String, H)>,
}

/// What a manager does first about a running change: the running entry it stops, taken out of
/// what runs, and the configuration it then starts anew, if any.
pub struct ChangeStep<T> {
    pub stopped: Option<T>,
    pub start: Option<i64>,
}

impl<H> View for ActiveJobs<H> {
    type V = Map<i64, (String, H)>;

    /// The running jobs by scheduler id.
    closed spec fn view(&self) -> Map<i64, (String, H)> {
        self.jobs@
    }
}

impl<H> ActiveJobs<H> {
    /// Nothing runs.
    pub fn new() -> (r: ActiveJobs<H>)
        ensures
            r@ == Map::<i64, (String, H)>::empty(),
    {
        ActiveJobs { jobs: HashMap::new() }
    }

    /// The number of running jobs.
    pub fn len(&self) -> (r: usize)
        ensures
            r == self@.len(),
    {
        self.jobs.len()
    }

    /// Whether a job runs for the scheduler `id`.
    pub fn contains(&self, id: i64) -> (r: bool)
        ensures
            r == self@.contains_key(id),
    {
        self.jobs.contains_key(&id)
    }

    /// Records the job started for the scheduler `id`, handing back the one recorded before
    /// for that id.
    pub fn insert(&mut self, id: i64, name: String, handle: H) -> (r: Option<(String, H)>)
        ensures
            final(self)@ == old(self)@.insert(id, (name, handle)),
            match r {
                Some(p) => old(self)@.contains_key(id) && p == old(self)@[id],
                None => !old(self)@.contains_key(id),
            },
    {
        self.jobs.insert(id, (name, handle))
    }

    /// Takes the job of the scheduler `id` out of what runs.
    pub fn remove(&mut self, id: i64) -> (r: Option<(String, H)>)
        ensures
            final(self)@ == old(self)@.remove(id),
            match r {
                Some(p) => old(self)@.contains_key(id) && p == old(self)@[id],
                None => !old(self)@.contains_key(id),
            },
    {
        self.jobs.remove(&id)
    }

    /// Takes every job out of what runs, to stop them all.
    pub fn take_all(&mut self) -> (r: HashMap<i64, (String, H)>)
        ensures
            r@ == old(self)@,
            final(self)@ == Map::<i64, (String, H)>::empty(),
    {
        let mut taken: HashMap<i64, (String, H)> = HashMap::new();
        std::mem::swap(&mut taken, &mut self.jobs);
        taken
    }

    /// The first step of a running change: a restart or a removal takes the scheduler's job
    /// out of what runs; a restart then starts the scheduler anew.
    pub fn begin_change(&mut self, change: RunningChange) -> (r: ChangeStep<(String, H)>)
        ensures
            match change {
                RunningChange::Restart(id) | RunningChange::Remove(id) => {
                    &&& final(self)@ == old(self)@.remove(id)
                    &&& match r.stopped {
                        Some(p) => old(self)@.contains_key(id) && p == old(self)@[id],
                        None => !old(self)@.contains_key(id),
                    }
                    &&& r.start == (if change is Restart { Some(id) } else { None::<i64> })
                },
                RunningChange::Keep => final(self)@ == old(self)@ && r.stopped is None && r.start is None,
            },
    {
        match change {
            RunningChange::Restart(id) => ChangeStep { stopped: self.remove(id), start: Some(id) },
            RunningChange::Remove(id) => ChangeStep { stopped: self.remove(id), start: None },
            RunningChange::Keep => ChangeStep { stopped: None, start: None },
        }
    }
}

/// The scheduler behind an optional reference.
pub open spec fn deref_scheduler(s: Option<&CronScheduler>) -> Option<CronScheduler> {
    match s {
        Some(x) => Some(*x),
        None => None,
    }
}

/// What adding the cron job of scheduler `id` gives, for the scheduler found (or not) in the
/// local store, the server found (or not) there under the scheduler's server id, and what
/// registering the job with the cron scheduler gave: an error, nothing to run (a disabled
/// scheduler), or the name and handle of the job that now runs.
pub open spec fn spec_add_job<H>(
    id: CronSchedulerId,
    scheduler: Option<CronScheduler>,
    server: Option<JobworkerpServer>,
    registered: Result<H, String>,
) -> Result<Option<(Seq<char>, H)>, Seq<char>> {
    match scheduler {
        None => Err(spec_plan_error_message(PlanError { kind: PlanErrorKind::SchedulerNotFound, id: id.value })),
        Some(s) => match s.data {
            None => Err(spec_plan_error_message(PlanError { kind: PlanErrorKind::SchedulerDataMissing, id: 0 })),
            Some(d) => if !d.enabled {
                Ok(None)
            } else {
                match d.jobworkerp_server_id {
                    None => Err(spec_plan_error_message(PlanError { kind: PlanErrorKind::SchedulerServerIdMissing, id: 0 })),
                    Some(sid) => match server {
                        None => Err(spec_plan_error_message(PlanError { kind: PlanErrorKind::ServerNotFound, id: sid.value })),
                        Some(sv) => match sv.data {
                            None => Err(spec_plan_error_message(PlanError { kind: PlanErrorKind::ServerDataMissing, id: 0 })),
                            Some(_) => match registered {
                                Err(e) => Err(e@),
                                Ok(h) => Ok(Some((d.name@, h))),
                            },
                        },
                    },
                }
            }
        },
    }
}

/// Whether `after` is what runs after adding the cron job of scheduler `id` to `before`:
/// unchanged unless a job was added, which then runs under `id`, every other entry kept.
pub open spec fn spec_add_job_effect<H>(
    before: Map<i64, (String, H)>,
    after: Map<i64, (String, H)>,
    id: CronSchedulerId,
    added: Result<Option<(Seq<char>, H)>, Seq<char>>,
) -> bool {
    match added {
        Ok(Some((name, h))) => {
            &&& after.dom() == before.dom().insert(id.value)
            &&& after[id.value].0@ == name && after[id.value].1 == h
            &&& forall|k: i64| k != id.value && #[trigger] before.contains_key(k) ==> after[k] == before[k]
        },
        _ => after == before,
    }
}

/// Adds the cron job of scheduler `id`: the scheduler as found in the local store (`None`: not
/// there), the server found there under its server id, and what registering the job with the
/// cron scheduler gave. `registered` is read only when the scheduler is enabled and its server
/// is found with its data; a disabled scheduler adds nothing and is no error.
pub fn add_job_with<H>(
    jobs: &mut ActiveJobs<H>,
    id: CronSchedulerId,
    scheduler: Option<&CronScheduler>,
    server: Option<&JobworkerpServer>,
    registered: Result<H, String>,
) -> (r: Result<(), String>)
    ensures
        spec_add_job_effect(old(jobs)@, final(jobs)@, id, spec_add_job(id, deref_scheduler(scheduler), deref_server(server), registered)),
        match spec_add_job(id, deref_scheduler(scheduler), deref_server(server), registered) {
            Ok(_) => r is Ok,
            Err(m) => r matches Err(e) && e@ == m,
        },
{
    let plan = match plan_cron_job(id, scheduler) {
        Err(e) => {
            return Err(e.message());
        },
        Ok(None) => {
            return Ok(());
        },
        Ok(Some(p)) => p,
    };
    let sid = crate::model::JobworkerpServerId { value: plan.jobworkerp_server_id };
    match server_endpoint_of(sid, server) {
        Err(e) => {
            return Err(e.message());
        },
        Ok(_) => {},
    }
    match registered {
        Err(e) => Err(e),
        Ok(h) => {
            let ghost before = jobs@;
            let name = plan.name;
            let ghost n = name;
            jobs.insert(id.value, name, h);
            proof {
                assert(jobs@.dom() =~= before.dom().insert(id.value));
                assert(jobs@[id.value].0 == n);
            }
            Ok(())
        },
    }
}

/// Whether no name occurs twice among the entries.
pub open spec fn names_unique<H>(e: Seq<(Seq<char>, H)>) -> bool {
    forall|i: int, j: int| 0 <= i < j < e.len() ==> #[trigger] e[i].0 != #[trigger] e[j].0
}

/// The index of the entry named `name`, if there is one.
pub open spec fn index_of_name<H>(e: Seq<(Seq<char>, H)>, name: Seq<char>) -> Option<int> {
    if exists|i: int| 0 <= i < e.len() && e[i].0 == name {
        Some(choose|i: int| 0 <= i < e.len() && e[i].0 == name)
    } else {
        None
    }
}

/// The entries after recording `h` under `name`: replaces the entry of a running name in
/// place, appends a new one.
pub open spec fn spec_put<H>(e: Seq<(Seq<char>, H)>, name: Seq<char>, h: H) -> Seq<(Seq<char>, H)> {
    match index_of_name(e, name) {
        Some(i) => e.update(i, (name, h)),
        None => e.push((name, h)),
    }
}

/// The entries without the one named `name`.
pub open spec fn spec_take<H>(e: Seq<(Seq<char>, H)>, name: Seq<char>) -> Seq<(Seq<char>, H)> {
    match index_of_name(e, name) {
        Some(i) => e.remove(i),
        None => e,
    }
}

/// The handle of the entry named `name`, if there is one.
pub open spec fn spec_handle_of<H>(e: Seq<(Seq<char>, H)>, name: Seq<char>) -> Option<H> {
    match index_of_name(e, name) {
        Some(i) => Some(e[i].1),
        None => None,
    }
}

/// The result listeners that run, keyed by name, each with its handle. Each name occurs once.
pub struct ActiveListeners<H> {
    entries: Vec<(String, H)>,
}

impl<H> View for ActiveListeners<H> {
    type V = Seq<(Seq<char>, H)>;

    /// The running listeners with their names, in the order they were first started.
    closed spec fn view(&self) -> Seq<(Seq<char>, H)> {
        self.entries@.map_values(|p: (String, H)| (p.0@, p.1))
    }
}

impl<H> ActiveListeners<H> {
    #[verifier::type_invariant]
    spec fn inv(self) -> bool {
        names_unique(self@)
    }

    /// Nothing runs.
    pub fn new() -> (r: ActiveListeners<H>)
        ensures
            r@ == Seq::<(Seq<char>, H)>::empty(),
    {
        let r = ActiveListeners { entries: Vec::new() };
        assert(r@ =~= Seq::<(Seq<char>, H)>::empty());
        r
    }

    /// The number of running listeners.
    pub fn len(&self) -> (r: usize)
        ensures
            r == self@.len(),
    {
        self.entries.len()
    }

    /// The index of the listener named `name`, if it runs.
    fn position(&self, name: &str) -> (r: Option<usize>)
        ensures
            r is None <==> index_of_name(self@, name@) is None,
            r matches Some(i) ==> i < self@.len() && index_of_name(self@, name@) == Some(i as int),
    {
        proof { use_type_invariant(self); }
        let ghost e = self@;
        let key = String::from_str(name);
        let mut i: usize = 0;
        while i < self.entries.len()
            invariant
                e == self@,
                names_unique(e),
                key@ == name@,
                i <= e.len(),
                e.len() == self.entries@.len(),
                forall|k: int| 0 <= k < i ==> e[k].0 != name@,
            decreases e.len() - i,
        {
            if self.entries[i].0 == key {
                assert(e[i as int].0 == name@);
                assert(index_of_name(e, name@) == Some(i as int)) by {
                    let j = choose|j: int| 0 <= j < e.len() && e[j].0 == name@;
                    if j != i {
                        assert(e[j].0 == e[i as int].0);
                    }
                }
                return Some(i);
            }
            i = i + 1;
        }
        None
    }

    /// Whether a listener named `name` runs.
    pub fn contains(&self, name: &str) -> (r: bool)
        ensures
            r == (index_of_name(self@, name@) is Some),
    {
        self.position(name).is_some()
    }

    /// Records the listener started under `name`, handing back the handle recorded before
    /// under that name.
    pub fn insert(&mut self, name: String, handle: H) -> (r: Option<H>)
        ensures
            final(self)@ == spec_put(old(self)@, name@, handle),
            match index_of_name(old(self)@, name@) {
                Some(i) => r == Some(old(self)@[i].1),
                None => r is None,
            },
    {
        proof { use_type_invariant(&*self); }
        let ghost before = self@;
        let ghost key = name@;
        let ghost h = handle;
        let found = self.position(name.as_str());
        let mut entries = Vec::new();
        std::mem::swap(&mut entries, &mut self.entries);
        match found {
            Some(i) => {
                let (_old_name, old_handle) = entries.remove(i);
                entries.insert(i, (name, handle));
                let ghost e = entries@.map_values(|p: (String, H)| (p.0@, p.1));
                assert(e =~= before.update(i as int, (key, h)));
                proof {
                    assert forall|a: int, b: int| 0 <= a < b < e.len() implies
                        #[trigger] e[a].0 != #[trigger] e[b].0 by {
                        assert(e[a].0 == before[a].0);
                        assert(e[b].0 == before[b].0);
                    }
                }
                self.entries = entries;
                Some(old_handle)
            },
            None => {
                entries.push((name, handle));
                let ghost e = entries@.map_values(|p: (String, H)| (p.0@, p.1));
                assert(e =~= before.push((key, h)));
                proof {
                    assert forall|a: int, b: int| 0 <= a < b < e.len() implies
                        #[trigger] e[a].0 != #[trigger] e[b].0 by {
                        assert(e[a].0 == before[a].0);
                        if b < before.len() {
                            assert(e[b].0 == before[b].0);
                        }
                    }
                }
                self.entries = entries;
                None
            },
        }
    }

    /// Takes the listener named `name` out of what runs.
    pub fn remove(&mut self, name: &str) -> (r: Option<H>)
        ensures
            final(self)@ == spec_take(old(self)@, name@),
            match index_of_name(old(self)@, name@) {
                Some(i) => r == Some(old(self)@[i].1),
                None => r is None,
            },
    {
        proof { use_type_invariant(&*self); }
        let ghost before = self@;
        let found = self.position(name);
        match found {
            Some(i) => {
                let mut entries = Vec::new();
                std::mem::swap(&mut entries, &mut self.entries);
                let (_old_name, old_handle) = entries.remove(i);
                let ghost e = entries@.map_values(|p: (String, H)| (p.0@, p.1));
                assert(e =~= before.remove(i as int));
                proof {
                    assert forall|a: int, b: int| 0 <= a < b < e.len() implies
                        #[trigger] e[a].0 != #[trigger] e[b].0 by {
                        if a < i {
                            assert(e[a].0 == before[a].0);
                        } else {
                            assert(e[a].0 == before[a + 1].0);
                        }
                        if b < i {
                            assert(e[b].0 == before[b].0);
                        } else {
                            assert(e[b].0 == before[b + 1].0);
                        }
                    }
                }
                self.entries = entries;
                Some(old_handle)
            },
            None => None,
        }
    }

    /// The first step of a running change of a listener whose configuration has the name
    /// `name` in the store (`None`: it has none there): a restart or a removal takes the
    /// listener of that name out of what runs; a restart then starts the configuration anew.
    pub fn begin_change(&mut self, change: RunningChange, name: &Option<String>) -> (r: ChangeStep<H>)
        ensures
            match change {
                RunningChange::Restart(id) | RunningChange::Remove(id) => {
                    &&& match name {
                        Some(n) => {
                            &&& final(self)@ == spec_take(old(self)@, n@)
                            &&& r.stopped == (match index_of_name(old(self)@, n@) {
                                Some(i) => Some(old(self)@[i].1),
                                None => None::<H>,
                            })
                        },
                        None => final(self)@ == old(self)@ && r.stopped is None,
                    }
                    &&& r.start == (if change is Restart { Some(id) } else { None::<i64> })
                },
                RunningChange::Keep => final(self)@ == old(self)@ && r.stopped is None && r.start is None,
            },
    {
        let start = match change {
            RunningChange::Restart(id) => Some(id),
            _ => None,
        };
        match change {
            RunningChange::Keep => ChangeStep { stopped: None, start: None },
            _ => match name {
                Some(n) => ChangeStep { stopped: self.remove(n.as_str()), start },
                None => ChangeStep { stopped: None, start },
            },
        }
    }

    /// Takes every listener out of what runs, to stop them all, in the order of the entries.
    pub fn take_all(&mut self) -> (r: Vec<(String, H)>)
        ensures
            r@.map_values(|p: (String, H)| (p.0@, p.1)) == old(self)@,
            final(self)@ == Seq::<(Seq<char>, H)>::empty(),
    {
        let mut taken: Vec<(String, H)> = Vec::new();
        std::mem::swap(&mut taken, &mut self.entries);
        assert(self@ =~= Seq::<(Seq<char>, H)>::empty());
        taken
    }
}

} // verus!
