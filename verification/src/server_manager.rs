//! The event handler server manager: its initial configuration, its run state, and what a
//! configuration change event does to the local store and to the running jobs and listeners.
use vstd::prelude::*;
use crate::model::{
    ChangeAction, CronScheduler, CronSchedulerId, JobworkerpServer, JobworkerpServerId, SlackEventHandler,
    SlackEventHandlerId, WorkerResultHandler, WorkerResultHandlerId,
};
use crate::text::{i64_to_string, spec_decimal_int};

verus! {

/// The configurations loaded from the database when the conductor starts.
#[derive(Clone, Debug)]
pub struct InitialConfig {
    pub cron_schedulers: Vec<CronScheduler>,
    pub worker_result_handlers: Vec<WorkerResultHandler>,
    pub jobworkerp_servers: Vec<JobworkerpServer>,
    pub slack_event_handlers: Vec<SlackEventHandler>,
}

impl InitialConfig {
    pub fn new(
        cron_schedulers: Vec<CronScheduler>,
        worker_result_handlers: Vec<WorkerResultHandler>,
        jobworkerp_servers: Vec<JobworkerpServer>,
        slack_event_handlers: Vec<SlackEventHandler>,
    ) -> (r: InitialConfig)
        ensures
            r.cron_schedulers@ == cron_schedulers@,
            r.worker_result_handlers@ == worker_result_handlers@,
            r.jobworkerp_servers@ == jobworkerp_servers@,
            r.slack_event_handlers@ == slack_event_handlers@,
    {
        InitialConfig { cron_schedulers, worker_result_handlers, jobworkerp_servers, slack_event_handlers }
    }

    /// No configuration at all.
    pub fn empty() -> (r: InitialConfig)
        ensures
            r.cron_schedulers@.len() == 0,
            r.worker_result_handlers@.len() == 0,
            r.jobworkerp_servers@.len() == 0,
            r.slack_event_handlers@.len() == 0,
    {
        InitialConfig {
            cron_schedulers: Vec::new(),
            worker_result_handlers: Vec::new(),
            jobworkerp_servers: Vec::new(),
            slack_event_handlers: Vec::new(),
        }
    }

    /// The number of configurations of all kinds.
    pub open spec fn spec_total_count(&self) -> nat {
        self.cron_schedulers@.len() + self.worker_result_handlers@.len() + self.jobworkerp_servers@.len()
            + self.slack_event_handlers@.len()
    }

    /// The number of configurations of all kinds.
    pub fn total_count(&self) -> (r: usize)
        requires
            self.spec_total_count() <= usize::MAX,
        ensures
            r == self.spec_total_count(),
    {
        self.cron_schedulers.len() + self.worker_result_handlers.len() + self.jobworkerp_servers.len()
            + self.slack_event_handlers.len()
    }

    pub fn cron_scheduler_count(&self) -> (r: usize)
        ensures
            r == self.cron_schedulers@.len(),
    {
        self.cron_schedulers.len()
    }

    pub fn worker_result_handler_count(&self) -> (r: usize)
        ensures
            r == self.worker_result_handlers@.len(),
    {
        self.worker_result_handlers.len()
    }

    pub fn jobworkerp_server_count(&self) -> (r: usize)
        ensures
            r == self.jobworkerp_servers@.len(),
    {
        self.jobworkerp_servers.len()
    }

    pub fn slack_event_handler_count(&self) -> (r: usize)
        ensures
            r == self.slack_event_handlers@.len(),
    {
        self.slack_event_handlers.len()
    }
}

/// Whether the server manager runs. Only one start succeeds until the next stop.
pub struct RunState {
    running: bool,
}

impl RunState {
    /// Whether the manager runs.
    pub closed spec fn spec_running(&self) -> bool {
        self.running
    }

    /// A manager that does not run yet.
    pub fn new() -> (r: RunState)
        ensures
            !r.spec_running(),
    {
        RunState { running: false }
    }

    /// Whether the manager runs.
    pub fn is_running(&self) -> (r: bool)
        ensures
            r == self.spec_running(),
    {
        self.running
    }

    /// Claims the start: refused while the manager runs, else it runs from now on.
    pub fn try_start(&mut self) -> (r: Result<(), String>)
        ensures
            old(self).spec_running() ==> r is Err && final(self).spec_running(),
            !old(self).spec_running() ==> r is Ok && final(self).spec_running(),
            r matches Err(m) ==> m@ == "EventHandlerServerManager is already running"@,
    {
        if self.running {
            return Err(String::from_str("EventHandlerServerManager is already running"));
        }
        self.running = true;
        Ok(())
    }

    /// Gives the start back after the start-up failed.
    pub fn start_failed(&mut self)
        ensures
            !final(self).spec_running(),
    {
        self.running = false;
    }

    /// Stops the manager; returns whether it was running (a stop of a stopped manager does
    /// nothing).
    pub fn stop(&mut self) -> (r: bool)
        ensures
            r == old(self).spec_running(),
            !final(self).spec_running(),
    {
        let was = self.running;
        self.running = false;
        was
    }
}

/// The entity a configuration change event carries: its id and data as sent, when of a
/// known kind.
#[derive(Clone, Debug)]
pub enum ConfigEntity {
    CronScheduler(CronScheduler),
    WorkerResultHandler(WorkerResultHandler),
    JobworkerpServer(JobworkerpServer),
    SlackEventHandler(SlackEventHandler),
    Unknown,
}

/// A configuration change event.
#[derive(Clone, Debug)]
pub struct ConfigChangeEvent {
    pub action: ChangeAction,
    pub entity: ConfigEntity,
    pub entity_name: String,
    pub timestamp_secs: i64,
}

/// The number of a change action in the event protocol.
pub open spec fn spec_action_number(a: ChangeAction) -> int {
    match a {
        ChangeAction::Unspecified => 0,
        ChangeAction::Created => 1,
        ChangeAction::Updated => 2,
        ChangeAction::Deleted => 3,
    }
}

/// The message of the store snapshot taken before an event is applied.
pub fn snapshot_message(event: &ConfigChangeEvent) -> (r: String)
    ensures
        r@ == "Config change: "@ + spec_decimal_int(spec_action_number(event.action)) + " "@ + event.entity_name@
            + " at "@ + spec_decimal_int(event.timestamp_secs as int),
{
    let n: i64 = match event.action {
        ChangeAction::Unspecified => 0,
        ChangeAction::Created => 1,
        ChangeAction::Updated => 2,
        ChangeAction::Deleted => 3,
    };
    String::from_str("Config change: ").concat(i64_to_string(n).as_str()).concat(" ")
        .concat(event.entity_name.as_str()).concat(" at ").concat(i64_to_string(event.timestamp_secs).as_str())
}

/// What an event does to the local configuration store.
#[derive(Clone, Debug)]
pub enum StoreChange {
    UpsertCronScheduler(CronScheduler),
    UpsertWorkerResultHandler(WorkerResultHandler),
    UpsertJobworkerpServer(JobworkerpServer),
    UpsertSlackEventHandler(SlackEventHandler),
    RemoveCronScheduler(CronSchedulerId),
    RemoveWorkerResultHandler(WorkerResultHandlerId),
    RemoveJobworkerpServer(JobworkerpServerId),
    RemoveSlackEventHandler(SlackEventHandlerId),
    /// A creation or update that carries no data: nothing to store.
    MissingData,
    /// Nothing to do.
    Unchanged,
}

/// The store change of an event: a created or updated entity with data is stored as sent,
/// a deleted entity with an id is removed; an event of an unknown kind is an error.
pub open spec fn spec_store_change(e: ConfigChangeEvent) -> Option<StoreChange> {
    let upsert = e.action == ChangeAction::Created || e.action == ChangeAction::Updated;
    let delete = e.action == ChangeAction::Deleted;
    match e.entity {
        ConfigEntity::CronScheduler(x) => Some(
            if upsert { if x.data is Some { StoreChange::UpsertCronScheduler(x) } else { StoreChange::MissingData } }
            else if delete && x.id is Some { StoreChange::RemoveCronScheduler(x.id->Some_0) }
            else { StoreChange::Unchanged }),
        ConfigEntity::WorkerResultHandler(x) => Some(
            if upsert { if x.data is Some { StoreChange::UpsertWorkerResultHandler(x) } else { StoreChange::MissingData } }
            else if delete && x.id is Some { StoreChange::RemoveWorkerResultHandler(x.id->Some_0) }
            else { StoreChange::Unchanged }),
        ConfigEntity::JobworkerpServer(x) => Some(
            if upsert { if x.data is Some { StoreChange::UpsertJobworkerpServer(x) } else { StoreChange::MissingData } }
            else if delete && x.id is Some { StoreChange::RemoveJobworkerpServer(x.id->Some_0) }
            else { StoreChange::Unchanged }),
        ConfigEntity::SlackEventHandler(x) => Some(
            if upsert { if x.data is Some { StoreChange::UpsertSlackEventHandler(x) } else { StoreChange::MissingData } }
            else if delete && x.id is Some { StoreChange::RemoveSlackEventHandler(x.id->Some_0) }
            else { StoreChange::Unchanged }),
        ConfigEntity::Unknown => None,
    }
}

/// The store change of an event; `Err` for an event of an unknown kind.
pub fn store_change(event: ConfigChangeEvent) -> (r: Result<StoreChange, String>)
    ensures
        match spec_store_change(event) {
            Some(c) => r == Ok::<StoreChange, String>(c),
            None => r matches Err(m) && m@ == "Unknown config change event type"@,
        },
{
    let upsert = event.action == ChangeAction::Created || event.action == ChangeAction::Updated;
    let delete = event.action == ChangeAction::Deleted;
    match event.entity {
        ConfigEntity::CronScheduler(x) => Ok(
            if upsert { if x.data.is_some() { StoreChange::UpsertCronScheduler(x) } else { StoreChange::MissingData } }
            else if delete && x.id.is_some() { StoreChange::RemoveCronScheduler(x.id.unwrap()) }
            else { StoreChange::Unchanged }),
        ConfigEntity::WorkerResultHandler(x) => Ok(
            if upsert { if x.data.is_some() { StoreChange::UpsertWorkerResultHandler(x) } else { StoreChange::MissingData } }
            else if delete && x.id.is_some() { StoreChange::RemoveWorkerResultHandler(x.id.unwrap()) }
            else { StoreChange::Unchanged }),
        ConfigEntity::JobworkerpServer(x) => Ok(
            if upsert { if x.data.is_some() { StoreChange::UpsertJobworkerpServer(x) } else { StoreChange::MissingData } }
            else if delete && x.id.is_some() { StoreChange::RemoveJobworkerpServer(x.id.unwrap()) }
            else { StoreChange::Unchanged }),
        ConfigEntity::SlackEventHandler(x) => Ok(
            if upsert { if x.data.is_some() { StoreChange::UpsertSlackEventHandler(x) } else { StoreChange::MissingData } }
            else if delete && x.id.is_some() { StoreChange::RemoveSlackEventHandler(x.id.unwrap()) }
            else { StoreChange::Unchanged }),
        ConfigEntity::Unknown => Err(String::from_str("Unknown config change event type")),
    }
}

/// What a running cron job or listener undergoes on an event about its configuration.
#[derive(Clone, Copy, Debug, PartialEq, Eq, Structural)]
pub enum RunningChange {
    /// Stop the running one (if any), then start it anew from the store.
    Restart(i64),
    /// Stop the running one (if any).
    Remove(i64),
    /// Leave it as it is.
    Keep,
}

/// The running change for an action on the configuration with id `id`.
pub open spec fn spec_running_change(action: ChangeAction, id: i64) -> RunningChange {
    match action {
        ChangeAction::Created => RunningChange::Restart(id),
        ChangeAction::Updated => RunningChange::Restart(id),
        ChangeAction::Deleted => RunningChange::Remove(id),
        ChangeAction::Unspecified => RunningChange::Keep,
    }
}

/// The change of the cron jobs for an event: only an event about a cron scheduler with an id
/// concerns them.
pub fn scheduler_change(event: &ConfigChangeEvent) -> (r: Result<RunningChange, String>)
    ensures
        match event.entity {
            ConfigEntity::CronScheduler(x) if x.id is Some =>
                r == Ok::<RunningChange, String>(spec_running_change(event.action, x.id->Some_0.value)),
            _ => r matches Err(m) && m@ == "CronScheduler event has no id or wrong type"@,
        },
{
    match &event.entity {
        ConfigEntity::CronScheduler(x) => match x.id {
            Some(id) => Ok(running_change(event.action, id.value)),
            None => Err(String::from_str("CronScheduler event has no id or wrong type")),
        },
        _ => Err(String::from_str("CronScheduler event has no id or wrong type")),
    }
}

/// The change of the result listeners for an event: only an event about a worker result
/// handler with an id concerns them.
pub fn listener_change(event: &ConfigChangeEvent) -> (r: Result<RunningChange, String>)
    ensures
        match event.entity {
            ConfigEntity::WorkerResultHandler(x) if x.id is Some =>
                r == Ok::<RunningChange, String>(spec_running_change(event.action, x.id->Some_0.value)),
            _ => r matches Err(m) && m@ == "WorkerResultHandler event has no id or wrong type"@,
        },
{
    match &event.entity {
        ConfigEntity::WorkerResultHandler(x) => match x.id {
            Some(id) => Ok(running_change(event.action, id.value)),
            None => Err(String::from_str("WorkerResultHandler event has no id or wrong type")),
        },
        _ => Err(String::from_str("WorkerResultHandler event has no id or wrong type")),
    }
}

fn running_change(action: ChangeAction, id: i64) -> (r: RunningChange)
    ensures
        r == spec_running_change(action, id),
{
    match action {
        ChangeAction::Created => RunningChange::Restart(id),
        ChangeAction::Updated => RunningChange::Restart(id),
        ChangeAction::Deleted => RunningChange::Remove(id),
        ChangeAction::Unspecified => RunningChange::Keep,
    }
}

/// The ids of the cron schedulers started at start-up, in store order.
pub open spec fn spec_initial_scheduler_ids(s: Seq<CronScheduler>) -> Seq<CronSchedulerId>
    decreases s.len(),
{
    if s.len() == 0 {
        Seq::empty()
    } else {
        let rest = spec_initial_scheduler_ids(s.drop_last());
        let x = s.last();
        if x.id is Some && x.data is Some && x.data->Some_0.enabled { rest.push(x.id->Some_0) } else { rest }
    }
}

/// The ids of the cron schedulers to start at start-up: those with an id and enabled data.
pub fn initial_scheduler_ids(schedulers: &Vec<CronScheduler>) -> (r: Vec<CronSchedulerId>)
    ensures
        r@ == spec_initial_scheduler_ids(schedulers@),
{
    let mut out: Vec<CronSchedulerId> = Vec::new();
    let mut i: usize = 0;
    while i < schedulers.len()
        invariant
            i <= schedulers@.len(),
            out@ == spec_initial_scheduler_ids(schedulers@.take(i as int)),
        decreases schedulers@.len() - i,
    {
        let x = &schedulers[i];
        proof {
            assert(schedulers@.take(i + 1).drop_last() =~= schedulers@.take(i as int));
            assert(schedulers@.take(i + 1).last() == schedulers@[i as int]);
        }
        match (&x.id, &x.data) {
            (Some(id), Some(d)) => if d.enabled { out.push(*id); },
            _ => {},
        }
        i = i + 1;
    }
    assert(schedulers@.take(schedulers@.len() as int) =~= schedulers@);
    out
}

/// The ids of the worker result handlers started at start-up, in store order.
pub open spec fn spec_initial_handler_ids(s: Seq<WorkerResultHandler>) -> Seq<WorkerResultHandlerId>
    decreases s.len(),
{
    if s.len() == 0 {
        Seq::empty()
    } else {
        let rest = spec_initial_handler_ids(s.drop_last());
        let x = s.last();
        if x.id is Some && x.data is Some && x.data->Some_0.enabled { rest.push(x.id->Some_0) } else { rest }
    }
}

/// The ids of the worker result handlers to start at start-up: those with an id and enabled
/// data.
pub fn initial_handler_ids(handlers: &Vec<WorkerResultHandler>) -> (r: Vec<WorkerResultHandlerId>)
    ensures
        r@ == spec_initial_handler_ids(handlers@),
{
    let mut out: Vec<WorkerResultHandlerId> = Vec::new();
    let mut i: usize = 0;
    while i < handlers.len()
        invariant
            i <= handlers@.len(),
            out@ == spec_initial_handler_ids(handlers@.take(i as int)),
        decreases handlers@.len() - i,
    {
        let x = &handlers[i];
        proof {
            assert(handlers@.take(i + 1).drop_last() =~= handlers@.take(i as int));
            assert(handlers@.take(i + 1).last() == handlers@[i as int]);
        }
        match (&x.id, &x.data) {
            (Some(id), Some(d)) => if d.enabled { out.push(*id); },
            _ => {},
        }
        i = i + 1;
    }
    assert(handlers@.take(handlers@.len() as int) =~= handlers@);
    out
}

/// Holds what loads the configurations from the database at start-up, so that the server
/// manager itself depends on nothing but the loaded configuration.
pub struct InitializationLayer<T> {
    app_modules: std::sync::Arc<T>,
}

impl<T> InitializationLayer<T> {
    /// What the layer loads from.
    pub closed spec fn spec_app_modules(&self) -> std::sync::Arc<T> {
        self.app_modules
    }

    pub fn new(app_modules: std::sync::Arc<T>) -> (r: InitializationLayer<T>)
        ensures
            r.spec_app_modules() == app_modules,
    {
        InitializationLayer { app_modules }
    }

    /// What the layer loads from.
    pub fn app_modules(&self) -> (r: &std::sync::Arc<T>)
        ensures
            *r == self.spec_app_modules(),
    {
        &self.app_modules
    }
}

} // verus!

