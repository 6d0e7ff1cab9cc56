//! The workflow settings file (servers, result listeners, cron schedulers) and the
//! runnable settings built from it.
use vstd::prelude::*;
use crate::text::{clone_opt_string, is_some_non_empty, opt_view, spec_is_some_non_empty};

verus! {

/// A jobworkerp server of the settings file.
#[derive(Clone, Debug)]
pub struct JobWorkerpSetting {
    pub name: String,
    pub address: String,
}

/// A listener or scheduler entry of the settings file.
#[derive(Clone, Debug)]
pub struct WorkflowSettingItem {
    pub name: String,
    pub jobworkerp: String,
    pub workflow_url: String,
    pub channel: Option<String>,
    pub listen_worker_name: Option<String>,
    pub listen_jobworkerp: Option<String>,
    pub crontab: Option<String>,
    pub args: Option<String>,
    pub worker_name: Option<String>,
    pub using: Option<String>,
}

/// The whole settings file.
#[derive(Clone, Debug)]
pub struct WorkflowSettingFile {
    pub jobworkerp: Vec<JobWorkerpSetting>,
    pub listeners: Option<Vec<WorkflowSettingItem>>,
    pub schedulers: Option<Vec<WorkflowSettingItem>>,
}

/// Whether an entry says what to run: a non-empty worker name or a non-empty workflow URL.
pub open spec fn spec_item_has_target(item: WorkflowSettingItem) -> bool {
    spec_is_some_non_empty(item.worker_name) || item.workflow_url@.len() > 0
}

/// Whether an entry says what to run.
pub fn item_has_target(item: &WorkflowSettingItem) -> (r: bool)
    ensures
        r == spec_item_has_target(*item),
{
    is_some_non_empty(&item.worker_name) || !item.workflow_url.as_str().is_empty()
}

/// The index of the last server named `name` among the first `n` servers (a later entry of
/// the same name replaces an earlier one).
pub open spec fn spec_last_server(s: Seq<JobWorkerpSetting>, name: Seq<char>, n: nat) -> Option<int>
    decreases n,
{
    if n == 0 {
        None
    } else if s[n - 1].name@ == name {
        Some(n - 1)
    } else {
        spec_last_server(s, name, (n - 1) as nat)
    }
}

pub proof fn lemma_last_server_range(s: Seq<JobWorkerpSetting>, name: Seq<char>, n: nat)
    ensures
        spec_last_server(s, name, n) matches Some(i) ==> 0 <= i < n && s[i].name@ == name,
    decreases n,
{
    if n > 0 {
        lemma_last_server_range(s, name, (n - 1) as nat);
    }
}

/// The address of the server named `name`, the last one of that name.
pub fn find_server_address(servers: &Vec<JobWorkerpSetting>, name: &String) -> (r: Option<String>)
    ensures
        match spec_last_server(servers@, name@, servers@.len()) {
            Some(i) => r matches Some(a) && a@ == servers@[i].address@,
            None => r is None,
        },
{
    let mut n: usize = servers.len();
    while n > 0
        invariant
            n <= servers@.len(),
            spec_last_server(servers@, name@, servers@.len()) == spec_last_server(servers@, name@, n as nat),
        decreases n,
    {
        if servers[n - 1].name == *name {
            return Some(servers[n - 1].address.clone());
        }
        n = n - 1;
    }
    None
}

/// Why an entry of the settings file cannot be turned into a runnable setting.
#[derive(Clone, Copy, Debug, PartialEq, Eq, Structural)]
pub enum SettingErrorKind {
    /// A scheduler without a crontab.
    CrontabMissing,
    /// Neither a worker name nor a workflow URL.
    NoExecutionTarget,
    /// The processing server is not among the servers.
    ServerNotFound,
    /// A listener without `listen_jobworkerp`.
    ListenServerMissing,
    /// The listened server is not among the servers.
    ListenServerNotFound,
    /// A listener without `listen_worker_name`.
    ListenWorkerNameMissing,
}

/// An error with the name it concerns (the entry's, or the server's for a missing server).
#[derive(Clone, Debug)]
pub struct SettingError {
    pub kind: SettingErrorKind,
    pub subject: String,
}

/// A cron scheduler ready to be registered: the server is given by its address.
#[derive(Clone, Debug)]
pub struct SchedulerSetting {
    pub name: String,
    pub jobworkerp: String,
    pub workflow_url: String,
    pub channel: Option<String>,
    pub crontab: String,
    pub args: Option<String>,
    pub worker_name: Option<String>,
    pub using: Option<String>,
}

/// What building a scheduler setting gives: the first failing check, in the order
/// crontab, execution target, server.
pub open spec fn spec_scheduler_error(item: WorkflowSettingItem, servers: Seq<JobWorkerpSetting>) -> Option<(SettingErrorKind, Seq<char>)> {
    if item.crontab is None {
        Some((SettingErrorKind::CrontabMissing, item.name@))
    } else if !spec_item_has_target(item) {
        Some((SettingErrorKind::NoExecutionTarget, item.name@))
    } else if spec_last_server(servers, item.jobworkerp@, servers.len()) is None {
        Some((SettingErrorKind::ServerNotFound, item.jobworkerp@))
    } else {
        None
    }
}

/// The scheduler setting an entry gives when every check passes.
pub open spec fn spec_scheduler_setting(s: SchedulerSetting, item: WorkflowSettingItem, servers: Seq<JobWorkerpSetting>) -> bool {
    &&& s.name@ == item.name@
    &&& spec_last_server(servers, item.jobworkerp@, servers.len()) matches Some(i) && s.jobworkerp@ == servers[i].address@
    &&& s.workflow_url@ == item.workflow_url@
    &&& opt_view(s.channel) == opt_view(item.channel)
    &&& item.crontab matches Some(c) && s.crontab@ == c@
    &&& opt_view(s.args) == opt_view(item.args)
    &&& opt_view(s.worker_name) == opt_view(item.worker_name)
    &&& opt_view(s.using) == opt_view(item.using)
}

impl SchedulerSetting {
    /// Builds the scheduler of a settings entry against the servers of the file.
    pub fn new_from(item: &WorkflowSettingItem, servers: &Vec<JobWorkerpSetting>) -> (r: Result<SchedulerSetting, SettingError>)
        ensures
            match r {
                Ok(s) => spec_scheduler_error(*item, servers@) is None && spec_scheduler_setting(s, *item, servers@),
                Err(e) => spec_scheduler_error(*item, servers@) == Some((e.kind, e.subject@)),
            },
    {
        let crontab = match &item.crontab {
            Some(c) => c.clone(),
            None => {
                return Err(SettingError { kind: SettingErrorKind::CrontabMissing, subject: item.name.clone() });
            },
        };
        if !item_has_target(item) {
            return Err(SettingError { kind: SettingErrorKind::NoExecutionTarget, subject: item.name.clone() });
        }
        let address = match find_server_address(servers, &item.jobworkerp) {
            Some(a) => a,
            None => {
                return Err(SettingError { kind: SettingErrorKind::ServerNotFound, subject: item.jobworkerp.clone() });
            },
        };
        proof { lemma_last_server_range(servers@, item.jobworkerp@, servers@.len()); }
        Ok(SchedulerSetting {
            name: item.name.clone(),
            jobworkerp: address,
            workflow_url: item.workflow_url.clone(),
            channel: clone_opt_string(&item.channel),
            crontab,
            args: clone_opt_string(&item.args),
            worker_name: clone_opt_string(&item.worker_name),
            using: clone_opt_string(&item.using),
        })
    }
}

/// A job result listener ready to be started: both servers are given by their addresses.
#[derive(Clone, Debug)]
pub struct JobResultListenerSetting {
    pub handler_id: Option<i64>,
    pub name: String,
    pub listen_jobworkerp: String,
    pub listen_worker_name: String,
    pub process_jobworkerp: String,
    pub workflow_url: String,
    pub channel: Option<String>,
    pub args: Option<String>,
    pub worker_name: Option<String>,
    pub using: Option<String>,
    pub process_jobworkerp_server_id: Option<i64>,
}

/// What building a listener setting gives: the first failing check, in the order
/// processing server, listened server, listened worker, execution target.
pub open spec fn spec_listener_error(item: WorkflowSettingItem, servers: Seq<JobWorkerpSetting>) -> Option<(SettingErrorKind, Seq<char>)> {
    if spec_last_server(servers, item.jobworkerp@, servers.len()) is None {
        Some((SettingErrorKind::ServerNotFound, item.jobworkerp@))
    } else if item.listen_jobworkerp is None {
        Some((SettingErrorKind::ListenServerMissing, item.name@))
    } else if spec_last_server(servers, item.listen_jobworkerp->Some_0@, servers.len()) is None {
        Some((SettingErrorKind::ListenServerNotFound, item.listen_jobworkerp->Some_0@))
    } else if item.listen_worker_name is None {
        Some((SettingErrorKind::ListenWorkerNameMissing, item.name@))
    } else if !spec_item_has_target(item) {
        Some((SettingErrorKind::NoExecutionTarget, item.name@))
    } else {
        None
    }
}

/// The listener setting an entry gives when every check passes.
pub open spec fn spec_listener_setting(s: JobResultListenerSetting, item: WorkflowSettingItem, servers: Seq<JobWorkerpSetting>) -> bool {
    &&& s.handler_id is None
    &&& s.name@ == item.name@
    &&& spec_last_server(servers, item.jobworkerp@, servers.len()) matches Some(i) && s.process_jobworkerp@ == servers[i].address@
    &&& item.listen_jobworkerp matches Some(l) && spec_last_server(servers, l@, servers.len()) matches Some(j)
        && s.listen_jobworkerp@ == servers[j].address@
    &&& item.listen_worker_name matches Some(w) && s.listen_worker_name@ == w@
    &&& s.workflow_url@ == item.workflow_url@
    &&& opt_view(s.channel) == opt_view(item.channel)
    &&& opt_view(s.args) == opt_view(item.args)
    &&& opt_view(s.worker_name) == opt_view(item.worker_name)
    &&& opt_view(s.using) == opt_view(item.using)
    &&& s.process_jobworkerp_server_id is None
}

impl JobResultListenerSetting {
    /// Builds the listener of a settings entry against the servers of the file.
    pub fn new_from(item: &WorkflowSettingItem, servers: &Vec<JobWorkerpSetting>) -> (r: Result<JobResultListenerSetting, SettingError>)
        ensures
            match r {
                Ok(s) => spec_listener_error(*item, servers@) is None && spec_listener_setting(s, *item, servers@),
                Err(e) => spec_listener_error(*item, servers@) == Some((e.kind, e.subject@)),
            },
    {
        let process = match find_server_address(servers, &item.jobworkerp) {
            Some(a) => a,
            None => {
                return Err(SettingError { kind: SettingErrorKind::ServerNotFound, subject: item.jobworkerp.clone() });
            },
        };
        proof { lemma_last_server_range(servers@, item.jobworkerp@, servers@.len()); }
        let listen_name = match &item.listen_jobworkerp {
            Some(l) => l,
            None => {
                return Err(SettingError { kind: SettingErrorKind::ListenServerMissing, subject: item.name.clone() });
            },
        };
        let listen = match find_server_address(servers, listen_name) {
            Some(a) => a,
            None => {
                return Err(SettingError { kind: SettingErrorKind::ListenServerNotFound, subject: listen_name.clone() });
            },
        };
        proof { lemma_last_server_range(servers@, listen_name@, servers@.len()); }
        let listen_worker_name = match &item.listen_worker_name {
            Some(w) => w.clone(),
            None => {
                return Err(SettingError { kind: SettingErrorKind::ListenWorkerNameMissing, subject: item.name.clone() });
            },
        };
        if !item_has_target(item) {
            return Err(SettingError { kind: SettingErrorKind::NoExecutionTarget, subject: item.name.clone() });
        }
        Ok(JobResultListenerSetting {
            handler_id: None,
            name: item.name.clone(),
            listen_jobworkerp: listen,
            listen_worker_name,
            process_jobworkerp: process,
            workflow_url: item.workflow_url.clone(),
            channel: clone_opt_string(&item.channel),
            args: clone_opt_string(&item.args),
            worker_name: clone_opt_string(&item.worker_name),
            using: clone_opt_string(&item.using),
            process_jobworkerp_server_id: None,
        })
    }
}

/// The first error among the first `n` listener entries.
pub open spec fn spec_first_listener_error(items: Seq<WorkflowSettingItem>, servers: Seq<JobWorkerpSetting>, n: nat) -> Option<(SettingErrorKind, Seq<char>)>
    decreases n,
{
    if n == 0 {
        None
    } else {
        match spec_first_listener_error(items, servers, (n - 1) as nat) {
            Some(e) => Some(e),
            None => spec_listener_error(items[n - 1], servers),
        }
    }
}

/// The first error among the first `n` scheduler entries.
pub open spec fn spec_first_scheduler_error(items: Seq<WorkflowSettingItem>, servers: Seq<JobWorkerpSetting>, n: nat) -> Option<(SettingErrorKind, Seq<char>)>
    decreases n,
{
    if n == 0 {
        None
    } else {
        match spec_first_scheduler_error(items, servers, (n - 1) as nat) {
            Some(e) => Some(e),
            None => spec_scheduler_error(items[n - 1], servers),
        }
    }
}

/// The entries of an optional list (none when absent).
pub open spec fn spec_entries(items: Option<Vec<WorkflowSettingItem>>) -> Seq<WorkflowSettingItem> {
    match items {
        Some(v) => v@,
        None => Seq::empty(),
    }
}

/// What building the runnable settings of a file gives: the first listener error, else the
/// first scheduler error.
pub open spec fn spec_settings_error(file: WorkflowSettingFile) -> Option<(SettingErrorKind, Seq<char>)> {
    let servers = file.jobworkerp@;
    let listeners = spec_entries(file.listeners);
    let schedulers = spec_entries(file.schedulers);
    match spec_first_listener_error(listeners, servers, listeners.len()) {
        Some(e) => Some(e),
        None => spec_first_scheduler_error(schedulers, servers, schedulers.len()),
    }
}

/// The listeners and schedulers of a settings file, in file order.
pub struct WorkflowSettings {
    pub listeners: Vec<JobResultListenerSetting>,
    pub schedulers: Vec<SchedulerSetting>,
}

impl WorkflowSettings {
    /// Builds every listener, then every scheduler, of a settings file; the first entry that
    /// fails decides the error.
    pub fn from_file(file: &WorkflowSettingFile) -> (r: Result<WorkflowSettings, SettingError>)
        ensures
            match r {
                Ok(w) => {
                    &&& spec_settings_error(*file) is None
                    &&& w.listeners@.len() == spec_entries(file.listeners).len()
                    &&& forall|i: int| 0 <= i < w.listeners@.len() ==>
                        spec_listener_setting(#[trigger] w.listeners@[i], spec_entries(file.listeners)[i], file.jobworkerp@)
                    &&& w.schedulers@.len() == spec_entries(file.schedulers).len()
                    &&& forall|i: int| 0 <= i < w.schedulers@.len() ==>
                        spec_scheduler_setting(#[trigger] w.schedulers@[i], spec_entries(file.schedulers)[i], file.jobworkerp@)
                },
                Err(e) => spec_settings_error(*file) == Some((e.kind, e.subject@)),
            },
    {
        let ghost servers = file.jobworkerp@;
        let ghost litems = spec_entries(file.listeners);
        let ghost sitems = spec_entries(file.schedulers);
        let mut listeners: Vec<JobResultListenerSetting> = Vec::new();
        if let Some(items) = &file.listeners {
            let mut i: usize = 0;
            while i < items.len()
                invariant
                    items@ == litems,
                    litems == spec_entries(file.listeners),
                    servers == file.jobworkerp@,
                    i <= items@.len(),
                    spec_first_listener_error(litems, servers, i as nat) is None,
                    listeners@.len() == i,
                    forall|k: int| 0 <= k < i ==> spec_listener_setting(#[trigger] listeners@[k], litems[k], servers),
                decreases items@.len() - i,
            {
                match JobResultListenerSetting::new_from(&items[i], &file.jobworkerp) {
                    Ok(s) => {
                        listeners.push(s);
                    },
                    Err(e) => {
                        assert(spec_first_listener_error(litems, servers, (i + 1) as nat) == Some((e.kind, e.subject@)));
                        proof { lemma_first_error_stays_listener(litems, servers, (i + 1) as nat, litems.len()); }
                        return Err(e);
                    },
                }
                i = i + 1;
            }
        }
        let mut schedulers: Vec<SchedulerSetting> = Vec::new();
        if let Some(items) = &file.schedulers {
            let mut i: usize = 0;
            while i < items.len()
                invariant
                    items@ == sitems,
                    sitems == spec_entries(file.schedulers),
                    litems == spec_entries(file.listeners),
                    servers == file.jobworkerp@,
                    i <= items@.len(),
                    spec_first_listener_error(litems, servers, litems.len()) is None,
                    spec_first_scheduler_error(sitems, servers, i as nat) is None,
                    schedulers@.len() == i,
                    forall|k: int| 0 <= k < i ==> spec_scheduler_setting(#[trigger] schedulers@[k], sitems[k], servers),
                decreases items@.len() - i,
            {
                match SchedulerSetting::new_from(&items[i], &file.jobworkerp) {
                    Ok(s) => {
                        schedulers.push(s);
                    },
                    Err(e) => {
                        assert(spec_first_scheduler_error(sitems, servers, (i + 1) as nat) == Some((e.kind, e.subject@)));
                        proof { lemma_first_error_stays_scheduler(sitems, servers, (i + 1) as nat, sitems.len()); }
                        return Err(e);
                    },
                }
                i = i + 1;
            }
        }
        Ok(WorkflowSettings { listeners, schedulers })
    }
}

/// Once an error is found among the first `n` listener entries, it stays the first one.
pub proof fn lemma_first_error_stays_listener(items: Seq<WorkflowSettingItem>, servers: Seq<JobWorkerpSetting>, n: nat, m: nat)
    requires
        n <= m,
        spec_first_listener_error(items, servers, n) is Some,
    ensures
        spec_first_listener_error(items, servers, m) == spec_first_listener_error(items, servers, n),
    decreases m - n,
{
    if n < m {
        lemma_first_error_stays_listener(items, servers, n, (m - 1) as nat);
    }
}

/// Once an error is found among the first `n` scheduler entries, it stays the first one.
pub proof fn lemma_first_error_stays_scheduler(items: Seq<WorkflowSettingItem>, servers: Seq<JobWorkerpSetting>, n: nat, m: nat)
    requires
        n <= m,
        spec_first_scheduler_error(items, servers, n) is Some,
    ensures
        spec_first_scheduler_error(items, servers, m) == spec_first_scheduler_error(items, servers, n),
    decreases m - n,
{
    if n < m {
        lemma_first_error_stays_scheduler(items, servers, n, (m - 1) as nat);
    }
}

} // verus!
