//! Import and export of the settings file to and from the configuration tables: server
//! addresses, validation of a parsed file, the rows an import writes and the file an export
//! reads back.
use vstd::prelude::*;
use crate::settings::{
    spec_entries, spec_item_has_target, JobWorkerpSetting, WorkflowSettingFile, WorkflowSettingItem,
};
use crate::text::{
    clone_opt_string, is_some_non_empty, non_empty_clone, opt_view, spec_decimal, spec_is_some_non_empty,
    usize_to_string,
};
use crate::execution_status::{format_endpoint, spec_server_endpoint};

verus! {

/// The parts of a URL that the conductor reads: scheme, host and explicit port.
pub struct UrlParts {
    pub scheme: String,
    pub host: Option<String>,
    pub port: Option<u16>,
}

/// What `url::Url::parse` makes of a string: `None` when it is no URL, else its scheme, its
/// host (if it has one) and its explicit port (if it has one that is not the scheme's default).
pub uninterp spec fn url_parse(address: Seq<char>) -> Option<(Seq<char>, Option<Seq<char>>, Option<u16>)>;

/// `url::Url::parse`, read through `scheme`, `host_str` and `port`.
#[verifier::external_body]
pub(crate) fn parse_url(address: &str) -> (r: Option<UrlParts>)
    ensures
        url_parse(address@) == (match r {
            Some(p) => Some((p.scheme@, opt_view(p.host), p.port)),
            None => None,
        }),
{
    match url::Url::parse(address) {
        Ok(u) => Some(UrlParts { scheme: u.scheme().to_string(), host: u.host_str().map(String::from), port: u.port() }),
        Err(_) => None,
    }
}

/// Why a server address is rejected.
#[derive(Clone, Copy, Debug, PartialEq, Eq, Structural)]
pub enum AddressError {
    /// Not a URL.
    InvalidUrl,
    /// A URL without a host.
    MissingHost,
}

impl AddressError {
    /// The description of the error.
    pub fn message(&self) -> (r: String)
        ensures
            r@ == (match *self {
                AddressError::InvalidUrl => "Invalid URL format"@,
                AddressError::MissingHost => "Missing host in URL"@,
            }),
    {
        match self {
            AddressError::InvalidUrl => String::from_str("Invalid URL format"),
            AddressError::MissingHost => String::from_str("Missing host in URL"),
        }
    }
}

/// The host, port and TLS flag of a server address: TLS exactly for the `https` scheme, and
/// without an explicit port the scheme's default (443 with TLS, else 80).
pub open spec fn spec_parse_server_address(address: Seq<char>) -> Result<(Seq<char>, Seq<char>, bool), AddressError> {
    match url_parse(address) {
        None => Err(AddressError::InvalidUrl),
        Some((scheme, host, port)) => match host {
            None => Err(AddressError::MissingHost),
            Some(h) => {
                let ssl = scheme == "https"@;
                let p: u16 = match port {
                    Some(p) => p,
                    None => if ssl { 443u16 } else { 80u16 },
                };
                Ok((h, spec_decimal(p as nat), ssl))
            },
        },
    }
}

/// Splits a server address into host, port (as text) and TLS flag.
pub fn parse_server_address(address: &str) -> (r: Result<(String, String, bool), AddressError>)
    ensures
        match (r, spec_parse_server_address(address@)) {
            (Ok((h, p, s)), Ok((sh, sp, ss))) => h@ == sh && p@ == sp && s == ss,
            (Err(e), Err(se)) => e == se,
            _ => false,
        },
{
    let parts = match parse_url(address) {
        Some(p) => p,
        None => {
            return Err(AddressError::InvalidUrl);
        },
    };
    let host = match parts.host {
        Some(h) => h,
        None => {
            return Err(AddressError::MissingHost);
        },
    };
    let https = String::from_str("https");
    let ssl = parts.scheme == https;
    let port: u16 = match parts.port {
        Some(p) => p,
        None => if ssl { 443 } else { 80 },
    };
    let port_text = usize_to_string(port as usize);
    Ok((host, port_text, ssl))
}

/// Why a parsed settings file is rejected.
#[derive(Clone, Copy, Debug, PartialEq, Eq, Structural)]
pub enum ConfigErrorKind {
    /// The file defines no jobworkerp server.
    NoServers,
    /// Two servers share a name.
    DuplicateServerName,
    /// A server address cannot be parsed.
    InvalidServerAddress(AddressError),
    /// A listener says neither what worker nor what workflow to run.
    ListenerWithoutTarget,
    /// A scheduler says neither what worker nor what workflow to run.
    SchedulerWithoutTarget,
}

/// A rejected settings file: the kind, the name of the offending entry, and for an invalid
/// address the address itself (else empty).
#[derive(Clone, Debug)]
pub struct ConfigError {
    pub kind: ConfigErrorKind,
    pub subject: String,
    pub value: String,
}

/// The description of a configuration error.
pub open spec fn spec_config_error_message(kind: ConfigErrorKind, subject: Seq<char>, value: Seq<char>) -> Seq<char> {
    match kind {
        ConfigErrorKind::NoServers => "At least one jobworkerp server must be defined"@,
        ConfigErrorKind::DuplicateServerName => "Duplicate server name: "@ + subject,
        ConfigErrorKind::InvalidServerAddress(_) => "Invalid address for server '"@ + subject + "': "@ + value,
        ConfigErrorKind::ListenerWithoutTarget =>
            "Listener '"@ + subject + "' must have either worker_name or workflow_url set."@,
        ConfigErrorKind::SchedulerWithoutTarget =>
            "Scheduler '"@ + subject + "' must have either worker_name or workflow_url set."@,
    }
}

impl ConfigError {
    /// The description of the error.
    pub fn message(&self) -> (r: String)
        ensures
            r@ == spec_config_error_message(self.kind, self.subject@, self.value@),
    {
        match self.kind {
            ConfigErrorKind::NoServers => String::from_str("At least one jobworkerp server must be defined"),
            ConfigErrorKind::DuplicateServerName =>
                String::from_str("Duplicate server name: ").concat(self.subject.as_str()),
            ConfigErrorKind::InvalidServerAddress(_) => String::from_str("Invalid address for server '")
                .concat(self.subject.as_str()).concat("': ").concat(self.value.as_str()),
            ConfigErrorKind::ListenerWithoutTarget => String::from_str("Listener '").concat(self.subject.as_str())
                .concat("' must have either worker_name or workflow_url set."),
            ConfigErrorKind::SchedulerWithoutTarget => String::from_str("Scheduler '").concat(self.subject.as_str())
                .concat("' must have either worker_name or workflow_url set."),
        }
    }
}

/// What is wrong with server `i`, if anything: a name used by an earlier server, else an
/// address that does not parse.
pub open spec fn spec_server_issue(s: Seq<JobWorkerpSetting>, i: int) -> Option<(ConfigErrorKind, Seq<char>, Seq<char>)> {
    if exists|j: int| 0 <= j < i && #[trigger] s[j].name@ == s[i].name@ {
        Some((ConfigErrorKind::DuplicateServerName, s[i].name@, Seq::empty()))
    } else {
        match spec_parse_server_address(s[i].address@) {
            Err(e) => Some((ConfigErrorKind::InvalidServerAddress(e), s[i].name@, s[i].address@)),
            Ok(_) => None,
        }
    }
}

/// The first issue among the first `n` servers.
pub open spec fn spec_first_server_issue(s: Seq<JobWorkerpSetting>, n: nat) -> Option<(ConfigErrorKind, Seq<char>, Seq<char>)>
    decreases n,
{
    if n == 0 {
        None
    } else {
        match spec_first_server_issue(s, (n - 1) as nat) {
            Some(e) => Some(e),
            None => spec_server_issue(s, n - 1),
        }
    }
}

/// The index of the first of the first `n` entries that does not say what to run.
pub open spec fn spec_first_untargeted(items: Seq<WorkflowSettingItem>, n: nat) -> Option<int>
    decreases n,
{
    if n == 0 {
        None
    } else {
        match spec_first_untargeted(items, (n - 1) as nat) {
            Some(i) => Some(i),
            None => if spec_item_has_target(items[n - 1]) { None } else { Some(n - 1) },
        }
    }
}

/// What validating a parsed settings file gives: no server; else the first server issue;
/// else the first listener, then the first scheduler, that does not say what to run.
pub open spec fn spec_validate_settings(f: WorkflowSettingFile) -> Option<(ConfigErrorKind, Seq<char>, Seq<char>)> {
    let s = f.jobworkerp@;
    let l = spec_entries(f.listeners);
    let c = spec_entries(f.schedulers);
    if s.len() == 0 {
        Some((ConfigErrorKind::NoServers, Seq::empty(), Seq::empty()))
    } else if spec_first_server_issue(s, s.len()) is Some {
        spec_first_server_issue(s, s.len())
    } else if spec_first_untargeted(l, l.len()) is Some {
        Some((ConfigErrorKind::ListenerWithoutTarget, l[spec_first_untargeted(l, l.len())->Some_0].name@, Seq::empty()))
    } else if spec_first_untargeted(c, c.len()) is Some {
        Some((ConfigErrorKind::SchedulerWithoutTarget, c[spec_first_untargeted(c, c.len())->Some_0].name@, Seq::empty()))
    } else {
        None
    }
}

proof fn lemma_first_issue_stays(s: Seq<JobWorkerpSetting>, n: nat, m: nat)
    requires
        n <= m,
        spec_first_server_issue(s, n) is Some,
    ensures
        spec_first_server_issue(s, m) == spec_first_server_issue(s, n),
    decreases m - n,
{
    if n < m {
        lemma_first_issue_stays(s, n, (m - 1) as nat);
    }
}

proof fn lemma_first_untargeted_stays(items: Seq<WorkflowSettingItem>, n: nat, m: nat)
    requires
        n <= m,
        spec_first_untargeted(items, n) is Some,
    ensures
        spec_first_untargeted(items, m) == spec_first_untargeted(items, n),
    decreases m - n,
{
    if n < m {
        lemma_first_untargeted_stays(items, n, (m - 1) as nat);
    }
}

/// Whether a server name occurs among the first `n` servers.
fn name_taken(servers: &Vec<JobWorkerpSetting>, n: usize, name: &String) -> (r: bool)
    requires
        n <= servers@.len(),
    ensures
        r == exists|j: int| 0 <= j < n && #[trigger] servers@[j].name@ == name@,
{
    let mut j: usize = 0;
    while j < n
        invariant
            n <= servers@.len(),
            j <= n,
            forall|k: int| 0 <= k < j ==> servers@[k].name@ != name@,
        decreases n - j,
    {
        if servers[j].name == *name {
            return true;
        }
        j = j + 1;
    }
    false
}

/// The index of the first entry that does not say what to run.
fn first_untargeted(items: &Vec<WorkflowSettingItem>) -> (r: Option<usize>)
    ensures
        match spec_first_untargeted(items@, items@.len()) {
            Some(i) => r == Some(i as usize) && 0 <= i < items@.len(),
            None => r is None,
        },
{
    let mut i: usize = 0;
    while i < items.len()
        invariant
            i <= items@.len(),
            spec_first_untargeted(items@, i as nat) is None,
        decreases items@.len() - i,
    {
        if !crate::settings::item_has_target(&items[i]) {
            assert(spec_first_untargeted(items@, (i + 1) as nat) == Some(i as int));
            proof { lemma_first_untargeted_stays(items@, (i + 1) as nat, items@.len()); }
            return Some(i);
        }
        i = i + 1;
    }
    None
}

/// Checks a parsed settings file: at least one server, unique server names, parseable server
/// addresses, and every listener and scheduler saying what to run.
pub fn validate_settings(settings: WorkflowSettingFile) -> (r: Result<WorkflowSettingFile, ConfigError>)
    ensures
        match r {
            Ok(f) => f == settings && spec_validate_settings(settings) is None,
            Err(e) => spec_validate_settings(settings) == Some((e.kind, e.subject@, e.value@)),
        },
{
    let n = settings.jobworkerp.len();
    if n == 0 {
        return Err(ConfigError { kind: ConfigErrorKind::NoServers, subject: String::new(), value: String::new() });
    }
    let mut i: usize = 0;
    while i < n
        invariant
            n == settings.jobworkerp@.len(),
            i <= n,
            spec_first_server_issue(settings.jobworkerp@, i as nat) is None,
        decreases n - i,
    {
        let server = &settings.jobworkerp[i];
        let ghost s = settings.jobworkerp@;
        if name_taken(&settings.jobworkerp, i, &server.name) {
            assert(spec_server_issue(s, i as int) == Some((ConfigErrorKind::DuplicateServerName, s[i as int].name@, Seq::<char>::empty())));
            assert(spec_first_server_issue(s, (i + 1) as nat) == spec_server_issue(s, i as int));
            proof { lemma_first_issue_stays(s, (i + 1) as nat, n as nat); }
            return Err(ConfigError { kind: ConfigErrorKind::DuplicateServerName, subject: server.name.clone(), value: String::new() });
        }
        match parse_server_address(server.address.as_str()) {
            Err(e) => {
                assert(spec_first_server_issue(s, (i + 1) as nat) == spec_server_issue(s, i as int));
                proof { lemma_first_issue_stays(s, (i + 1) as nat, n as nat); }
                return Err(ConfigError {
                    kind: ConfigErrorKind::InvalidServerAddress(e),
                    subject: server.name.clone(),
                    value: server.address.clone(),
                });
            },
            Ok(_) => {},
        }
        i = i + 1;
    }
    if let Some(listeners) = &settings.listeners {
        if let Some(k) = first_untargeted(listeners) {
            return Err(ConfigError {
                kind: ConfigErrorKind::ListenerWithoutTarget,
                subject: listeners[k].name.clone(),
                value: String::new(),
            });
        }
    }
    if let Some(schedulers) = &settings.schedulers {
        if let Some(k) = first_untargeted(schedulers) {
            return Err(ConfigError {
                kind: ConfigErrorKind::SchedulerWithoutTarget,
                subject: schedulers[k].name.clone(),
                value: String::new(),
            });
        }
    }
    Ok(settings)
}

/// Why an entry of a validated settings file cannot be imported.
#[derive(Clone, Copy, Debug, PartialEq, Eq, Structural)]
pub enum ImportErrorKind {
    /// A server address that does not parse.
    InvalidServerAddress(AddressError),
    /// A scheduler without a crontab.
    MissingCrontab,
    /// A scheduler whose server is not in the server table.
    SchedulerServerNotFound,
    /// A listener without `listen_worker_name`.
    MissingListenWorkerName,
    /// A listener without `listen_jobworkerp`.
    MissingListenJobworkerp,
    /// A listener whose listened server is not in the server table.
    ListenServerNotFound,
    /// A listener whose processing server is not in the server table.
    ProcessServerNotFound,
}

/// A failed import: the kind, the entry's name, and the server (name, or the address for an
/// invalid address) it concerns.
#[derive(Clone, Debug)]
pub struct ImportError {
    pub kind: ImportErrorKind,
    pub item: String,
    pub server: String,
}

/// The description of an import error.
pub open spec fn spec_import_error_message(kind: ImportErrorKind, item: Seq<char>, server: Seq<char>) -> Seq<char> {
    match kind {
        ImportErrorKind::InvalidServerAddress(_) => "Invalid server address: "@ + server,
        ImportErrorKind::MissingCrontab => "Missing crontab for scheduler '"@ + item + "'"@,
        ImportErrorKind::SchedulerServerNotFound => "Server '"@ + server + "' not found for scheduler '"@ + item + "'"@,
        ImportErrorKind::MissingListenWorkerName => "Missing listen_worker_name for listener '"@ + item + "'"@,
        ImportErrorKind::MissingListenJobworkerp => "Missing listen_jobworkerp for listener '"@ + item + "'"@,
        ImportErrorKind::ListenServerNotFound => "Listen server '"@ + server + "' not found for listener '"@ + item + "'"@,
        ImportErrorKind::ProcessServerNotFound => "Process server '"@ + server + "' not found for listener '"@ + item + "'"@,
    }
}

impl ImportError {
    /// The description of the error.
    pub fn message(&self) -> (r: String)
        ensures
            r@ == spec_import_error_message(self.kind, self.item@, self.server@),
    {
        let item = self.item.as_str();
        let server = self.server.as_str();
        match self.kind {
            ImportErrorKind::InvalidServerAddress(_) => String::from_str("Invalid server address: ").concat(server),
            ImportErrorKind::MissingCrontab => String::from_str("Missing crontab for scheduler '").concat(item).concat("'"),
            ImportErrorKind::SchedulerServerNotFound => String::from_str("Server '").concat(server)
                .concat("' not found for scheduler '").concat(item).concat("'"),
            ImportErrorKind::MissingListenWorkerName => String::from_str("Missing listen_worker_name for listener '")
                .concat(item).concat("'"),
            ImportErrorKind::MissingListenJobworkerp => String::from_str("Missing listen_jobworkerp for listener '")
                .concat(item).concat("'"),
            ImportErrorKind::ListenServerNotFound => String::from_str("Listen server '").concat(server)
                .concat("' not found for listener '").concat(item).concat("'"),
            ImportErrorKind::ProcessServerNotFound => String::from_str("Process server '").concat(server)
                .concat("' not found for listener '").concat(item).concat("'"),
        }
    }
}

/// The values an import writes for a server.
#[derive(Clone, Debug)]
pub struct ServerImport {
    pub name: String,
    pub host: String,
    pub port: String,
    pub ssl_enabled: bool,
    /// Imported servers are stored enabled.
    pub enabled: bool,
}

/// The server row of a settings entry: its name and its parsed address.
pub fn server_import(server: &JobWorkerpSetting) -> (r: Result<ServerImport, ImportError>)
    ensures
        match (r, spec_parse_server_address(server.address@)) {
            (Ok(v), Ok((h, p, ssl))) => v.name@ == server.name@ && v.host@ == h && v.port@ == p && v.ssl_enabled == ssl
                && v.enabled,
            (Err(e), Err(ae)) => e.kind == ImportErrorKind::InvalidServerAddress(ae) && e.item@ == server.name@
                && e.server@ == server.address@,
            _ => false,
        },
{
    match parse_server_address(server.address.as_str()) {
        Ok((host, port, ssl_enabled)) => Ok(ServerImport { name: server.name.clone(), host, port, ssl_enabled, enabled: true }),
        Err(e) => Err(ImportError {
            kind: ImportErrorKind::InvalidServerAddress(e),
            item: server.name.clone(),
            server: server.address.clone(),
        }),
    }
}

/// The id of the server named `name` among the first `n` rows of the server table (the last
/// row of that name).
pub open spec fn spec_server_id(rows: Seq<(String, i64)>, name: Seq<char>, n: nat) -> Option<i64>
    decreases n,
{
    if n == 0 {
        None
    } else if rows[n - 1].0@ == name {
        Some(rows[n - 1].1)
    } else {
        spec_server_id(rows, name, (n - 1) as nat)
    }
}

/// The id of the server named `name` in the `(name, id)` rows of the server table.
pub fn server_id_by_name(rows: &Vec<(String, i64)>, name: &String) -> (r: Option<i64>)
    ensures
        r == spec_server_id(rows@, name@, rows@.len()),
{
    let mut n: usize = rows.len();
    while n > 0
        invariant
            n <= rows@.len(),
            spec_server_id(rows@, name@, rows@.len()) == spec_server_id(rows@, name@, n as nat),
        decreases n,
    {
        if rows[n - 1].0 == *name {
            return Some(rows[n - 1].1);
        }
        n = n - 1;
    }
    None
}

/// The non-empty value of an optional string.
pub open spec fn spec_non_empty(s: Option<String>) -> Option<Seq<char>> {
    match s {
        Some(v) => if v@.len() > 0 { Some(v@) } else { None },
        None => None,
    }
}

/// The values an import writes for a scheduler.
#[derive(Clone, Debug)]
pub struct SchedulerImport {
    pub name: String,
    pub jobworkerp_server_id: i64,
    pub workflow_url: String,
    pub channel: Option<String>,
    pub crontab: String,
    pub args: Option<String>,
    pub worker_name: Option<String>,
    pub using: Option<String>,
    /// Imported schedulers are stored enabled.
    pub enabled: bool,
}

/// What importing a scheduler gives: a crontab and a known server are required; a worker
/// name takes precedence over a workflow, whose URL is then stored empty and whose channel
/// is dropped; an empty `using` is stored as absent.
pub open spec fn spec_scheduler_import(item: WorkflowSettingItem, rows: Seq<(String, i64)>, v: SchedulerImport) -> bool {
    let worker = spec_is_some_non_empty(item.worker_name);
    &&& item.crontab matches Some(c) && v.crontab@ == c@
    &&& spec_server_id(rows, item.jobworkerp@, rows.len()) == Some(v.jobworkerp_server_id)
    &&& v.name@ == item.name@
    &&& v.workflow_url@ == (if worker { Seq::<char>::empty() } else { item.workflow_url@ })
    &&& opt_view(v.channel) == (if worker { None } else { opt_view(item.channel) })
    &&& opt_view(v.args) == opt_view(item.args)
    &&& opt_view(v.worker_name) == opt_view(item.worker_name)
    &&& opt_view(v.using) == spec_non_empty(item.using)
    &&& v.enabled
}

/// The error of importing a scheduler, if any: the crontab is checked before the server.
pub open spec fn spec_scheduler_import_error(item: WorkflowSettingItem, rows: Seq<(String, i64)>) -> Option<ImportErrorKind> {
    if item.crontab is None {
        Some(ImportErrorKind::MissingCrontab)
    } else if spec_server_id(rows, item.jobworkerp@, rows.len()) is None {
        Some(ImportErrorKind::SchedulerServerNotFound)
    } else {
        None
    }
}

/// The scheduler row of a settings entry, with its server resolved against the server table.
pub fn scheduler_import(item: &WorkflowSettingItem, rows: &Vec<(String, i64)>) -> (r: Result<SchedulerImport, ImportError>)
    ensures
        match r {
            Ok(v) => spec_scheduler_import_error(*item, rows@) is None && spec_scheduler_import(*item, rows@, v),
            Err(e) => spec_scheduler_import_error(*item, rows@) == Some(e.kind) && e.item@ == item.name@
                && e.server@ == item.jobworkerp@,
        },
{
    let crontab = match &item.crontab {
        Some(c) => c.clone(),
        None => {
            return Err(ImportError { kind: ImportErrorKind::MissingCrontab, item: item.name.clone(), server: item.jobworkerp.clone() });
        },
    };
    let server_id = match server_id_by_name(rows, &item.jobworkerp) {
        Some(id) => id,
        None => {
            return Err(ImportError {
                kind: ImportErrorKind::SchedulerServerNotFound,
                item: item.name.clone(),
                server: item.jobworkerp.clone(),
            });
        },
    };
    let worker = is_some_non_empty(&item.worker_name);
    let (workflow_url, channel) = if worker {
        (String::new(), None)
    } else {
        (item.workflow_url.clone(), clone_opt_string(&item.channel))
    };
    Ok(SchedulerImport {
        name: item.name.clone(),
        jobworkerp_server_id: server_id,
        workflow_url,
        channel,
        crontab,
        args: clone_opt_string(&item.args),
        worker_name: clone_opt_string(&item.worker_name),
        using: non_empty_clone(&item.using),
        enabled: true,
    })
}

/// The values an import writes for a result listener.
#[derive(Clone, Debug)]
pub struct ListenerImport {
    pub name: String,
    pub listen_jobworkerp_server_id: i64,
    pub listen_worker_name: String,
    pub process_jobworkerp_server_id: i64,
    pub workflow_url: String,
    pub channel: Option<String>,
    pub args: Option<String>,
    pub worker_name: Option<String>,
    pub using: Option<String>,
    /// Imported listeners are stored enabled.
    pub enabled: bool,
}

/// The error of importing a listener, if any, in the order listened worker, listened server
/// name, listened server, processing server.
pub open spec fn spec_listener_import_error(item: WorkflowSettingItem, rows: Seq<(String, i64)>) -> Option<(ImportErrorKind, Seq<char>)> {
    if item.listen_worker_name is None {
        Some((ImportErrorKind::MissingListenWorkerName, Seq::empty()))
    } else if item.listen_jobworkerp is None {
        Some((ImportErrorKind::MissingListenJobworkerp, Seq::empty()))
    } else if spec_server_id(rows, item.listen_jobworkerp->Some_0@, rows.len()) is None {
        Some((ImportErrorKind::ListenServerNotFound, item.listen_jobworkerp->Some_0@))
    } else if spec_server_id(rows, item.jobworkerp@, rows.len()) is None {
        Some((ImportErrorKind::ProcessServerNotFound, item.jobworkerp@))
    } else {
        None
    }
}

/// What importing a listener gives: with a worker name the worker (and its non-empty `using`)
/// is stored with an empty workflow URL and no channel; else the workflow URL and channel
/// with no worker.
pub open spec fn spec_listener_import(item: WorkflowSettingItem, rows: Seq<(String, i64)>, v: ListenerImport) -> bool {
    let worker = spec_is_some_non_empty(item.worker_name);
    &&& item.listen_worker_name matches Some(w) && v.listen_worker_name@ == w@
    &&& item.listen_jobworkerp matches Some(l) && spec_server_id(rows, l@, rows.len()) == Some(v.listen_jobworkerp_server_id)
    &&& spec_server_id(rows, item.jobworkerp@, rows.len()) == Some(v.process_jobworkerp_server_id)
    &&& v.name@ == item.name@
    &&& v.workflow_url@ == (if worker { Seq::<char>::empty() } else { item.workflow_url@ })
    &&& opt_view(v.channel) == (if worker { None } else { opt_view(item.channel) })
    &&& opt_view(v.worker_name) == (if worker { opt_view(item.worker_name) } else { None })
    &&& opt_view(v.using) == (if worker { spec_non_empty(item.using) } else { None })
    &&& opt_view(v.args) == opt_view(item.args)
    &&& v.enabled
}

/// The listener row of a settings entry, with both servers resolved against the server table.
pub fn listener_import(item: &WorkflowSettingItem, rows: &Vec<(String, i64)>) -> (r: Result<ListenerImport, ImportError>)
    ensures
        match r {
            Ok(v) => spec_listener_import_error(*item, rows@) is None && spec_listener_import(*item, rows@, v),
            Err(e) => spec_listener_import_error(*item, rows@) == Some((e.kind, e.server@)) && e.item@ == item.name@,
        },
{
    let listen_worker_name = match &item.listen_worker_name {
        Some(w) => w.clone(),
        None => {
            return Err(ImportError { kind: ImportErrorKind::MissingListenWorkerName, item: item.name.clone(), server: String::new() });
        },
    };
    let listen_name = match &item.listen_jobworkerp {
        Some(l) => l,
        None => {
            return Err(ImportError { kind: ImportErrorKind::MissingListenJobworkerp, item: item.name.clone(), server: String::new() });
        },
    };
    let listen_id = match server_id_by_name(rows, listen_name) {
        Some(id) => id,
        None => {
            return Err(ImportError { kind: ImportErrorKind::ListenServerNotFound, item: item.name.clone(), server: listen_name.clone() });
        },
    };
    let process_id = match server_id_by_name(rows, &item.jobworkerp) {
        Some(id) => id,
        None => {
            return Err(ImportError {
                kind: ImportErrorKind::ProcessServerNotFound,
                item: item.name.clone(),
                server: item.jobworkerp.clone(),
            });
        },
    };
    let worker = is_some_non_empty(&item.worker_name);
    let (workflow_url, channel, worker_name, using) = if worker {
        (String::new(), None, clone_opt_string(&item.worker_name), non_empty_clone(&item.using))
    } else {
        (item.workflow_url.clone(), clone_opt_string(&item.channel), None, None)
    };
    Ok(ListenerImport {
        name: item.name.clone(),
        listen_jobworkerp_server_id: listen_id,
        listen_worker_name,
        process_jobworkerp_server_id: process_id,
        workflow_url,
        channel,
        args: clone_opt_string(&item.args),
        worker_name,
        using,
        enabled: true,
    })
}

/// The settings entry of an exported server: its address is rebuilt as
/// `<scheme>://<host>:<port>`.
pub fn export_server(name: String, host: &str, port: &str, ssl_enabled: bool) -> (r: JobWorkerpSetting)
    ensures
        r.name@ == name@,
        r.address@ == spec_server_endpoint(ssl_enabled, host@, port@),
{
    JobWorkerpSetting { name, address: format_endpoint(ssl_enabled, host, port) }
}

/// The settings file of an export: the servers, and the schedulers and listeners, each list
/// left out when empty.
pub fn export_file(
    servers: Vec<JobWorkerpSetting>,
    schedulers: Vec<WorkflowSettingItem>,
    listeners: Vec<WorkflowSettingItem>,
) -> (r: WorkflowSettingFile)
    ensures
        r.jobworkerp@ == servers@,
        r.schedulers == (if schedulers@.len() == 0 { None } else { Some(schedulers) }),
        r.listeners == (if listeners@.len() == 0 { None } else { Some(listeners) }),
{
    let schedulers = if schedulers.len() == 0 { None } else { Some(schedulers) };
    let listeners = if listeners.len() == 0 { None } else { Some(listeners) };
    WorkflowSettingFile { jobworkerp: servers, schedulers, listeners }
}

/// The answer of the admin API to an import or a validation.
#[derive(Clone, Debug)]
pub struct ImportTomlResponse {
    pub is_success: bool,
    pub message: String,
    pub imported_servers: i32,
    pub imported_schedulers: i32,
    pub imported_listeners: i32,
    pub validation_errors: Vec<String>,
}

/// The answer to an import: the counts and a summary on success; on failure no counts, the
/// error as message (after `Import failed: `) and as the one validation error.
pub fn import_response(result: Result<(i32, i32, i32), String>) -> (r: ImportTomlResponse)
    ensures
        match result {
            Ok((s, c, l)) => r.is_success && r.imported_servers == s && r.imported_schedulers == c
                && r.imported_listeners == l && r.validation_errors@.len() == 0
                && r.message@ == "Imported "@ + crate::text::spec_decimal_int(s as int) + " servers, "@
                    + crate::text::spec_decimal_int(c as int) + " schedulers, "@
                    + crate::text::spec_decimal_int(l as int) + " listeners"@,
            Err(e) => !r.is_success && r.imported_servers == 0 && r.imported_schedulers == 0
                && r.imported_listeners == 0 && r.message@ == "Import failed: "@ + e@
                && r.validation_errors@.len() == 1 && r.validation_errors@[0]@ == e@,
        },
{
    match result {
        Ok((s, c, l)) => {
            let message = String::from_str("Imported ").concat(crate::text::i64_to_string(s as i64).as_str())
                .concat(" servers, ").concat(crate::text::i64_to_string(c as i64).as_str())
                .concat(" schedulers, ").concat(crate::text::i64_to_string(l as i64).as_str())
                .concat(" listeners");
            ImportTomlResponse {
                is_success: true,
                message,
                imported_servers: s,
                imported_schedulers: c,
                imported_listeners: l,
                validation_errors: Vec::new(),
            }
        },
        Err(e) => {
            let message = String::from_str("Import failed: ").concat(e.as_str());
            let mut errors: Vec<String> = Vec::new();
            errors.push(e);
            ImportTomlResponse {
                is_success: false,
                message,
                imported_servers: 0,
                imported_schedulers: 0,
                imported_listeners: 0,
                validation_errors: errors,
            }
        },
    }
}

/// The answer to a validation: valid, or the error as message (after `Validation failed: `)
/// and as the one validation error; nothing is imported either way.
pub fn validate_response(result: Result<(), String>) -> (r: ImportTomlResponse)
    ensures
        r.imported_servers == 0 && r.imported_schedulers == 0 && r.imported_listeners == 0,
        match result {
            Ok(()) => r.is_success && r.message@ == "Configuration is valid"@ && r.validation_errors@.len() == 0,
            Err(e) => !r.is_success && r.message@ == "Validation failed: "@ + e@ && r.validation_errors@.len() == 1
                && r.validation_errors@[0]@ == e@,
        },
{
    match result {
        Ok(()) => ImportTomlResponse {
            is_success: true,
            message: String::from_str("Configuration is valid"),
            imported_servers: 0,
            imported_schedulers: 0,
            imported_listeners: 0,
            validation_errors: Vec::new(),
        },
        Err(e) => {
            let message = String::from_str("Validation failed: ").concat(e.as_str());
            let mut errors: Vec<String> = Vec::new();
            errors.push(e);
            ImportTomlResponse {
                is_success: false,
                message,
                imported_servers: 0,
                imported_schedulers: 0,
                imported_listeners: 0,
                validation_errors: errors,
            }
        },
    }
}

/// The answer of the admin API to an export.
#[derive(Clone, Debug)]
pub struct ExportTomlResponse {
    pub is_success: bool,
    pub message: String,
    pub toml_content: String,
}

/// The answer to an export: the settings text on success; else an empty text and the error
/// after `Export failed: `.
pub fn export_response(result: Result<String, String>) -> (r: ExportTomlResponse)
    ensures
        match result {
            Ok(t) => r.is_success && r.message@ == "Export successful"@ && r.toml_content@ == t@,
            Err(e) => !r.is_success && r.message@ == "Export failed: "@ + e@ && r.toml_content@.len() == 0,
        },
{
    match result {
        Ok(t) => ExportTomlResponse { is_success: true, message: String::from_str("Export successful"), toml_content: t },
        Err(e) => ExportTomlResponse {
            is_success: false,
            message: String::from_str("Export failed: ").concat(e.as_str()),
            toml_content: String::new(),
        },
    }
}

/// The first import error among the first `n` scheduler entries.
pub open spec fn spec_first_scheduler_import_error(items: Seq<WorkflowSettingItem>, rows: Seq<(String, i64)>, n: nat) -> Option<(ImportErrorKind, Seq<char>, Seq<char>)>
    decreases n,
{
    if n == 0 {
        None
    } else {
        match spec_first_scheduler_import_error(items, rows, (n - 1) as nat) {
            Some(e) => Some(e),
            None => match spec_scheduler_import_error(items[n - 1], rows) {
                Some(k) => Some((k, items[n - 1].name@, items[n - 1].jobworkerp@)),
                None => None,
            },
        }
    }
}

/// The first import error among the first `n` listener entries.
pub open spec fn spec_first_listener_import_error(items: Seq<WorkflowSettingItem>, rows: Seq<(String, i64)>, n: nat) -> Option<(ImportErrorKind, Seq<char>, Seq<char>)>
    decreases n,
{
    if n == 0 {
        None
    } else {
        match spec_first_listener_import_error(items, rows, (n - 1) as nat) {
            Some(e) => Some(e),
            None => match spec_listener_import_error(items[n - 1], rows) {
                Some((k, server)) => Some((k, items[n - 1].name@, server)),
                None => None,
            },
        }
    }
}

proof fn lemma_first_scheduler_import_error_stays(items: Seq<WorkflowSettingItem>, rows: Seq<(String, i64)>, n: nat, m: nat)
    requires
        n <= m,
        spec_first_scheduler_import_error(items, rows, n) is Some,
    ensures
        spec_first_scheduler_import_error(items, rows, m) == spec_first_scheduler_import_error(items, rows, n),
    decreases m - n,
{
    if n < m {
        lemma_first_scheduler_import_error_stays(items, rows, n, (m - 1) as nat);
    }
}

proof fn lemma_first_listener_import_error_stays(items: Seq<WorkflowSettingItem>, rows: Seq<(String, i64)>, n: nat, m: nat)
    requires
        n <= m,
        spec_first_listener_import_error(items, rows, n) is Some,
    ensures
        spec_first_listener_import_error(items, rows, m) == spec_first_listener_import_error(items, rows, n),
    decreases m - n,
{
    if n < m {
        lemma_first_listener_import_error_stays(items, rows, n, (m - 1) as nat);
    }
}

/// The rows an import writes for the schedulers and listeners of a settings file.
pub struct ItemImports {
    pub schedulers: Vec<SchedulerImport>,
    pub listeners: Vec<ListenerImport>,
}

/// What importing the schedulers, then the listeners, of a file gives against the server
/// table: the first entry that cannot be imported decides the error (its kind, the entry's
/// name and the server named in the error).
pub open spec fn spec_item_imports_error(file: WorkflowSettingFile, rows: Seq<(String, i64)>) -> Option<(ImportErrorKind, Seq<char>, Seq<char>)> {
    let c = spec_entries(file.schedulers);
    let l = spec_entries(file.listeners);
    match spec_first_scheduler_import_error(c, rows, c.len()) {
        Some(e) => Some(e),
        None => spec_first_listener_import_error(l, rows, l.len()),
    }
}

/// Whether `v` holds the scheduler and listener rows of the file's entries, in file order,
/// resolved against the `(name, id)` rows of the server table.
pub open spec fn spec_item_rows(file: WorkflowSettingFile, rows: Seq<(String, i64)>, v: ItemImports) -> bool {
    &&& v.schedulers@.len() == spec_entries(file.schedulers).len()
    &&& forall|i: int| 0 <= i < v.schedulers@.len() ==>
        spec_scheduler_import(spec_entries(file.schedulers)[i], rows, #[trigger] v.schedulers@[i])
    &&& v.listeners@.len() == spec_entries(file.listeners).len()
    &&& forall|i: int| 0 <= i < v.listeners@.len() ==>
        spec_listener_import(spec_entries(file.listeners)[i], rows, #[trigger] v.listeners@[i])
}

/// The scheduler and listener rows of a settings file, in file order, resolved against the
/// `(name, id)` rows of the server table.
pub fn item_imports(file: &WorkflowSettingFile, rows: &Vec<(String, i64)>) -> (r: Result<ItemImports, ImportError>)
    ensures
        match r {
            Ok(v) => spec_item_imports_error(*file, rows@) is None && spec_item_rows(*file, rows@, v),
            Err(e) => spec_item_imports_error(*file, rows@) == Some((e.kind, e.item@, e.server@)),
        },
{
    let ghost c = spec_entries(file.schedulers);
    let ghost l = spec_entries(file.listeners);
    let mut schedulers: Vec<SchedulerImport> = Vec::new();
    if let Some(items) = &file.schedulers {
        let mut i: usize = 0;
        while i < items.len()
            invariant
                items@ == c,
                c == spec_entries(file.schedulers),
                i <= items@.len(),
                spec_first_scheduler_import_error(c, rows@, i as nat) is None,
                schedulers@.len() == i,
                forall|k: int| 0 <= k < i ==> spec_scheduler_import(c[k], rows@, #[trigger] schedulers@[k]),
            decreases items@.len() - i,
        {
            match scheduler_import(&items[i], rows) {
                Ok(v) => {
                    schedulers.push(v);
                },
                Err(e) => {
                    assert(spec_first_scheduler_import_error(c, rows@, (i + 1) as nat) == Some((e.kind, e.item@, e.server@)));
                    proof { lemma_first_scheduler_import_error_stays(c, rows@, (i + 1) as nat, c.len()); }
                    return Err(e);
                },
            }
            i = i + 1;
        }
    }
    let mut listeners: Vec<ListenerImport> = Vec::new();
    if let Some(items) = &file.listeners {
        let mut i: usize = 0;
        while i < items.len()
            invariant
                items@ == l,
                l == spec_entries(file.listeners),
                c == spec_entries(file.schedulers),
                spec_first_scheduler_import_error(c, rows@, c.len()) is None,
                i <= items@.len(),
                spec_first_listener_import_error(l, rows@, i as nat) is None,
                listeners@.len() == i,
                forall|k: int| 0 <= k < i ==> spec_listener_import(l[k], rows@, #[trigger] listeners@[k]),
            decreases items@.len() - i,
        {
            match listener_import(&items[i], rows) {
                Ok(v) => {
                    listeners.push(v);
                },
                Err(e) => {
                    assert(spec_first_listener_import_error(l, rows@, (i + 1) as nat) == Some((e.kind, e.item@, e.server@)));
                    proof { lemma_first_listener_import_error_stays(l, rows@, (i + 1) as nat, l.len()); }
                    return Err(e);
                },
            }
            i = i + 1;
        }
    }
    Ok(ItemImports { schedulers, listeners })
}

/// Whether `v` holds the server rows of the file's servers, in file order: each server's name
/// with its parsed address.
pub open spec fn spec_server_rows(file: WorkflowSettingFile, v: Seq<ServerImport>) -> bool {
    v.len() == file.jobworkerp@.len() && forall|i: int| 0 <= i < v.len() ==> {
        let s = #[trigger] file.jobworkerp@[i];
        spec_parse_server_address(s.address@) matches Ok((h, p, ssl)) && v[i].name@ == s.name@
            && v[i].host@ == h && v[i].port@ == p && v[i].ssl_enabled == ssl && v[i].enabled
    }
}

/// Whether `e` is the error of the first of the file's servers whose address does not parse.
pub open spec fn spec_server_rows_error(file: WorkflowSettingFile, e: ImportError) -> bool {
    exists|i: int| 0 <= i < file.jobworkerp@.len()
        && spec_parse_server_address((#[trigger] file.jobworkerp@[i]).address@)
            == Err::<(Seq<char>, Seq<char>, bool), AddressError>(e.kind->InvalidServerAddress_0)
        && e.kind is InvalidServerAddress
        && e.item@ == file.jobworkerp@[i].name@ && e.server@ == file.jobworkerp@[i].address@
        && (forall|k: int| 0 <= k < i ==> spec_parse_server_address((#[trigger] file.jobworkerp@[k]).address@) is Ok)
}

/// The server rows an import writes, in file order; the first address that does not parse
/// decides the error.
pub fn server_imports(file: &WorkflowSettingFile) -> (r: Result<Vec<ServerImport>, ImportError>)
    ensures
        match r {
            Ok(v) => spec_server_rows(*file, v@),
            Err(e) => spec_server_rows_error(*file, e),
        },
{
    let mut out: Vec<ServerImport> = Vec::new();
    let mut i: usize = 0;
    while i < file.jobworkerp.len()
        invariant
            i <= file.jobworkerp@.len(),
            out@.len() == i,
            forall|k: int| 0 <= k < i ==> {
                let s = #[trigger] file.jobworkerp@[k];
                spec_parse_server_address(s.address@) matches Ok((h, p, ssl)) && out@[k].name@ == s.name@
                    && out@[k].host@ == h && out@[k].port@ == p && out@[k].ssl_enabled == ssl && out@[k].enabled
            },
        decreases file.jobworkerp@.len() - i,
    {
        match server_import(&file.jobworkerp[i]) {
            Ok(v) => {
                out.push(v);
            },
            Err(e) => {
                assert(spec_parse_server_address(file.jobworkerp@[i as int].address@) is Err);
                return Err(e);
            },
        }
        i = i + 1;
    }
    Ok(out)
}

/// The settings entry of an exported scheduler: with its crontab and without listener fields.
pub fn export_scheduler(
    name: String,
    jobworkerp: String,
    workflow_url: String,
    channel: Option<String>,
    crontab: String,
    args: Option<String>,
    worker_name: Option<String>,
    using: Option<String>,
) -> (r: WorkflowSettingItem)
    ensures
        r.name == name && r.jobworkerp == jobworkerp && r.workflow_url == workflow_url && r.channel == channel,
        r.crontab == Some(crontab) && r.args == args && r.worker_name == worker_name && r.using == using,
        r.listen_worker_name is None && r.listen_jobworkerp is None,
{
    WorkflowSettingItem {
        name,
        jobworkerp,
        workflow_url,
        channel,
        listen_worker_name: None,
        listen_jobworkerp: None,
        crontab: Some(crontab),
        args,
        worker_name,
        using,
    }
}

/// The settings entry of an exported listener: with the listened worker and server and
/// without a crontab.
pub fn export_listener(
    name: String,
    jobworkerp: String,
    workflow_url: String,
    channel: Option<String>,
    listen_worker_name: String,
    listen_jobworkerp: String,
    args: Option<String>,
    worker_name: Option<String>,
    using: Option<String>,
) -> (r: WorkflowSettingItem)
    ensures
        r.name == name && r.jobworkerp == jobworkerp && r.workflow_url == workflow_url && r.channel == channel,
        r.listen_worker_name == Some(listen_worker_name) && r.listen_jobworkerp == Some(listen_jobworkerp),
        r.crontab is None && r.args == args && r.worker_name == worker_name && r.using == using,
{
    WorkflowSettingItem {
        name,
        jobworkerp,
        workflow_url,
        channel,
        listen_worker_name: Some(listen_worker_name),
        listen_jobworkerp: Some(listen_jobworkerp),
        crontab: None,
        args,
        worker_name,
        using,
    }
}

} // verus!

