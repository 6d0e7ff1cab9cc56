use jobworkerp_conductor::config_management::{
    export_file, export_listener, export_response, export_scheduler, export_server, import_response, item_imports,
    listener_import, parse_server_address, scheduler_import, server_import, server_imports, validate_response,
    validate_settings, AddressError, ConfigErrorKind, ImportErrorKind,
};
use jobworkerp_conductor::settings::{
    JobResultListenerSetting, JobWorkerpSetting, SchedulerSetting, SettingErrorKind, WorkflowSettingFile,
    WorkflowSettingItem, WorkflowSettings,
};

fn server(name: &str, address: &str) -> JobWorkerpSetting {
    JobWorkerpSetting { name: name.to_string(), address: address.to_string() }
}

fn item(name: &str, jobworkerp: &str) -> WorkflowSettingItem {
    WorkflowSettingItem {
        name: name.to_string(),
        jobworkerp: jobworkerp.to_string(),
        workflow_url: String::new(),
        channel: None,
        listen_worker_name: None,
        listen_jobworkerp: None,
        crontab: None,
        args: None,
        worker_name: None,
        using: None,
    }
}

fn validate_toml_like(file: WorkflowSettingFile) -> Result<WorkflowSettingFile, String> {
    validate_settings(file).map_err(|e| e.message())
}

#[test]
fn test_parse_server_address() {
    let (host, port, ssl) = parse_server_address("https://example.com:8443").unwrap();
    assert_eq!(host, "example.com");
    assert_eq!(port, "8443");
    assert!(ssl);

    let (host, port, ssl) = parse_server_address("http://localhost").unwrap();
    assert_eq!(host, "localhost");
    assert_eq!(port, "80");
    assert!(!ssl);

    assert!(parse_server_address("invalid-url").is_err());
}

#[test]
fn parse_server_address_defaults_and_errors() {
    let (_, port, ssl) = parse_server_address("https://example.com").unwrap();
    assert_eq!(port, "443");
    assert!(ssl);
    assert_eq!(parse_server_address("invalid-url"), Err(AddressError::InvalidUrl));
    assert_eq!(parse_server_address("mailto:someone@example.com"), Err(AddressError::MissingHost));
    assert_eq!(AddressError::InvalidUrl.message(), "Invalid URL format");
}

#[test]
fn test_validate_toml_config() {
    let mut scheduler = item("test-scheduler", "server1");
    scheduler.workflow_url = "test.yml".to_string();
    scheduler.crontab = Some("0 * * * *".to_string());
    let valid = WorkflowSettingFile {
        jobworkerp: vec![server("server1", "http://localhost:8080")],
        listeners: None,
        schedulers: Some(vec![scheduler]),
    };
    assert!(validate_toml_like(valid).is_ok());

    let invalid = WorkflowSettingFile {
        jobworkerp: vec![server("server1", "http://localhost:8080"), server("server1", "http://localhost:8081")],
        listeners: None,
        schedulers: None,
    };
    assert!(validate_toml_like(invalid).is_err());
}

#[test]
fn test_validate_listener_with_worker_name_ok() {
    let mut listener = item("my-listener", "server1");
    listener.listen_worker_name = Some("some-worker".to_string());
    listener.listen_jobworkerp = Some("server1".to_string());
    listener.worker_name = Some("my-worker".to_string());
    listener.using = Some("run".to_string());
    let file = WorkflowSettingFile {
        jobworkerp: vec![server("server1", "http://localhost:8080")],
        listeners: Some(vec![listener]),
        schedulers: None,
    };
    assert!(validate_toml_like(file).is_ok());
}

#[test]
fn test_validate_listener_without_worker_name_ok() {
    let mut listener = item("my-listener", "server1");
    listener.listen_worker_name = Some("some-worker".to_string());
    listener.listen_jobworkerp = Some("server1".to_string());
    listener.workflow_url = "process.yml".to_string();
    let file = WorkflowSettingFile {
        jobworkerp: vec![server("server1", "http://localhost:8080")],
        listeners: Some(vec![listener]),
        schedulers: None,
    };
    assert!(validate_toml_like(file).is_ok());
}

#[test]
fn test_validate_listener_without_both_rejected() {
    let mut listener = item("my-listener", "server1");
    listener.listen_worker_name = Some("some-worker".to_string());
    listener.listen_jobworkerp = Some("server1".to_string());
    let file = WorkflowSettingFile {
        jobworkerp: vec![server("server1", "http://localhost:8080")],
        listeners: Some(vec![listener]),
        schedulers: None,
    };
    let result = validate_toml_like(file);
    assert!(result.is_err());
    assert!(result.unwrap_err().contains("must have either worker_name or workflow_url"));
}

#[test]
fn validation_reports_the_first_problem() {
    let empty = WorkflowSettingFile { jobworkerp: vec![], listeners: None, schedulers: None };
    let e = validate_settings(empty).unwrap_err();
    assert_eq!(e.kind, ConfigErrorKind::NoServers);
    assert_eq!(e.message(), "At least one jobworkerp server must be defined");

    let dup = WorkflowSettingFile {
        jobworkerp: vec![server("a", "http://h:1"), server("b", "not a url"), server("a", "http://h:2")],
        listeners: None,
        schedulers: None,
    };
    let e = validate_settings(dup).unwrap_err();
    assert_eq!(e.kind, ConfigErrorKind::InvalidServerAddress(AddressError::InvalidUrl));
    assert_eq!(e.message(), "Invalid address for server 'b': not a url");

    let dup2 = WorkflowSettingFile {
        jobworkerp: vec![server("a", "http://h:1"), server("a", "http://h:2")],
        listeners: None,
        schedulers: None,
    };
    assert_eq!(validate_settings(dup2).unwrap_err().message(), "Duplicate server name: a");

    let sched = WorkflowSettingFile {
        jobworkerp: vec![server("a", "http://h:1")],
        listeners: None,
        schedulers: Some(vec![item("nightly", "a")]),
    };
    assert_eq!(
        validate_settings(sched).unwrap_err().message(),
        "Scheduler 'nightly' must have either worker_name or workflow_url set."
    );
}

#[test]
fn import_rows_resolve_servers_and_give_workers_precedence() {
    let s = server_import(&server("main", "https://jobs.example.com")).ok().unwrap();
    assert_eq!((s.name.as_str(), s.host.as_str(), s.port.as_str(), s.ssl_enabled), ("main", "jobs.example.com", "443", true));
    assert!(s.enabled);
    let bad = server_import(&server("bad", "::::")).unwrap_err();
    assert_eq!(bad.message(), "Invalid server address: ::::");

    let rows = vec![("main".to_string(), 10i64), ("other".to_string(), 20i64), ("main".to_string(), 30i64)];
    let mut sched = item("nightly", "main");
    sched.crontab = Some("0 0 * * *".to_string());
    sched.workflow_url = "wf.yml".to_string();
    sched.channel = Some("gpu".to_string());
    sched.worker_name = Some("w".to_string());
    sched.using = Some(String::new());
    let v = scheduler_import(&sched, &rows).ok().unwrap();
    assert_eq!(v.jobworkerp_server_id, 30);
    assert_eq!(v.workflow_url, "");
    assert_eq!(v.channel, None);
    assert_eq!(v.worker_name.as_deref(), Some("w"));
    assert_eq!(v.using, None);

    let mut missing = item("nightly", "main");
    missing.workflow_url = "wf.yml".to_string();
    assert_eq!(scheduler_import(&missing, &rows).unwrap_err().message(), "Missing crontab for scheduler 'nightly'");
    missing.crontab = Some("* * * * *".to_string());
    missing.jobworkerp = "nowhere".to_string();
    let e = scheduler_import(&missing, &rows).unwrap_err();
    assert_eq!(e.kind, ImportErrorKind::SchedulerServerNotFound);
    assert_eq!(e.message(), "Server 'nowhere' not found for scheduler 'nightly'");

    let mut listener = item("l", "other");
    listener.listen_worker_name = Some("src".to_string());
    listener.listen_jobworkerp = Some("main".to_string());
    listener.workflow_url = "p.yml".to_string();
    listener.channel = Some("c".to_string());
    let v = listener_import(&listener, &rows).ok().unwrap();
    assert_eq!((v.listen_jobworkerp_server_id, v.process_jobworkerp_server_id), (30, 20));
    assert_eq!(v.workflow_url, "p.yml");
    assert_eq!(v.channel.as_deref(), Some("c"));
    assert_eq!(v.worker_name, None);
    listener.listen_jobworkerp = Some("ghost".to_string());
    assert_eq!(listener_import(&listener, &rows).unwrap_err().message(), "Listen server 'ghost' not found for listener 'l'");
}

#[test]
fn export_rebuilds_addresses_and_omits_empty_lists() {
    let s = export_server("main".to_string(), "jobs.example.com", "8443", true);
    assert_eq!(s.address, "https://jobs.example.com:8443");
    let f = export_file(vec![s], vec![], vec![item("l", "main")]);
    assert!(f.schedulers.is_none());
    assert_eq!(f.listeners.map(|l| l.len()), Some(1));
}

#[test]
fn admin_responses_report_counts_and_errors() {
    let r = import_response(Ok((1, 2, 3)));
    assert!(r.is_success);
    assert_eq!(r.message, "Imported 1 servers, 2 schedulers, 3 listeners");
    let r = import_response(Err("boom".to_string()));
    assert!(!r.is_success);
    assert_eq!(r.message, "Import failed: boom");
    assert_eq!(r.validation_errors, vec!["boom".to_string()]);
    assert_eq!(validate_response(Ok(())).message, "Configuration is valid");
    assert_eq!(validate_response(Err("x".to_string())).message, "Validation failed: x");
    let e = export_response(Err("db".to_string()));
    assert_eq!((e.is_success, e.message.as_str(), e.toml_content.as_str()), (false, "Export failed: db", ""));
}

#[test]
fn settings_build_listeners_then_schedulers() {
    let servers = vec![server("a", "http://a:1"), server("b", "http://b:2")];
    let mut listener = item("l", "b");
    listener.listen_jobworkerp = Some("a".to_string());
    listener.listen_worker_name = Some("w".to_string());
    listener.workflow_url = "x.yml".to_string();
    let ls = JobResultListenerSetting::new_from(&listener, &servers).ok().unwrap();
    assert_eq!(ls.listen_jobworkerp, "http://a:1");
    assert_eq!(ls.process_jobworkerp, "http://b:2");

    let mut sched = item("s", "a");
    sched.workflow_url = "y.yml".to_string();
    let e = SchedulerSetting::new_from(&sched, &servers).unwrap_err();
    assert_eq!(e.kind, SettingErrorKind::CrontabMissing);
    sched.crontab = Some("* * * * * *".to_string());
    assert_eq!(SchedulerSetting::new_from(&sched, &servers).ok().unwrap().jobworkerp, "http://a:1");

    let file = WorkflowSettingFile { jobworkerp: servers, listeners: Some(vec![listener]), schedulers: Some(vec![sched]) };
    let w = WorkflowSettings::from_file(&file).ok().unwrap();
    assert_eq!((w.listeners.len(), w.schedulers.len()), (1, 1));
}

#[test]
fn import_plan_resolves_every_entry_in_order() {
    let mut sched = item("nightly", "main");
    sched.crontab = Some("0 0 * * *".to_string());
    sched.workflow_url = "daily.yml".to_string();
    let mut listener = item("result_listener", "main");
    listener.listen_jobworkerp = Some("main".to_string());
    listener.listen_worker_name = Some("worker1".to_string());
    listener.workflow_url = "listener.yml".to_string();
    let file = WorkflowSettingFile {
        jobworkerp: vec![server("main", "https://example.com:8443")],
        listeners: Some(vec![listener.clone()]),
        schedulers: Some(vec![sched.clone()]),
    };
    let servers = server_imports(&file).ok().unwrap();
    assert_eq!(servers.len(), 1);
    assert_eq!((servers[0].host.as_str(), servers[0].port.as_str(), servers[0].ssl_enabled), ("example.com", "8443", true));
    let rows = vec![("main".to_string(), 42i64)];
    let items = item_imports(&file, &rows).ok().unwrap();
    assert_eq!((items.schedulers.len(), items.listeners.len()), (1, 1));
    assert_eq!(items.listeners[0].listen_jobworkerp_server_id, 42);
    let e = item_imports(&file, &vec![]).err().unwrap();
    assert_eq!(e.kind, ImportErrorKind::SchedulerServerNotFound);
    assert_eq!(e.item, "nightly");

    let exported = export_scheduler(
        sched.name.clone(),
        "main".to_string(),
        sched.workflow_url.clone(),
        None,
        "0 0 * * *".to_string(),
        None,
        None,
        None,
    );
    assert_eq!(exported.crontab.as_deref(), Some("0 0 * * *"));
    assert!(exported.listen_jobworkerp.is_none());
    let exported = export_listener(
        listener.name.clone(),
        "main".to_string(),
        listener.workflow_url.clone(),
        None,
        "worker1".to_string(),
        "main".to_string(),
        None,
        None,
        None,
    );
    assert!(exported.crontab.is_none());
    assert_eq!(exported.listen_worker_name.as_deref(), Some("worker1"));
}

#[test]
fn exported_rows_import_back_unchanged() {
    let rows = vec![("main".to_string(), 7i64), ("proc".to_string(), 8i64)];
    let item = export_scheduler(
        "nightly".to_string(),
        "main".to_string(),
        String::new(),
        None,
        "0 0 * * *".to_string(),
        Some("{}".to_string()),
        Some("w".to_string()),
        Some("run".to_string()),
    );
    let v = scheduler_import(&item, &rows).ok().unwrap();
    assert_eq!(v.name, "nightly");
    assert_eq!(v.jobworkerp_server_id, 7);
    assert_eq!((v.workflow_url.as_str(), v.channel.clone(), v.crontab.as_str()), ("", None, "0 0 * * *"));
    assert_eq!((v.args.as_deref(), v.worker_name.as_deref(), v.using.as_deref()), (Some("{}"), Some("w"), Some("run")));

    let item = export_listener(
        "l".to_string(),
        "proc".to_string(),
        "x.yml".to_string(),
        Some("c".to_string()),
        "src".to_string(),
        "main".to_string(),
        None,
        None,
        None,
    );
    let v = listener_import(&item, &rows).ok().unwrap();
    assert_eq!((v.listen_jobworkerp_server_id, v.process_jobworkerp_server_id), (7, 8));
    assert_eq!((v.workflow_url.as_str(), v.channel.as_deref(), v.listen_worker_name.as_str()), ("x.yml", Some("c"), "src"));
}
