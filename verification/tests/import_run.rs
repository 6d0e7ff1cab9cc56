use jobworkerp_conductor::config_management::{export_file, export_listener, export_scheduler, export_server};
use jobworkerp_conductor::import_run::{ImportAction, ImportEvent, ImportRun, ImportStage};
use jobworkerp_conductor::settings::{JobWorkerpSetting, WorkflowSettingFile, WorkflowSettingItem};

fn server(name: &str, address: &str) -> JobWorkerpSetting {
    JobWorkerpSetting { name: name.to_string(), address: address.to_string() }
}

fn scheduler(name: &str, jobworkerp: &str, workflow_url: &str) -> WorkflowSettingItem {
    export_scheduler(
        name.to_string(),
        jobworkerp.to_string(),
        workflow_url.to_string(),
        None,
        "0 0 * * * *".to_string(),
        None,
        None,
        None,
    )
}

fn listener(name: &str, jobworkerp: &str, worker: &str, workflow_url: &str) -> WorkflowSettingItem {
    export_listener(
        name.to_string(),
        jobworkerp.to_string(),
        workflow_url.to_string(),
        None,
        worker.to_string(),
        jobworkerp.to_string(),
        None,
        None,
        None,
    )
}

fn sample_file() -> WorkflowSettingFile {
    WorkflowSettingFile {
        jobworkerp: vec![server("test_server", "https://example.com:8443")],
        schedulers: Some(vec![scheduler("daily_job", "test_server", "daily.yml")]),
        listeners: Some(vec![listener("result_listener", "test_server", "worker1", "listener.yml")]),
    }
}

fn finish(action: ImportAction) -> Result<(i32, i32, i32), String> {
    match action {
        ImportAction::Finish(r) => r,
        _ => panic!("the import did not finish"),
    }
}

#[test]
fn import_run_with_overwrite_goes_through_every_step() {
    let (run, action) = ImportRun::begin(sample_file(), true);
    assert_eq!(run.stage, ImportStage::Clearing);
    assert!(matches!(action, ImportAction::ClearTables));
    let (run, action) = run.step(ImportEvent::Done);
    assert_eq!(run.stage, ImportStage::WritingServers);
    match action {
        ImportAction::WriteServers(v) => {
            assert_eq!(v.len(), 1);
            assert_eq!(v[0].name, "test_server");
            assert_eq!(v[0].host, "example.com");
            assert_eq!(v[0].port, "8443");
            assert!(v[0].ssl_enabled);
            assert!(v[0].enabled);
        },
        _ => panic!("expected the servers to be written"),
    }
    let (run, action) = run.step(ImportEvent::Done);
    assert_eq!(run.stage, ImportStage::ReadingServerRows);
    assert!(matches!(action, ImportAction::ReadServerRows));
    let (run, action) = run.step(ImportEvent::ServerRows(vec![("test_server".to_string(), 7)]));
    assert_eq!(run.stage, ImportStage::WritingItems);
    match action {
        ImportAction::WriteItems(items) => {
            assert_eq!(items.schedulers.len(), 1);
            assert_eq!(items.schedulers[0].jobworkerp_server_id, 7);
            assert_eq!(items.schedulers[0].workflow_url, "daily.yml");
            assert!(items.schedulers[0].enabled);
            assert_eq!(items.listeners.len(), 1);
            assert_eq!(items.listeners[0].listen_jobworkerp_server_id, 7);
            assert_eq!(items.listeners[0].process_jobworkerp_server_id, 7);
            assert_eq!(items.listeners[0].listen_worker_name, "worker1");
            assert!(items.listeners[0].enabled);
        },
        _ => panic!("expected the schedulers and listeners to be written"),
    }
    let (run, action) = run.step(ImportEvent::Done);
    assert_eq!(run.stage, ImportStage::Committing);
    assert!(matches!(action, ImportAction::Commit));
    let (run, action) = run.step(ImportEvent::Done);
    assert_eq!(run.stage, ImportStage::Finished);
    assert_eq!(finish(action), Ok((1, 1, 1)));
}

#[test]
fn import_run_without_overwrite_writes_servers_first() {
    let (run, action) = ImportRun::begin(sample_file(), false);
    assert_eq!(run.stage, ImportStage::WritingServers);
    assert!(matches!(action, ImportAction::WriteServers(_)));
}

#[test]
fn import_run_stops_at_a_bad_server_address() {
    let mut file = sample_file();
    file.jobworkerp.push(server("broken", "not a url"));
    let (run, action) = ImportRun::begin(file, false);
    assert_eq!(run.stage, ImportStage::Finished);
    assert_eq!(finish(action), Err("Invalid server address: not a url".to_string()));
}

#[test]
fn import_run_stops_at_an_unknown_scheduler_server() {
    let (run, _) = ImportRun::begin(sample_file(), false);
    let (run, _) = run.step(ImportEvent::Done);
    let (run, action) = run.step(ImportEvent::ServerRows(vec![("other".to_string(), 1)]));
    assert_eq!(run.stage, ImportStage::Finished);
    assert_eq!(finish(action), Err("Server 'test_server' not found for scheduler 'daily_job'".to_string()));
}

#[test]
fn import_run_stops_at_an_unknown_listener_server() {
    let mut file = sample_file();
    file.schedulers = None;
    let (run, _) = ImportRun::begin(file, false);
    let (run, _) = run.step(ImportEvent::Done);
    let (_, action) = run.step(ImportEvent::ServerRows(vec![("other".to_string(), 1)]));
    assert_eq!(finish(action), Err("Listen server 'test_server' not found for listener 'result_listener'".to_string()));
}

#[test]
fn import_run_ends_on_a_refused_action() {
    let (run, _) = ImportRun::begin(sample_file(), true);
    let (run, action) = run.step(ImportEvent::Failed("database is locked".to_string()));
    assert_eq!(run.stage, ImportStage::Finished);
    assert_eq!(finish(action), Err("database is locked".to_string()));
}

#[test]
fn export_then_import_gives_back_the_counts() {
    let exported = export_file(
        vec![export_server("test_server".to_string(), "example.com", "8443", true)],
        vec![scheduler("daily_job", "test_server", "daily.yml")],
        vec![listener("result_listener", "test_server", "worker1", "listener.yml")],
    );
    let (run, _) = ImportRun::begin(exported, true);
    let (run, _) = run.step(ImportEvent::Done);
    let (run, _) = run.step(ImportEvent::Done);
    let (run, _) = run.step(ImportEvent::ServerRows(vec![("test_server".to_string(), 3)]));
    let (run, _) = run.step(ImportEvent::Done);
    let (_, action) = run.step(ImportEvent::Done);
    assert_eq!(finish(action), Ok((1, 1, 1)));
}

#[test]
fn export_of_nothing_imports_nothing() {
    let exported = export_file(vec![], vec![], vec![]);
    assert!(exported.schedulers.is_none());
    let (run, _) = ImportRun::begin(exported, false);
    let (run, _) = run.step(ImportEvent::Done);
    let (run, _) = run.step(ImportEvent::ServerRows(vec![]));
    let (run, _) = run.step(ImportEvent::Done);
    let (_, action) = run.step(ImportEvent::Done);
    assert_eq!(finish(action), Ok((0, 0, 0)));
}

#[test]
fn an_invalid_file_ends_the_import_before_any_write() {
    let empty = WorkflowSettingFile { jobworkerp: vec![], schedulers: None, listeners: None };
    let (run, action) = ImportRun::begin_checked(empty, true);
    assert_eq!(run.stage, ImportStage::Finished);
    assert_eq!(finish(action), Err("At least one jobworkerp server must be defined".to_string()));
    let mut duplicated = sample_file();
    duplicated.jobworkerp.push(server("test_server", "http://other:80"));
    let (_, action) = ImportRun::begin_checked(duplicated, false);
    assert_eq!(finish(action), Err("Duplicate server name: test_server".to_string()));
}

#[test]
fn a_valid_file_starts_the_import() {
    let (run, action) = ImportRun::begin_checked(sample_file(), true);
    assert_eq!(run.stage, ImportStage::Clearing);
    assert!(matches!(action, ImportAction::ClearTables));
    let (run, action) = ImportRun::begin_checked(sample_file(), false);
    assert_eq!(run.stage, ImportStage::WritingServers);
    assert!(matches!(action, ImportAction::WriteServers(_)));
}
