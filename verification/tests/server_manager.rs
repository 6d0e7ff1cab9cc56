use jobworkerp_conductor::model::{
    ChangeAction, CronScheduler, CronSchedulerData, CronSchedulerId, JobworkerpServer, JobworkerpServerId,
    WorkerResultHandler, WorkerResultHandlerId,
};
use jobworkerp_conductor::server_manager::{
    initial_handler_ids, initial_scheduler_ids, listener_change, scheduler_change, snapshot_message, store_change,
    ConfigChangeEvent, ConfigEntity, InitialConfig, RunState, RunningChange, StoreChange,
};

#[test]
fn test_initial_config_creation() {
    let config = InitialConfig::empty();
    assert_eq!(config.total_count(), 0);
    assert_eq!(config.cron_scheduler_count(), 0);
    assert_eq!(config.worker_result_handler_count(), 0);
    assert_eq!(config.jobworkerp_server_count(), 0);
}

#[test]
fn test_initial_config_with_data() {
    let config = InitialConfig::new(vec![], vec![], vec![], vec![]);
    assert_eq!(config.total_count(), 0);
}

#[test]
fn initial_config_counts_every_kind() {
    let config = InitialConfig::new(
        vec![CronScheduler { id: None, data: None }],
        vec![],
        vec![JobworkerpServer { id: None, data: None }, JobworkerpServer { id: None, data: None }],
        vec![],
    );
    assert_eq!(config.total_count(), 3);
    assert_eq!(config.slack_event_handler_count(), 0);
}

#[test]
fn test_event_handler_server_manager_double_start() {
    let mut state = RunState::new();
    assert!(!state.is_running());
    assert!(state.try_start().is_ok());
    assert!(state.is_running());
    let result = state.try_start();
    assert!(result.is_err());
    assert!(result.unwrap_err().contains("already running"));
}

#[test]
fn stop_allows_a_new_start() {
    let mut state = RunState::new();
    assert!(!state.stop());
    state.try_start().unwrap();
    assert!(state.stop());
    assert!(!state.is_running());
    assert!(state.try_start().is_ok());
    state.start_failed();
    assert!(!state.is_running());
}

fn cron_event(action: ChangeAction, id: Option<i64>, with_data: bool) -> ConfigChangeEvent {
    ConfigChangeEvent {
        action,
        entity: ConfigEntity::CronScheduler(CronScheduler {
            id: id.map(|v| CronSchedulerId { value: v }),
            data: if with_data {
                Some(CronSchedulerData {
                    name: "nightly".to_string(),
                    jobworkerp_server_id: Some(JobworkerpServerId { value: 1 }),
                    workflow_url: "wf.yml".to_string(),
                    channel: None,
                    crontab: "0 0 * * * *".to_string(),
                    enabled: true,
                    description: None,
                    created_at: 0,
                    updated_at: 0,
                    args: None,
                    execution_target: None,
                })
            } else {
                None
            },
        }),
        entity_name: "nightly".to_string(),
        timestamp_secs: 1700000000,
    }
}

#[test]
fn events_update_the_store_and_the_running_jobs() {
    assert!(matches!(store_change(cron_event(ChangeAction::Updated, Some(3), true)), Ok(StoreChange::UpsertCronScheduler(_))));
    assert!(matches!(store_change(cron_event(ChangeAction::Created, Some(3), false)), Ok(StoreChange::MissingData)));
    assert!(matches!(
        store_change(cron_event(ChangeAction::Deleted, Some(3), false)),
        Ok(StoreChange::RemoveCronScheduler(CronSchedulerId { value: 3 }))
    ));
    assert!(matches!(store_change(cron_event(ChangeAction::Deleted, None, false)), Ok(StoreChange::Unchanged)));
    let unknown = ConfigChangeEvent {
        action: ChangeAction::Created,
        entity: ConfigEntity::Unknown,
        entity_name: String::new(),
        timestamp_secs: 0,
    };
    assert_eq!(store_change(unknown).err(), Some("Unknown config change event type".to_string()));

    assert_eq!(scheduler_change(&cron_event(ChangeAction::Created, Some(3), true)), Ok(RunningChange::Restart(3)));
    assert_eq!(scheduler_change(&cron_event(ChangeAction::Deleted, Some(3), false)), Ok(RunningChange::Remove(3)));
    assert_eq!(scheduler_change(&cron_event(ChangeAction::Unspecified, Some(3), false)), Ok(RunningChange::Keep));
    assert!(scheduler_change(&cron_event(ChangeAction::Created, None, true)).is_err());
    assert_eq!(
        listener_change(&cron_event(ChangeAction::Created, Some(3), true)),
        Err("WorkerResultHandler event has no id or wrong type".to_string())
    );
    assert_eq!(snapshot_message(&cron_event(ChangeAction::Updated, Some(3), true)), "Config change: 2 nightly at 1700000000");
}

#[test]
fn only_enabled_configurations_with_ids_start() {
    let mut disabled = cron_event(ChangeAction::Created, Some(2), true);
    if let ConfigEntity::CronScheduler(c) = &mut disabled.entity {
        c.data.as_mut().unwrap().enabled = false;
    }
    let enabled = match cron_event(ChangeAction::Created, Some(1), true).entity {
        ConfigEntity::CronScheduler(c) => c,
        _ => unreachable!(),
    };
    let off = match disabled.entity {
        ConfigEntity::CronScheduler(c) => c,
        _ => unreachable!(),
    };
    let no_id = CronScheduler { id: None, data: enabled.data.clone() };
    let ids = initial_scheduler_ids(&vec![enabled, off, no_id]);
    assert_eq!(ids, vec![CronSchedulerId { value: 1 }]);
    let handlers = vec![WorkerResultHandler { id: Some(WorkerResultHandlerId { value: 5 }), data: None }];
    assert!(initial_handler_ids(&handlers).is_empty());
}
