use jobworkerp_conductor::model::ExecutionSourceType;
use jobworkerp_conductor::result_listener::{
    build_pending_execution_ref, combine_result_and_args, is_empty_output, json_quote, listener_run,
    trigger_context_json, ListenerRun,
};
use jobworkerp_conductor::settings::JobResultListenerSetting;
use serde_json::Value;

fn parse(s: &str) -> Value {
    serde_json::from_str(s).unwrap()
}

#[test]
fn build_pending_execution_ref_sets_source_and_context_only() {
    let ref_ = build_pending_execution_ref(Some(7), "handler", 3, r#"{"listen_job_result_id":1}"#.to_string(), 100);
    assert_eq!(ref_.source_type, ExecutionSourceType::WorkerResultHandler as i32);
    assert_eq!(ref_.source_id, 7);
    assert_eq!(ref_.source_name, "handler");
    assert_eq!(ref_.jobworkerp_server_id.map(|s| s.value), Some(3));
    assert_eq!(ref_.triggered_at, 100);
    assert_eq!(ref_.created_at, 100);
    assert_eq!(ref_.trigger_context_json.as_deref(), Some(r#"{"listen_job_result_id":1}"#));
    assert!(ref_.job_id.is_none());
    assert!(ref_.result_status.is_none());
    assert!(ref_.enqueue_error.is_none());
}

#[test]
fn build_pending_execution_ref_defaults_missing_handler_id() {
    let ref_ = build_pending_execution_ref(None, "handler", 3, "{}".to_string(), 100);
    assert_eq!(ref_.source_id, 0);
}

#[test]
fn test_combine_result_and_args_with_json_args() {
    let result = parse(r#"{"job_id": "12345", "status": "completed", "output": "処理完了"}"#);
    let args = Some(r#"{"retry_limit": 5, "timeout_seconds": 300}"#);
    let combined = combine_result_and_args(&result.to_string(), args);
    let parsed = parse(&combined);
    assert_eq!(parsed["result"], result);
    assert_eq!(parsed["args"]["retry_limit"], 5);
    assert_eq!(parsed["args"]["timeout_seconds"], 300);
}

#[test]
fn test_combine_result_and_args_with_string_args() {
    let result = parse(r#"{"status": "success"}"#);
    let combined = combine_result_and_args(&result.to_string(), Some("env=production,batch_size=100"));
    let parsed = parse(&combined);
    assert_eq!(parsed["result"], result);
    assert_eq!(parsed["args"], "env=production,batch_size=100");
}

#[test]
fn test_combine_result_and_args_with_no_args() {
    let result = parse(r#"{"job_id": "abc", "status": "failed"}"#);
    let combined = combine_result_and_args(&result.to_string(), None);
    let parsed = parse(&combined);
    assert_eq!(parsed["result"], result);
    assert!(parsed["args"].is_null());
    assert_eq!(parsed.as_object().unwrap().len(), 1);
}

#[test]
fn test_combine_result_and_args_with_empty_args() {
    let result = parse(r#"{"data": "test"}"#);
    let combined = combine_result_and_args(&result.to_string(), Some(""));
    let parsed = parse(&combined);
    assert_eq!(parsed["result"], result);
    assert!(parsed["args"].is_null());
    assert_eq!(parsed.as_object().unwrap().len(), 1);
}

#[test]
fn test_combine_result_and_args_with_invalid_json_args() {
    let result = parse(r#"{"test": true}"#);
    let combined = combine_result_and_args(&result.to_string(), Some("{invalid json"));
    let parsed = parse(&combined);
    assert_eq!(parsed["result"], result);
    assert_eq!(parsed["args"], "{invalid json");
}

#[test]
fn combined_input_matches_serde_json_output() {
    let result = parse(r#"{"b":1,"a":[true,null]}"#);
    let mut object = serde_json::Map::new();
    object.insert("result".to_string(), result.clone());
    object.insert("args".to_string(), parse(r#"{"x":1}"#));
    let expected = Value::Object(object).to_string();
    assert_eq!(combine_result_and_args(&result.to_string(), Some(" { \"x\" : 1 } ")), expected);
}

#[test]
fn json_quote_escapes_as_serde_json_does() {
    for s in ["plain", "quote\"back\\slash", "ctl\u{1}\u{8}\t\n\u{c}\r\u{1f}", "ünïcödé ✓", ""] {
        assert_eq!(json_quote(s), Value::String(s.to_string()).to_string());
    }
}

#[test]
fn trigger_context_lists_both_ids() {
    assert_eq!(trigger_context_json(5, Some(9)), r#"{"listen_job_id":9,"listen_job_result_id":5}"#);
    assert_eq!(trigger_context_json(-5, None), r#"{"listen_job_id":null,"listen_job_result_id":-5}"#);
}

#[test]
fn empty_string_output_is_skipped() {
    assert!(is_empty_output(&Value::String(String::new()).to_string()));
    assert!(!is_empty_output("\"x\""));
    assert!(!is_empty_output("{}"));
}

fn setting(worker_name: Option<&str>) -> JobResultListenerSetting {
    JobResultListenerSetting {
        handler_id: Some(1),
        name: "l".to_string(),
        listen_jobworkerp: "http://a:1".to_string(),
        listen_worker_name: "src".to_string(),
        process_jobworkerp: "http://b:2".to_string(),
        workflow_url: "wf.yml".to_string(),
        channel: Some("c".to_string()),
        args: None,
        worker_name: worker_name.map(|s| s.to_string()),
        using: Some("run".to_string()),
        process_jobworkerp_server_id: Some(2),
    }
}

#[test]
fn listener_runs_worker_only_with_a_worker_name() {
    match listener_run(&setting(Some("w"))) {
        ListenerRun::Worker { worker_name, using } => {
            assert_eq!(worker_name, "w");
            assert_eq!(using.as_deref(), Some("run"));
        }
        _ => panic!("expected worker"),
    }
    assert!(matches!(listener_run(&setting(Some(""))), ListenerRun::Workflow { .. }));
    assert!(matches!(listener_run(&setting(None)), ListenerRun::Workflow { .. }));
}
