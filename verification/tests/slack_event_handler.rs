use jobworkerp_conductor::model::SlackEventHandlerData;
use jobworkerp_conductor::rows::{reaction_operation_from_db, reaction_operation_to_db};
use jobworkerp_conductor::slack_event_handler::{
    validate_event_type_consistency, validate_handler_data, validate_reaction_names, validate_regex_pattern,
    validate_workflow_url,
};

fn data() -> SlackEventHandlerData {
    SlackEventHandlerData {
        name: "test_handler".to_string(),
        description: String::new(),
        enabled: false,
        slack_channel_id: None,
        message_pattern: None,
        mention_required: false,
        reaction_names: None,
        reaction_operation: 0,
        reaction_user_filter: None,
        jobworkerp_server_id: None,
        workflow_url: String::new(),
        channel: String::new(),
        timeout_sec: None,
        args: None,
        created_at: 0,
        updated_at: 0,
        execution_target: None,
    }
}

#[test]
fn test_validate_event_type_consistency_valid_message_only() {
    let d = SlackEventHandlerData { message_pattern: Some("test".to_string()), ..data() };
    assert!(validate_event_type_consistency(&d).is_ok());
}

#[test]
fn test_validate_event_type_consistency_valid_mention_only() {
    let d = SlackEventHandlerData { mention_required: true, ..data() };
    assert!(validate_event_type_consistency(&d).is_ok());
}

#[test]
fn test_validate_event_type_consistency_valid_reaction_only() {
    let d = SlackEventHandlerData { reaction_names: Some("thumbsup".to_string()), ..data() };
    assert!(validate_event_type_consistency(&d).is_ok());
}

#[test]
fn test_validate_event_type_consistency_invalid_mixed() {
    let d = SlackEventHandlerData {
        message_pattern: Some("test".to_string()),
        reaction_names: Some("thumbsup".to_string()),
        ..data()
    };
    let result = validate_event_type_consistency(&d);
    assert!(result.is_err());
    assert!(result.unwrap_err().contains("mutually exclusive"));
}

#[test]
fn test_validate_event_type_consistency_invalid_no_conditions() {
    let result = validate_event_type_consistency(&data());
    assert!(result.is_err());
    assert!(result.unwrap_err().contains("At least one"));
}

#[test]
fn test_validate_regex_pattern_valid() {
    assert!(validate_regex_pattern("^test.*").is_ok());
}

#[test]
fn test_validate_regex_pattern_too_long() {
    let long_pattern = "a".repeat(501);
    let result = validate_regex_pattern(&long_pattern);
    assert!(result.is_err());
    assert!(result.unwrap_err().contains("too long"));
}

#[test]
fn test_validate_regex_pattern_invalid() {
    assert!(validate_regex_pattern("[invalid").is_err());
}

#[test]
fn test_validate_reaction_names_valid() {
    assert!(validate_reaction_names("thumbsup,heart,rocket").is_ok());
}

#[test]
fn test_validate_reaction_names_too_many() {
    let names = (0..51).map(|i| format!("reaction{}", i)).collect::<Vec<_>>().join(",");
    let result = validate_reaction_names(&names);
    assert!(result.is_err());
    assert!(result.unwrap_err().contains("max 50"));
}

#[test]
fn test_validate_reaction_names_too_long() {
    let long_name = "a".repeat(101);
    let result = validate_reaction_names(&long_name);
    assert!(result.is_err());
    assert!(result.unwrap_err().contains("max 100 chars"));
}

#[test]
fn test_validate_reaction_names_invalid_chars() {
    let result = validate_reaction_names("invalid@name");
    assert!(result.is_err());
    assert!(result.unwrap_err().contains("alphanumeric"));
}

#[test]
fn test_validate_workflow_url_valid_http() {
    assert!(validate_workflow_url("http://example.com/workflow.yaml").is_ok());
}

#[test]
fn test_validate_workflow_url_valid_https() {
    assert!(validate_workflow_url("https://example.com/workflow.yaml").is_ok());
}

#[test]
fn test_validate_workflow_url_valid_file() {
    assert!(validate_workflow_url("file:///path/to/workflow.yaml").is_ok());
}

#[test]
fn test_validate_workflow_url_invalid_scheme() {
    let result = validate_workflow_url("ftp://example.com/workflow.yaml");
    assert!(result.is_err());
    assert!(result.unwrap_err().contains("Invalid URL scheme"));
}

#[test]
fn test_validate_workflow_url_path_traversal() {
    let result = validate_workflow_url("file:///../../../etc/passwd");
    assert!(result.is_err());
    assert!(result.unwrap_err().contains("Path traversal"));
}

#[test]
fn test_validate_workflow_url_too_long() {
    let long_url = format!("http://example.com/{}", "a".repeat(2040));
    let result = validate_workflow_url(&long_url);
    assert!(result.is_err());
    assert!(result.unwrap_err().contains("too long"));
}

#[test]
fn handler_data_checks_target_and_conditions() {
    let ok = SlackEventHandlerData {
        mention_required: true,
        workflow_url: "https://example.com/wf.yml".to_string(),
        ..data()
    };
    assert!(validate_handler_data(&ok).is_ok());
    let no_target = SlackEventHandlerData { mention_required: true, ..data() };
    assert!(validate_handler_data(&no_target).is_err());
}

#[test]
fn reaction_operation_text_roundtrip() {
    for op in [1, 2, 3] {
        let text = reaction_operation_to_db(op);
        assert_eq!(reaction_operation_from_db(text.as_ref()), op);
    }
    assert_eq!(reaction_operation_to_db(0), None);
    assert_eq!(reaction_operation_from_db(None), 0);
    assert_eq!(reaction_operation_from_db(Some(&"sideways".to_string())), 0);
}

#[test]
fn workflow_url_must_be_a_valid_url() {
    assert_eq!(validate_workflow_url("http://"), Err("Invalid URL format".to_string()));
    assert_eq!(validate_workflow_url("http://a b"), Err("Invalid URL format".to_string()));
    assert!(validate_workflow_url("https://example.com/a/b.yaml?x=1").is_ok());
}
