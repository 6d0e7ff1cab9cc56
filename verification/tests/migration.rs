use jobworkerp_conductor::migration::{ids_to_delete, parse_group_ids, DuplicateIds, DuplicateReport};
use jobworkerp_conductor::errors::{is_duplicate_constraint_error, DbBackend, DbError};

#[test]
fn test_duplicate_report() {
    let mut report = DuplicateReport::new();
    assert!(!report.has_duplicates());
    assert_eq!(report.total_duplicates_cleaned(), 0);

    report.server_duplicates.insert("server1".to_string(), vec![1, 2, 3]);
    assert!(report.has_duplicates());
    assert_eq!(report.total_duplicates_cleaned(), 2);
}

#[test]
fn test_is_duplicate_constraint_error() {
    assert!(!is_duplicate_constraint_error(&DbError::RowNotFound));
    let dup = DbError::Database { backend: DbBackend::MySql, code: Some("1062".to_string()), message: String::new() };
    assert!(is_duplicate_constraint_error(&dup));
    let sqlite = DbError::Database {
        backend: DbBackend::Sqlite,
        code: Some("2067".to_string()),
        message: "UNIQUE constraint failed: jobworkerp_server.name".to_string(),
    };
    assert!(is_duplicate_constraint_error(&sqlite));
    let no_code = DbError::Database { backend: DbBackend::Sqlite, code: None, message: "already exists".to_string() };
    assert!(!is_duplicate_constraint_error(&no_code));
}

#[test]
fn report_counts_all_but_one_row_per_name_over_tables() {
    let mut report = DuplicateReport::new();
    report.server_duplicates.insert("a".to_string(), vec![4, 9]);
    report.scheduler_duplicates.insert("b".to_string(), vec![1, 2, 3, 4]);
    report.handler_duplicates.insert("c".to_string(), vec![7]);
    assert_eq!(report.total_duplicates_cleaned(), 1 + 3);
}

#[test]
fn insert_replaces_ids_of_a_known_name() {
    let mut d = DuplicateIds::new();
    assert!(d.insert("x".to_string(), vec![1, 2]).is_none());
    assert_eq!(d.insert("x".to_string(), vec![5, 6, 7]), Some(vec![1, 2]));
    assert_eq!(d.len(), 1);
    assert_eq!(d.get("x"), Some(&vec![5, 6, 7]));
    assert_eq!(d.get("y"), None);
}

#[test]
fn group_concat_ids_skip_unparseable_pieces() {
    assert_eq!(parse_group_ids("3,1,2"), vec![3, 1, 2]);
    assert_eq!(parse_group_ids("10,abc,,-4,+5"), vec![10, -4, 5]);
    assert_eq!(parse_group_ids("9223372036854775807,9223372036854775808"), vec![i64::MAX]);
    assert_eq!(parse_group_ids("-9223372036854775808"), vec![i64::MIN]);
    assert_eq!(parse_group_ids(""), Vec::<i64>::new());
}

#[test]
fn cleanup_keeps_the_highest_id() {
    assert_eq!(ids_to_delete(&vec![30, 10, 20]), vec![10, 20]);
    assert_eq!(ids_to_delete(&vec![5]), Vec::<i64>::new());
    assert_eq!(ids_to_delete(&vec![]), Vec::<i64>::new());
    assert_eq!(ids_to_delete(&vec![2, 2]), vec![2]);
}

#[test]
fn duplicates_from_group_by_rows() {
    let d = DuplicateIds::from_rows(vec![("n1".to_string(), "1,2".to_string()), ("n2".to_string(), "7,8,9".to_string())]);
    assert_eq!(d.len(), 2);
    assert_eq!(d.get("n2"), Some(&vec![7, 8, 9]));
    assert_eq!(d.total_excess(), 1 + 2);
}
