use jobworkerp_conductor::execution_ref_query::{
    count_list_query, delete_chunk_query, delete_chunks, execution_ref_insert, filter_from_request,
    find_list_by_source_query, find_list_query, ExecutionRefListFilter, FindExecutionListRequest, SqlValue,
    DELETE_CHUNK_SIZE,
};
use jobworkerp_conductor::model::{ExecutionRef, JobworkerpServerId};

#[test]
fn listing_filters_are_and_combined_and_paged() {
    let none = ExecutionRefListFilter::new();
    let q = find_list_query(&none, None, Some(5));
    assert_eq!(q.sql, "SELECT * FROM `execution_ref` ORDER BY `triggered_at` DESC, `id` DESC");
    assert!(q.binds.is_empty());

    let f = ExecutionRefListFilter { source_type: Some(1), jobworkerp_server_id: None, triggered_after: Some(10), triggered_before: Some(20) };
    let q = find_list_query(&f, Some(50), Some(100));
    assert_eq!(
        q.sql,
        "SELECT * FROM `execution_ref` WHERE `source_type` = ? AND `triggered_at` >= ? AND `triggered_at` <= ? ORDER BY `triggered_at` DESC, `id` DESC LIMIT ? OFFSET ?"
    );
    assert_eq!(q.binds, vec![SqlValue::Int(1), SqlValue::BigInt(10), SqlValue::BigInt(20), SqlValue::Int(50), SqlValue::BigInt(100)]);
    let c = count_list_query(&f);
    assert_eq!(c.sql, "SELECT COUNT(*) FROM `execution_ref` WHERE `source_type` = ? AND `triggered_at` >= ? AND `triggered_at` <= ?");
    assert_eq!(c.binds.len(), 3);

    let q = find_list_by_source_query(1, 8, Some(3), None);
    assert!(q.sql.ends_with("DESC LIMIT ?"));
    assert_eq!(q.binds, vec![SqlValue::Int(1), SqlValue::BigInt(8), SqlValue::Int(3)]);
}

#[test]
fn listing_request_drops_unspecified_source_type() {
    let req = FindExecutionListRequest {
        source_type: Some(0),
        jobworkerp_server_id: Some(JobworkerpServerId { value: 4 }),
        triggered_after: None,
        triggered_before: Some(9),
        limit: None,
        offset: None,
    };
    let f = filter_from_request(&req);
    assert_eq!(f.source_type, None);
    assert_eq!(f.jobworkerp_server_id, Some(4));
    assert_eq!(f.triggered_before, Some(9));
    assert_eq!(filter_from_request(&FindExecutionListRequest { source_type: Some(1), ..req }).source_type, Some(1));
    assert_eq!(filter_from_request(&FindExecutionListRequest { source_type: Some(77), ..req }).source_type, None);
}

#[test]
fn delete_by_ids_chunks_beyond_bind_limit() {
    let ids: Vec<i64> = (0..(DELETE_CHUNK_SIZE as i64 * 2 + 1)).collect();
    let chunks = delete_chunks(&ids);
    assert_eq!(chunks.iter().map(|c| c.len()).collect::<Vec<_>>(), vec![900, 900, 1]);
    assert_eq!(chunks.concat(), ids);
    assert!(delete_chunks(&[]).is_empty());
    let q = delete_chunk_query(&[4, 5, 6]);
    assert_eq!(q.sql, "DELETE FROM `execution_ref` WHERE `id` IN (?, ?, ?)");
    assert_eq!(q.binds, vec![SqlValue::BigInt(4), SqlValue::BigInt(5), SqlValue::BigInt(6)]);
}

#[test]
fn insert_defaults_times_and_needs_a_server() {
    let mut r = ExecutionRef {
        id: None,
        source_type: 1,
        source_id: 2,
        source_name: "n".to_string(),
        jobworkerp_server_id: None,
        job_id: None,
        triggered_at: 0,
        trigger_context_json: None,
        enqueue_error: None,
        created_at: 0,
        result_status: None,
    };
    assert!(execution_ref_insert(&r, 500).is_err());
    r.jobworkerp_server_id = Some(JobworkerpServerId { value: 3 });
    let v = execution_ref_insert(&r, 500).ok().unwrap();
    assert_eq!((v.created_at, v.triggered_at, v.jobworkerp_server_id), (500, 500, 3));
    r.created_at = 100;
    r.triggered_at = 90;
    let v = execution_ref_insert(&r, 500).ok().unwrap();
    assert_eq!((v.created_at, v.triggered_at), (100, 90));
}

#[test]
fn deleting_ids_chunk_by_chunk_removes_exactly_the_present_ids() {
    let mut table: std::collections::HashSet<i64> = (1..=905).collect();
    let ids: Vec<i64> = (1..=901).chain([2000, 2001]).collect();
    let mut deleted = 0;
    for chunk in delete_chunks(&ids) {
        deleted += chunk.iter().filter(|id| table.remove(id)).count();
    }
    assert_eq!(deleted, 901);
    let mut left: Vec<i64> = table.into_iter().collect();
    left.sort();
    assert_eq!(left, vec![902, 903, 904, 905]);
}
