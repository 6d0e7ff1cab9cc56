//! The statements of the execution record table: the filtered, paged listing and its count,
//! the values of an insert, and the chunked deletion by ids.
use vstd::prelude::*;
use crate::errors::UiEventHandlerError;
use crate::model::{ExecutionRef, ExecutionSourceType, JobworkerpServerId};

verus! {

/// The largest number of ids bound in one `IN (...)` deletion.
pub const DELETE_CHUNK_SIZE: usize = 900;

/// A value bound to a `?` placeholder.
#[derive(Clone, Copy, Debug, PartialEq, Eq, Structural)]
pub enum SqlValue {
    Int(i32),
    BigInt(i64),
}

/// A statement with `?` placeholders and the values bound to them, in order.
#[derive(Clone, Debug)]
pub struct SqlQuery {
    pub sql: String,
    pub binds: Vec<SqlValue>,
}

/// Filter of the listing across sources; every set field constrains its column, and the
/// constraints are combined with `AND`.
#[derive(Clone, Copy, Debug)]
pub struct ExecutionRefListFilter {
    pub source_type: Option<i32>,
    pub jobworkerp_server_id: Option<i64>,
    pub triggered_after: Option<i64>,
    pub triggered_before: Option<i64>,
}

/// The predicates of a filter, in the order source type, server, lower and upper trigger
/// bound: each the column test and the bound value.
pub open spec fn spec_predicates(f: ExecutionRefListFilter) -> Seq<(Seq<char>, SqlValue)> {
    let a: Seq<(Seq<char>, SqlValue)> = match f.source_type {
        Some(v) => seq![("`source_type` = ?"@, SqlValue::Int(v))],
        None => Seq::empty(),
    };
    let b: Seq<(Seq<char>, SqlValue)> = match f.jobworkerp_server_id {
        Some(v) => seq![("`jobworkerp_server_id` = ?"@, SqlValue::BigInt(v))],
        None => Seq::empty(),
    };
    let c: Seq<(Seq<char>, SqlValue)> = match f.triggered_after {
        Some(v) => seq![("`triggered_at` >= ?"@, SqlValue::BigInt(v))],
        None => Seq::empty(),
    };
    let d: Seq<(Seq<char>, SqlValue)> = match f.triggered_before {
        Some(v) => seq![("`triggered_at` <= ?"@, SqlValue::BigInt(v))],
        None => Seq::empty(),
    };
    a + b + c + d
}

/// The `WHERE` clause of predicates: ` WHERE ` before the first, ` AND ` before each other,
/// nothing without predicates.
pub open spec fn spec_where_text(p: Seq<(Seq<char>, SqlValue)>) -> Seq<char>
    decreases p.len(),
{
    if p.len() == 0 {
        Seq::empty()
    } else {
        spec_where_text(p.drop_last()) + (if p.len() == 1 { " WHERE "@ } else { " AND "@ }) + p.last().0
    }
}

/// The bound values of predicates, in order.
pub open spec fn spec_where_binds(p: Seq<(Seq<char>, SqlValue)>) -> Seq<SqlValue> {
    p.map_values(|x: (Seq<char>, SqlValue)| x.1)
}

impl ExecutionRefListFilter {
    /// No constraint at all.
    pub fn new() -> (r: ExecutionRefListFilter)
        ensures
            r.source_type is None && r.jobworkerp_server_id is None && r.triggered_after is None
                && r.triggered_before is None,
    {
        ExecutionRefListFilter { source_type: None, jobworkerp_server_id: None, triggered_after: None, triggered_before: None }
    }

    /// The predicates of this filter, in order.
    fn predicates(&self) -> (r: Vec<(String, SqlValue)>)
        ensures
            predicates_view(r@) == spec_predicates(*self),
    {
        let mut r: Vec<(String, SqlValue)> = Vec::new();
        let ghost f = *self;
        if let Some(v) = self.source_type {
            r.push((String::from_str("`source_type` = ?"), SqlValue::Int(v)));
        }
        let ghost a: Seq<(Seq<char>, SqlValue)> = match f.source_type {
            Some(v) => seq![("`source_type` = ?"@, SqlValue::Int(v))],
            None => Seq::empty(),
        };
        assert(predicates_view(r@) =~= a);
        if let Some(v) = self.jobworkerp_server_id {
            r.push((String::from_str("`jobworkerp_server_id` = ?"), SqlValue::BigInt(v)));
        }
        let ghost b: Seq<(Seq<char>, SqlValue)> = match f.jobworkerp_server_id {
            Some(v) => seq![("`jobworkerp_server_id` = ?"@, SqlValue::BigInt(v))],
            None => Seq::empty(),
        };
        assert(predicates_view(r@) =~= a + b);
        if let Some(v) = self.triggered_after {
            r.push((String::from_str("`triggered_at` >= ?"), SqlValue::BigInt(v)));
        }
        let ghost c: Seq<(Seq<char>, SqlValue)> = match f.triggered_after {
            Some(v) => seq![("`triggered_at` >= ?"@, SqlValue::BigInt(v))],
            None => Seq::empty(),
        };
        assert(predicates_view(r@) =~= a + b + c);
        if let Some(v) = self.triggered_before {
            r.push((String::from_str("`triggered_at` <= ?"), SqlValue::BigInt(v)));
        }
        let ghost d: Seq<(Seq<char>, SqlValue)> = match f.triggered_before {
            Some(v) => seq![("`triggered_at` <= ?"@, SqlValue::BigInt(v))],
            None => Seq::empty(),
        };
        assert(predicates_view(r@) =~= a + b + c + d);
        r
    }

    /// Appends the `WHERE` clause of this filter, and its bound values, to a statement.
    pub fn push_where(&self, query: &mut SqlQuery)
        ensures
            final(query).sql@ == old(query).sql@ + spec_where_text(spec_predicates(*self)),
            final(query).binds@ == old(query).binds@ + spec_where_binds(spec_predicates(*self)),
    {
        let preds = self.predicates();
        let ghost p = predicates_view(preds@);
        let ghost base_sql = query.sql@;
        let ghost base_binds = query.binds@;
        let mut i: usize = 0;
        while i < preds.len()
            invariant
                p == predicates_view(preds@),
                i <= preds@.len(),
                query.sql@ == base_sql + spec_where_text(p.take(i as int)),
                query.binds@ == base_binds + spec_where_binds(p.take(i as int)),
            decreases preds@.len() - i,
        {
            proof {
                assert(p.take(i + 1).drop_last() =~= p.take(i as int));
                assert(p.take(i + 1).last() == p[i as int]);
            }
            let sep = if i == 0 { " WHERE " } else { " AND " };
            let sql = query.sql.clone().concat(sep).concat(preds[i].0.as_str());
            query.sql = sql;
            query.binds.push(preds[i].1);
            assert(query.sql@ =~= base_sql + spec_where_text(p.take(i + 1)));
            assert(query.binds@ =~= base_binds + spec_where_binds(p.take(i + 1)));
            i = i + 1;
        }
        assert(p.take(preds@.len() as int) =~= p);
    }
}

/// The predicates of a built list, by view.
pub open spec fn predicates_view(v: Seq<(String, SqlValue)>) -> Seq<(Seq<char>, SqlValue)> {
    v.map_values(|x: (String, SqlValue)| (x.0@, x.1))
}

/// The ordering of every listing: newest trigger first, then highest id.
pub open spec fn spec_order_by() -> Seq<char> {
    " ORDER BY `triggered_at` DESC, `id` DESC"@
}

/// The paging of a listing: ` LIMIT ?` with a limit, followed by ` OFFSET ?` only when an
/// offset comes with it (an offset alone is ignored).
pub open spec fn spec_paging(limit: Option<i32>, offset: Option<i64>) -> (Seq<char>, Seq<SqlValue>) {
    match limit {
        Some(l) => match offset {
            Some(o) => (" LIMIT ?"@ + " OFFSET ?"@, seq![SqlValue::Int(l), SqlValue::BigInt(o)]),
            None => (" LIMIT ?"@, seq![SqlValue::Int(l)]),
        },
        None => (Seq::empty(), Seq::empty()),
    }
}

/// The listing across sources: the filtered rows, newest first, paged.
pub fn find_list_query(filter: &ExecutionRefListFilter, limit: Option<i32>, offset: Option<i64>) -> (r: SqlQuery)
    ensures
        r.sql@ == "SELECT * FROM `execution_ref`"@ + spec_where_text(spec_predicates(*filter)) + spec_order_by()
            + spec_paging(limit, offset).0,
        r.binds@ == spec_where_binds(spec_predicates(*filter)) + spec_paging(limit, offset).1,
{
    let mut q = SqlQuery { sql: String::from_str("SELECT * FROM `execution_ref`"), binds: Vec::new() };
    filter.push_where(&mut q);
    let ghost w = q.sql@;
    let ghost wb = q.binds@;
    q.sql = q.sql.clone().concat(" ORDER BY `triggered_at` DESC, `id` DESC");
    match limit {
        Some(l) => {
            q.sql = q.sql.clone().concat(" LIMIT ?");
            q.binds.push(SqlValue::Int(l));
            match offset {
                Some(o) => {
                    q.sql = q.sql.clone().concat(" OFFSET ?");
                    q.binds.push(SqlValue::BigInt(o));
                },
                None => {},
            }
        },
        None => {},
    }
    assert(q.sql@ =~= w + spec_order_by() + spec_paging(limit, offset).0);
    assert(q.binds@ =~= wb + spec_paging(limit, offset).1);
    q
}

/// The number of filtered rows (the same predicates as the listing).
pub fn count_list_query(filter: &ExecutionRefListFilter) -> (r: SqlQuery)
    ensures
        r.sql@ == "SELECT COUNT(*) FROM `execution_ref`"@ + spec_where_text(spec_predicates(*filter)),
        r.binds@ == spec_where_binds(spec_predicates(*filter)),
{
    let mut q = SqlQuery { sql: String::from_str("SELECT COUNT(*) FROM `execution_ref`"), binds: Vec::new() };
    filter.push_where(&mut q);
    assert(q.binds@ =~= spec_where_binds(spec_predicates(*filter)));
    q
}

/// The listing of one source: its rows, newest first; paged only when a limit is given (an
/// offset alone is ignored).
pub fn find_list_by_source_query(source_type: i32, source_id: i64, limit: Option<i32>, offset: Option<i64>) -> (r: SqlQuery)
    ensures
        r.sql@ == "SELECT * FROM `execution_ref` WHERE `source_type` = ? AND `source_id` = ?"@ + spec_order_by()
            + spec_paging(limit, offset).0,
        r.binds@ == seq![SqlValue::Int(source_type), SqlValue::BigInt(source_id)] + spec_paging(limit, offset).1,
{
    let filter_sql = String::from_str("SELECT * FROM `execution_ref` WHERE `source_type` = ? AND `source_id` = ?");
    let mut binds: Vec<SqlValue> = Vec::new();
    binds.push(SqlValue::Int(source_type));
    binds.push(SqlValue::BigInt(source_id));
    let mut sql = filter_sql.concat(" ORDER BY `triggered_at` DESC, `id` DESC");
    let ghost base = sql@;
    let ghost bb = binds@;
    match limit {
        Some(l) => {
            sql = sql.concat(" LIMIT ?");
            binds.push(SqlValue::Int(l));
            match offset {
                Some(o) => {
                    sql = sql.concat(" OFFSET ?");
                    binds.push(SqlValue::BigInt(o));
                },
                None => {},
            }
        },
        None => {},
    }
    assert(sql@ =~= base + spec_paging(limit, offset).0);
    assert(binds@ =~= bb + spec_paging(limit, offset).1);
    SqlQuery { sql, binds }
}

/// The values an insert of an execution record writes (besides the generated id).
#[derive(Clone, Debug)]
pub struct ExecutionRefInsert {
    pub source_type: i32,
    pub source_id: i64,
    pub source_name: String,
    pub jobworkerp_server_id: i64,
    pub job_id: Option<i64>,
    pub triggered_at: i64,
    pub trigger_context_json: Option<String>,
    pub enqueue_error: Option<String>,
    pub created_at: i64,
    pub result_status: Option<i32>,
}

/// The values an insert writes: a server is required; an unset (non-positive) creation time
/// becomes the current time, and an unset trigger time the creation time.
pub fn execution_ref_insert(r: &ExecutionRef, now: i64) -> (out: Result<ExecutionRefInsert, UiEventHandlerError>)
    ensures
        match r.jobworkerp_server_id {
            None => out matches Err(UiEventHandlerError::RuntimeError(m)) && m@ == "jobworkerp_server_id is required"@,
            Some(sid) => out matches Ok(v) && {
                let created = if r.created_at > 0 { r.created_at } else { now };
                &&& v.jobworkerp_server_id == sid.value
                &&& v.created_at == created
                &&& v.triggered_at == (if r.triggered_at > 0 { r.triggered_at } else { created })
                &&& v.source_type == r.source_type
                &&& v.source_id == r.source_id
                &&& v.source_name@ == r.source_name@
                &&& v.job_id == r.job_id
                &&& crate::text::opt_view(v.trigger_context_json) == crate::text::opt_view(r.trigger_context_json)
                &&& crate::text::opt_view(v.enqueue_error) == crate::text::opt_view(r.enqueue_error)
                &&& v.result_status == r.result_status
            },
        },
{
    let sid = match r.jobworkerp_server_id {
        Some(s) => s.value,
        None => {
            return Err(UiEventHandlerError::RuntimeError(String::from_str("jobworkerp_server_id is required")));
        },
    };
    let created = if r.created_at > 0 { r.created_at } else { now };
    let triggered = if r.triggered_at > 0 { r.triggered_at } else { created };
    Ok(ExecutionRefInsert {
        source_type: r.source_type,
        source_id: r.source_id,
        source_name: r.source_name.clone(),
        jobworkerp_server_id: sid,
        job_id: r.job_id,
        triggered_at: triggered,
        trigger_context_json: crate::text::clone_opt_string(&r.trigger_context_json),
        enqueue_error: crate::text::clone_opt_string(&r.enqueue_error),
        created_at: created,
        result_status: r.result_status,
    })
}

/// The ids split into consecutive chunks of `DELETE_CHUNK_SIZE` (the last one possibly
/// shorter); no chunk for no ids.
pub open spec fn spec_chunks(ids: Seq<i64>) -> Seq<Seq<i64>>
    decreases ids.len(),
{
    if ids.len() == 0 {
        Seq::empty()
    } else if ids.len() <= DELETE_CHUNK_SIZE {
        seq![ids]
    } else {
        seq![ids.take(DELETE_CHUNK_SIZE as int)] + spec_chunks(ids.skip(DELETE_CHUNK_SIZE as int))
    }
}

/// The deletion of one chunk of ids: `DELETE ... WHERE id IN (?, ?, ...)` with one placeholder
/// per id.
pub open spec fn spec_delete_sql(n: nat) -> Seq<char>
    decreases n,
{
    if n == 0 {
        "DELETE FROM `execution_ref` WHERE `id` IN ()"@
    } else {
        "DELETE FROM `execution_ref` WHERE `id` IN (?"@ + spec_more_placeholders((n - 1) as nat) + ")"@
    }
}

/// `, ?` repeated `n` times.
pub open spec fn spec_more_placeholders(n: nat) -> Seq<char>
    decreases n,
{
    if n == 0 { Seq::empty() } else { spec_more_placeholders((n - 1) as nat) + ", ?"@ }
}

/// The deletion statement of one chunk of ids.
pub fn delete_chunk_query(ids: &[i64]) -> (r: SqlQuery)
    requires
        ids@.len() > 0,
    ensures
        r.sql@ == spec_delete_sql(ids@.len()),
        r.binds@ == ids@.map_values(|id: i64| SqlValue::BigInt(id)),
{
    let mut tail = String::new();
    let mut binds: Vec<SqlValue> = Vec::new();
    binds.push(SqlValue::BigInt(ids[0]));
    let mut i: usize = 1;
    while i < ids.len()
        invariant
            1 <= i <= ids@.len(),
            tail@ == spec_more_placeholders((i - 1) as nat),
            binds@ == ids@.take(i as int).map_values(|id: i64| SqlValue::BigInt(id)),
        decreases ids@.len() - i,
    {
        tail = tail.concat(", ?");
        binds.push(SqlValue::BigInt(ids[i]));
        assert(binds@ =~= ids@.take(i + 1).map_values(|id: i64| SqlValue::BigInt(id)));
        i = i + 1;
    }
    assert(ids@.take(ids@.len() as int) =~= ids@);
    let sql = String::from_str("DELETE FROM `execution_ref` WHERE `id` IN (?").concat(tail.as_str()).concat(")");
    SqlQuery { sql, binds }
}

/// The ids split into the chunks that are deleted one statement each.
pub fn delete_chunks(ids: &[i64]) -> (r: Vec<Vec<i64>>)
    ensures
        r@.map_values(|c: Vec<i64>| c@) == spec_chunks(ids@),
{
    let mut out: Vec<Vec<i64>> = Vec::new();
    let mut start: usize = 0;
    let n = ids.len();
    assert(ids@.skip(0) =~= ids@);
    assert(out@.map_values(|c: Vec<i64>| c@) =~= Seq::<Seq<i64>>::empty());
    while start < n
        invariant
            n == ids@.len(),
            start <= n,
            out@.map_values(|c: Vec<i64>| c@) + spec_chunks(ids@.skip(start as int)) == spec_chunks(ids@),
        decreases n - start,
    {
        let end: usize = if n - start > DELETE_CHUNK_SIZE { start + DELETE_CHUNK_SIZE } else { n };
        let mut chunk: Vec<i64> = Vec::new();
        let mut k: usize = start;
        while k < end
            invariant
                start <= k <= end,
                end <= n,
                n == ids@.len(),
                chunk@ == ids@.subrange(start as int, k as int),
            decreases end - k,
        {
            chunk.push(ids[k]);
            assert(chunk@ =~= ids@.subrange(start as int, k + 1));
            k = k + 1;
        }
        proof {
            let rest = ids@.skip(start as int);
            if n - start > DELETE_CHUNK_SIZE {
                assert(rest.take(DELETE_CHUNK_SIZE as int) =~= chunk@);
                assert(rest.skip(DELETE_CHUNK_SIZE as int) =~= ids@.skip(end as int));
            } else {
                assert(rest =~= chunk@);
                assert(ids@.skip(end as int) =~= Seq::<i64>::empty());
            }
            assert(spec_chunks(rest) == seq![chunk@] + spec_chunks(ids@.skip(end as int)));
        }
        let ghost before = out@.map_values(|c: Vec<i64>| c@);
        out.push(chunk);
        assert(out@.map_values(|c: Vec<i64>| c@) =~= before.push(chunk@));
        assert(before.push(chunk@) + spec_chunks(ids@.skip(end as int)) =~= before + (seq![chunk@] + spec_chunks(ids@.skip(end as int))));
        start = end;
    }
    assert(ids@.skip(n as int) =~= Seq::<i64>::empty());
    assert(out@.map_values(|c: Vec<i64>| c@) + Seq::<Seq<i64>>::empty() =~= out@.map_values(|c: Vec<i64>| c@));
    out
}

/// A listing request of the status API.
#[derive(Clone, Copy, Debug)]
pub struct FindExecutionListRequest {
    pub source_type: Option<i32>,
    pub jobworkerp_server_id: Option<JobworkerpServerId>,
    pub triggered_after: Option<i64>,
    pub triggered_before: Option<i64>,
    pub limit: Option<i32>,
    pub offset: Option<i64>,
}

/// The filter of a listing request: a source type is kept only when it denotes a real source
/// (unspecified or unknown numbers mean no constraint); the server id is flattened.
pub fn filter_from_request(req: &FindExecutionListRequest) -> (r: ExecutionRefListFilter)
    ensures
        r.source_type == (match req.source_type {
            Some(st) => match ExecutionSourceType::spec_from_i32(st) {
                Some(t) => if t != ExecutionSourceType::Unspecified { Some(st) } else { None },
                None => None,
            },
            None => None,
        }),
        r.jobworkerp_server_id == (match req.jobworkerp_server_id { Some(s) => Some(s.value), None => None }),
        r.triggered_after == req.triggered_after,
        r.triggered_before == req.triggered_before,
{
    let source_type = match req.source_type {
        Some(st) => match ExecutionSourceType::from_i32(st) {
            Some(t) => if t != ExecutionSourceType::Unspecified { Some(st) } else { None },
            None => None,
        },
        None => None,
    };
    ExecutionRefListFilter {
        source_type,
        jobworkerp_server_id: match req.jobworkerp_server_id {
            Some(s) => Some(s.value),
            None => None,
        },
        triggered_after: req.triggered_after,
        triggered_before: req.triggered_before,
    }
}

} // verus!
