//! Laws on what single operations give for every input: the status a probe resolves to, the
//! rows a listing filter admits, the running change of a configuration event, the reaction
//! name lists that are accepted, and what a settings entry hands to the runnable settings.
//! Wire numbers are written out: resolved status Pending 1, Running 2, WaitResult 3,
//! Cancelling 4, Succeeded 5, Failed 6, Cancelled 7, Unknown 9, Unavailable 10; status source
//! JobProcessingStatus 1, JobResult 2, Unavailable 4; job result status Success 0,
//! ErrorAndRetry 1, FatalError 2, Abort 3, MaxRetry 4, OtherError 5, Cancelled 6.
use vstd::prelude::*;
use crate::execution_status::{spec_is_terminal_i32, spec_resolve_status, StatusProbe};
use crate::execution_ref_query::{spec_order_by, spec_paging, spec_predicates, spec_where_binds, spec_where_text, ExecutionRefListFilter, SqlValue};
use crate::model::ChangeAction;
use crate::server_manager::{spec_running_change, RunningChange};
use crate::settings::{
    spec_last_server, spec_listener_setting, spec_scheduler_setting, JobResultListenerSetting, JobWorkerpSetting, SchedulerSetting,
    WorkflowSettingItem,
};
use crate::text::{byte_len, opt_view, spec_is_whitespace, spec_split, spec_trim, spec_trim_end, spec_trim_start};
use crate::slack_event_handler::{
    spec_first_reaction_error, spec_reaction_name_error, spec_reaction_names_error, spec_reaction_pieces,
    unicode_alphanumeric,
};

verus! {

/// A job with a stored result resolves by that result alone, observed in the job result: a
/// success (or a status number the protocol does not know, which decodes as its default,
/// success) to Succeeded, a cancellation to Cancelled, and every failure kind (retrying,
/// fatal, aborted, retries exhausted, other) or a result without data to Failed. Succeeded
/// comes from a stored result only for a success.
pub proof fn law_stored_result_resolution(
    job_id: i64,
    enqueue_error: Option<Seq<char>>,
    result_status: Option<i32>,
    data_status: Option<i32>,
)
    ensures
        ({
            let (s, source, detail) = spec_resolve_status(Some(job_id), enqueue_error, result_status, StatusProbe::StoredResult(data_status));
            &&& source == 2 && detail is None
            &&& (s == 5) <==> (data_status matches Some(v) && (v == 0 || v < 0 || v > 6))
            &&& (s == 7) <==> data_status == Some(6i32)
            &&& (data_status matches Some(v) && 1 <= v <= 5) ==> s == 6
            &&& data_status is None ==> s == 6
            &&& s == 5 || s == 6 || s == 7
        }),
{
}

/// A job with a live processing status resolves to that status, observed in the processing
/// status: pending, running, waiting for its result, cancelling; any other number is Unknown.
pub proof fn law_processing_resolution(job_id: i64, enqueue_error: Option<Seq<char>>, result_status: Option<i32>, p: i32)
    ensures
        ({
            let (s, source, detail) = spec_resolve_status(Some(job_id), enqueue_error, result_status, StatusProbe::Processing(p));
            &&& source == 1 && detail is None
            &&& 1 <= p <= 4 ==> s == p
            &&& !(1 <= p <= 4) ==> s == 9
        }),
{
}

/// A job whose server cannot be asked resolves to Unavailable, with the error as detail.
pub proof fn law_unavailable_resolution(job_id: i64, enqueue_error: Option<Seq<char>>, result_status: Option<i32>, e: String)
    ensures
        spec_resolve_status(Some(job_id), enqueue_error, result_status, StatusProbe::Unavailable(e)) == (10i32, 4i32, Some(e@)),
{
}

/// A record without a job id resolves from the record alone: whatever jobworkerp answered
/// does not change the result.
pub proof fn law_jobidless_ignores_probe(
    enqueue_error: Option<Seq<char>>,
    result_status: Option<i32>,
    p1: StatusProbe,
    p2: StatusProbe,
)
    ensures
        spec_resolve_status(None, enqueue_error, result_status, p1) == spec_resolve_status(None, enqueue_error, result_status, p2),
{
}

/// A configuration event changes what runs by its action: a creation and an update both stop
/// the running one (if any) and start the configuration anew from the store, a deletion only
/// stops it, and an unspecified action leaves it running.
pub proof fn law_running_change(id: i64)
    ensures
        spec_running_change(ChangeAction::Updated, id) == spec_running_change(ChangeAction::Created, id),
        spec_running_change(ChangeAction::Created, id) == RunningChange::Restart(id),
        spec_running_change(ChangeAction::Deleted, id) == RunningChange::Remove(id),
        spec_running_change(ChangeAction::Unspecified, id) == RunningChange::Keep,
        forall|a: ChangeAction| #[trigger] spec_running_change(a, id) is Keep <==> a == ChangeAction::Unspecified,
{
}

/// A scheduler built from a settings entry runs what the entry says: its name, workflow,
/// channel, crontab, arguments, worker and `using` are the entry's, unchanged, and its server
/// is the address of the last server of the file with the name the entry gives.
pub proof fn law_scheduler_setting_carries_entry(s: SchedulerSetting, item: WorkflowSettingItem, servers: Seq<JobWorkerpSetting>)
    requires
        spec_scheduler_setting(s, item, servers),
    ensures
        s.name@ == item.name@,
        s.workflow_url@ == item.workflow_url@,
        opt_view(s.channel) == opt_view(item.channel),
        item.crontab is Some && s.crontab@ == item.crontab->Some_0@,
        opt_view(s.args) == opt_view(item.args),
        opt_view(s.worker_name) == opt_view(item.worker_name),
        opt_view(s.using) == opt_view(item.using),
        item.args matches Some(a) ==> s.args matches Some(b) && b@ == a@,
        item.args is None ==> s.args is None,
        exists|i: int| 0 <= i < servers.len() && (#[trigger] servers[i]).name@ == item.jobworkerp@
            && s.jobworkerp@ == servers[i].address@
            && forall|j: int| i < j < servers.len() ==> (#[trigger] servers[j]).name@ != item.jobworkerp@,
{
    lemma_last_server_is_last(servers, item.jobworkerp@, servers.len());
    let i = spec_last_server(servers, item.jobworkerp@, servers.len())->Some_0;
    assert(servers[i].name@ == item.jobworkerp@);
}

/// A result listener built from a settings entry runs what the entry says: its name, listened
/// worker, workflow, channel, arguments, worker and `using` are the entry's, unchanged, and
/// its processing and listened servers are the addresses of the last servers of the file with
/// the names the entry gives.
pub proof fn law_listener_setting_carries_entry(s: JobResultListenerSetting, item: WorkflowSettingItem, servers: Seq<JobWorkerpSetting>)
    requires
        spec_listener_setting(s, item, servers),
    ensures
        s.name@ == item.name@,
        item.listen_worker_name is Some && s.listen_worker_name@ == item.listen_worker_name->Some_0@,
        s.workflow_url@ == item.workflow_url@,
        opt_view(s.channel) == opt_view(item.channel),
        opt_view(s.args) == opt_view(item.args),
        opt_view(s.worker_name) == opt_view(item.worker_name),
        opt_view(s.using) == opt_view(item.using),
        exists|i: int| 0 <= i < servers.len() && (#[trigger] servers[i]).name@ == item.jobworkerp@
            && s.process_jobworkerp@ == servers[i].address@
            && forall|j: int| i < j < servers.len() ==> (#[trigger] servers[j]).name@ != item.jobworkerp@,
        item.listen_jobworkerp is Some,
        exists|i: int| 0 <= i < servers.len() && (#[trigger] servers[i]).name@ == item.listen_jobworkerp->Some_0@
            && s.listen_jobworkerp@ == servers[i].address@
            && forall|j: int| i < j < servers.len() ==> (#[trigger] servers[j]).name@ != item.listen_jobworkerp->Some_0@,
{
    lemma_last_server_is_last(servers, item.jobworkerp@, servers.len());
    let i = spec_last_server(servers, item.jobworkerp@, servers.len())->Some_0;
    assert(servers[i].name@ == item.jobworkerp@);
    let l = item.listen_jobworkerp->Some_0@;
    lemma_last_server_is_last(servers, l, servers.len());
    let k = spec_last_server(servers, l, servers.len())->Some_0;
    assert(servers[k].name@ == l);
}

/// Whether a row holds a listing predicate, read as SQL: the column named in the test compared
/// with the bound value. A test of any other form holds of no row.
pub open spec fn spec_row_holds(p: (Seq<char>, SqlValue), source_type: i32, server_id: i64, triggered_at: i64) -> bool {
    if p.0 == "`source_type` = ?"@ {
        p.1 == SqlValue::Int(source_type)
    } else if p.0 == "`jobworkerp_server_id` = ?"@ {
        p.1 == SqlValue::BigInt(server_id)
    } else if p.0 == "`triggered_at` >= ?"@ {
        p.1 matches SqlValue::BigInt(v) && triggered_at >= v
    } else if p.0 == "`triggered_at` <= ?"@ {
        p.1 matches SqlValue::BigInt(v) && triggered_at <= v
    } else {
        false
    }
}

/// The rows a listing filter admits: a row holds every predicate of the filter exactly when
/// each set field of the filter constrains its own column (source type, jobworkerp server,
/// lower and upper trigger time); an unset field constrains nothing, and each set field gives
/// one predicate.
pub proof fn law_listing_filter_rows(f: ExecutionRefListFilter, source_type: i32, server_id: i64, triggered_at: i64)
    ensures
        (forall|i: int| 0 <= i < spec_predicates(f).len() ==> #[trigger] spec_row_holds(spec_predicates(f)[i], source_type, server_id, triggered_at))
            <==> {
            &&& f.source_type matches Some(v) ==> source_type == v
            &&& f.jobworkerp_server_id matches Some(v) ==> server_id == v
            &&& f.triggered_after matches Some(v) ==> triggered_at >= v
            &&& f.triggered_before matches Some(v) ==> triggered_at <= v
        },
        spec_predicates(f).len() == (if f.source_type is Some { 1int } else { 0 }) + (if f.jobworkerp_server_id is Some { 1int } else { 0 })
            + (if f.triggered_after is Some { 1int } else { 0 }) + (if f.triggered_before is Some { 1int } else { 0 }),
{
    reveal_strlit("`source_type` = ?");
    reveal_strlit("`jobworkerp_server_id` = ?");
    reveal_strlit("`triggered_at` >= ?");
    reveal_strlit("`triggered_at` <= ?");
    let t1 = "`source_type` = ?"@;
    let t2 = "`jobworkerp_server_id` = ?"@;
    let t3 = "`triggered_at` >= ?"@;
    let t4 = "`triggered_at` <= ?"@;
    assert(t1 != t2 && t1 != t3 && t1 != t4) by {
        assert(t1.len() != t2.len());
        assert(t1[1] != t3[1]);
        assert(t1[1] != t4[1]);
    }
    assert(t2 != t3 && t2 != t4) by {
        assert(t2.len() != t3.len());
        assert(t2.len() != t4.len());
    }
    assert(t3 != t4) by {
        assert(t3[15] != t4[15]);
    }
    let a: Seq<(Seq<char>, SqlValue)> = match f.source_type {
        Some(v) => seq![(t1, SqlValue::Int(v))],
        None => Seq::empty(),
    };
    let b: Seq<(Seq<char>, SqlValue)> = match f.jobworkerp_server_id {
        Some(v) => seq![(t2, SqlValue::BigInt(v))],
        None => Seq::empty(),
    };
    let c: Seq<(Seq<char>, SqlValue)> = match f.triggered_after {
        Some(v) => seq![(t3, SqlValue::BigInt(v))],
        None => Seq::empty(),
    };
    let d: Seq<(Seq<char>, SqlValue)> = match f.triggered_before {
        Some(v) => seq![(t4, SqlValue::BigInt(v))],
        None => Seq::empty(),
    };
    let ps = spec_predicates(f);
    assert(ps == a + b + c + d);
    let all = forall|i: int| 0 <= i < ps.len() ==> #[trigger] spec_row_holds(ps[i], source_type, server_id, triggered_at);
    let ha = forall|i: int| 0 <= i < a.len() ==> #[trigger] spec_row_holds(a[i], source_type, server_id, triggered_at);
    let hb = forall|i: int| 0 <= i < b.len() ==> #[trigger] spec_row_holds(b[i], source_type, server_id, triggered_at);
    let hc = forall|i: int| 0 <= i < c.len() ==> #[trigger] spec_row_holds(c[i], source_type, server_id, triggered_at);
    let hd = forall|i: int| 0 <= i < d.len() ==> #[trigger] spec_row_holds(d[i], source_type, server_id, triggered_at);
    assert(all <==> (ha && hb && hc && hd)) by {
        let ab = a + b;
        let abc = ab + c;
        if all {
            assert forall|i: int| 0 <= i < a.len() implies #[trigger] spec_row_holds(a[i], source_type, server_id, triggered_at) by {
                assert(ps[i] == a[i]);
            }
            assert forall|i: int| 0 <= i < b.len() implies #[trigger] spec_row_holds(b[i], source_type, server_id, triggered_at) by {
                assert(ps[a.len() + i] == b[i]);
            }
            assert forall|i: int| 0 <= i < c.len() implies #[trigger] spec_row_holds(c[i], source_type, server_id, triggered_at) by {
                assert(ps[a.len() + b.len() + i] == c[i]);
            }
            assert forall|i: int| 0 <= i < d.len() implies #[trigger] spec_row_holds(d[i], source_type, server_id, triggered_at) by {
                assert(ps[a.len() + b.len() + c.len() + i] == d[i]);
            }
        }
        if ha && hb && hc && hd {
            assert forall|i: int| 0 <= i < ps.len() implies #[trigger] spec_row_holds(ps[i], source_type, server_id, triggered_at) by {
                if i < a.len() {
                    assert(ps[i] == a[i]);
                } else if i < a.len() + b.len() {
                    assert(ps[i] == b[i - a.len()]);
                } else if i < a.len() + b.len() + c.len() {
                    assert(ps[i] == c[i - a.len() - b.len()]);
                } else {
                    assert(ps[i] == d[i - a.len() - b.len() - c.len()]);
                }
            }
        }
    }
    assert(ha <==> (f.source_type matches Some(v) ==> source_type == v)) by {
        if f.source_type is Some {
            assert(a[0] == (t1, SqlValue::Int(f.source_type->Some_0)));
            assert(ha ==> spec_row_holds(a[0], source_type, server_id, triggered_at));
            if !ha {
                let i = choose|i: int| !(0 <= i < a.len() ==> #[trigger] spec_row_holds(a[i], source_type, server_id, triggered_at));
                assert(i == 0);
            }
        }
    }
    assert(hb <==> (f.jobworkerp_server_id matches Some(v) ==> server_id == v)) by {
        if f.jobworkerp_server_id is Some {
            assert(b[0] == (t2, SqlValue::BigInt(f.jobworkerp_server_id->Some_0)));
            assert(hb ==> spec_row_holds(b[0], source_type, server_id, triggered_at));
            if !hb {
                let i = choose|i: int| !(0 <= i < b.len() ==> #[trigger] spec_row_holds(b[i], source_type, server_id, triggered_at));
                assert(i == 0);
            }
        }
    }
    assert(hc <==> (f.triggered_after matches Some(v) ==> triggered_at >= v)) by {
        if f.triggered_after is Some {
            assert(c[0] == (t3, SqlValue::BigInt(f.triggered_after->Some_0)));
            assert(hc ==> spec_row_holds(c[0], source_type, server_id, triggered_at));
            if !hc {
                let i = choose|i: int| !(0 <= i < c.len() ==> #[trigger] spec_row_holds(c[i], source_type, server_id, triggered_at));
                assert(i == 0);
            }
        }
    }
    assert(hd <==> (f.triggered_before matches Some(v) ==> triggered_at <= v)) by {
        if f.triggered_before is Some {
            assert(d[0] == (t4, SqlValue::BigInt(f.triggered_before->Some_0)));
            assert(hd ==> spec_row_holds(d[0], source_type, server_id, triggered_at));
            if !hd {
                let i = choose|i: int| !(0 <= i < d.len() ==> #[trigger] spec_row_holds(d[i], source_type, server_id, triggered_at));
                assert(i == 0);
            }
        }
    }
}

/// Whether a reaction name is acceptable: at most 100 bytes, and made only of alphanumerics,
/// `_`, `-` and `+`.
pub open spec fn spec_acceptable_reaction(p: Seq<char>) -> bool {
    &&& byte_len(p) <= 100
    &&& forall|k: int| 0 <= k < p.len() ==> {
        let c = #[trigger] p[k];
        unicode_alphanumeric(c) || c == '_' || c == '-' || c == '+'
    }
}

proof fn lemma_first_reaction_error_none(ps: Seq<Seq<char>>, n: int)
    requires
        0 <= n <= ps.len(),
    ensures
        spec_first_reaction_error(ps, n) is None <==> forall|i: int| 0 <= i < n ==> spec_acceptable_reaction(#[trigger] ps[i]),
    decreases n,
{
    if n > 0 {
        lemma_first_reaction_error_none(ps, n - 1);
        let p = ps[n - 1];
        assert(spec_reaction_name_error(p) is None <==> spec_acceptable_reaction(p)) by {
            if spec_reaction_name_error(p) is None {
                assert forall|k: int| 0 <= k < p.len() implies {
                    let c = #[trigger] p[k];
                    unicode_alphanumeric(c) || c == '_' || c == '-' || c == '+'
                } by {
                    assert(crate::slack_event_handler::spec_reaction_char_allowed(p[k]));
                }
            }
            if spec_acceptable_reaction(p) {
                assert forall|k: int| 0 <= k < p.len() implies crate::slack_event_handler::spec_reaction_char_allowed(#[trigger] p[k]) by {
                    let c = p[k];
                    assert(unicode_alphanumeric(c) || c == '_' || c == '-' || c == '+');
                }
            }
        }
    }
}

/// A list of reaction names is accepted exactly when it has at most 50 names (comma separated,
/// each trimmed) and every name is at most 100 bytes long and made only of alphanumerics, `_`,
/// `-` and `+`.
pub proof fn law_reaction_names_accepted(names: Seq<char>)
    ensures
        spec_reaction_names_error(names) is None <==> {
            let ps = spec_reaction_pieces(names);
            &&& ps.len() <= 50
            &&& forall|i: int| 0 <= i < ps.len() ==> spec_acceptable_reaction(#[trigger] ps[i])
        },
{
    let ps = spec_reaction_pieces(names);
    lemma_first_reaction_error_none(ps, ps.len() as int);
}

/// The number of times `c` occurs in `s`.
pub open spec fn spec_count_char(s: Seq<char>, c: char) -> nat
    decreases s.len(),
{
    if s.len() == 0 {
        0
    } else {
        spec_count_char(s.drop_last(), c) + (if s.last() == c { 1nat } else { 0nat })
    }
}

proof fn lemma_split_pieces(s: Seq<char>, sep: char)
    ensures
        spec_split(s, sep).len() == spec_count_char(s, sep) + 1,
        forall|i: int, k: int| 0 <= i < spec_split(s, sep).len() && 0 <= k < spec_split(s, sep)[i].len()
            ==> #[trigger] spec_split(s, sep)[i][k] != sep,
        forall|i: int, k: int| 0 <= i < spec_split(s, sep).len() && 0 <= k < spec_split(s, sep)[i].len()
            ==> s.contains(#[trigger] spec_split(s, sep)[i][k]),
    decreases s.len(),
{
    if s.len() > 0 {
        let init = s.drop_last();
        lemma_split_pieces(init, sep);
        let p = spec_split(init, sep);
        let r = spec_split(s, sep);
        assert forall|i: int, k: int| 0 <= i < r.len() && 0 <= k < r[i].len() implies #[trigger] r[i][k] != sep && s.contains(r[i][k]) by {
            if s.last() == sep {
                if i < p.len() {
                    assert(r[i] == p[i]);
                    assert(init.contains(p[i][k]));
                    let j = choose|j: int| 0 <= j < init.len() && init[j] == p[i][k];
                    assert(s[j] == init[j]);
                }
            } else {
                if i < p.len() - 1 {
                    assert(r[i] == p[i]);
                    assert(init.contains(p[i][k]));
                    let j = choose|j: int| 0 <= j < init.len() && init[j] == p[i][k];
                    assert(s[j] == init[j]);
                } else {
                    assert(r[i] == p.last().push(s.last()));
                    if k < p.last().len() {
                        assert(r[i][k] == p[p.len() - 1][k]);
                        assert(init.contains(p[p.len() - 1][k]));
                        let j = choose|j: int| 0 <= j < init.len() && init[j] == p[p.len() - 1][k];
                        assert(s[j] == init[j]);
                    } else {
                        assert(s[s.len() - 1] == s.last());
                    }
                }
            }
        }
    }
}

proof fn lemma_trim_start(s: Seq<char>)
    ensures
        spec_trim_start(s).len() > 0 ==> !spec_is_whitespace(spec_trim_start(s)[0]),
        spec_trim_start(s).len() <= s.len(),
        spec_trim_start(s) == s.subrange(s.len() - spec_trim_start(s).len(), s.len() as int),
    decreases s.len(),
{
    if s.len() > 0 && spec_is_whitespace(s[0]) {
        lemma_trim_start(s.drop_first());
        assert(s.drop_first().subrange(s.len() - 1 - spec_trim_start(s).len(), s.len() - 1)
            =~= s.subrange(s.len() - spec_trim_start(s).len(), s.len() as int));
    } else {
        assert(s.subrange(0, s.len() as int) =~= s);
    }
}

proof fn lemma_trim_end(s: Seq<char>)
    ensures
        spec_trim_end(s).len() > 0 ==> !spec_is_whitespace(spec_trim_end(s).last()),
        spec_trim_end(s).len() <= s.len(),
        spec_trim_end(s) == s.subrange(0, spec_trim_end(s).len() as int),
    decreases s.len(),
{
    if s.len() > 0 && spec_is_whitespace(s.last()) {
        lemma_trim_end(s.drop_last());
        assert(s.drop_last().subrange(0, spec_trim_end(s).len() as int) =~= s.subrange(0, spec_trim_end(s).len() as int));
    } else {
        assert(s.subrange(0, s.len() as int) =~= s);
    }
}

/// The reaction names of a list are its comma-separated pieces, trimmed: one more than there
/// are commas, none holding a comma, none starting or ending with white space, and each made
/// of characters of the list.
pub proof fn law_reaction_pieces(names: Seq<char>)
    ensures
        spec_reaction_pieces(names).len() == spec_count_char(names, ',') + 1,
        forall|i: int| 0 <= i < spec_reaction_pieces(names).len() ==> {
            let p = #[trigger] spec_reaction_pieces(names)[i];
            &&& p.len() > 0 ==> !spec_is_whitespace(p[0]) && !spec_is_whitespace(p.last())
            &&& forall|k: int| 0 <= k < p.len() ==> p[k] != ',' && names.contains(p[k])
        },
{
    lemma_split_pieces(names, ',');
    let raw = spec_split(names, ',');
    assert forall|i: int| 0 <= i < spec_reaction_pieces(names).len() implies {
        let p = #[trigger] spec_reaction_pieces(names)[i];
        &&& p.len() > 0 ==> !spec_is_whitespace(p[0]) && !spec_is_whitespace(p.last())
        &&& forall|k: int| 0 <= k < p.len() ==> p[k] != ',' && names.contains(p[k])
    } by {
        let q = raw[i];
        let a = spec_trim_start(q);
        let p = spec_trim_end(a);
        assert(spec_reaction_pieces(names)[i] == p);
        lemma_trim_start(q);
        lemma_trim_end(a);
        if p.len() > 0 {
            assert(p[0] == a[0]);
        }
        assert forall|k: int| 0 <= k < p.len() implies p[k] != ',' && names.contains(p[k]) by {
            let off = q.len() - a.len();
            assert(p[k] == a[k]);
            assert(a[k] == q[off + k]);
            assert(raw[i][off + k] != ',' && names.contains(raw[i][off + k]));
        }
    }
}

proof fn lemma_last_server_is_last(s: Seq<JobWorkerpSetting>, name: Seq<char>, n: nat)
    requires
        n <= s.len(),
    ensures
        spec_last_server(s, name, n) matches Some(i) ==> 0 <= i < n && s[i].name@ == name
            && forall|j: int| i < j < n ==> (#[trigger] s[j]).name@ != name,
        spec_last_server(s, name, n) is None ==> forall|j: int| 0 <= j < n ==> (#[trigger] s[j]).name@ != name,
    decreases n,
{
    if n > 0 {
        lemma_last_server_is_last(s, name, (n - 1) as nat);
    }
}

/// The `WHERE` clause of listing predicates: nothing without predicates, ` WHERE ` before the
/// first test, and every further test joined with ` AND `, so that a row must hold all of
/// them; the bound values are the predicates' values, in order.
pub proof fn law_where_clause(p: Seq<(Seq<char>, SqlValue)>, x: (Seq<char>, SqlValue))
    ensures
        spec_where_text(Seq::empty()) == Seq::<char>::empty(),
        spec_where_text(seq![x]) == " WHERE "@ + x.0,
        p.len() > 0 ==> spec_where_text(p.push(x)) == spec_where_text(p) + " AND "@ + x.0,
        spec_where_binds(p).len() == p.len(),
        forall|i: int| 0 <= i < p.len() ==> #[trigger] spec_where_binds(p)[i] == p[i].1,
        spec_where_binds(p.push(x)) == spec_where_binds(p).push(x.1),
{
    assert(seq![x].drop_last() =~= Seq::<(Seq<char>, SqlValue)>::empty());
    assert(p.push(x).drop_last() =~= p);
    assert(Seq::<char>::empty() + " WHERE "@ + x.0 =~= " WHERE "@ + x.0);
    assert(spec_where_binds(p.push(x)) =~= spec_where_binds(p).push(x.1));
}

/// A job that left neither a processing status nor a stored result resolves from the record:
/// a recorded success to Succeeded, a recorded cancellation to Cancelled, any other recorded
/// status (an unknown number counting as a failure) to Failed; with nothing recorded (a
/// legacy record) success is inferred. A record without a job id is EnqueueFailed when its
/// enqueue failed, else resolved from its recorded status, else Running.
pub proof fn law_record_resolution(job_id: Option<i64>, enqueue_error: Option<Seq<char>>, recorded: Option<i32>)
    ensures
        ({
            let (s, source, detail) = spec_resolve_status(job_id, enqueue_error, recorded, StatusProbe::NoStoredResult);
            &&& source == 3 && detail is Some
            &&& (job_id is None && enqueue_error is Some) ==> s == 8
            &&& (job_id is None && enqueue_error is None && recorded is None) ==> s == 2
            &&& (job_id is Some && recorded is None) ==> s == 5
            &&& ((job_id is Some || enqueue_error is None) && recorded == Some(0i32)) ==> s == 5
            &&& ((job_id is Some || enqueue_error is None) && recorded == Some(6i32)) ==> s == 7
            &&& ((job_id is Some || enqueue_error is None) && (recorded matches Some(v) && v != 0 && v != 6)) ==> s == 6
        }),
{
}

/// The statuses that may be deleted are exactly those of finished executions: Succeeded,
/// Failed, Cancelled and EnqueueFailed; pending, running, waiting, cancelling, unknown,
/// unavailable, unspecified or unnamed ones are kept.
pub proof fn law_terminal_statuses(s: i32)
    ensures
        spec_is_terminal_i32(s) <==> (s == 5 || s == 6 || s == 7 || s == 8),
{
}

/// A listing is ordered newest trigger first, then highest id; it is paged only with a limit
/// (` LIMIT ?` bound to it), and an offset counts only together with a limit (` OFFSET ?`
/// bound to it, after the limit).
pub proof fn law_listing_order_and_paging(limit: Option<i32>, offset: Option<i64>)
    ensures
        spec_order_by() == " ORDER BY `triggered_at` DESC, `id` DESC"@,
        limit is None ==> spec_paging(limit, offset) == (Seq::<char>::empty(), Seq::<SqlValue>::empty()),
        (limit is Some && offset is None) ==> spec_paging(limit, offset) == (" LIMIT ?"@, seq![SqlValue::Int(limit->Some_0)]),
        (limit is Some && offset is Some) ==> spec_paging(limit, offset)
            == (" LIMIT ?"@ + " OFFSET ?"@, seq![SqlValue::Int(limit->Some_0), SqlValue::BigInt(offset->Some_0)]),
{
}

} // verus!
