//! Properties that relate several operations of the library.
use vstd::prelude::*;
use crate::model::{ExecutionTarget, ReactionOperation, ResolvedExecutionStatus, ResultStatus};
use crate::execution_status::{
    spec_server_endpoint,
    spec_delete_one, DeleteResult, spec_is_terminal_i32, spec_resolve_jobidless_status, spec_resolve_status_without_stored_result,
    spec_terminal_ids,
};
use crate::execution_target::{spec_execution_target_error, spec_flatten, spec_target_from_columns};
use crate::rows::{spec_reaction_operation_from_db, spec_reaction_operation_to_db};
use crate::migration::{find_name, is_sorted, names_distinct, spec_excess, spec_insert, spec_total_excess};
use crate::execution_ref_query::{spec_chunks, DELETE_CHUNK_SIZE};
use crate::config_management::{
    AddressError,
    spec_first_server_issue, spec_first_untargeted, spec_listener_import, spec_listener_import_error,
    spec_first_listener_import_error, spec_first_scheduler_import_error, spec_item_imports_error,
    spec_non_empty, spec_parse_server_address, spec_scheduler_import, spec_scheduler_import_error, spec_server_id,
    spec_server_issue, spec_validate_settings, ListenerImport, SchedulerImport,
};
use crate::text::spec_is_some_non_empty;
use crate::settings::{spec_entries, spec_item_has_target, JobWorkerpSetting, WorkflowSettingFile, WorkflowSettingItem};
use crate::model::{CronScheduler, CronSchedulerId, ExecutionRefId, JobworkerpServer};
use crate::text::opt_view;
use crate::import_run::spec_import_counts;
use crate::active::{spec_add_job, spec_add_job_effect,index_of_name, names_unique, spec_handle_of, spec_put, spec_take};

verus! {

/// Storing a reaction operation and reading it back gives the same operation; an
/// unspecified or unknown operation is read back as unspecified.
pub proof fn law_reaction_operation_roundtrip(op: i32)
    ensures
        spec_reaction_operation_from_db(spec_reaction_operation_to_db(op)).spec_to_i32() == (match ReactionOperation::spec_from_i32(op) {
            Some(o) => o.spec_to_i32(),
            None => ReactionOperation::Unspecified.spec_to_i32(),
        }),
{
    reveal_strlit("added");
    reveal_strlit("removed");
    reveal_strlit("both");
    assert("added"@ != "removed"@ && "added"@ != "both"@ && "removed"@ != "both"@) by {
        assert("added"@.len() != "removed"@.len());
        assert("added"@[0] != "both"@[0]);
        assert("removed"@.len() != "both"@.len());
    }
}

/// The target read back from the stored columns of a valid execution target.
pub open spec fn spec_normalized_target(
    target: Option<ExecutionTarget>,
    workflow_url: Seq<char>,
    channel: Option<Seq<char>>,
) -> Option<(bool, Seq<char>, Option<Seq<char>>)> {
    match target {
        Some(ExecutionTarget::Workflow(wf)) => Some((false, wf.workflow_url@, opt_view(wf.channel))),
        Some(ExecutionTarget::Worker(w)) => Some((true, w.worker_name@, match w.using {
            Some(u) => if u@.len() > 0 { Some(u@) } else { None },
            None => None,
        })),
        None => Some((false, workflow_url, channel)),
    }
}

/// A valid execution target (or, without one, a non-empty deprecated workflow URL) is read
/// back from its stored columns as it was written; only an empty `using` is dropped.
pub proof fn law_execution_target_read_back(
    target: Option<ExecutionTarget>,
    workflow_url: Seq<char>,
    channel: Option<Seq<char>>,
)
    requires
        spec_execution_target_error(target, workflow_url) is None,
    ensures
        ({
            let c = spec_flatten(target, workflow_url, channel);
            spec_target_from_columns(c.0, c.1, c.2, c.3)
        }) == spec_normalized_target(target, workflow_url, channel),
{
}

/// A status resolved from a recorded result status is always terminal.
pub proof fn law_recorded_status_is_terminal(recorded: i32)
    ensures
        spec_is_terminal_i32(spec_resolve_status_without_stored_result(Some(recorded)).0),
{
}

/// The result status recorded by a successful cancellation resolves to `Cancelled`, whether
/// or not the record has a job id.
pub proof fn law_cancel_resolves_to_cancelled()
    ensures
        spec_resolve_status_without_stored_result(Some(ResultStatus::Cancelled.spec_to_i32())).0
            == ResolvedExecutionStatus::Cancelled.spec_to_i32(),
        spec_resolve_jobidless_status(None, Some(ResultStatus::Cancelled.spec_to_i32())).0
            == ResolvedExecutionStatus::Cancelled.spec_to_i32(),
{
}

/// An enqueue error decides the status of a record without a job id, whatever result status
/// it also holds.
pub proof fn law_enqueue_error_wins(error: Seq<char>, result_status: Option<i32>)
    ensures
        spec_resolve_jobidless_status(Some(error), result_status).0 == ResolvedExecutionStatus::EnqueueFailed.spec_to_i32(),
{
}

/// A delete by source without force removes only records whose status is terminal: every id
/// it selects belongs to such a record.
pub proof fn law_delete_selects_only_terminal(resolved: Seq<(Option<ExecutionRefId>, i32)>, k: int)
    requires
        0 <= k < spec_terminal_ids(resolved).len(),
    ensures
        exists|j: int| 0 <= j < resolved.len() && (#[trigger] resolved[j]).0 == Some(ExecutionRefId { value: spec_terminal_ids(resolved)[k] })
            && spec_is_terminal_i32(resolved[j].1),
    decreases resolved.len(),
{
    let rest = spec_terminal_ids(resolved.drop_last());
    if k < rest.len() {
        law_delete_selects_only_terminal(resolved.drop_last(), k);
        let j = choose|j: int| 0 <= j < resolved.drop_last().len()
            && (#[trigger] resolved.drop_last()[j]).0 == Some(ExecutionRefId { value: rest[k] })
            && spec_is_terminal_i32(resolved.drop_last()[j].1);
        assert(resolved[j] == resolved.drop_last()[j]);
    } else {
        let j = resolved.len() - 1;
        assert(resolved[j] == resolved.last());
    }
}

/// Deleting one record: a missing id is answered "not found" and a non-terminal record "not
/// terminal", both leaving the table as it was; the answer is "deleted" exactly when the
/// record exists and is terminal, and then only its row is gone.
pub proof fn law_delete_one(table: Map<i64, i32>, id: i64)
    ensures
        !table.contains_key(id) ==> spec_delete_one(table, id) == (DeleteResult::NotFound, table),
        table.contains_key(id) && !spec_is_terminal_i32(table[id])
            ==> spec_delete_one(table, id) == (DeleteResult::NotTerminal, table),
        (spec_delete_one(table, id).0 == DeleteResult::Deleted)
            <==> (table.contains_key(id) && spec_is_terminal_i32(table[id])),
        spec_delete_one(table, id).0 == DeleteResult::Deleted ==> spec_delete_one(table, id).1 == table.remove(id),
{
}

proof fn lemma_terminal_ids_member(resolved: Seq<(Option<ExecutionRefId>, i32)>, v: i64)
    ensures
        spec_terminal_ids(resolved).contains(v) <==> exists|j: int| 0 <= j < resolved.len()
            && (#[trigger] resolved[j]).0 == Some(ExecutionRefId { value: v }) && spec_is_terminal_i32(resolved[j].1),
    decreases resolved.len(),
{
    if resolved.len() > 0 {
        let init = resolved.drop_last();
        lemma_terminal_ids_member(init, v);
        let last = resolved.last();
        let rest = spec_terminal_ids(init);
        if spec_terminal_ids(resolved).contains(v) {
            if rest.contains(v) {
                let j = choose|j: int| 0 <= j < init.len()
                    && (#[trigger] init[j]).0 == Some(ExecutionRefId { value: v }) && spec_is_terminal_i32(init[j].1);
                assert(resolved[j] == init[j]);
            } else {
                assert(resolved[resolved.len() - 1] == last);
            }
        }
        if exists|j: int| 0 <= j < resolved.len()
            && (#[trigger] resolved[j]).0 == Some(ExecutionRefId { value: v }) && spec_is_terminal_i32(resolved[j].1) {
            let j = choose|j: int| 0 <= j < resolved.len()
                && (#[trigger] resolved[j]).0 == Some(ExecutionRefId { value: v }) && spec_is_terminal_i32(resolved[j].1);
            if j < resolved.len() - 1 {
                assert(init[j] == resolved[j]);
                assert(rest.contains(v));
                assert(spec_terminal_ids(resolved) == rest || spec_terminal_ids(resolved) == rest.push(last.0->0.value));
                if spec_terminal_ids(resolved) != rest {
                    let k = rest.index_of(v);
                    assert(spec_terminal_ids(resolved)[k] == v);
                }
            } else {
                assert(spec_terminal_ids(resolved) == rest.push(v));
                assert(spec_terminal_ids(resolved)[rest.len() as int] == v);
            }
        }
    }
}

/// The ids of records named at most once are selected at most once.
proof fn lemma_terminal_ids_distinct(resolved: Seq<(Option<ExecutionRefId>, i32)>)
    requires
        forall|i: int, j: int| 0 <= i < j < resolved.len() && (#[trigger] resolved[i]).0 is Some
            ==> (#[trigger] resolved[j]).0 != resolved[i].0,
    ensures
        spec_terminal_ids(resolved).no_duplicates(),
    decreases resolved.len(),
{
    if resolved.len() > 0 {
        let init = resolved.drop_last();
        assert forall|i: int, j: int| 0 <= i < j < init.len() && (#[trigger] init[i]).0 is Some
            implies (#[trigger] init[j]).0 != init[i].0 by {
            assert(init[i] == resolved[i] && init[j] == resolved[j]);
        }
        lemma_terminal_ids_distinct(init);
        let last = resolved.last();
        if spec_is_terminal_i32(last.1) && last.0 is Some {
            let v = last.0->0.value;
            lemma_terminal_ids_member(init, v);
            if spec_terminal_ids(init).contains(v) {
                let j = choose|j: int| 0 <= j < init.len()
                    && (#[trigger] init[j]).0 == Some(ExecutionRefId { value: v }) && spec_is_terminal_i32(init[j].1);
                assert(resolved[j] == init[j]);
                assert(resolved[resolved.len() - 1] == last);
                assert(false);
            }
        }
    }
}

/// Deleting the records of one source without force: exactly the ids of its terminal records
/// are removed, each once, so the count returned is their number; every other record, of this
/// source or another, stays. Deleted chunk by chunk, the statements leave the same table and
/// report that number.
pub proof fn law_delete_by_source(table: Map<i64, i32>, refs: Seq<(Option<ExecutionRefId>, i32)>)
    requires
        table.dom().finite(),
        forall|i: int| 0 <= i < refs.len() && (#[trigger] refs[i]).0 is Some ==> table.contains_key(refs[i].0->0.value),
        forall|i: int, j: int| 0 <= i < j < refs.len() && (#[trigger] refs[i]).0 is Some
            ==> (#[trigger] refs[j]).0 != refs[i].0,
    ensures
        forall|k: i64| #[trigger] spec_terminal_ids(refs).contains(k) <==> exists|j: int| 0 <= j < refs.len()
            && (#[trigger] refs[j]).0 == Some(ExecutionRefId { value: k }) && spec_is_terminal_i32(refs[j].1),
        spec_terminal_ids(refs).no_duplicates(),
        spec_terminal_ids(refs).to_set().len() == spec_terminal_ids(refs).len(),
        forall|k: i64| #[trigger] table.remove_keys(spec_terminal_ids(refs).to_set()).contains_key(k)
            <==> table.contains_key(k) && !spec_terminal_ids(refs).contains(k),
        table.remove_keys(spec_terminal_ids(refs).to_set()).dom().len() == table.dom().len() - spec_terminal_ids(refs).len(),
        spec_delete_in_chunks(table.dom(), spec_chunks(spec_terminal_ids(refs)))
            == (table.dom().difference(spec_terminal_ids(refs).to_set()), spec_terminal_ids(refs).len()),
{
    let ids = spec_terminal_ids(refs);
    assert forall|k: i64| #[trigger] ids.contains(k) <==> exists|j: int| 0 <= j < refs.len()
        && (#[trigger] refs[j]).0 == Some(ExecutionRefId { value: k }) && spec_is_terminal_i32(refs[j].1) by {
        lemma_terminal_ids_member(refs, k);
    }
    lemma_terminal_ids_distinct(refs);
    ids.unique_seq_to_set();
    let d = ids.to_set();
    assert(d.subset_of(table.dom())) by {
        assert forall|k: i64| d.contains(k) implies table.dom().contains(k) by {
            assert(ids.contains(k));
            let j = choose|j: int| 0 <= j < refs.len()
                && (#[trigger] refs[j]).0 == Some(ExecutionRefId { value: k }) && spec_is_terminal_i32(refs[j].1);
        }
    }
    assert(table.remove_keys(d).dom() =~= table.dom().difference(d));
    vstd::set_lib::lemma_set_difference_len(table.dom(), d);
    assert(table.dom().intersect(d) =~= d);
    law_delete_by_ids(table.dom(), ids);
}

/// Recording ids under a name and looking the name up gives those ids, and names stay
/// unique.
pub proof fn law_duplicate_insert_then_find(e: Seq<(Seq<char>, Seq<i64>)>, name: Seq<char>, ids: Seq<i64>)
    requires
        names_distinct(e),
    ensures
        names_distinct(spec_insert(e, name, ids)),
        find_name(spec_insert(e, name, ids), name) matches Some(i) && spec_insert(e, name, ids)[i].1 == ids,
{
    let r = spec_insert(e, name, ids);
    match find_name(e, name) {
        Some(i) => {
            assert(0 <= i < e.len() && e[i].0 == name);
            assert(r[i].0 == name);
            assert forall|a: int, b: int| 0 <= a < b < r.len() implies #[trigger] r[a].0 != #[trigger] r[b].0 by {
                assert(r[a].0 == e[a].0);
                assert(r[b].0 == e[b].0);
            }
            assert(exists|j: int| 0 <= j < r.len() && r[j].0 == name);
            let j = choose|j: int| 0 <= j < r.len() && r[j].0 == name;
            if j != i {
                assert(r[j].0 == r[i].0);
            }
        },
        None => {
            assert forall|j: int| 0 <= j < e.len() implies e[j].0 != name by {}
            let n = e.len() as int;
            assert(r[n].0 == name);
            assert forall|a: int, b: int| 0 <= a < b < r.len() implies #[trigger] r[a].0 != #[trigger] r[b].0 by {
                assert(r[a].0 == e[a].0);
                if b < n {
                    assert(r[b].0 == e[b].0);
                }
            }
            assert(exists|j: int| 0 <= j < r.len() && r[j].0 == name);
            let j = choose|j: int| 0 <= j < r.len() && r[j].0 == name;
            if j != n {
                assert(r[j].0 == e[j].0);
            }
        },
    }
}

/// A report without duplicated names counts no removed rows.
pub proof fn law_no_duplicates_nothing_cleaned(
    servers: Seq<(Seq<char>, Seq<i64>)>,
    schedulers: Seq<(Seq<char>, Seq<i64>)>,
    handlers: Seq<(Seq<char>, Seq<i64>)>,
)
    requires
        servers.len() == 0,
        schedulers.len() == 0,
        handlers.len() == 0,
    ensures
        spec_total_excess(servers) + spec_total_excess(schedulers) + spec_total_excess(handlers) == 0,
{
}

/// The cleanup of one duplicated name deletes as many rows as the report counts for it: all
/// sorted ids but the highest.
pub proof fn law_cleanup_matches_report(ids: Seq<i64>, sorted: Seq<i64>)
    requires
        is_sorted(sorted),
        sorted.to_multiset() == ids.to_multiset(),
    ensures
        (if ids.len() > 1 { sorted.drop_last().len() } else { 0 }) == spec_excess(ids.len()),
{
    sorted.to_multiset_ensures();
    ids.to_multiset_ensures();
    assert(sorted.len() == ids.len()) by {
        assert(sorted.to_multiset().len() == ids.to_multiset().len());
    }
}

/// The flattening of chunks of ids.
pub open spec fn spec_flatten_chunks(c: Seq<Seq<i64>>) -> Seq<i64>
    decreases c.len(),
{
    if c.len() == 0 { Seq::empty() } else { c[0] + spec_flatten_chunks(c.skip(1)) }
}

/// The chunks of a deletion by ids cover the ids exactly, in order, and each binds between
/// one and `DELETE_CHUNK_SIZE` ids.
pub proof fn law_delete_chunks_cover_ids(ids: Seq<i64>)
    ensures
        spec_flatten_chunks(spec_chunks(ids)) == ids,
        forall|k: int| 0 <= k < spec_chunks(ids).len() ==>
            1 <= (#[trigger] spec_chunks(ids)[k]).len() <= DELETE_CHUNK_SIZE,
    decreases ids.len(),
{
    let c = spec_chunks(ids);
    if ids.len() == 0 {
    } else if ids.len() <= DELETE_CHUNK_SIZE {
        assert(c[0] == ids);
        assert(c.skip(1) =~= Seq::<Seq<i64>>::empty());
        assert(spec_flatten_chunks(c.skip(1)) == Seq::<i64>::empty());
        assert(ids + Seq::<i64>::empty() =~= ids);
    } else {
        let rest = ids.skip(DELETE_CHUNK_SIZE as int);
        law_delete_chunks_cover_ids(rest);
        assert(c[0] == ids.take(DELETE_CHUNK_SIZE as int));
        assert(c.skip(1) =~= spec_chunks(rest));
        assert(spec_flatten_chunks(c) == c[0] + spec_flatten_chunks(c.skip(1)));
        assert(ids.take(DELETE_CHUNK_SIZE as int) + rest =~= ids);
        assert forall|k: int| 0 <= k < c.len() implies 1 <= (#[trigger] c[k]).len() <= DELETE_CHUNK_SIZE by {
            if k > 0 {
                assert(c[k] == spec_chunks(rest)[k - 1]);
            }
        }
    }
}

proof fn lemma_no_server_issue(s: Seq<crate::settings::JobWorkerpSetting>, n: nat, i: int)
    requires
        spec_first_server_issue(s, n) is None,
        0 <= i < n,
    ensures
        spec_server_issue(s, i) is None,
    decreases n,
{
    if i < n - 1 {
        lemma_no_server_issue(s, (n - 1) as nat, i);
    }
}

proof fn lemma_no_untargeted(items: Seq<WorkflowSettingItem>, n: nat, i: int)
    requires
        spec_first_untargeted(items, n) is None,
        0 <= i < n,
    ensures
        spec_item_has_target(items[i]),
    decreases n,
{
    if i < n - 1 {
        lemma_no_untargeted(items, (n - 1) as nat, i);
    }
}

/// A settings file that passes validation has at least one server, unique server names,
/// parseable server addresses, and listeners and schedulers that all say what to run.
pub proof fn law_valid_settings(f: WorkflowSettingFile)
    requires
        spec_validate_settings(f) is None,
    ensures
        f.jobworkerp@.len() > 0,
        forall|i: int, j: int| 0 <= i < j < f.jobworkerp@.len() ==>
            (#[trigger] f.jobworkerp@[i]).name@ != (#[trigger] f.jobworkerp@[j]).name@,
        forall|i: int| 0 <= i < f.jobworkerp@.len() ==> spec_parse_server_address((#[trigger] f.jobworkerp@[i]).address@) is Ok,
        forall|i: int| 0 <= i < spec_entries(f.listeners).len() ==> spec_item_has_target(#[trigger] spec_entries(f.listeners)[i]),
        forall|i: int| 0 <= i < spec_entries(f.schedulers).len() ==> spec_item_has_target(#[trigger] spec_entries(f.schedulers)[i]),
{
    let s = f.jobworkerp@;
    let l = spec_entries(f.listeners);
    let c = spec_entries(f.schedulers);
    assert forall|i: int, j: int| 0 <= i < j < s.len() implies (#[trigger] s[i]).name@ != (#[trigger] s[j]).name@ by {
        lemma_no_server_issue(s, s.len(), j);
    }
    assert forall|i: int| 0 <= i < s.len() implies spec_parse_server_address((#[trigger] s[i]).address@) is Ok by {
        lemma_no_server_issue(s, s.len(), i);
    }
    assert forall|i: int| 0 <= i < l.len() implies spec_item_has_target(#[trigger] l[i]) by {
        lemma_no_untargeted(l, l.len(), i);
    }
    assert forall|i: int| 0 <= i < c.len() implies spec_item_has_target(#[trigger] c[i]) by {
        lemma_no_untargeted(c, c.len(), i);
    }
}

/// Whether stored target columns are in the form an import writes: with a non-empty worker
/// name no workflow URL and no channel, and never an empty `using`.
pub open spec fn spec_normalized_columns(
    workflow_url: Seq<char>,
    channel: Option<Seq<char>>,
    worker_name: Option<Seq<char>>,
    using: Option<Seq<char>>,
) -> bool {
    &&& (worker_name matches Some(w) && w.len() > 0) ==> workflow_url.len() == 0 && channel is None
    &&& using matches Some(u) ==> u.len() > 0
}

/// Whether `item` is the settings entry that exporting the stored scheduler `stored` gives
/// while its server is named `server_name`, with the stored row enabled, its columns in import
/// form, and that name still giving its server id in the server table `rows`.
pub open spec fn spec_scheduler_exported(
    stored: SchedulerImport,
    server_name: Seq<char>,
    item: WorkflowSettingItem,
    rows: Seq<(String, i64)>,
) -> bool {
    &&& spec_normalized_columns(stored.workflow_url@, opt_view(stored.channel), opt_view(stored.worker_name), opt_view(stored.using))
    &&& stored.enabled
    &&& spec_server_id(rows, server_name, rows.len()) == Some(stored.jobworkerp_server_id)
    &&& item.name@ == stored.name@
    &&& item.jobworkerp@ == server_name
    &&& item.workflow_url@ == stored.workflow_url@
    &&& opt_view(item.channel) == opt_view(stored.channel)
    &&& item.crontab matches Some(c) && c@ == stored.crontab@
    &&& opt_view(item.args) == opt_view(stored.args)
    &&& opt_view(item.worker_name) == opt_view(stored.worker_name)
    &&& opt_view(item.using) == opt_view(stored.using)
}

/// An enabled stored scheduler exported to a settings entry and imported back is written as it
/// was, when its columns are in import form and its server's name still gives its server id.
/// (An import stores every scheduler enabled.)
pub proof fn law_scheduler_export_import_roundtrip(
    stored: SchedulerImport,
    server_name: Seq<char>,
    item: WorkflowSettingItem,
    rows: Seq<(String, i64)>,
)
    requires
        spec_scheduler_exported(stored, server_name, item, rows),
    ensures
        spec_scheduler_import_error(item, rows) is None,
        spec_scheduler_import(item, rows, stored),
{
    assert(spec_is_some_non_empty(item.worker_name) == (opt_view(stored.worker_name) matches Some(w) && w.len() > 0));
    assert(spec_non_empty(item.using) == opt_view(stored.using));
    if spec_is_some_non_empty(item.worker_name) {
        assert(stored.workflow_url@ =~= Seq::<char>::empty());
    }
}

/// Whether `item` is the settings entry that exporting the stored listener `stored` gives
/// while its servers are named `listen_server_name` and `process_server_name`, with the stored
/// row enabled, its columns in import form (a worker listener stores no workflow, a workflow
/// listener no worker), and those names still giving their ids in the server table `rows`.
pub open spec fn spec_listener_exported(
    stored: ListenerImport,
    listen_server_name: Seq<char>,
    process_server_name: Seq<char>,
    item: WorkflowSettingItem,
    rows: Seq<(String, i64)>,
) -> bool {
    &&& spec_normalized_columns(stored.workflow_url@, opt_view(stored.channel), opt_view(stored.worker_name), opt_view(stored.using))
    &&& !(opt_view(stored.worker_name) matches Some(w) && w.len() > 0) ==> stored.worker_name is None && stored.using is None
    &&& stored.enabled
    &&& spec_server_id(rows, listen_server_name, rows.len()) == Some(stored.listen_jobworkerp_server_id)
    &&& spec_server_id(rows, process_server_name, rows.len()) == Some(stored.process_jobworkerp_server_id)
    &&& item.name@ == stored.name@
    &&& item.jobworkerp@ == process_server_name
    &&& item.listen_jobworkerp matches Some(l) && l@ == listen_server_name
    &&& item.listen_worker_name matches Some(w) && w@ == stored.listen_worker_name@
    &&& item.workflow_url@ == stored.workflow_url@
    &&& opt_view(item.channel) == opt_view(stored.channel)
    &&& opt_view(item.args) == opt_view(stored.args)
    &&& opt_view(item.worker_name) == opt_view(stored.worker_name)
    &&& opt_view(item.using) == opt_view(stored.using)
}

/// An enabled stored listener exported to a settings entry and imported back is written as it
/// was, when its columns are in import form and its servers' names still give their ids.
pub proof fn law_listener_export_import_roundtrip(
    stored: ListenerImport,
    listen_server_name: Seq<char>,
    process_server_name: Seq<char>,
    item: WorkflowSettingItem,
    rows: Seq<(String, i64)>,
)
    requires
        spec_listener_exported(stored, listen_server_name, process_server_name, item, rows),
    ensures
        spec_listener_import_error(item, rows) is None,
        spec_listener_import(item, rows, stored),
{
    assert(spec_is_some_non_empty(item.worker_name) == (opt_view(stored.worker_name) matches Some(w) && w.len() > 0));
    assert(spec_non_empty(item.using) == opt_view(stored.using));
    if spec_is_some_non_empty(item.worker_name) {
        assert(stored.workflow_url@ =~= Seq::<char>::empty());
    }
}

proof fn lemma_schedulers_import_cleanly(items: Seq<WorkflowSettingItem>, rows: Seq<(String, i64)>, n: nat)
    requires
        n <= items.len(),
        forall|i: int| 0 <= i < items.len() ==> spec_scheduler_import_error(#[trigger] items[i], rows) is None,
    ensures
        spec_first_scheduler_import_error(items, rows, n) is None,
    decreases n,
{
    if n > 0 {
        lemma_schedulers_import_cleanly(items, rows, (n - 1) as nat);
    }
}

proof fn lemma_listeners_import_cleanly(items: Seq<WorkflowSettingItem>, rows: Seq<(String, i64)>, n: nat)
    requires
        n <= items.len(),
        forall|i: int| 0 <= i < items.len() ==> spec_listener_import_error(#[trigger] items[i], rows) is None,
    ensures
        spec_first_listener_import_error(items, rows, n) is None,
    decreases n,
{
    if n > 0 {
        lemma_listeners_import_cleanly(items, rows, (n - 1) as nat);
    }
}

/// Importing an exported settings file reports as many servers, schedulers and listeners as
/// were exported: every server address parses, no scheduler or listener entry fails, and the
/// counts of the file are the exported ones, when the exported entries name servers of the
/// server table and carry what an export writes (a crontab for a scheduler, the listened
/// worker and server for a listener).
pub proof fn law_export_import_counts(
    servers: Seq<JobWorkerpSetting>,
    schedulers: Seq<WorkflowSettingItem>,
    listeners: Seq<WorkflowSettingItem>,
    file: WorkflowSettingFile,
    rows: Seq<(String, i64)>,
)
    requires
        file.jobworkerp@ == servers,
        file.schedulers matches Some(c) ==> c@ == schedulers && schedulers.len() > 0,
        file.schedulers is None ==> schedulers.len() == 0,
        file.listeners matches Some(l) ==> l@ == listeners && listeners.len() > 0,
        file.listeners is None ==> listeners.len() == 0,
        forall|i: int| 0 <= i < servers.len() ==> spec_parse_server_address((#[trigger] servers[i]).address@) is Ok,
        forall|i: int| 0 <= i < schedulers.len() ==> (#[trigger] schedulers[i]).crontab is Some
            && spec_server_id(rows, schedulers[i].jobworkerp@, rows.len()) is Some,
        forall|i: int| 0 <= i < listeners.len() ==> {
            let l = #[trigger] listeners[i];
            &&& l.listen_worker_name is Some
            &&& l.listen_jobworkerp matches Some(s) && spec_server_id(rows, s@, rows.len()) is Some
            &&& spec_server_id(rows, l.jobworkerp@, rows.len()) is Some
        },
    ensures
        file.jobworkerp@.len() == servers.len(),
        forall|i: int| 0 <= i < file.jobworkerp@.len() ==> spec_parse_server_address((#[trigger] file.jobworkerp@[i]).address@) is Ok,
        spec_item_imports_error(file, rows) is None,
        spec_entries(file.schedulers).len() == schedulers.len(),
        spec_entries(file.listeners).len() == listeners.len(),
        spec_import_counts(file) == (servers.len() as int, schedulers.len() as int, listeners.len() as int),
{
    let c = spec_entries(file.schedulers);
    let l = spec_entries(file.listeners);
    assert(c == schedulers);
    assert(l == listeners);
    assert forall|i: int| 0 <= i < c.len() implies spec_scheduler_import_error(#[trigger] c[i], rows) is None by {
        assert(c[i] == schedulers[i]);
    }
    assert forall|i: int| 0 <= i < l.len() implies spec_listener_import_error(#[trigger] l[i], rows) is None by {
        assert(l[i] == listeners[i]);
    }
    lemma_schedulers_import_cleanly(c, rows, c.len());
    lemma_listeners_import_cleanly(l, rows, l.len());
}

/// Restarting the job of a scheduler (taking it out, then starting it anew) leaves what an
/// insertion over the old job leaves: only that scheduler's entry changes. Taking a job out
/// lowers the count of running jobs by one exactly when it ran.
pub proof fn law_job_restart<V>(running: Map<i64, V>, id: i64, started: V)
    requires
        running.dom().finite(),
    ensures
        running.remove(id).insert(id, started) == running.insert(id, started),
        running.remove(id).len() == (if running.contains_key(id) { running.len() - 1 } else { running.len() as int }),
        forall|k: i64| k != id ==> (#[trigger] running.remove(id).contains_key(k) <==> running.contains_key(k)),
{
    assert(running.remove(id).insert(id, started) =~= running.insert(id, started));
    if !running.contains_key(id) {
        assert(running.remove(id) =~= running);
    }
}

proof fn lemma_index_after_update<H>(e: Seq<(Seq<char>, H)>, i: int, name: Seq<char>, h: H, m: Seq<char>)
    requires
        names_unique(e),
        0 <= i < e.len(),
        e[i].0 == name,
    ensures
        names_unique(e.update(i, (name, h))),
        index_of_name(e.update(i, (name, h)), m) == index_of_name(e, m),
{
    let u = e.update(i, (name, h));
    assert forall|a: int, b: int| 0 <= a < b < u.len() implies #[trigger] u[a].0 != #[trigger] u[b].0 by {
        assert(u[a].0 == e[a].0 && u[b].0 == e[b].0);
    }
    assert forall|j: int| 0 <= j < e.len() implies (u[j].0 == m) == (e[j].0 == m) by {
        assert(u[j].0 == e[j].0);
    }
    if exists|j: int| 0 <= j < e.len() && e[j].0 == m {
        let a = choose|j: int| 0 <= j < e.len() && e[j].0 == m;
        let b = choose|j: int| 0 <= j < u.len() && u[j].0 == m;
        assert(u[a].0 == e[a].0);
        assert(e[b].0 == u[b].0);
        if a != b {
            assert(e[a].0 == e[b].0);
        }
    }
}

/// Recording a listener under a name and reading that name back gives the recorded handle;
/// taking a name out leaves no listener under it; the listeners under other names stay as
/// they were; names stay unique.
pub proof fn law_listener_put_take<H>(e: Seq<(Seq<char>, H)>, name: Seq<char>, h: H, other: Seq<char>)
    requires
        names_unique(e),
        other != name,
    ensures
        names_unique(spec_put(e, name, h)),
        spec_handle_of(spec_put(e, name, h), name) == Some(h),
        spec_handle_of(spec_put(e, name, h), other) == spec_handle_of(e, other),
        names_unique(spec_take(e, name)),
        spec_handle_of(spec_take(e, name), name) is None,
        spec_handle_of(spec_take(e, name), other) == spec_handle_of(e, other),
        spec_take(e, name).len() == (if index_of_name(e, name) is Some { e.len() - 1 } else { e.len() as int }),
{
    match index_of_name(e, name) {
        Some(i) => {
            lemma_index_after_update(e, i, name, h, name);
            lemma_index_after_update(e, i, name, h, other);
            let u = e.update(i, (name, h));
            assert(u[i].0 == name);
            let t = e.remove(i);
            assert forall|a: int, b: int| 0 <= a < b < t.len() implies #[trigger] t[a].0 != #[trigger] t[b].0 by {
                let a2 = if a < i { a } else { a + 1 };
                let b2 = if b < i { b } else { b + 1 };
                assert(t[a] == e[a2] && t[b] == e[b2]);
            }
            assert forall|j: int| 0 <= j < t.len() implies t[j].0 != name by {
                let j2 = if j < i { j } else { j + 1 };
                assert(t[j] == e[j2]);
            }
            match index_of_name(e, other) {
                Some(k) => {
                    assert(k != i);
                    let k2 = if k < i { k } else { k - 1 };
                    assert(t[k2] == e[k]);
                    let c = choose|j: int| 0 <= j < t.len() && t[j].0 == other;
                    let c2 = if c < i { c } else { c + 1 };
                    assert(t[c] == e[c2]);
                    if c != k2 {
                        assert(t[c].0 == t[k2].0);
                    }
                },
                None => {
                    assert forall|j: int| 0 <= j < t.len() implies t[j].0 != other by {
                        let j2 = if j < i { j } else { j + 1 };
                        assert(t[j] == e[j2]);
                    }
                },
            }
        },
        None => {
            let p = e.push((name, h));
            assert forall|a: int, b: int| 0 <= a < b < p.len() implies #[trigger] p[a].0 != #[trigger] p[b].0 by {
                if b == e.len() {
                    assert(p[a] == e[a]);
                    assert(e[a].0 != name);
                } else {
                    assert(p[a] == e[a] && p[b] == e[b]);
                }
            }
            assert(p[e.len() as int].0 == name);
            let c = choose|j: int| 0 <= j < p.len() && p[j].0 == name;
            if c != e.len() {
                assert(p[c] == e[c]);
            }
            match index_of_name(e, other) {
                Some(k) => {
                    assert(p[k] == e[k]);
                    let d = choose|j: int| 0 <= j < p.len() && p[j].0 == other;
                    if d != k {
                        if d < e.len() {
                            assert(p[d] == e[d]);
                        }
                        assert(p[d].0 == p[k].0);
                    }
                },
                None => {
                    assert forall|j: int| 0 <= j < p.len() implies p[j].0 != other by {
                        if j < e.len() {
                            assert(p[j] == e[j]);
                        }
                    }
                },
            }
        },
    }
}

/// Adding the cron job of a scheduler leaves the running scheduler ids as they were on every
/// error and for a disabled scheduler; it adds the scheduler's id exactly when the scheduler is
/// found enabled with a server id, its server is found with its data, and the job registers.
/// The number of running jobs then grows by one unless a job ran under that id already.
pub proof fn law_add_job<H>(
    before: Map<i64, (String, H)>,
    after: Map<i64, (String, H)>,
    id: CronSchedulerId,
    scheduler: Option<CronScheduler>,
    server: Option<JobworkerpServer>,
    registered: Result<H, String>,
)
    requires
        before.dom().finite(),
        spec_add_job_effect(before, after, id, spec_add_job(id, scheduler, server, registered)),
    ensures
        (spec_add_job(id, scheduler, server, registered) matches Ok(Some(_))) <==> {
            &&& scheduler matches Some(s) && s.data matches Some(d) && d.enabled && d.jobworkerp_server_id is Some
            &&& server matches Some(sv) && sv.data is Some
            &&& registered is Ok
        },
        spec_add_job(id, scheduler, server, registered) is Err ==> after == before,
        after.dom() == (if spec_add_job(id, scheduler, server, registered) matches Ok(Some(_)) {
            before.dom().insert(id.value)
        } else {
            before.dom()
        }),
        after.len() == (if (spec_add_job(id, scheduler, server, registered) matches Ok(Some(_)))
            && !before.contains_key(id.value) { before.len() + 1 } else { before.len() }),
{
    if spec_add_job(id, scheduler, server, registered) matches Ok(Some(_)) {
        if before.contains_key(id.value) {
            assert(before.dom().insert(id.value) =~= before.dom());
        }
    }
}

/// Exporting the stored configuration and importing the file back gives it back: the import
/// reports as many servers, schedulers and listeners as were stored, no entry fails, each
/// server is written with its host, port and TLS flag, and each scheduler and listener row is
/// written as it was stored. This holds when the stored rows are enabled and in import form,
/// their servers' names still give their ids in the server table, and each exported address
/// `<scheme>://<host>:<port>` is read back by the URL parser as the host, port and TLS flag it
/// was written from.
pub proof fn law_export_import_roundtrip(
    servers: Seq<(Seq<char>, Seq<char>, Seq<char>, bool)>,
    schedulers: Seq<SchedulerImport>,
    scheduler_servers: Seq<Seq<char>>,
    listeners: Seq<ListenerImport>,
    listen_servers: Seq<Seq<char>>,
    process_servers: Seq<Seq<char>>,
    file: WorkflowSettingFile,
    rows: Seq<(String, i64)>,
)
    requires
        file.jobworkerp@.len() == servers.len(),
        forall|i: int| 0 <= i < servers.len() ==> {
            let (name, host, port, ssl) = #[trigger] servers[i];
            &&& file.jobworkerp@[i].name@ == name
            &&& file.jobworkerp@[i].address@ == spec_server_endpoint(ssl, host, port)
            &&& spec_parse_server_address(spec_server_endpoint(ssl, host, port)) == Ok::<(Seq<char>, Seq<char>, bool), AddressError>((host, port, ssl))
        },
        spec_entries(file.schedulers).len() == schedulers.len(),
        scheduler_servers.len() == schedulers.len(),
        forall|i: int| 0 <= i < schedulers.len() ==> spec_scheduler_exported(
            #[trigger] schedulers[i], scheduler_servers[i], spec_entries(file.schedulers)[i], rows),
        spec_entries(file.listeners).len() == listeners.len(),
        listen_servers.len() == listeners.len(),
        process_servers.len() == listeners.len(),
        forall|i: int| 0 <= i < listeners.len() ==> spec_listener_exported(
            #[trigger] listeners[i], listen_servers[i], process_servers[i], spec_entries(file.listeners)[i], rows),
    ensures
        spec_import_counts(file) == (servers.len() as int, schedulers.len() as int, listeners.len() as int),
        forall|i: int| 0 <= i < servers.len() ==> spec_parse_server_address((#[trigger] file.jobworkerp@[i]).address@)
            == Ok::<(Seq<char>, Seq<char>, bool), AddressError>((servers[i].1, servers[i].2, servers[i].3)),
        spec_item_imports_error(file, rows) is None,
        forall|i: int| 0 <= i < schedulers.len() ==> spec_scheduler_import(
            spec_entries(file.schedulers)[i], rows, #[trigger] schedulers[i]),
        forall|i: int| 0 <= i < listeners.len() ==> spec_listener_import(
            spec_entries(file.listeners)[i], rows, #[trigger] listeners[i]),
{
    let c = spec_entries(file.schedulers);
    let l = spec_entries(file.listeners);
    assert forall|i: int| 0 <= i < servers.len() implies spec_parse_server_address((#[trigger] file.jobworkerp@[i]).address@)
        == Ok::<(Seq<char>, Seq<char>, bool), AddressError>((servers[i].1, servers[i].2, servers[i].3)) by {
        let t = servers[i];
    }
    assert forall|i: int| 0 <= i < c.len() implies spec_scheduler_import_error(#[trigger] c[i], rows) is None
        && spec_scheduler_import(c[i], rows, schedulers[i]) by {
        law_scheduler_export_import_roundtrip(schedulers[i], scheduler_servers[i], c[i], rows);
    }
    assert forall|i: int| 0 <= i < l.len() implies spec_listener_import_error(#[trigger] l[i], rows) is None
        && spec_listener_import(l[i], rows, listeners[i]) by {
        law_listener_export_import_roundtrip(listeners[i], listen_servers[i], process_servers[i], l[i], rows);
    }
    lemma_schedulers_import_cleanly(c, rows, c.len());
    lemma_listeners_import_cleanly(l, rows, l.len());
}

/// Deleting the ids of each chunk in turn from a table of ids: the ids left, and the number of
/// rows the statements removed (each removes the rows of its chunk that are still there).
pub open spec fn spec_delete_in_chunks(table: Set<i64>, chunks: Seq<Seq<i64>>) -> (Set<i64>, nat)
    decreases chunks.len(),
{
    if chunks.len() == 0 {
        (table, 0)
    } else {
        let first = chunks[0].to_set();
        let (left, n) = spec_delete_in_chunks(table.difference(first), chunks.skip(1));
        (left, n + table.intersect(first).len())
    }
}

proof fn lemma_delete_in_chunks(table: Set<i64>, chunks: Seq<Seq<i64>>)
    requires
        table.finite(),
    ensures
        spec_delete_in_chunks(table, chunks) == (
            table.difference(spec_flatten_chunks(chunks).to_set()),
            table.intersect(spec_flatten_chunks(chunks).to_set()).len(),
        ),
    decreases chunks.len(),
{
    let all = spec_flatten_chunks(chunks).to_set();
    if chunks.len() == 0 {
        assert(all =~= Set::<i64>::empty());
        assert(table.difference(all) =~= table);
        assert(table.intersect(all) =~= Set::<i64>::empty());
    } else {
        let a = chunks[0].to_set();
        let rest = spec_flatten_chunks(chunks.skip(1));
        let b = rest.to_set();
        let t1 = table.difference(a);
        lemma_delete_in_chunks(t1, chunks.skip(1));
        vstd::seq_lib::seq_to_set_distributes_over_add(chunks[0], rest);
        assert(all =~= a + b);
        assert(t1.difference(b) =~= table.difference(all));
        let x = table.intersect(a);
        let y = t1.intersect(b);
        assert(table.intersect(all) =~= x + y);
        assert(x.disjoint(y));
        vstd::set_lib::lemma_set_disjoint_lens(x, y);
    }
}

/// Deleting ids chunk by chunk removes exactly the given ids that the table holds, every other
/// row staying, and the statements together report the number of those ids; no ids remove
/// nothing.
pub proof fn law_delete_by_ids(table: Set<i64>, ids: Seq<i64>)
    requires
        table.finite(),
    ensures
        spec_delete_in_chunks(table, spec_chunks(ids)) == (table.difference(ids.to_set()), table.intersect(ids.to_set()).len()),
        ids.len() == 0 ==> spec_delete_in_chunks(table, spec_chunks(ids)) == (table, 0nat),
{
    law_delete_chunks_cover_ids(ids);
    lemma_delete_in_chunks(table, spec_chunks(ids));
    if ids.len() == 0 {
        assert(spec_chunks(ids).len() == 0);
    }
}

} // verus!

