//! What a job result listener does with a listened result: the JSON input of the processing
//! job, how the job runs, and the execution record written before it is enqueued.
use vstd::prelude::*;
use crate::model::{ExecutionRef, ExecutionSourceType, JobworkerpServerId};
use crate::settings::JobResultListenerSetting;
use crate::text::{chars_of, i64_to_string, opt_view, spec_decimal_int, string_from_chars};

verus! {

/// The execution record written when a listened result triggers the processing job, before
/// its job id is known: the handler (id 0 when it has none) as source, the processing server,
/// the trigger context, and the trigger time as creation time.
pub fn build_pending_execution_ref(
    handler_id: Option<i64>,
    handler_name: &str,
    process_server_id: i64,
    trigger_context_json: String,
    now: i64,
) -> (r: ExecutionRef)
    ensures
        r.id is None,
        r.source_type == ExecutionSourceType::WorkerResultHandler.spec_to_i32(),
        r.source_id == (match handler_id { Some(h) => h, None => 0 }),
        r.source_name@ == handler_name@,
        r.jobworkerp_server_id == Some(JobworkerpServerId { value: process_server_id }),
        r.job_id is None,
        r.triggered_at == now,
        r.trigger_context_json matches Some(t) && t@ == trigger_context_json@,
        r.enqueue_error is None,
        r.created_at == now,
        r.result_status is None,
{
    ExecutionRef {
        id: None,
        source_type: ExecutionSourceType::WorkerResultHandler.to_i32(),
        source_id: match handler_id {
            Some(h) => h,
            None => 0,
        },
        source_name: String::from_str(handler_name),
        jobworkerp_server_id: Some(JobworkerpServerId { value: process_server_id }),
        job_id: None,
        triggered_at: now,
        trigger_context_json: Some(trigger_context_json),
        enqueue_error: None,
        created_at: now,
        result_status: None,
    }
}

/// The lower-case hexadecimal digit of a value below 16.
pub open spec fn hex_digit(d: nat) -> char {
    if d < 10 { (48 + d) as char } else { (87 + d) as char }
}

/// How `serde_json` writes one character inside a string: quote and backslash escaped,
/// backspace, tab, newline, form feed and carriage return by their short escapes, the other
/// control characters as `\u00XX`, every other character as itself.
pub open spec fn spec_json_escape(c: char) -> Seq<char> {
    if c == '"' {
        seq!['\\', '"']
    } else if c == '\\' {
        seq!['\\', '\\']
    } else if c == '\u{8}' {
        seq!['\\', 'b']
    } else if c == '\t' {
        seq!['\\', 't']
    } else if c == '\n' {
        seq!['\\', 'n']
    } else if c == '\u{c}' {
        seq!['\\', 'f']
    } else if c == '\r' {
        seq!['\\', 'r']
    } else if (c as u32) < 0x20 {
        seq!['\\', 'u', '0', '0', hex_digit((c as u32 / 16) as nat), hex_digit((c as u32 % 16) as nat)]
    } else {
        seq![c]
    }
}

/// The escaped characters of a string.
pub open spec fn spec_json_escape_all(s: Seq<char>) -> Seq<char>
    decreases s.len(),
{
    if s.len() == 0 {
        Seq::empty()
    } else {
        spec_json_escape_all(s.drop_last()) + spec_json_escape(s.last())
    }
}

/// A string as a JSON string literal, as `serde_json` writes it.
pub open spec fn spec_json_quote(s: Seq<char>) -> Seq<char> {
    seq!['"'] + spec_json_escape_all(s) + seq!['"']
}

fn push_escaped(out: &mut Vec<char>, c: char)
    ensures
        final(out)@ == old(out)@ + spec_json_escape(c),
{
    if c == '"' {
        out.push('\\');
        out.push('"');
    } else if c == '\\' {
        out.push('\\');
        out.push('\\');
    } else if c == '\u{8}' {
        out.push('\\');
        out.push('b');
    } else if c == '\t' {
        out.push('\\');
        out.push('t');
    } else if c == '\n' {
        out.push('\\');
        out.push('n');
    } else if c == '\u{c}' {
        out.push('\\');
        out.push('f');
    } else if c == '\r' {
        out.push('\\');
        out.push('r');
    } else if (c as u32) < 0x20 {
        let v = c as u32;
        let hi: u32 = v / 16;
        let lo: u32 = v % 16;
        let hc: char = if hi < 10 { ((48 + hi) as u8) as char } else { ((87 + hi) as u8) as char };
        let lc: char = if lo < 10 { ((48 + lo) as u8) as char } else { ((87 + lo) as u8) as char };
        out.push('\\');
        out.push('u');
        out.push('0');
        out.push('0');
        out.push(hc);
        out.push(lc);
        assert(out@ =~= old(out)@ + spec_json_escape(c));
        return;
    } else {
        out.push(c);
    }
    assert(out@ =~= old(out)@ + spec_json_escape(c));
}

/// A string as a JSON string literal.
pub fn json_quote(s: &str) -> (r: String)
    ensures
        r@ == spec_json_quote(s@),
{
    let cs = chars_of(s);
    let mut out: Vec<char> = Vec::new();
    out.push('"');
    let mut i: usize = 0;
    while i < cs.len()
        invariant
            cs@ == s@,
            i <= cs@.len(),
            out@ == seq!['"'] + spec_json_escape_all(cs@.take(i as int)),
        decreases cs@.len() - i,
    {
        proof {
            assert(cs@.take(i + 1).drop_last() =~= cs@.take(i as int));
            assert(cs@.take(i + 1).last() == cs@[i as int]);
        }
        push_escaped(&mut out, cs[i]);
        assert(out@ =~= seq!['"'] + spec_json_escape_all(cs@.take(i + 1)));
        i = i + 1;
    }
    assert(cs@.take(cs@.len() as int) =~= cs@);
    out.push('"');
    assert(out@ =~= spec_json_quote(s@));
    string_from_chars(&out)
}

/// What `serde_json` makes of a text read as a JSON value and written back compactly:
/// `None` when the text is no JSON.
pub uninterp spec fn json_reserialized(text: Seq<char>) -> Option<Seq<char>>;

/// `serde_json::from_str::<serde_json::Value>`, written back with `Value::to_string`.
#[verifier::external_body]
fn reserialize_json(text: &str) -> (r: Option<String>)
    ensures
        opt_view(r) == json_reserialized(text@),
{
    match serde_json::from_str::<serde_json::Value>(text) {
        Ok(v) => Some(v.to_string()),
        Err(_) => None,
    }
}

/// The handler arguments as a JSON value: the value they hold when they are JSON, else the
/// arguments as a JSON string.
pub open spec fn spec_args_value(args: Seq<char>) -> Seq<char> {
    match json_reserialized(args) {
        Some(t) => t,
        None => spec_json_quote(args),
    }
}

/// The input of the processing job: the listened result under `result`, and the handler
/// arguments under `args` when they are given and non-empty. The object is written compactly
/// with its keys in order, as `serde_json` writes an object.
pub open spec fn spec_combine_result_and_args(result_json: Seq<char>, args: Option<Seq<char>>) -> Seq<char> {
    match args {
        Some(a) if a.len() > 0 => "{\"args\":"@ + spec_args_value(a) + ",\"result\":"@ + result_json + "}"@,
        _ => "{\"result\":"@ + result_json + "}"@,
    }
}

/// Combines the listened result (as compact JSON text) with the handler arguments into the
/// input of the processing job.
pub fn combine_result_and_args(result_json: &str, args: Option<&str>) -> (r: String)
    ensures
        r@ == spec_combine_result_and_args(result_json@, match args { Some(a) => Some(a@), None => None }),
{
    match args {
        Some(a) => if a.unicode_len() > 0 {
            let value = match reserialize_json(a) {
                Some(t) => t,
                None => json_quote(a),
            };
            return String::from_str("{\"args\":").concat(value.as_str()).concat(",\"result\":").concat(result_json).concat("}");
        },
        None => {},
    }
    String::from_str("{\"result\":").concat(result_json).concat("}")
}

/// The trigger context of a listened result: its job result id and, when known, its job id
/// (else `null`), as a compact JSON object with its keys in order.
pub fn trigger_context_json(listen_job_result_id: i64, listen_job_id: Option<i64>) -> (r: String)
    ensures
        r@ == "{\"listen_job_id\":"@ + (match listen_job_id {
            Some(j) => spec_decimal_int(j as int),
            None => "null"@,
        }) + ",\"listen_job_result_id\":"@ + spec_decimal_int(listen_job_result_id as int) + "}"@,
{
    let job = match listen_job_id {
        Some(j) => i64_to_string(j),
        None => String::from_str("null"),
    };
    String::from_str("{\"listen_job_id\":").concat(job.as_str()).concat(",\"listen_job_result_id\":")
        .concat(i64_to_string(listen_job_result_id).as_str()).concat("}")
}

/// Whether a listened result is the empty JSON string, which is not processed.
pub fn is_empty_output(result_json: &str) -> (r: bool)
    ensures
        r == (result_json@ == seq!['"', '"']),
{
    let cs = chars_of(result_json);
    if cs.len() != 2 {
        return false;
    }
    let r = cs[0] == '"' && cs[1] == '"';
    assert(r ==> cs@ =~= seq!['"', '"']);
    r
}

/// How the processing job of a listener runs.
#[derive(Clone, Debug)]
pub enum ListenerRun {
    /// A worker by name, with its `using`.
    Worker { worker_name: String, using: Option<String> },
    /// A workflow by URL, on its channel.
    Workflow { workflow_url: String, channel: Option<String> },
}

/// The processing job of a listener: its worker when the worker name is non-empty, else its
/// workflow.
pub fn listener_run(setting: &JobResultListenerSetting) -> (r: ListenerRun)
    ensures
        match setting.worker_name {
            Some(w) if w@.len() > 0 => r matches ListenerRun::Worker { worker_name, using }
                && worker_name@ == w@ && opt_view(using) == opt_view(setting.using),
            _ => r matches ListenerRun::Workflow { workflow_url, channel }
                && workflow_url@ == setting.workflow_url@ && opt_view(channel) == opt_view(setting.channel),
        },
{
    match &setting.worker_name {
        Some(w) => if w.as_str().unicode_len() > 0 {
            return ListenerRun::Worker { worker_name: w.clone(), using: crate::text::clone_opt_string(&setting.using) };
        },
        None => {},
    }
    ListenerRun::Workflow {
        workflow_url: setting.workflow_url.clone(),
        channel: crate::text::clone_opt_string(&setting.channel),
    }
}

} // verus!
