//! Validation of Slack event handler configurations: event conditions, regular expressions
//! (bounded against catastrophic patterns), reaction names and workflow URLs.
use vstd::prelude::*;
use crate::model::{ExecutionTarget, ReactionOperation, SlackEventHandlerData};
use crate::config_management::{parse_url, url_parse};
use crate::execution_target::{matches_error, spec_execution_target_error, validate_execution_target_impl};
use crate::text::{
    byte_len, chars_of, spec_contains, spec_decimal, spec_split, spec_starts_with, spec_trim,
    split_chars, str_contains, str_starts_with, string_from_chars, trim_chars, usize_to_string,
    views,
};

verus! {

#[verifier::external_type_specification]
#[verifier::external_body]
pub struct ExInstant(std::time::Instant);

/// Whether a handler has a message condition (a pattern or a required mention).
pub open spec fn spec_has_message_condition(data: SlackEventHandlerData) -> bool {
    data.message_pattern is Some || data.mention_required
}

/// Whether a handler has a reaction condition (reaction names or a known, specified
/// reaction operation).
pub open spec fn spec_has_reaction_condition(data: SlackEventHandlerData) -> bool {
    data.reaction_names is Some || (match ReactionOperation::spec_from_i32(data.reaction_operation) {
        Some(op) => op != ReactionOperation::Unspecified,
        None => false,
    })
}

pub open spec fn msg_mutually_exclusive() -> Seq<char> {
    "Message conditions and reaction conditions are mutually exclusive. Cannot have both (message_pattern/mention_required) and (reaction_names/reaction_operation) set."@
}

pub open spec fn msg_no_condition() -> Seq<char> {
    "At least one event condition must be specified. Set either message conditions (message_pattern/mention_required) or reaction conditions (reaction_names/reaction_operation)."@
}

/// Why a handler's event conditions are inconsistent, if they are: message and reaction
/// conditions exclude each other, and at least one must be set.
pub open spec fn spec_event_type_error(data: SlackEventHandlerData) -> Option<Seq<char>> {
    let m = spec_has_message_condition(data);
    let r = spec_has_reaction_condition(data);
    if m && r {
        Some(msg_mutually_exclusive())
    } else if !m && !r {
        Some(msg_no_condition())
    } else {
        None
    }
}

/// Validates that exactly one kind of event condition is set.
pub fn validate_event_type_consistency(data: &SlackEventHandlerData) -> (r: Result<(), String>)
    ensures
        matches_error(r, spec_event_type_error(*data)),
{
    let has_message_condition = data.message_pattern.is_some() || data.mention_required;
    let has_reaction_condition = data.reaction_names.is_some() || match ReactionOperation::from_i32(data.reaction_operation) {
        Some(op) => op != ReactionOperation::Unspecified,
        None => false,
    };
    if has_message_condition && has_reaction_condition {
        return Err(String::from_str("Message conditions and reaction conditions are mutually exclusive. Cannot have both (message_pattern/mention_required) and (reaction_names/reaction_operation) set."));
    }
    if !has_message_condition && !has_reaction_condition {
        return Err(String::from_str("At least one event condition must be specified. Set either message conditions (message_pattern/mention_required) or reaction conditions (reaction_names/reaction_operation)."));
    }
    Ok(())
}

/// Longest accepted pattern, in bytes.
pub const MAX_REGEX_PATTERN_BYTES: usize = 500;

/// Compiled-size limit of a pattern, in bytes.
pub const REGEX_SIZE_LIMIT: usize = 10485760;

/// Longest accepted compile time, in nanoseconds.
pub const REGEX_COMPILE_TIME_LIMIT_NANOS: u128 = 1000000000;

/// Whether the `regex` crate builds the pattern within the given compiled-size limit.
pub uninterp spec fn regex_builds(pattern: Seq<char>, size_limit: usize) -> bool;

/// `regex::RegexBuilder::new(pattern).size_limit(size_limit).build()`: succeeds exactly
/// when the pattern builds within the limit; the error's description otherwise.
#[verifier::external_body]
fn build_regex(pattern: &str, size_limit: usize) -> (r: Result<(), String>)
    ensures
        r is Ok <==> regex_builds(pattern@, size_limit),
{
    match regex::RegexBuilder::new(pattern).size_limit(size_limit).build() {
        Ok(_) => Ok(()),
        Err(e) => Err(e.to_string()),
    }
}

/// `std::time::Instant::now`: the current monotonic instant.
#[verifier::external_body]
fn instant_now() -> std::time::Instant {
    std::time::Instant::now()
}

/// `Instant::elapsed`, in nanoseconds. Nothing is stated: it depends on the clock.
#[verifier::external_body]
fn elapsed_nanos(start: &std::time::Instant) -> u128 {
    start.elapsed().as_nanos()
}

/// How compiling a pattern went: the build result and the time it took.
pub struct RegexOutcome {
    pub build: Result<(), String>,
    pub elapsed_nanos: u128,
}

pub open spec fn msg_regex_too_long(len: nat) -> Seq<char> {
    "Regex pattern too long (max 500 chars): "@ + spec_decimal(len) + " chars"@
}

pub open spec fn msg_regex_invalid() -> Seq<char> {
    "Invalid regex pattern"@
}

pub open spec fn msg_regex_timeout() -> Seq<char> {
    "Regex compilation timeout (max 1 second)"@
}

/// Why a pattern is rejected, given how compiling it went: too long, not compilable, or
/// compiled too slowly.
pub open spec fn spec_regex_error(pattern: Seq<char>, build_ok: bool, elapsed: u128) -> Option<Seq<char>> {
    if byte_len(pattern) > 500 {
        Some(msg_regex_too_long(byte_len(pattern) as nat))
    } else if !build_ok {
        Some(msg_regex_invalid())
    } else if elapsed > 1000000000 {
        Some(msg_regex_timeout())
    } else {
        None
    }
}

/// Validates a pattern from how compiling it went (`outcome` is only consulted for a
/// pattern short enough to be compiled).
pub fn validate_regex_pattern_with(pattern: &str, outcome: &RegexOutcome) -> (r: Result<(), String>)
    ensures
        matches_error(r, spec_regex_error(pattern@, outcome.build is Ok, outcome.elapsed_nanos)),
{
    let len = pattern.len();
    if len > MAX_REGEX_PATTERN_BYTES {
        let m = String::from_str("Regex pattern too long (max 500 chars): ")
            .concat(usize_to_string(len).as_str())
            .concat(" chars");
        return Err(m);
    }
    if outcome.build.is_err() {
        return Err(String::from_str("Invalid regex pattern"));
    }
    if outcome.elapsed_nanos > REGEX_COMPILE_TIME_LIMIT_NANOS {
        return Err(String::from_str("Regex compilation timeout (max 1 second)"));
    }
    Ok(())
}

/// Validates a pattern against catastrophic-backtracking abuse: at most 500 bytes, compilable
/// within a 10 MiB compiled size, in at most one second. An accepted pattern is short and
/// compiles; a long one is rejected as too long, an uncompilable one as invalid. Whether the
/// compile time stays under the limit depends on the machine.
pub fn validate_regex_pattern(pattern: &str) -> (r: Result<(), String>)
    ensures
        r is Ok ==> byte_len(pattern@) <= 500 && regex_builds(pattern@, 10485760),
        byte_len(pattern@) > 500 ==> r is Err && r->Err_0@ == msg_regex_too_long(byte_len(pattern@) as nat),
        byte_len(pattern@) <= 500 && !regex_builds(pattern@, 10485760) ==> r is Err && r->Err_0@ == msg_regex_invalid(),
{
    if pattern.len() > MAX_REGEX_PATTERN_BYTES {
        let outcome = RegexOutcome { build: Ok(()), elapsed_nanos: 0 };
        return validate_regex_pattern_with(pattern, &outcome);
    }
    let start = instant_now();
    let build = build_regex(pattern, REGEX_SIZE_LIMIT);
    let elapsed = elapsed_nanos(&start);
    let outcome = RegexOutcome { build, elapsed_nanos: elapsed };
    validate_regex_pattern_with(pattern, &outcome)
}

/// Whether a character is alphanumeric in Unicode (`char::is_alphanumeric`).
pub uninterp spec fn unicode_alphanumeric(c: char) -> bool;

/// `char::is_alphanumeric`.
#[verifier::external_body]
fn char_is_alphanumeric(c: char) -> (r: bool)
    ensures
        r == unicode_alphanumeric(c),
{
    c.is_alphanumeric()
}

/// The characters allowed in a reaction name: alphanumerics, `_`, `-`, `+`.
pub open spec fn spec_reaction_char_allowed(c: char) -> bool {
    unicode_alphanumeric(c) || c == '_' || c == '-' || c == '+'
}

pub open spec fn spec_all_reaction_chars(s: Seq<char>) -> bool {
    forall|i: int| 0 <= i < s.len() ==> spec_reaction_char_allowed(#[trigger] s[i])
}

/// The reaction names of a comma-separated list, each trimmed.
pub open spec fn spec_reaction_pieces(names: Seq<char>) -> Seq<Seq<char>> {
    spec_split(names, ',').map_values(|p: Seq<char>| spec_trim(p))
}

/// Why one reaction name is rejected, if it is: more than 100 bytes, or a character that is
/// not allowed.
pub open spec fn spec_reaction_name_error(p: Seq<char>) -> Option<Seq<char>> {
    if byte_len(p) > 100 {
        Some("Reaction name too long (max 100 chars): '"@ + p + "'"@)
    } else if !spec_all_reaction_chars(p) {
        Some("Invalid reaction name '"@ + p + "': only alphanumeric, _, -, + allowed"@)
    } else {
        None
    }
}

/// The first error among the first `n` reaction names.
pub open spec fn spec_first_reaction_error(ps: Seq<Seq<char>>, n: int) -> Option<Seq<char>>
    decreases n,
{
    if n <= 0 {
        None
    } else {
        match spec_first_reaction_error(ps, n - 1) {
            Some(e) => Some(e),
            None => spec_reaction_name_error(ps[n - 1]),
        }
    }
}

/// Why a reaction name list is rejected, if it is: more than 50 names, or the first name
/// that is rejected.
pub open spec fn spec_reaction_names_error(names: Seq<char>) -> Option<Seq<char>> {
    let ps = spec_reaction_pieces(names);
    if ps.len() > 50 {
        Some("Too many reactions (max 50): "@ + spec_decimal(ps.len()))
    } else {
        spec_first_reaction_error(ps, ps.len() as int)
    }
}

proof fn lemma_first_reaction_error_stable(ps: Seq<Seq<char>>, n: int, m: int)
    requires
        0 <= n <= m,
        spec_first_reaction_error(ps, n) is Some,
    ensures
        spec_first_reaction_error(ps, m) == spec_first_reaction_error(ps, n),
    decreases m - n,
{
    if m > n {
        lemma_first_reaction_error_stable(ps, n, m - 1);
    }
}

fn all_reaction_chars(p: &Vec<char>) -> (r: bool)
    ensures
        r == spec_all_reaction_chars(p@),
{
    for i in 0..p.len()
        invariant
            forall|k: int| 0 <= k < i ==> spec_reaction_char_allowed(#[trigger] p@[k]),
    {
        let c = p[i];
        if !(char_is_alphanumeric(c) || c == '_' || c == '-' || c == '+') {
            assert(!spec_reaction_char_allowed(p@[i as int]));
            return false;
        }
    }
    true
}

fn reaction_name_error(p: &Vec<char>) -> (r: Option<String>)
    ensures
        crate::text::opt_view(r) == spec_reaction_name_error(p@),
{
    let s = string_from_chars(p);
    if s.as_str().len() > 100 {
        return Some(String::from_str("Reaction name too long (max 100 chars): '").concat(s.as_str()).concat("'"));
    }
    if !all_reaction_chars(p) {
        return Some(String::from_str("Invalid reaction name '").concat(s.as_str()).concat("': only alphanumeric, _, -, + allowed"));
    }
    None
}

/// Validates a comma-separated list of reaction names: at most 50 names, each (trimmed) of
/// at most 100 bytes and made of alphanumerics, `_`, `-`, `+`.
pub fn validate_reaction_names(names: &str) -> (r: Result<(), String>)
    ensures
        matches_error(r, spec_reaction_names_error(names@)),
{
    let chars = chars_of(names);
    let raw = split_chars(&chars, ',');
    let mut pieces: Vec<Vec<char>> = Vec::new();
    for i in 0..raw.len()
        invariant
            views(raw@) == spec_split(names@, ','),
            views(pieces@) == spec_split(names@, ',').take(i as int).map_values(|p: Seq<char>| spec_trim(p)),
    {
        let t = trim_chars(&raw[i]);
        let ghost before = views(pieces@);
        pieces.push(t);
        assert(views(pieces@) =~= before.push(t@));
        assert(views(raw@)[i as int] == raw@[i as int]@);
        assert(spec_split(names@, ',').take(i + 1).map_values(|p: Seq<char>| spec_trim(p))
            =~= spec_split(names@, ',').take(i as int).map_values(|p: Seq<char>| spec_trim(p)).push(t@));
    }
    assert(spec_split(names@, ',').take(raw@.len() as int) =~= spec_split(names@, ','));
    assert(views(pieces@) == spec_reaction_pieces(names@));
    assert(views(pieces@).len() == pieces@.len());
    let count = pieces.len();
    if count > 50 {
        return Err(String::from_str("Too many reactions (max 50): ").concat(usize_to_string(count).as_str()));
    }
    for i in 0..pieces.len()
        invariant
            views(pieces@) == spec_reaction_pieces(names@),
            views(pieces@).len() == pieces@.len(),
            pieces@.len() <= 50,
            spec_first_reaction_error(views(pieces@), i as int) is None,
    {
        assert(views(pieces@)[i as int] == pieces@[i as int]@);
        match reaction_name_error(&pieces[i]) {
            Some(m) => {
                proof {
                    assert(spec_first_reaction_error(views(pieces@), i + 1) == Some(m@));
                    lemma_first_reaction_error_stable(views(pieces@), i + 1, pieces@.len() as int);
                }
                return Err(m);
            },
            None => {},
        }
    }
    Ok(())
}

pub open spec fn msg_url_too_long(len: nat) -> Seq<char> {
    "Workflow URL too long (max 2048 chars): "@ + spec_decimal(len) + " chars"@
}

pub open spec fn msg_url_scheme() -> Seq<char> {
    "Invalid URL scheme: must be http://, https://, or file://"@
}

pub open spec fn msg_url_traversal() -> Seq<char> {
    "Path traversal detected in URL: '..' is not allowed"@
}

pub open spec fn msg_url_format() -> Seq<char> {
    "Invalid URL format"@
}

/// Why a workflow URL is rejected, if it is, checked in order: more than 2048 bytes, a
/// scheme other than `http://`, `https://`, `file://`, a `..` anywhere in it, or text that
/// is no valid URL.
pub open spec fn spec_workflow_url_error(url: Seq<char>) -> Option<Seq<char>> {
    if byte_len(url) > 2048 {
        Some(msg_url_too_long(byte_len(url) as nat))
    } else if !(spec_starts_with(url, "http://"@) || spec_starts_with(url, "https://"@)
        || spec_starts_with(url, "file://"@)) {
        Some(msg_url_scheme())
    } else if spec_contains(url, ".."@) {
        Some(msg_url_traversal())
    } else if url_parse(url) is None {
        Some(msg_url_format())
    } else {
        None
    }
}

/// Validates a workflow URL: length, scheme, no path traversal, and a valid URL format.
pub fn validate_workflow_url(url: &str) -> (r: Result<(), String>)
    ensures
        matches_error(r, spec_workflow_url_error(url@)),
{
    let len = url.len();
    if len > 2048 {
        return Err(String::from_str("Workflow URL too long (max 2048 chars): ")
            .concat(usize_to_string(len).as_str())
            .concat(" chars"));
    }
    if !str_starts_with(url, "http://") && !str_starts_with(url, "https://") && !str_starts_with(url, "file://") {
        return Err(String::from_str("Invalid URL scheme: must be http://, https://, or file://"));
    }
    if str_contains(url, "..") {
        return Err(String::from_str("Path traversal detected in URL: '..' is not allowed"));
    }
    if parse_url(url).is_none() {
        return Err(String::from_str("Invalid URL format"));
    }
    Ok(())
}

/// The URL that is validated for a handler's target: the target's URL for a workflow
/// target, the deprecated field when there is no target and it is set, else none.
pub open spec fn spec_url_to_check(data: SlackEventHandlerData) -> Option<Seq<char>> {
    match data.execution_target {
        Some(ExecutionTarget::Workflow(wf)) => Some(wf.workflow_url@),
        None => if data.workflow_url@.len() > 0 { Some(data.workflow_url@) } else { None },
        _ => None,
    }
}

/// Why a handler's data is rejected given how compiling its patterns went (`pattern` for
/// `message_pattern`, `filter` for `reaction_user_filter`), checked in order: event
/// conditions, message pattern, reaction user filter, reaction names, execution target,
/// workflow URL.
pub open spec fn spec_handler_data_error(
    data: SlackEventHandlerData,
    pattern: Option<(bool, u128)>,
    filter: Option<(bool, u128)>,
) -> Option<Seq<char>> {
    let e1 = spec_event_type_error(data);
    let e2 = match data.message_pattern {
        Some(p) => match pattern {
            Some((ok, t)) => spec_regex_error(p@, ok, t),
            None => spec_regex_error(p@, true, 0),
        },
        None => None,
    };
    let e3 = match data.reaction_user_filter {
        Some(p) => match filter {
            Some((ok, t)) => spec_regex_error(p@, ok, t),
            None => spec_regex_error(p@, true, 0),
        },
        None => None,
    };
    let e4 = match data.reaction_names {
        Some(n) => spec_reaction_names_error(n@),
        None => None,
    };
    let e5 = spec_execution_target_error(data.execution_target, data.workflow_url@);
    let e6 = match spec_url_to_check(data) {
        Some(u) => spec_workflow_url_error(u),
        None => None,
    };
    if e1 is Some { e1 } else if e2 is Some { e2 } else if e3 is Some { e3 } else if e4 is Some {
        e4
    } else if e5 is Some { e5 } else { e6 }
}

/// The compile outcome as the spec sees it.
pub open spec fn outcome_view(o: Option<RegexOutcome>) -> Option<(bool, u128)> {
    match o {
        Some(o) => Some((o.build is Ok, o.elapsed_nanos)),
        None => None,
    }
}

/// Validates all fields of a handler's data from how compiling its patterns went.
pub fn validate_handler_data_with(
    data: &SlackEventHandlerData,
    pattern: &Option<RegexOutcome>,
    filter: &Option<RegexOutcome>,
) -> (r: Result<(), String>)
    ensures
        matches_error(r, spec_handler_data_error(*data, outcome_view(*pattern), outcome_view(*filter))),
{
    let e1 = validate_event_type_consistency(data);
    if e1.is_err() {
        return e1;
    }
    match &data.message_pattern {
        Some(p) => {
            let e2 = match pattern {
                Some(o) => validate_regex_pattern_with(p.as_str(), o),
                None => validate_regex_pattern_with(p.as_str(), &RegexOutcome { build: Ok(()), elapsed_nanos: 0 }),
            };
            if e2.is_err() {
                return e2;
            }
        },
        None => {},
    }
    match &data.reaction_user_filter {
        Some(p) => {
            let e3 = match filter {
                Some(o) => validate_regex_pattern_with(p.as_str(), o),
                None => validate_regex_pattern_with(p.as_str(), &RegexOutcome { build: Ok(()), elapsed_nanos: 0 }),
            };
            if e3.is_err() {
                return e3;
            }
        },
        None => {},
    }
    match &data.reaction_names {
        Some(n) => {
            let e4 = validate_reaction_names(n.as_str());
            if e4.is_err() {
                return e4;
            }
        },
        None => {},
    }
    let e5 = validate_execution_target_impl(&data.execution_target, data.workflow_url.as_str());
    if e5.is_err() {
        return e5;
    }
    match &data.execution_target {
        Some(ExecutionTarget::Workflow(wf)) => validate_workflow_url(wf.workflow_url.as_str()),
        None => if !data.workflow_url.as_str().is_empty() {
            validate_workflow_url(data.workflow_url.as_str())
        } else {
            Ok(())
        },
        _ => Ok(()),
    }
}

fn compile_outcome(pattern: &Option<String>) -> (r: Option<RegexOutcome>)
    ensures
        match *pattern {
            Some(p) => r matches Some(o) && (byte_len(p@) <= 500 ==> (o.build is Ok <==> regex_builds(p@, 10485760)))
                && (byte_len(p@) > 500 ==> o.build is Ok),
            None => r is None,
        },
{
    match pattern {
        Some(p) => {
            if p.as_str().len() > MAX_REGEX_PATTERN_BYTES {
                Some(RegexOutcome { build: Ok(()), elapsed_nanos: 0 })
            } else {
                let start = instant_now();
                let build = build_regex(p.as_str(), REGEX_SIZE_LIMIT);
                let elapsed = elapsed_nanos(&start);
                Some(RegexOutcome { build, elapsed_nanos: elapsed })
            }
        },
        None => None,
    }
}

/// What `spec_handler_data_error` says when the patterns build as the `regex` crate builds
/// them and compiling took `t1` and `t2` nanoseconds.
pub open spec fn spec_handler_data_error_at(data: SlackEventHandlerData, t1: u128, t2: u128) -> Option<Seq<char>> {
    spec_handler_data_error(
        data,
        match data.message_pattern {
            Some(p) => Some((regex_builds(p@, 10485760) || byte_len(p@) > 500, t1)),
            None => None,
        },
        match data.reaction_user_filter {
            Some(p) => Some((regex_builds(p@, 10485760) || byte_len(p@) > 500, t2)),
            None => None,
        },
    )
}

/// Validates all fields of a handler's data, compiling its patterns. The answer is the one
/// `validate_handler_data_with` gives for some compile times: it is exact except for how
/// long compiling took.
pub fn validate_handler_data(data: &SlackEventHandlerData) -> (r: Result<(), String>)
    ensures
        exists|t1: u128, t2: u128| matches_error(r, #[trigger] spec_handler_data_error_at(*data, t1, t2)),
{
    let pattern = compile_outcome(&data.message_pattern);
    let filter = compile_outcome(&data.reaction_user_filter);
    let r = validate_handler_data_with(data, &pattern, &filter);
    let ghost t1: u128 = match pattern { Some(o) => o.elapsed_nanos, None => 0 };
    let ghost t2: u128 = match filter { Some(o) => o.elapsed_nanos, None => 0 };
    assert(outcome_view(pattern) == match data.message_pattern {
        Some(p) => Some((regex_builds(p@, 10485760) || byte_len(p@) > 500, t1)),
        None => None::<(bool, u128)>,
    });
    assert(outcome_view(filter) == match data.reaction_user_filter {
        Some(p) => Some((regex_builds(p@, 10485760) || byte_len(p@) > 500, t2)),
        None => None::<(bool, u128)>,
    });
    assert(matches_error(r, spec_handler_data_error_at(*data, t1, t2)));
    r
}

} // verus!
