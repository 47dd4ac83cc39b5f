//! The cells of the job-history listing.

use vstd::prelude::*;
use crate::dashboard::{job_id_spec, text_or_empty};
use crate::config::LoginConfig;
use crate::ssh::{condor_history_for_user, condor_history_spec, ssh_base_args_spec, texts};
use crate::text::{decimal, push_char, push_decimal};

verus! {

/// Latest Unix time (seconds) that falls within the year 9999.
pub const MAX_RFC3339_TS: i64 = 253402300799;

/// The RFC 3339 text of the UTC instant `ts` seconds after the Unix epoch,
/// when the time crate can write it.
pub uninterp spec fn rfc3339_of(ts: i64) -> Option<Seq<char>>;

/// Relies on the time crate: `OffsetDateTime::from_unix_timestamp` turns the
/// seconds into a UTC date-time, which `format(&Rfc3339)` writes out. Both
/// succeed for every instant from the epoch through the year 9999.
#[verifier::external_body]
fn rfc3339(ts: i64) -> (r: Option<String>)
    ensures
        match r {
            Some(s) => rfc3339_of(ts) == Some(s@),
            None => rfc3339_of(ts) is None,
        },
        0 <= ts <= MAX_RFC3339_TS ==> r is Some,
{
    time::OffsetDateTime::from_unix_timestamp(ts)
        .ok()
        .and_then(|d| d.format(&time::format_description::well_known::Rfc3339).ok())
}

/// A history entry.
#[derive(Clone, Debug, PartialEq, Eq)]
pub struct HistRow {
    pub cluster_id: i64,
    pub proc_id: i64,
    pub cmd: Option<String>,
    pub args: Option<String>,
    pub request_gpus: i32,
    pub q_unix: i64,
    pub start_unix: i64,
}

/// A dash, for a time that is unset or cannot be written.
pub open spec fn dash() -> Seq<char> {
    seq!['-']
}

/// The cell for the time `ts`, given what formatting it produced.
pub open spec fn time_cell_spec(ts: i64, formatted: Option<Seq<char>>) -> Seq<char> {
    if ts <= 0 {
        dash()
    } else {
        match formatted {
            Some(s) => s,
            None => dash(),
        }
    }
}

/// The cell for the time `ts`, given its formatted text if any: a dash
/// for an unset (non-positive) time or one that could not be formatted.
pub fn time_cell_from(ts: i64, formatted: Option<String>) -> (r: String)
    ensures
        r@ == time_cell_spec(ts, match formatted { Some(s) => Some(s@), None => None }),
{
    if ts <= 0 {
        let mut r = String::new();
        push_char(&mut r, '-');
        return r;
    }
    match formatted {
        Some(s) => s,
        None => {
            let mut r = String::new();
            push_char(&mut r, '-');
            r
        },
    }
}

/// The cell for the time `ts`: its RFC 3339 text, or a dash.
pub fn time_cell(ts: i64) -> (r: String)
    ensures
        r@ == time_cell_spec(ts, rfc3339_of(ts)),
        0 < ts <= MAX_RFC3339_TS ==> r@ == rfc3339_of(ts)->Some_0,
{
    if ts <= 0 {
        time_cell_from(ts, None)
    } else {
        time_cell_from(ts, rfc3339(ts))
    }
}

/// The cells of one history line: job id, command, arguments, GPU count,
/// queue time and start time.
pub open spec fn hist_cells_spec(h: HistRow) -> Seq<Seq<char>> {
    seq![
        job_id_spec(h.cluster_id, h.proc_id),
        text_or_empty(h.cmd),
        text_or_empty(h.args),
        decimal(h.request_gpus as int),
        time_cell_spec(h.q_unix, rfc3339_of(h.q_unix)),
        time_cell_spec(h.start_unix, rfc3339_of(h.start_unix)),
    ]
}

/// The text of an optional field, empty when absent.
fn text_of(s: &Option<String>) -> (r: String)
    ensures
        r@ == text_or_empty(*s),
{
    match s {
        Some(t) => t.clone(),
        None => String::new(),
    }
}

/// The cells of one history line.
pub fn hist_cells(h: &HistRow) -> (r: Vec<String>)
    ensures
        texts(r@) == hist_cells_spec(*h),
{
    let mut id = String::new();
    push_decimal(&mut id, h.cluster_id);
    push_char(&mut id, '.');
    push_decimal(&mut id, h.proc_id);
    let mut gpus = String::new();
    push_decimal(&mut gpus, h.request_gpus as i64);
    assert(id@ =~= job_id_spec(h.cluster_id, h.proc_id));
    assert(gpus@ =~= decimal(h.request_gpus as int));
    let mut r: Vec<String> = Vec::new();
    r.push(id);
    r.push(text_of(&h.cmd));
    r.push(text_of(&h.args));
    r.push(gpus);
    r.push(time_cell(h.q_unix));
    r.push(time_cell(h.start_unix));
    assert(texts(r@) =~= hist_cells_spec(*h));
    r
}

/// Attributes fetched for the history listing.
pub open spec fn hist_attrs() -> Seq<char> {
    "ClusterId,ProcId,Cmd,Args,RequestGPUs,QDate,JobStartDate"@
}

/// Number of past jobs listed when no limit is given.
pub const DEFAULT_HISTORY_LIMIT: usize = 10;

/// The limit in force: the one given, else `DEFAULT_HISTORY_LIMIT`.
pub open spec fn limit_or_default(limit: Option<usize>) -> usize {
    match limit {
        Some(n) => n,
        None => DEFAULT_HISTORY_LIMIT,
    }
}

/// The SSH invocation that fetches `username`'s past jobs for the
/// history listing, at most `limit` of them (ten when none is given).
pub fn hist_query(login: &LoginConfig, username: &str, limit: Option<usize>) -> (r: Vec<String>)
    ensures
        texts(r@) == ssh_base_args_spec(*login).push(
            condor_history_spec(username@, hist_attrs(), limit_or_default(limit) as nat),
        ),
{
    let n: usize = match limit {
        Some(n) => n,
        None => DEFAULT_HISTORY_LIMIT,
    };
    condor_history_for_user(login, username, "ClusterId,ProcId,Cmd,Args,RequestGPUs,QDate,JobStartDate", n)
}

} // verus!
