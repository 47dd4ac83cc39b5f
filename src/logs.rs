//! Choosing which running job's logs to show, and the remote command that
//! tails one of its files.

use vstd::prelude::*;
use crate::ssh::{condor_q_command, condor_q_spec, escape_single_quotes, shell_escape_single_quotes};
use crate::text::{decimal, push_char, push_decimal, push_str_chars, chars_of, first_index, lemma_first_index};

verus! {

/// Value of a string of decimal digits.
pub open spec fn digits_value(d: Seq<char>) -> nat
    decreases d.len(),
{
    if d.len() == 0 {
        0
    } else {
        digits_value(d.drop_last()) * 10 + ((d.last() as u32 - 48) as nat)
    }
}

/// Every character is an ASCII decimal digit.
pub open spec fn all_digits(d: Seq<char>) -> bool {
    forall|i: int| 0 <= i < d.len() ==> '0' <= #[trigger] d[i] <= '9'
}

/// How `i32` reads from text: an optional `+` or `-`, then one or more
/// decimal digits, with the value in range; nothing else is accepted.
pub open spec fn parse_i32_spec(s: Seq<char>) -> Option<i32> {
    let signed = s.len() > 0 && (s[0] == '+' || s[0] == '-');
    let neg = s.len() > 0 && s[0] == '-';
    let d = if signed { s.skip(1) } else { s };
    if d.len() == 0 || !all_digits(d) {
        None
    } else {
        let v: int = if neg { -(digits_value(d) as int) } else { digits_value(d) as int };
        if i32::MIN <= v <= i32::MAX {
            Some(v as i32)
        } else {
            None
        }
    }
}

/// Relies on `str::parse::<i32>`, whose documentation accepts an optional
/// sign followed by decimal digits only, and rejects values out of range.
#[verifier::external_body]
fn parse_i32(s: &str) -> (r: Option<i32>)
    ensures
        r == parse_i32_spec(s@),
{
    s.parse::<i32>().ok()
}

/// ASCII case folding of one character.
pub open spec fn ascii_lower(c: char) -> char {
    if 'A' <= c <= 'Z' {
        ((c as u32) + 32) as char
    } else {
        c
    }
}

/// Equality up to ASCII case.
pub open spec fn eq_ignore_case(a: Seq<char>, b: Seq<char>) -> bool {
    a.len() == b.len() && forall|i: int| 0 <= i < a.len() ==> ascii_lower(#[trigger] a[i]) == ascii_lower(b[i])
}

/// Equality up to ASCII case, as `str::eq_ignore_ascii_case` decides it.
fn eq_ignore_ascii_case(a: &str, b: &str) -> (r: bool)
    ensures
        r == eq_ignore_case(a@, b@),
{
    let x = chars_of(a);
    let y = chars_of(b);
    if x.len() != y.len() {
        return false;
    }
    let mut i: usize = 0;
    while i < x.len()
        invariant
            i <= x@.len(),
            x@ == a@,
            y@ == b@,
            x@.len() == y@.len(),
            forall|k: int| 0 <= k < i ==> ascii_lower(#[trigger] x@[k]) == ascii_lower(y@[k]),
        decreases x@.len() - i,
    {
        let c = x[i];
        let d = y[i];
        let lc = if 'A' <= c && c <= 'Z' { ((c as u32) + 32) as u8 as char } else { c };
        let ld = if 'A' <= d && d <= 'Z' { ((d as u32) + 32) as u8 as char } else { d };
        if lc != ld {
            return false;
        }
        i = i + 1;
    }
    true
}

/// Whether the selector asks for the most recently queued job.
pub open spec fn is_latest_word(s: Seq<char>) -> bool {
    eq_ignore_case(s, "latest"@) || eq_ignore_case(s, "l"@)
}

/// What a job selector names: a cluster and, after a dot, a process; a
/// bare cluster; or nothing (the latest job), which includes text that
/// is neither.
pub open spec fn job_selector_spec(s: Seq<char>) -> Option<(i32, Option<i32>)> {
    let dot = first_index(s, '.');
    if is_latest_word(s) {
        None
    } else if dot >= 0 && parse_i32_spec(s.take(dot)) is Some && parse_i32_spec(s.skip(dot + 1)) is Some {
        Some((parse_i32_spec(s.take(dot))->Some_0, Some(parse_i32_spec(s.skip(dot + 1))->Some_0)))
    } else if parse_i32_spec(s) is Some {
        Some((parse_i32_spec(s)->Some_0, None))
    } else {
        None
    }
}

/// Reads a job selector: `<cluster>.<proc>`, `<cluster>`, or `latest` /
/// `l` (any case), which yields none.
pub fn parse_job_selector(selector: &str) -> (r: Option<(i32, Option<i32>)>)
    ensures
        r == job_selector_spec(selector@),
{
    if eq_ignore_ascii_case(selector, "latest") || eq_ignore_ascii_case(selector, "l") {
        return None;
    }
    let cs = chars_of(selector);
    let mut i: usize = 0;
    while i < cs.len() && cs[i] != '.'
        invariant
            i <= cs@.len(),
            cs@ == selector@,
            forall|j: int| 0 <= j < i ==> cs@[j] != '.',
        decreases cs@.len() - i,
    {
        i = i + 1;
    }
    proof {
        lemma_first_index(selector@, '.', i as int);
    }
    if i < cs.len() {
        let n = cs.len();
        let c = selector.substring_char(0, i);
        let p = selector.substring_char(i + 1, n);
        assert(c@ == selector@.take(i as int));
        assert(p@ =~= selector@.skip(i + 1));
        if let Some(cluster_id) = parse_i32(c) {
            if let Some(proc_id) = parse_i32(p) {
                return Some((cluster_id, Some(proc_id)));
            }
        }
    }
    if let Some(cluster_id) = parse_i32(selector) {
        return Some((cluster_id, None));
    }
    None
}

/// A running job as the log viewer sees it.
#[derive(Clone, Debug, PartialEq, Eq)]
pub struct LogJob {
    pub cluster_id: i32,
    pub proc_id: i32,
    pub cmd: Option<String>,
    pub args: Option<String>,
    pub iwd: Option<String>,
    pub user_log: Option<String>,
    pub err: Option<String>,
    pub out: Option<String>,
    pub job_start_date: Option<i64>,
    pub q_date: Option<i64>,
}

/// The queue date a job is ranked by, zero when unknown.
pub open spec fn queue_key(j: LogJob) -> i64 {
    match j.q_date {
        Some(d) => d,
        None => 0,
    }
}

/// `i` is the last of the jobs with the greatest queue date.
pub open spec fn is_latest(jobs: Seq<LogJob>, i: int) -> bool {
    &&& 0 <= i < jobs.len()
    &&& forall|j: int| 0 <= j < jobs.len() ==> queue_key(#[trigger] jobs[j]) <= queue_key(jobs[i])
    &&& forall|j: int| i < j < jobs.len() ==> queue_key(#[trigger] jobs[j]) < queue_key(jobs[i])
}

/// Whether job `j` is the one a selector names.
pub open spec fn matches_selector(j: LogJob, cluster_id: i32, proc_id: Option<i32>) -> bool {
    j.cluster_id == cluster_id && match proc_id {
        Some(p) => j.proc_id == p,
        None => true,
    }
}

/// `i` is the first job that the selector names.
pub open spec fn is_first_match(jobs: Seq<LogJob>, cluster_id: i32, proc_id: Option<i32>, i: int) -> bool {
    &&& 0 <= i < jobs.len()
    &&& matches_selector(jobs[i], cluster_id, proc_id)
    &&& forall|j: int| 0 <= j < i ==> !matches_selector(#[trigger] jobs[j], cluster_id, proc_id)
}

/// The message when no running job matches a selector.
pub open spec fn not_found_spec(cluster_id: i32, proc_id: Option<i32>) -> Seq<char> {
    let id = match proc_id {
        Some(p) => decimal(cluster_id as int) + seq!['.'] + decimal(p as int),
        None => decimal(cluster_id as int),
    };
    "Job "@ + id + " not found among running jobs"@
}

/// The job a selector names, if any; none means the latest job.
pub open spec fn selector_target(selector: Option<&str>) -> Option<(i32, Option<i32>)> {
    match selector {
        Some(s) => job_selector_spec(s@),
        None => None,
    }
}

/// Index of the last job with the greatest queue date.
pub fn latest_job(jobs: &Vec<LogJob>) -> (r: usize)
    requires
        jobs@.len() > 0,
    ensures
        is_latest(jobs@, r as int),
{
    let mut best: usize = 0;
    let mut i: usize = 1;
    while i < jobs.len()
        invariant
            1 <= i <= jobs@.len(),
            best < i,
            forall|j: int| 0 <= j < i ==> queue_key(#[trigger] jobs@[j]) <= queue_key(jobs@[best as int]),
            forall|j: int| best < j < i ==> queue_key(#[trigger] jobs@[j]) < queue_key(jobs@[best as int]),
        decreases jobs@.len() - i,
    {
        let kb: i64 = match jobs[best].q_date { Some(d) => d, None => 0 };
        let ki: i64 = match jobs[i].q_date { Some(d) => d, None => 0 };
        if ki >= kb {
            best = i;
        }
        i = i + 1;
    }
    best
}

/// Picks the job whose logs to show: the one the selector names, or the
/// latest when there is no selector or it asks for the latest; an error
/// when no running job matches.
pub fn select_job(jobs: &Vec<LogJob>, selector: Option<&str>) -> (r: Result<usize, String>)
    requires
        jobs@.len() > 0,
    ensures
        selector_target(selector) is None ==> (r matches Ok(i) && is_latest(jobs@, i as int)),
        selector_target(selector) matches Some((c, p)) ==> match r {
            Ok(i) => is_first_match(jobs@, c, p, i as int),
            Err(m) => m@ == not_found_spec(c, p)
                && forall|j: int| 0 <= j < jobs@.len() ==> !matches_selector(#[trigger] jobs@[j], c, p),
        },
{
    let parsed = match selector {
        Some(s) => parse_job_selector(s),
        None => {
            return Ok(latest_job(jobs));
        },
    };
    match parsed {
        None => Ok(latest_job(jobs)),
        Some((c, p)) => {
            let mut i: usize = 0;
            while i < jobs.len()
                invariant
                    i <= jobs@.len(),
                    selector_target(selector) == Some((c, p)),
                    forall|j: int| 0 <= j < i ==> !matches_selector(#[trigger] jobs@[j], c, p),
                decreases jobs@.len() - i,
            {
                let hit = jobs[i].cluster_id == c && match p {
                    Some(pid) => jobs[i].proc_id == pid,
                    None => true,
                };
                if hit {
                    return Ok(i);
                }
                i = i + 1;
            }
            let mut m = String::new();
            push_str_chars(&mut m, "Job ");
            push_decimal(&mut m, c as i64);
            if let Some(pid) = p {
                push_char(&mut m, '.');
                push_decimal(&mut m, pid as i64);
            }
            push_str_chars(&mut m, " not found among running jobs");
            assert(m@ =~= not_found_spec(c, p));
            Err(m)
        },
    }
}

/// Attributes fetched for the log viewer.
pub open spec fn log_attrs() -> Seq<char> {
    "ClusterId,ProcId,Cmd,Args,Iwd,UserLog,Err,Out,JobStartDate,QDate"@
}

/// The remote command that lists `username`'s running jobs with their
/// log file locations, as JSON.
pub open spec fn running_jobs_command_spec(username: Seq<char>) -> Seq<char> {
    condor_q_spec(username, log_attrs()) + " -constraint 'JobStatus==2'"@
}

/// The remote command that lists `username`'s running jobs for the log viewer.
pub fn running_jobs_command(username: &str) -> (r: String)
    ensures
        r@ == running_jobs_command_spec(username@),
{
    let mut r = condor_q_command(username, "ClusterId,ProcId,Cmd,Args,Iwd,UserLog,Err,Out,JobStartDate,QDate");
    push_str_chars(&mut r, " -constraint 'JobStatus==2'");
    r
}

/// Number of lines tailed from each log file.
pub const TAIL_LINES: u32 = 50;

/// The remote command that prints the end of the file at `path`, or a
/// note labelled `label` when it cannot be read.
pub open spec fn tail_command_spec(label: Seq<char>, path: Seq<char>) -> Seq<char> {
    "tail -n "@ + decimal(TAIL_LINES as int) + " '"@ + escape_single_quotes(path) + "' || echo '["@ + label
        + "] file not found: "@ + path + "'"@
}

/// The remote command that prints the last lines of the file at `path`.
pub fn tail_command(label: &str, path: &str) -> (r: String)
    ensures
        r@ == tail_command_spec(label@, path@),
{
    let mut r = String::new();
    push_str_chars(&mut r, "tail -n ");
    push_decimal(&mut r, TAIL_LINES as i64);
    push_str_chars(&mut r, " '");
    let esc = shell_escape_single_quotes(path);
    push_str_chars(&mut r, esc.as_str());
    push_str_chars(&mut r, "' || echo '[");
    push_str_chars(&mut r, label);
    push_str_chars(&mut r, "] file not found: ");
    push_str_chars(&mut r, path);
    push_str_chars(&mut r, "'");
    r
}

} // verus!
