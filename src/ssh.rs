//! Command lines that reach the cluster over SSH, and the quoting they need.

use vstd::prelude::*;
use crate::config::{LoginConfig, ClusterConfig};
use crate::text::{decimal, push_char, push_digits, push_str_chars, chars_of};

verus! {

/// The texts of a list of strings.
pub open spec fn texts(v: Seq<String>) -> Seq<Seq<char>> {
    v.map_values(|s: String| s@)
}

/// `"<user>@<host>"`.
pub open spec fn user_at_host(login: LoginConfig) -> Seq<char> {
    login.username@ + seq!['@'] + login.hostname@
}

/// How `ssh` is told which host to reach: the SSH configuration entry if
/// there is one, else the identity file (if any) and `user@host`.
pub open spec fn target_args(login: LoginConfig) -> Seq<Seq<char>> {
    match login.ssh_config_name {
        Some(name) => seq![name@],
        None => match login.identity_file {
            Some(id) => seq!["-i"@, id@, user_at_host(login)],
            None => seq![user_at_host(login)],
        },
    }
}

/// The argument vector that opens a quiet, non-interactive SSH session.
pub open spec fn ssh_base_args_spec(login: LoginConfig) -> Seq<Seq<char>> {
    seq!["ssh"@, "-T"@, "-o"@, "LogLevel=ERROR"@] + target_args(login)
}

/// Appends `login`'s target arguments.
fn push_target_args(v: &mut Vec<String>, login: &LoginConfig)
    ensures
        texts(final(v)@) == texts(old(v)@) + target_args(*login),
{
    match &login.ssh_config_name {
        Some(name) => {
            v.push(name.clone());
            assert(texts(v@) =~= texts(old(v)@) + target_args(*login));
        },
        None => {
            let mut t = String::new();
            push_str_chars(&mut t, login.username.as_str());
            push_char(&mut t, '@');
            push_str_chars(&mut t, login.hostname.as_str());
            assert(t@ =~= user_at_host(*login));
            if let Some(identity) = &login.identity_file {
                v.push(String::from_str("-i"));
                v.push(identity.clone());
                v.push(t);
                assert(texts(v@) =~= texts(old(v)@) + target_args(*login));
            } else {
                v.push(t);
                assert(texts(v@) =~= texts(old(v)@) + target_args(*login));
            }
        },
    }
}

/// The argument vector that opens a quiet, non-interactive SSH session to
/// the login node.
pub fn ssh_base_args(login: &LoginConfig) -> (r: Vec<String>)
    ensures
        texts(r@) == ssh_base_args_spec(*login),
{
    let mut r: Vec<String> = Vec::new();
    r.push(String::from_str("ssh"));
    r.push(String::from_str("-T"));
    r.push(String::from_str("-o"));
    r.push(String::from_str("LogLevel=ERROR"));
    assert(texts(r@) =~= seq!["ssh"@, "-T"@, "-o"@, "LogLevel=ERROR"@]);
    push_target_args(&mut r, login);
    r
}

/// The argument vector that runs `remote_cmd` on the login node.
pub fn remote_args(login: &LoginConfig, remote_cmd: &str) -> (r: Vec<String>)
    ensures
        texts(r@) == ssh_base_args_spec(*login).push(remote_cmd@),
{
    let mut r = ssh_base_args(login);
    r.push(String::from_str(remote_cmd));
    assert(texts(r@) =~= ssh_base_args_spec(*login).push(remote_cmd@));
    r
}

/// `"condor_q <user> -json -attributes <attrs>"`.
pub open spec fn condor_q_spec(username: Seq<char>, attrs: Seq<char>) -> Seq<char> {
    "condor_q "@ + username + " -json -attributes "@ + attrs
}

/// `"condor_history <user> -json -attributes <attrs> -limit <limit>"`.
pub open spec fn condor_history_spec(username: Seq<char>, attrs: Seq<char>, limit: nat) -> Seq<char> {
    "condor_history "@ + username + " -json -attributes "@ + attrs + " -limit "@ + decimal(limit as int)
}

/// The remote command that lists `username`'s queued jobs as JSON.
pub fn condor_q_command(username: &str, attrs: &str) -> (r: String)
    ensures
        r@ == condor_q_spec(username@, attrs@),
{
    let mut r = String::new();
    push_str_chars(&mut r, "condor_q ");
    push_str_chars(&mut r, username);
    push_str_chars(&mut r, " -json -attributes ");
    push_str_chars(&mut r, attrs);
    r
}

/// The remote command that lists at most `limit` of `username`'s past jobs
/// as JSON.
pub fn condor_history_command(username: &str, attrs: &str, limit: usize) -> (r: String)
    ensures
        r@ == condor_history_spec(username@, attrs@, limit as nat),
{
    let mut r = String::new();
    push_str_chars(&mut r, "condor_history ");
    push_str_chars(&mut r, username);
    push_str_chars(&mut r, " -json -attributes ");
    push_str_chars(&mut r, attrs);
    push_str_chars(&mut r, " -limit ");
    push_digits(&mut r, limit as u64);
    r
}

/// The SSH invocation that queries `username`'s queued jobs with the
/// attributes `attrs`; its JSON output lists one object per job.
pub fn condor_q_for_user(login: &LoginConfig, username: &str, attrs: &str) -> (r: Vec<String>)
    ensures
        texts(r@) == ssh_base_args_spec(*login).push(condor_q_spec(username@, attrs@)),
{
    let cmd = condor_q_command(username, attrs);
    remote_args(login, cmd.as_str())
}

/// The SSH invocation that queries at most `limit` of `username`'s past
/// jobs with the attributes `attrs`.
pub fn condor_history_for_user(login: &LoginConfig, username: &str, attrs: &str, limit: usize) -> (r: Vec<String>)
    ensures
        texts(r@) == ssh_base_args_spec(*login).push(condor_history_spec(username@, attrs@, limit as nat)),
{
    let cmd = condor_history_command(username, attrs, limit);
    remote_args(login, cmd.as_str())
}

/// The SSH invocation that lists the queue's priorities, states and GPU
/// requests, for the price summary.
pub open spec fn price_query_spec(login: LoginConfig) -> Seq<Seq<char>> {
    seq!["ssh"@] + target_args(login) + seq!["condor_q"@, "-json"@, "-attributes"@, "JobPrio,JobStatus,RequestGPUs"@]
}

/// The SSH invocation behind the price summary.
pub fn build_ssh_command(config: &ClusterConfig) -> (r: Vec<String>)
    requires
        config.login is Some,
    ensures
        texts(r@) == price_query_spec(config.login->Some_0),
{
    let login = config.login.as_ref().unwrap();
    let mut r: Vec<String> = Vec::new();
    r.push(String::from_str("ssh"));
    assert(texts(r@) =~= seq!["ssh"@]);
    push_target_args(&mut r, login);
    r.push(String::from_str("condor_q"));
    r.push(String::from_str("-json"));
    r.push(String::from_str("-attributes"));
    r.push(String::from_str("JobPrio,JobStatus,RequestGPUs"));
    assert(texts(r@) =~= price_query_spec(*login));
    r
}

/// What a single quote becomes inside a single-quoted shell word.
pub open spec fn quote_piece(c: char) -> Seq<char> {
    if c == '\'' {
        seq!['\'', '\\', '\'', '\'']
    } else {
        seq![c]
    }
}

/// `s` with every single quote replaced by `'\''`.
pub open spec fn escape_single_quotes(s: Seq<char>) -> Seq<char>
    decreases s.len(),
{
    if s.len() == 0 {
        Seq::empty()
    } else {
        escape_single_quotes(s.drop_last()) + quote_piece(s.last())
    }
}

/// `input` made safe to stand between single quotes in a shell command.
pub fn shell_escape_single_quotes(input: &str) -> (r: String)
    ensures
        r@ == escape_single_quotes(input@),
{
    let cs = chars_of(input);
    let mut r = String::new();
    let mut i: usize = 0;
    while i < cs.len()
        invariant
            i <= cs@.len(),
            cs@ == input@,
            r@ == escape_single_quotes(cs@.take(i as int)),
        decreases cs@.len() - i,
    {
        let c = cs[i];
        if c == '\'' {
            push_char(&mut r, '\'');
            push_char(&mut r, '\\');
            push_char(&mut r, '\'');
            push_char(&mut r, '\'');
        } else {
            push_char(&mut r, c);
        }
        assert(cs@.take(i + 1).drop_last() =~= cs@.take(i as int));
        i = i + 1;
        assert(r@ =~= escape_single_quotes(cs@.take(i as int)));
    }
    assert(cs@.take(cs@.len() as int) =~= cs@);
    r
}

/// `path` if it is absolute, else `path` under the directory `iwd`.
pub open spec fn build_path_spec(iwd: Seq<char>, path: Seq<char>) -> Seq<char> {
    if path.len() > 0 && path[0] == '/' {
        path
    } else {
        iwd + seq!['/'] + path
    }
}

/// Resolves a job's file path against its initial working directory.
pub fn build_path(iwd: &str, path: &str) -> (r: String)
    ensures
        r@ == build_path_spec(iwd@, path@),
{
    let n = path.unicode_len();
    if n > 0 && path.get_char(0) == '/' {
        String::from_str(path)
    } else {
        let mut r = String::from_str(iwd);
        push_char(&mut r, '/');
        push_str_chars(&mut r, path);
        r
    }
}

/// What a backslash or a double quote becomes inside a double-quoted
/// AppleScript string.
pub open spec fn script_piece(c: char) -> Seq<char> {
    if c == '\\' || c == '"' {
        seq!['\\', c]
    } else {
        seq![c]
    }
}

/// `s` with every backslash and double quote escaped by a backslash.
pub open spec fn escape_for_script(s: Seq<char>) -> Seq<char>
    decreases s.len(),
{
    if s.len() == 0 {
        Seq::empty()
    } else {
        escape_for_script(s.drop_last()) + script_piece(s.last())
    }
}

/// Appends `s` escaped for a double-quoted AppleScript string.
fn push_script_escaped(r: &mut String, s: &str)
    ensures
        final(r)@ == old(r)@ + escape_for_script(s@),
{
    let cs = chars_of(s);
    let mut i: usize = 0;
    while i < cs.len()
        invariant
            i <= cs@.len(),
            cs@ == s@,
            r@ == old(r)@ + escape_for_script(cs@.take(i as int)),
        decreases cs@.len() - i,
    {
        let c = cs[i];
        if c == '\\' || c == '"' {
            push_char(r, '\\');
        }
        push_char(r, c);
        assert(cs@.take(i + 1).drop_last() =~= cs@.take(i as int));
        i = i + 1;
        assert(r@ =~= old(r)@ + escape_for_script(cs@.take(i as int)));
    }
    assert(cs@.take(cs@.len() as int) =~= cs@);
}

/// How the interactive `ssh` command names the login node.
pub open spec fn shell_target(login: LoginConfig) -> Seq<char> {
    match login.ssh_config_name {
        Some(name) => name@,
        None => {
            let id_part = match login.identity_file {
                Some(id) => if id@.len() > 0 {
                    "-i '"@ + escape_single_quotes(id@) + "' "@
                } else {
                    Seq::empty()
                },
                None => Seq::empty(),
            };
            id_part + user_at_host(login)
        },
    }
}

/// The shell command that attaches to job `job_id` through the login node.
pub open spec fn ssh_to_job_spec(login: LoginConfig, job_id: Seq<char>) -> Seq<char> {
    "ssh "@ + shell_target(login) + " \"condor_ssh_to_job "@ + job_id + "\""@
}

/// The AppleScript that opens a terminal window running that command.
pub open spec fn job_shell_script_spec(login: LoginConfig, job_id: Seq<char>) -> Seq<char> {
    "tell application \"Terminal\" to do script \""@ + escape_for_script(ssh_to_job_spec(login, job_id))
        + "\""@
}

/// The shell command that attaches to job `job_id` through the login node.
pub fn ssh_to_job_command(login: &LoginConfig, job_id: &str) -> (r: String)
    ensures
        r@ == ssh_to_job_spec(*login, job_id@),
{
    let mut r = String::new();
    push_str_chars(&mut r, "ssh ");
    match &login.ssh_config_name {
        Some(name) => {
            push_str_chars(&mut r, name.as_str());
        },
        None => {
            if let Some(identity) = &login.identity_file {
                if identity.unicode_len() > 0 {
                    push_str_chars(&mut r, "-i '");
                    let esc = shell_escape_single_quotes(identity.as_str());
                    push_str_chars(&mut r, esc.as_str());
                    push_str_chars(&mut r, "' ");
                }
            }
            push_str_chars(&mut r, login.username.as_str());
            push_char(&mut r, '@');
            push_str_chars(&mut r, login.hostname.as_str());
        },
    }
    push_str_chars(&mut r, " \"condor_ssh_to_job ");
    push_str_chars(&mut r, job_id);
    push_str_chars(&mut r, "\"");
    assert(r@ =~= ssh_to_job_spec(*login, job_id@));
    r
}

/// The AppleScript that opens a new terminal window attached to job
/// `job_id`.
pub fn job_shell_script(login: &LoginConfig, job_id: &str) -> (r: String)
    ensures
        r@ == job_shell_script_spec(*login, job_id@),
{
    let cmd = ssh_to_job_command(login, job_id);
    let mut r = String::new();
    push_str_chars(&mut r, "tell application \"Terminal\" to do script \"");
    push_script_escaped(&mut r, cmd.as_str());
    push_str_chars(&mut r, "\"");
    r
}

} // verus!
