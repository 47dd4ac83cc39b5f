//! The persisted login settings: how to reach the cluster's login node.

use vstd::prelude::*;
use crate::text::{chars_of, push_all};

verus! {

/// How to reach the login node: either an entry of the user's SSH
/// configuration, or a host, a user and an optional identity file.
#[derive(Clone, Debug, PartialEq, Eq)]
pub struct LoginConfig {
    pub hostname: String,
    pub username: String,
    pub identity_file: Option<String>,
    pub ssh_config_name: Option<String>,
}

/// The whole persisted configuration.
#[derive(Clone, Debug, PartialEq, Eq)]
pub struct ClusterConfig {
    pub login: Option<LoginConfig>,
}

impl Default for ClusterConfig {
    fn default() -> (r: ClusterConfig)
        ensures
            r.login is None,
    {
        ClusterConfig { login: None }
    }
}

impl LoginConfig {
    /// Login through the SSH configuration entry `name`; host and user
    /// come from that entry.
    pub fn from_ssh_alias(name: String) -> (r: LoginConfig)
        ensures
            r.hostname@.len() == 0,
            r.username@.len() == 0,
            r.identity_file is None,
            r.ssh_config_name == Some(name),
    {
        LoginConfig { hostname: String::new(), username: String::new(), identity_file: None, ssh_config_name: Some(name) }
    }

    /// Login to `hostname` as `username`, with the identity file
    /// `identity_file` unless it is empty.
    pub fn manual(hostname: String, username: String, identity_file: String) -> (r: LoginConfig)
        ensures
            r.hostname == hostname,
            r.username == username,
            r.ssh_config_name is None,
            identity_file@.len() == 0 ==> r.identity_file is None,
            identity_file@.len() > 0 ==> r.identity_file == Some(identity_file),
    {
        let identity = if identity_file.unicode_len() == 0 { None } else { Some(identity_file) };
        LoginConfig { hostname, username, identity_file: identity, ssh_config_name: None }
    }
}

/// Where the user name for the cluster comes from.
#[derive(Clone, Debug, PartialEq, Eq)]
pub enum UsernameSource {
    /// Set in the login settings.
    Known(String),
    /// To be read from the SSH configuration entry with this name.
    FromSshConfig(String),
    /// Nowhere.
    Missing,
}

/// Where the user name comes from: the login's own user name if set,
/// else its SSH configuration entry, if any.
pub open spec fn username_source_spec(c: ClusterConfig) -> UsernameSource {
    match c.login {
        None => UsernameSource::Missing,
        Some(l) => if l.username@.len() > 0 {
            UsernameSource::Known(l.username)
        } else {
            match l.ssh_config_name {
                Some(alias) => UsernameSource::FromSshConfig(alias),
                None => UsernameSource::Missing,
            }
        },
    }
}

impl ClusterConfig {
    /// Where the user name for the cluster comes from.
    pub fn username_source(&self) -> (r: UsernameSource)
        ensures
            match (r, username_source_spec(*self)) {
                (UsernameSource::Known(a), UsernameSource::Known(b)) => a@ == b@,
                (UsernameSource::FromSshConfig(a), UsernameSource::FromSshConfig(b)) => a@ == b@,
                (UsernameSource::Missing, UsernameSource::Missing) => true,
                _ => false,
            },
    {
        match &self.login {
            None => UsernameSource::Missing,
            Some(l) => {
                if l.username.unicode_len() > 0 {
                    UsernameSource::Known(l.username.clone())
                } else {
                    match &l.ssh_config_name {
                        Some(alias) => UsernameSource::FromSshConfig(alias.clone()),
                        None => UsernameSource::Missing,
                    }
                }
            },
        }
    }
}

/// Unicode white space, as `char::is_whitespace` defines it.
pub open spec fn is_ws(c: char) -> bool {
    c == '\t' || c == '\n' || c == '\u{0B}' || c == '\u{0C}' || c == '\r' || c == ' '
        || c == '\u{85}' || c == '\u{A0}' || c == '\u{1680}' || ('\u{2000}' <= c <= '\u{200A}')
        || c == '\u{2028}' || c == '\u{2029}' || c == '\u{202F}' || c == '\u{205F}' || c == '\u{3000}'
}

fn is_ws_exec(c: char) -> (r: bool)
    ensures
        r == is_ws(c),
{
    c == '\t' || c == '\n' || c == '\u{0B}' || c == '\u{0C}' || c == '\r' || c == ' '
        || c == '\u{85}' || c == '\u{A0}' || c == '\u{1680}' || ('\u{2000}' <= c && c <= '\u{200A}')
        || c == '\u{2028}' || c == '\u{2029}' || c == '\u{202F}' || c == '\u{205F}' || c == '\u{3000}'
}

/// `s` without leading white space.
pub open spec fn trim_start(s: Seq<char>) -> Seq<char>
    decreases s.len(),
{
    if s.len() > 0 && is_ws(s[0]) {
        trim_start(s.skip(1))
    } else {
        s
    }
}

/// `s` without trailing white space.
pub open spec fn trim_end(s: Seq<char>) -> Seq<char>
    decreases s.len(),
{
    if s.len() > 0 && is_ws(s.last()) {
        trim_end(s.drop_last())
    } else {
        s
    }
}

/// `s` without leading or trailing white space.
pub open spec fn trim(s: Seq<char>) -> Seq<char> {
    trim_end(trim_start(s))
}

/// The characters `s[from..to]` with white space trimmed from both ends.
pub(crate) fn trimmed(s: &Vec<char>, from: usize, to: usize) -> (r: Vec<char>)
    requires
        from <= to <= s@.len(),
    ensures
        r@ == trim(s@.subrange(from as int, to as int)),
{
    let ghost t = s@.subrange(from as int, to as int);
    let mut a: usize = from;
    while a < to && is_ws_exec(s[a])
        invariant
            from <= a <= to <= s@.len(),
            trim_start(t) == trim_start(s@.subrange(a as int, to as int)),
        decreases to - a,
    {
        assert(s@.subrange(a as int, to as int).skip(1) =~= s@.subrange(a + 1, to as int));
        a = a + 1;
    }
    assert(trim_start(t) == s@.subrange(a as int, to as int));
    let mut b: usize = to;
    while b > a && is_ws_exec(s[b - 1])
        invariant
            from <= a <= b <= to <= s@.len(),
            trim(t) == trim_end(s@.subrange(a as int, b as int)),
        decreases b - a,
    {
        assert(s@.subrange(a as int, b as int).drop_last() =~= s@.subrange(a as int, b - 1));
        b = b - 1;
    }
    let mut r: Vec<char> = Vec::new();
    let mut k: usize = a;
    while k < b
        invariant
            a <= k <= b <= s@.len(),
            r@ == s@.subrange(a as int, k as int),
        decreases b - k,
    {
        r.push(s[k]);
        k = k + 1;
        assert(r@ =~= s@.subrange(a as int, k as int));
    }
    r
}

/// The user name that one line of `ssh -G` output sets, if any: after
/// trimming, the line reads `user ` and then a non-blank value.
pub open spec fn user_in_line(line: Seq<char>) -> Option<Seq<char>> {
    let t = trim(line);
    if t.len() >= 5 && t.take(5) == "user "@ && trim(t.skip(5)).len() > 0 {
        Some(trim(t.skip(5)))
    } else {
        None
    }
}

/// The first user name set by the lines of `s`, with `line` the text of
/// the current line read so far.
pub open spec fn scan_user(s: Seq<char>, line: Seq<char>) -> Option<Seq<char>>
    decreases s.len(),
{
    if s.len() == 0 {
        user_in_line(line)
    } else if s[0] == '\n' {
        match user_in_line(line) {
            Some(v) => Some(v),
            None => scan_user(s.skip(1), Seq::empty()),
        }
    } else {
        scan_user(s.skip(1), line.push(s[0]))
    }
}

/// The user name set in `ssh -G` output `text`: from the first line whose
/// trimmed text reads `user ` and a non-blank value.
pub open spec fn ssh_config_user_spec(text: Seq<char>) -> Option<Seq<char>> {
    scan_user(text, Seq::empty())
}

/// The user name of line `cs[from..to]`, if it sets one.
fn line_user(cs: &Vec<char>, from: usize, to: usize) -> (r: Option<Vec<char>>)
    requires
        from <= to <= cs@.len(),
    ensures
        match r {
            Some(v) => user_in_line(cs@.subrange(from as int, to as int)) == Some(v@),
            None => user_in_line(cs@.subrange(from as int, to as int)) is None,
        },
{
    let t = trimmed(cs, from, to);
    proof {
        reveal_strlit("user ");
    }
    if t.len() >= 5 && t[0] == 'u' && t[1] == 's' && t[2] == 'e' && t[3] == 'r' && t[4] == ' ' {
        assert(t@.take(5) =~= "user "@);
        let v = trimmed(&t, 5, t.len());
        assert(t@.subrange(5, t@.len() as int) =~= t@.skip(5));
        if v.len() > 0 {
            return Some(v);
        }
        None
    } else {
        assert(t@.len() >= 5 ==> t@.take(5) != "user "@) by {
            if t@.len() >= 5 && t@.take(5) == "user "@ {
                assert(t@.take(5)[0] == 'u');
                assert(t@.take(5)[1] == 's');
                assert(t@.take(5)[2] == 'e');
                assert(t@.take(5)[3] == 'r');
                assert(t@.take(5)[4] == ' ');
            }
        }
        None
    }
}

/// The user name set in the output of `ssh -G <alias>`, if any.
pub fn ssh_config_user(text: &str) -> (r: Option<String>)
    ensures
        match r {
            Some(v) => ssh_config_user_spec(text@) == Some(v@),
            None => ssh_config_user_spec(text@) is None,
        },
{
    let cs = chars_of(text);
    let mut start: usize = 0;
    let mut i: usize = 0;
    assert(cs@.skip(0) =~= cs@);
    assert(cs@.subrange(0, 0) =~= Seq::<char>::empty());
    while i < cs.len()
        invariant
            start <= i <= cs@.len(),
            cs@ == text@,
            ssh_config_user_spec(text@) == scan_user(cs@.skip(i as int), cs@.subrange(start as int, i as int)),
        decreases cs@.len() - i,
    {
        assert(cs@.skip(i as int).skip(1) =~= cs@.skip(i + 1));
        if cs[i] == '\n' {
            if let Some(v) = line_user(&cs, start, i) {
                let mut r = String::new();
                push_all(&mut r, v.as_slice());
                return Some(r);
            }
            start = i + 1;
            assert(cs@.subrange(start as int, start as int) =~= Seq::<char>::empty());
        } else {
            assert(cs@.subrange(start as int, i as int).push(cs@[i as int]) =~= cs@.subrange(start as int, i + 1));
        }
        i = i + 1;
    }
    match line_user(&cs, start, i) {
        Some(v) => {
            let mut r = String::new();
            push_all(&mut r, v.as_slice());
            Some(r)
        },
        None => None,
    }
}

} // verus!
