//! Lenient reading of numeric fields in the scheduler's JSON feed.

use vstd::prelude::*;
use crate::config::{trim, trimmed};
use crate::text::{chars_of, find_first, find_last, first_index, last_index, push_all, push_char};

verus! {

/// A value of the feed, as far as the numeric fields care: a negative or
/// a non-negative integer (a fractional number arrives truncated toward
/// zero), a string, or anything else (null, a boolean, an array, an object).
#[derive(Clone, Copy, Debug, PartialEq, Eq, Structural)]
pub enum FeedValue {
    Int(i64),
    UInt(u64),
    Text,
    Other,
}

/// A GPU request from the feed: an integer clamped to `[0, i32::MAX]`;
/// anything that is not a number counts as zero.
pub open spec fn request_gpus_spec(v: FeedValue) -> i32 {
    match v {
        FeedValue::Int(i) => if i < 0 {
            0
        } else if i > i32::MAX {
            i32::MAX
        } else {
            i as i32
        },
        FeedValue::UInt(u) => if u > i32::MAX as u64 { i32::MAX } else { u as i32 },
        FeedValue::Text => 0,
        FeedValue::Other => 0,
    }
}

/// Reads a GPU request count leniently; see `request_gpus_spec`. The
/// result is never negative, and a malformed value never fails the fetch.
pub fn deserialize_request_gpus(v: FeedValue) -> (r: i32)
    ensures
        r == request_gpus_spec(v),
        r >= 0,
{
    match v {
        FeedValue::Int(i) => if i < 0 {
            0
        } else if i > i32::MAX as i64 {
            i32::MAX
        } else {
            i as i32
        },
        FeedValue::UInt(u) => if u > i32::MAX as u64 { i32::MAX } else { u as i32 },
        FeedValue::Text => 0,
        FeedValue::Other => 0,
    }
}

/// A timestamp from the feed: an integer kept as it is (an unsigned one
/// above `i64::MAX` saturates); anything that is not a number counts as
/// zero, the unset time.
pub open spec fn i64_lenient_spec(v: FeedValue) -> i64 {
    match v {
        FeedValue::Int(i) => i,
        FeedValue::UInt(u) => if u > i64::MAX as u64 { i64::MAX } else { u as i64 },
        FeedValue::Text => 0,
        FeedValue::Other => 0,
    }
}

/// Reads an integer field leniently; see `i64_lenient_spec`. A malformed
/// value never fails the fetch.
pub fn deserialize_i64_lenient(v: FeedValue) -> (r: i64)
    ensures
        r == i64_lenient_spec(v),
{
    match v {
        FeedValue::Int(i) => i,
        FeedValue::UInt(u) => if u > i64::MAX as u64 { i64::MAX } else { u as i64 },
        FeedValue::Text => 0,
        FeedValue::Other => 0,
    }
}

/// Where the JSON document in noisy command output starts: the first `[`,
/// else the first `{`; -1 when there is neither.
pub open spec fn json_open(s: Seq<char>) -> int {
    if first_index(s, '[') >= 0 { first_index(s, '[') } else { first_index(s, '{') }
}

/// Where it ends: the last `]`, else the last `}`, else the last character.
pub open spec fn json_close(s: Seq<char>) -> int {
    if last_index(s, ']') >= 0 {
        last_index(s, ']')
    } else if last_index(s, '}') >= 0 {
        last_index(s, '}')
    } else {
        s.len() - 1
    }
}

/// The text to read as JSON once the whole output failed to read: from
/// the opening to the closing bracket, both kept; the whole output trimmed
/// when there is no opening bracket; empty when the closing one comes first.
pub open spec fn json_candidate_spec(s: Seq<char>) -> Seq<char> {
    if json_open(s) < 0 {
        trim(s)
    } else if json_close(s) < json_open(s) {
        Seq::empty()
    } else {
        s.subrange(json_open(s), json_close(s) + 1)
    }
}

/// The part of command output `text` that most likely holds its JSON
/// document; see `json_candidate_spec`.
pub fn json_candidate(text: &str) -> (r: String)
    ensures
        r@ == json_candidate_spec(text@),
{
    let cs = chars_of(text);
    let open = match find_first(&cs, '[') {
        Some(i) => Some(i),
        None => find_first(&cs, '{'),
    };
    let mut r = String::new();
    match open {
        None => {
            let t = trimmed(&cs, 0, cs.len());
            assert(cs@.subrange(0, cs@.len() as int) =~= cs@);
            push_all(&mut r, t.as_slice());
        },
        Some(a) => {
            let close: usize = match find_last(&cs, ']') {
                Some(j) => j,
                None => match find_last(&cs, '}') {
                    Some(j) => j,
                    None => cs.len() - 1,
                },
            };
            if close >= a {
                let n: usize = cs.len();
                assert(r@ =~= cs@.subrange(a as int, a as int));
                let mut k: usize = a;
                while k <= close
                    invariant
                        a <= k <= close + 1,
                        close < cs@.len(),
                        n == cs@.len(),
                        r@ == cs@.subrange(a as int, k as int),
                    decreases close + 1 - k,
                {
                    push_char(&mut r, cs[k]);
                    k = k + 1;
                    assert(r@ =~= cs@.subrange(a as int, k as int));
                }
            }
        },
    }
    r
}

} // verus!
