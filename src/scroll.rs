//! The marquee animator: a fixed-width window onto text that cycles through
//! it, and the timing rules that decide when the shared offset advances.

use vstd::prelude::*;
use crate::text::{spaces, pad_right_spec, chars_of, push_char, push_spaces, push_str_chars};

verus! {

/// Largest blank gap between two repetitions of a scrolling text.
pub const MAX_GAP: usize = 10;

/// Minimum time after a (re)start before the offset first advances, in ms.
pub const SETTLE_MS: u64 = 150;

/// Minimum time between two advances of the offset, in ms.
pub const TICK_MS: u64 = 150;

/// Blank gap between repetitions for a column `w` wide.
pub open spec fn gap_len(w: nat) -> nat {
    if w < MAX_GAP as nat { w } else { MAX_GAP as nat }
}

/// The looped buffer `t + gap + t` that a long text scrolls through.
pub open spec fn loop_buffer(t: Seq<char>, w: nat) -> Seq<char> {
    t + spaces(gap_len(w)) + t
}

/// Number of distinct window positions of a long text: the marquee's period.
pub open spec fn max_start(t: Seq<char>, w: nat) -> nat {
    (loop_buffer(t, w).len() - w) as nat
}

/// What a column `w` wide shows of `t` at scroll position `offset`.
pub open spec fn window(t: Seq<char>, w: nat, offset: nat) -> Seq<char> {
    if w == 0 {
        Seq::empty()
    } else if t.len() <= w {
        pad_right_spec(t, w)
    } else {
        let start = offset % max_start(t, w);
        loop_buffer(t, w).subrange(start as int, start + w as int)
    }
}

/// The `width` characters of `text` visible at scroll position `offset`:
/// short texts are padded with spaces, long ones cycle through
/// `text + gap + text`.
pub fn scrolling_window(text: &str, width: usize, offset: usize) -> (r: String)
    ensures
        r@ == window(text@, width as nat, offset as nat),
        r@.len() == width,
{
    if width == 0 {
        return String::new();
    }
    let chars = chars_of(text);
    let n = chars.len();
    if n <= width {
        let mut r = String::new();
        push_str_chars(&mut r, text);
        push_spaces(&mut r, width - n);
        assert(r@ =~= window(text@, width as nat, offset as nat));
        return r;
    }
    let gap: usize = if width < MAX_GAP { width } else { MAX_GAP };
    let mut ext: Vec<char> = Vec::new();
    let mut i: usize = 0;
    while i < n
        invariant
            i <= n,
            n == chars@.len(),
            ext@ == chars@.take(i as int),
        decreases n - i,
    {
        ext.push(chars[i]);
        i = i + 1;
        assert(ext@ =~= chars@.take(i as int));
    }
    let mut k: usize = 0;
    while k < gap
        invariant
            k <= gap,
            n == chars@.len(),
            ext@ == chars@ + spaces(k as nat),
        decreases gap - k,
    {
        ext.push(' ');
        k = k + 1;
        assert(ext@ =~= chars@ + spaces(k as nat));
    }
    let mut j: usize = 0;
    while j < n
        invariant
            j <= n,
            n == chars@.len(),
            ext@ == chars@ + spaces(gap as nat) + chars@.take(j as int),
        decreases n - j,
    {
        ext.push(chars[j]);
        j = j + 1;
        assert(ext@ =~= chars@ + spaces(gap as nat) + chars@.take(j as int));
    }
    assert(chars@.take(n as int) =~= chars@);
    assert(ext@ =~= loop_buffer(text@, width as nat));
    let max_start: usize = ext.len() - width;
    let start: usize = offset % max_start;
    let mut r = String::new();
    let end: usize = start + width;
    let mut p: usize = start;
    while p < end
        invariant
            end == start + width,
            start <= p <= end,
            end <= ext@.len(),
            r@ == ext@.subrange(start as int, p as int),
        decreases end - p,
    {
        push_char(&mut r, ext[p]);
        p = p + 1;
        assert(r@ =~= ext@.subrange(start as int, p as int));
    }
    assert(r@ =~= window(text@, width as nat, offset as nat));
    r
}

/// A text no wider than its column shows whole, padded with spaces to
/// the column's width, at every offset.
pub proof fn lemma_short_text_is_padded(t: Seq<char>, w: nat, offset: nat)
    requires
        w > 0,
        t.len() <= w,
    ensures
        window(t, w, offset) == t + spaces((w - t.len()) as nat),
{
    if t.len() == w {
        assert(t + spaces(0) =~= t);
    }
}

/// A text wider than its column repeats with period `max_start`: two
/// offsets equal modulo that period show the same window.
pub proof fn lemma_window_periodic(t: Seq<char>, w: nat, o1: nat, o2: nat)
    requires
        t.len() > w,
        o1 % max_start(t, w) == o2 % max_start(t, w),
    ensures
        window(t, w, o1) == window(t, w, o2),
{
}

/// The shared marquee state: one offset for every scrolling column, and
/// the two instants (ms on a monotonic clock) that pace its advance.
#[derive(Clone, Copy, Debug, PartialEq, Eq, Structural)]
pub struct ScrollState {
    pub offset: usize,
    pub paused: bool,
    pub started_at: u64,
    pub last_tick_at: u64,
}

/// Whether a tick at `now` advances the offset of `s`.
pub open spec fn tick_due(s: ScrollState, now: u64) -> bool {
    &&& !s.paused
    &&& now >= s.started_at && now - s.started_at >= SETTLE_MS
    &&& now >= s.last_tick_at && now - s.last_tick_at >= TICK_MS
}

/// `s` after the once-per-frame tick at `now`.
pub open spec fn tick_spec(s: ScrollState, now: u64) -> ScrollState {
    if tick_due(s, now) {
        ScrollState {
            offset: if s.offset == usize::MAX { 0 } else { (s.offset + 1) as usize },
            last_tick_at: now,
            ..s
        }
    } else {
        s
    }
}

/// `s` restarted at `now`: offset zero, both instants at `now`.
pub open spec fn restart_spec(s: ScrollState, now: u64) -> ScrollState {
    ScrollState { offset: 0, paused: s.paused, started_at: now, last_tick_at: now }
}

impl ScrollState {
    /// The state on entering the dashboard: offset zero and paused.
    pub open spec fn new_spec(now: u64) -> ScrollState {
        ScrollState { offset: 0, paused: true, started_at: now, last_tick_at: now }
    }

    /// The state on entering the dashboard: offset zero and paused.
    pub fn new(now: u64) -> (r: ScrollState)
        ensures
            r == ScrollState::new_spec(now),
    {
        ScrollState { offset: 0, paused: true, started_at: now, last_tick_at: now }
    }

    /// Advances the offset by one (wrapping) when not paused, the settle time
    /// has passed since the restart and a tick interval since the last advance.
    pub fn tick(&mut self, now: u64)
        ensures
            *final(self) == tick_spec(*old(self), now),
    {
        if !self.paused && now >= self.started_at && now - self.started_at >= SETTLE_MS
            && now >= self.last_tick_at && now - self.last_tick_at >= TICK_MS
        {
            self.offset = self.offset.wrapping_add(1);
            self.last_tick_at = now;
        }
    }

    /// Zeroes the offset and restarts both timers at `now`.
    pub fn restart(&mut self, now: u64)
        ensures
            *final(self) == restart_spec(*old(self), now),
    {
        self.offset = 0;
        self.started_at = now;
        self.last_tick_at = now;
    }

    /// Flips the pause flag and restarts the scroll: offset zero, both
    /// timers at `now`.
    pub fn toggle_pause(&mut self, now: u64)
        ensures
            *final(self) == (ScrollState {
                offset: 0,
                paused: !old(self).paused,
                started_at: now,
                last_tick_at: now,
            }),
    {
        self.paused = !self.paused;
        self.offset = 0;
        self.started_at = now;
        self.last_tick_at = now;
    }
}

} // verus!
