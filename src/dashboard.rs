//! The interactive job dashboard as a state machine: the row list, the
//! selection, the shared scroll state, what each input event does to them,
//! and what each frame shows.

use vstd::prelude::*;
use crate::layout::{layout, layout_spec, Layout};
use crate::scroll::{ScrollState, scrolling_window, window, tick_spec, restart_spec};
use crate::config::LoginConfig;
use crate::ssh::{condor_q_for_user, condor_history_for_user, condor_q_spec, condor_history_spec, ssh_base_args_spec, texts};
use crate::text::{decimal, pad_left_spec, pad_right_spec, push_decimal, push_char, push_str_chars, pad_left, pad_right};

verus! {

/// One scheduler job as the dashboard shows it.
#[derive(Clone, Debug, PartialEq, Eq)]
pub struct JobRow {
    pub cluster_id: i64,
    pub proc_id: i64,
    pub cmd: Option<String>,
    pub args: Option<String>,
    pub job_status: i32,
    pub request_gpus: i32,
}

/// `"<cluster>.<proc>"`.
pub open spec fn job_id_spec(cluster_id: i64, proc_id: i64) -> Seq<char> {
    decimal(cluster_id as int) + seq!['.'] + decimal(proc_id as int)
}

/// The text of an optional field, empty when absent.
pub open spec fn text_or_empty(s: Option<String>) -> Seq<char> {
    match s {
        Some(t) => t@,
        None => Seq::empty(),
    }
}

/// The identifier of a job, `"<cluster>.<proc>"`.
pub fn job_id(j: &JobRow) -> (r: String)
    ensures
        r@ == job_id_spec(j.cluster_id, j.proc_id),
{
    let mut r = String::new();
    push_decimal(&mut r, j.cluster_id);
    push_char(&mut r, '.');
    push_decimal(&mut r, j.proc_id);
    r
}

/// Colour in which a status glyph is drawn.
#[derive(Clone, Copy, Debug, PartialEq, Eq, Structural)]
pub enum StatusColor {
    Blue,
    Green,
    DarkRed,
    DarkGreen,
    Yellow,
    Cyan,
    Magenta,
    White,
}

/// Glyph and colour of a job status code.
#[derive(Clone, Copy, Debug, PartialEq, Eq, Structural)]
pub struct StatusStyle {
    pub glyph: char,
    pub color: StatusColor,
}

/// The fixed status table: idle, running, removed, completed, held,
/// transferring output, suspended; every other code is unknown.
pub open spec fn status_style_spec(code: i32) -> StatusStyle {
    if code == 1 {
        StatusStyle { glyph: 'I', color: StatusColor::Blue }
    } else if code == 2 {
        StatusStyle { glyph: 'R', color: StatusColor::Green }
    } else if code == 3 {
        StatusStyle { glyph: 'X', color: StatusColor::DarkRed }
    } else if code == 4 {
        StatusStyle { glyph: 'C', color: StatusColor::DarkGreen }
    } else if code == 5 {
        StatusStyle { glyph: 'H', color: StatusColor::Yellow }
    } else if code == 6 {
        StatusStyle { glyph: 'O', color: StatusColor::Cyan }
    } else if code == 7 {
        StatusStyle { glyph: 'S', color: StatusColor::Magenta }
    } else {
        StatusStyle { glyph: '?', color: StatusColor::White }
    }
}

/// Glyph and colour for a status code; total, with unknown codes shown as `?`.
pub fn status_style(code: i32) -> (r: StatusStyle)
    ensures
        r == status_style_spec(code),
{
    match code {
        1 => StatusStyle { glyph: 'I', color: StatusColor::Blue },
        2 => StatusStyle { glyph: 'R', color: StatusColor::Green },
        3 => StatusStyle { glyph: 'X', color: StatusColor::DarkRed },
        4 => StatusStyle { glyph: 'C', color: StatusColor::DarkGreen },
        5 => StatusStyle { glyph: 'H', color: StatusColor::Yellow },
        6 => StatusStyle { glyph: 'O', color: StatusColor::Cyan },
        7 => StatusStyle { glyph: 'S', color: StatusColor::Magenta },
        _ => StatusStyle { glyph: '?', color: StatusColor::White },
    }
}

/// Two spaces, the gap between columns.
pub open spec fn gap2() -> Seq<char> {
    seq![' ', ' ']
}

/// The text of a row after its status glyph: job id and GPU count right
/// aligned, then the scrolled command and arguments windows.
pub open spec fn row_body_spec(j: JobRow, l: Layout, offset: nat) -> Seq<char> {
    pad_left_spec(job_id_spec(j.cluster_id, j.proc_id), l.jobid_w as nat) + gap2()
        + pad_left_spec(decimal(j.request_gpus as int), l.gpu_w as nat) + gap2()
        + window(text_or_empty(j.cmd), l.cmd_w as nat, offset) + gap2()
        + window(text_or_empty(j.args), l.args_w as nat, offset)
}

/// The text of a row after its status glyph.
pub fn row_body(j: &JobRow, l: Layout, offset: usize) -> (r: String)
    ensures
        r@ == row_body_spec(*j, l, offset as nat),
{
    proof {
        reveal_strlit("");
    }
    let id = job_id(j);
    let mut r = pad_left(id.as_str(), l.jobid_w);
    push_char(&mut r, ' ');
    push_char(&mut r, ' ');
    let mut gpus = String::new();
    push_decimal(&mut gpus, j.request_gpus as i64);
    let gpus_col = pad_left(gpus.as_str(), l.gpu_w);
    push_str_chars(&mut r, gpus_col.as_str());
    push_char(&mut r, ' ');
    push_char(&mut r, ' ');
    let cmd_col = match &j.cmd {
        Some(c) => scrolling_window(c.as_str(), l.cmd_w, offset),
        None => scrolling_window("", l.cmd_w, offset),
    };
    assert(cmd_col@ == window(text_or_empty(j.cmd), l.cmd_w as nat, offset as nat));
    push_str_chars(&mut r, cmd_col.as_str());
    push_char(&mut r, ' ');
    push_char(&mut r, ' ');
    let args_col = match &j.args {
        Some(a) => scrolling_window(a.as_str(), l.args_w, offset),
        None => scrolling_window("", l.args_w, offset),
    };
    assert(args_col@ == window(text_or_empty(j.args), l.args_w as nat, offset as nat));
    push_str_chars(&mut r, args_col.as_str());
    assert(r@ =~= row_body_spec(*j, l, offset as nat));
    r
}

/// The column header line for layout `l`.
pub open spec fn header_spec(l: Layout) -> Seq<char> {
    "  S "@ + pad_left_spec("JobID"@, l.jobid_w as nat) + gap2() + pad_left_spec("GPUs"@, l.gpu_w as nat)
        + gap2() + pad_right_spec("Cmd"@, l.cmd_w as nat) + "  Args"@
}

/// The column header line, aligned with the rows of layout `l`.
pub fn column_header(l: Layout) -> (r: String)
    ensures
        r@ == header_spec(l),
{
    let mut r = String::new();
    push_str_chars(&mut r, "  S ");
    let id_h = pad_left("JobID", l.jobid_w);
    push_str_chars(&mut r, id_h.as_str());
    push_char(&mut r, ' ');
    push_char(&mut r, ' ');
    let gpu_h = pad_left("GPUs", l.gpu_w);
    push_str_chars(&mut r, gpu_h.as_str());
    push_char(&mut r, ' ');
    push_char(&mut r, ' ');
    let cmd_h = pad_right("Cmd", l.cmd_w);
    push_str_chars(&mut r, cmd_h.as_str());
    push_str_chars(&mut r, "  Args");
    assert(r@ =~= header_spec(l));
    r
}

/// One drawn row: selection marker, coloured status glyph, and the rest.
#[derive(Clone, Debug, PartialEq, Eq)]
pub struct RenderedRow {
    pub selected: bool,
    pub style: StatusStyle,
    pub body: String,
}

/// A polled input event, reduced to what the dashboard reacts to. `Key`
/// holds a character typed without modifier keys.
#[derive(Clone, Copy, Debug, PartialEq, Eq, Structural)]
pub enum InputEvent {
    Up,
    Down,
    Key(char),
    Resize,
    Other,
}

/// What the driving loop does after an event has been applied.
#[derive(Clone, Debug, PartialEq, Eq)]
pub enum Action {
    /// Draw the next frame.
    Continue,
    /// Leave the dashboard.
    Quit,
    /// Leave the dashboard and show the logs of the job with this id.
    ShowLogs(String),
    /// Fetch the rows again and hand the outcome to `finish_refresh`.
    Refresh,
    /// Open a remote shell on the job with this id, then go on.
    OpenShell(String),
}

/// Selection after `ev` in a list of `len` rows: Up and Down move it by
/// one, clamped to the list; every other event leaves it.
pub open spec fn selection_after(sel: nat, len: nat, ev: InputEvent) -> nat {
    match ev {
        InputEvent::Up => if sel > 0 { (sel - 1) as nat } else { sel },
        InputEvent::Down => if sel + 1 < len { sel + 1 } else { sel },
        _ => sel,
    }
}

/// Selection after the events `evs`, applied in order.
pub open spec fn selection_after_all(sel: nat, len: nat, evs: Seq<InputEvent>) -> nat
    decreases evs.len(),
{
    if evs.len() == 0 {
        sel
    } else {
        selection_after(selection_after_all(sel, len, evs.drop_last()), len, evs.last())
    }
}

/// In a non-empty list, a selection in range stays in range after every
/// prefix of any sequence of events.
pub proof fn lemma_selection_stays_in_range(sel: nat, len: nat, evs: Seq<InputEvent>)
    requires
        len > 0,
        sel < len,
    ensures
        forall|k: int| 0 <= k <= evs.len() ==> #[trigger] selection_after_all(sel, len, evs.take(k)) < len,
    decreases evs.len(),
{
    if evs.len() > 0 {
        lemma_selection_stays_in_range(sel, len, evs.drop_last());
        assert forall|k: int| 0 <= k <= evs.len() implies #[trigger] selection_after_all(sel, len, evs.take(k)) < len by {
            let n = evs.drop_last().len() as int;
            if k <= n {
                assert(evs.take(k) =~= evs.drop_last().take(k));
                assert(selection_after_all(sel, len, evs.drop_last().take(k)) < len);
            } else {
                assert(evs.take(k) =~= evs);
                assert(evs.drop_last().take(n) =~= evs.drop_last());
                assert(selection_after_all(sel, len, evs.drop_last().take(n)) < len);
            }
        }
    } else {
        assert forall|k: int| 0 <= k <= evs.len() implies #[trigger] selection_after_all(sel, len, evs.take(k)) < len by {
            assert(evs.take(k).len() == 0);
        }
    }
}

/// Whether `ev` asks for the selected job's logs.
pub open spec fn is_logs_key(ev: InputEvent) -> bool {
    ev == InputEvent::Key('l')
}

/// Whether `ev` asks for a remote shell on the selected job.
pub open spec fn is_shell_key(ev: InputEvent) -> bool {
    ev == InputEvent::Key('s')
}

/// Scroll state after `ev` at `now`: a resize restarts it, the pause key
/// flips the pause flag and restarts it, other events leave it.
pub open spec fn scroll_after(s: ScrollState, ev: InputEvent, now: u64) -> ScrollState {
    if ev == InputEvent::Resize {
        restart_spec(s, now)
    } else if ev == InputEvent::Key('p') {
        ScrollState { paused: !s.paused, ..restart_spec(s, now) }
    } else {
        s
    }
}

/// Selection `sel` clamped to a list of `len` rows.
pub open spec fn clamp_selection(sel: nat, len: nat) -> nat {
    if len == 0 {
        0
    } else if sel > len - 1 {
        (len - 1) as nat
    } else {
        sel
    }
}

/// The dashboard's whole mutable state.
#[derive(Debug)]
pub struct Dashboard {
    pub rows: Vec<JobRow>,
    pub selected: usize,
    pub scroll: ScrollState,
}

impl Dashboard {
    /// The selection indexes a row, or is zero when there is none.
    pub open spec fn wf(&self) -> bool {
        if self.rows@.len() > 0 {
            self.selected < self.rows@.len()
        } else {
            self.selected == 0
        }
    }

    /// The dashboard over `rows`, first row selected and scrolling paused;
    /// none when there is no row to show.
    pub fn start(rows: Vec<JobRow>, now: u64) -> (r: Option<Dashboard>)
        ensures
            r is None <==> rows@.len() == 0,
            r matches Some(d) ==> d.wf() && d.rows@ == rows@ && d.selected == 0
                && d.scroll == ScrollState::new_spec(now),
    {
        if rows.len() == 0 {
            None
        } else {
            Some(Dashboard { rows, selected: 0, scroll: ScrollState::new(now) })
        }
    }

    /// Applies one input event at `now` and says what the loop does next.
    pub fn dispatch(&mut self, ev: InputEvent, now: u64) -> (r: Action)
        requires
            old(self).wf(),
        ensures
            final(self).wf(),
            final(self).rows@ == old(self).rows@,
            final(self).selected == selection_after(old(self).selected as nat, old(self).rows@.len(), ev),
            final(self).scroll == scroll_after(old(self).scroll, ev, now),
            ev == InputEvent::Key('q') ==> r == Action::Quit,
            ev == InputEvent::Key('r') ==> r == Action::Refresh,
            is_logs_key(ev) && old(self).rows@.len() > 0 ==> (r matches Action::ShowLogs(id)
                && id@ == job_id_spec(
                    old(self).rows@[old(self).selected as int].cluster_id,
                    old(self).rows@[old(self).selected as int].proc_id,
                )),
            is_shell_key(ev) && old(self).rows@.len() > 0 ==> (r matches Action::OpenShell(id)
                && id@ == job_id_spec(
                    old(self).rows@[old(self).selected as int].cluster_id,
                    old(self).rows@[old(self).selected as int].proc_id,
                )),
            (is_logs_key(ev) || is_shell_key(ev)) && old(self).rows@.len() == 0 ==> r == Action::Continue,
            ev != InputEvent::Key('q') && ev != InputEvent::Key('r') && !is_logs_key(ev)
                && !is_shell_key(ev) ==> r == Action::Continue,
    {
        match ev {
            InputEvent::Up => {
                if self.selected > 0 {
                    self.selected = self.selected - 1;
                }
                Action::Continue
            },
            InputEvent::Down => {
                if self.rows.len() > 0 && self.selected < self.rows.len() - 1 {
                    self.selected = self.selected + 1;
                }
                Action::Continue
            },
            InputEvent::Resize => {
                self.scroll.restart(now);
                Action::Continue
            },
            InputEvent::Key(c) => {
                if c == 'q' {
                    Action::Quit
                } else if c == 'r' {
                    Action::Refresh
                } else if c == 'p' {
                    self.scroll.toggle_pause(now);
                    Action::Continue
                } else if c == 'l' {
                    if self.rows.len() > 0 {
                        Action::ShowLogs(job_id(&self.rows[self.selected]))
                    } else {
                        Action::Continue
                    }
                } else if c == 's' {
                    if self.rows.len() > 0 {
                        Action::OpenShell(job_id(&self.rows[self.selected]))
                    } else {
                        Action::Continue
                    }
                } else {
                    Action::Continue
                }
            },
            InputEvent::Other => Action::Continue,
        }
    }

    /// The once-per-frame scroll tick at `now`.
    pub fn tick(&mut self, now: u64)
        requires
            old(self).wf(),
        ensures
            final(self).wf(),
            final(self).rows@ == old(self).rows@,
            final(self).selected == old(self).selected,
            final(self).scroll == tick_spec(old(self).scroll, now),
    {
        self.scroll.tick(now);
    }

    /// Takes the outcome of a refresh fetch. New rows replace the list,
    /// the selection is clamped to it and the scroll restarts at `now`; on
    /// a failure nothing changes and the message for the operator is
    /// returned.
    pub fn finish_refresh(&mut self, fetched: Result<Vec<JobRow>, String>, now: u64) -> (notice: Option<String>)
        requires
            old(self).wf(),
        ensures
            final(self).wf(),
            match fetched {
                Ok(rows) => {
                    &&& notice is None
                    &&& final(self).rows@ == rows@
                    &&& final(self).selected == clamp_selection(old(self).selected as nat, rows@.len())
                    &&& final(self).scroll == restart_spec(old(self).scroll, now)
                },
                Err(e) => {
                    &&& notice matches Some(m) && m@ == "Refresh failed: "@ + e@
                    &&& final(self).rows@ == old(self).rows@
                    &&& final(self).selected == old(self).selected
                    &&& final(self).scroll == old(self).scroll
                },
            },
    {
        match fetched {
            Ok(rows) => {
                let n = rows.len();
                self.rows = rows;
                if n == 0 {
                    self.selected = 0;
                } else if self.selected > n - 1 {
                    self.selected = n - 1;
                }
                self.scroll.restart(now);
                None
            },
            Err(e) => {
                let mut m = String::new();
                push_str_chars(&mut m, "Refresh failed: ");
                push_str_chars(&mut m, e.as_str());
                Some(m)
            },
        }
    }

    /// The rows of the frame drawn on a terminal `cols` columns wide.
    pub fn frame(&self, cols: usize) -> (r: Vec<RenderedRow>)
        requires
            self.wf(),
        ensures
            r@.len() == self.rows@.len(),
            forall|i: int| 0 <= i < r@.len() ==> renders(
                #[trigger] r@[i],
                self.rows@[i],
                i == self.selected,
                layout_spec(cols as nat),
                self.scroll.offset as nat,
            ),
    {
        let l = layout(cols);
        let mut r: Vec<RenderedRow> = Vec::new();
        let mut i: usize = 0;
        while i < self.rows.len()
            invariant
                i <= self.rows@.len(),
                l == layout_spec(cols as nat),
                r@.len() == i,
                forall|k: int| 0 <= k < i ==> renders(
                    #[trigger] r@[k],
                    self.rows@[k],
                    k == self.selected,
                    l,
                    self.scroll.offset as nat,
                ),
            decreases self.rows@.len() - i,
        {
            let j = &self.rows[i];
            let body = row_body(j, l, self.scroll.offset);
            r.push(RenderedRow { selected: i == self.selected, style: status_style(j.job_status), body });
            i = i + 1;
        }
        r
    }
}

/// `rr` draws row `j`, selected or not, in layout `l` at scroll `offset`.
pub open spec fn renders(rr: RenderedRow, j: JobRow, is_selected: bool, l: Layout, offset: nat) -> bool {
    &&& rr.selected == is_selected
    &&& rr.style == status_style_spec(j.job_status)
    &&& rr.body@ == row_body_spec(j, l, offset)
}

/// Attributes fetched for the dashboard's live-queue rows.
pub open spec fn running_attrs() -> Seq<char> {
    "ClusterId,ProcId,Cmd,Args,JobStatus,RequestGPUs,JobStartDate"@
}

/// Attributes fetched for the dashboard's history rows.
pub open spec fn history_attrs() -> Seq<char> {
    "ClusterId,ProcId,Cmd,Args,JobStatus,RequestGPUs"@
}

/// Number of past jobs the dashboard shows after the live queue.
pub const HISTORY_ROWS: usize = 10;

/// The SSH invocation that fetches the dashboard's live-queue rows.
pub fn running_rows_query(login: &LoginConfig, username: &str) -> (r: Vec<String>)
    ensures
        texts(r@) == ssh_base_args_spec(*login).push(condor_q_spec(username@, running_attrs())),
{
    condor_q_for_user(login, username, "ClusterId,ProcId,Cmd,Args,JobStatus,RequestGPUs,JobStartDate")
}

/// The SSH invocation that fetches the dashboard's recent history rows.
pub fn history_rows_query(login: &LoginConfig, username: &str) -> (r: Vec<String>)
    ensures
        texts(r@) == ssh_base_args_spec(*login).push(
            condor_history_spec(username@, history_attrs(), HISTORY_ROWS as nat),
        ),
{
    condor_history_for_user(login, username, "ClusterId,ProcId,Cmd,Args,JobStatus,RequestGPUs", HISTORY_ROWS)
}

/// The row list: the live queue's rows, then the history's, in order and
/// without removing duplicates.
pub fn merge_rows(running: Vec<JobRow>, history: Vec<JobRow>) -> (r: Vec<JobRow>)
    ensures
        r@ == running@ + history@,
{
    let mut r = running;
    let mut h = history;
    r.append(&mut h);
    r
}

} // verus!
