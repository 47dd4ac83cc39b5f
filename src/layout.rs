//! Column widths of the dashboard as a function of the terminal's width.

use vstd::prelude::*;

verus! {

/// Width of the job-id column.
pub const JOBID_W: usize = 10;

/// Width of the GPU-count column.
pub const GPU_W: usize = 4;

/// Narrowest command column, when the terminal allows it.
pub const MIN_CMD_W: usize = 20;

/// Columns of a row that hold no job text: selection marker (2), status
/// glyph and space (2), job id, gap (2), GPU count, gap (2), and the gap
/// between command and arguments (2).
pub const OVERHEAD: usize = 24;

/// Widths of the four text columns of a dashboard row.
#[derive(Clone, Copy, Debug, PartialEq, Eq, Structural)]
pub struct Layout {
    pub jobid_w: usize,
    pub gpu_w: usize,
    pub cmd_w: usize,
    pub args_w: usize,
}

/// `a - b`, or zero when `b > a`.
pub open spec fn sat_sub(a: int, b: int) -> nat {
    if a > b { (a - b) as nat } else { 0 }
}

/// Command width for `cols` columns: a fifth of the width, at least
/// `MIN_CMD_W`, but never more than what the overhead leaves.
pub open spec fn cmd_width(cols: nat) -> nat {
    let preferred: nat = if cols / 5 < MIN_CMD_W as nat { MIN_CMD_W as nat } else { cols / 5 };
    let room = sat_sub(cols as int, OVERHEAD as int);
    if preferred > room { room } else { preferred }
}

/// The layout for a terminal `cols` columns wide.
pub open spec fn layout_spec(cols: nat) -> Layout {
    Layout {
        jobid_w: JOBID_W,
        gpu_w: GPU_W,
        cmd_w: cmd_width(cols) as usize,
        args_w: sat_sub(cols as int, OVERHEAD + cmd_width(cols)) as usize,
    }
}

/// Column widths for a terminal `cols` columns wide; the arguments column
/// takes what remains, and every width degrades to zero on narrow terminals.
pub fn layout(cols: usize) -> (r: Layout)
    ensures
        r == layout_spec(cols as nat),
        cols >= OVERHEAD ==> OVERHEAD + r.cmd_w + r.args_w == cols,
        cols < OVERHEAD ==> r.cmd_w == 0 && r.args_w == 0,
{
    let preferred: usize = if cols / 5 < MIN_CMD_W { MIN_CMD_W } else { cols / 5 };
    let room: usize = cols.saturating_sub(OVERHEAD);
    let cmd_w: usize = if preferred > room { room } else { preferred };
    let args_w: usize = cols.saturating_sub(OVERHEAD + cmd_w);
    Layout { jobid_w: JOBID_W, gpu_w: GPU_W, cmd_w, args_w }
}

/// On a terminal with room for the overhead and the narrowest command
/// column, the command column gets at least `MIN_CMD_W` and the row fits.
pub proof fn lemma_layout_fits(cols: nat)
    requires
        cols >= OVERHEAD + MIN_CMD_W,
        cols <= usize::MAX,
    ensures
        layout_spec(cols).cmd_w >= MIN_CMD_W,
        OVERHEAD + layout_spec(cols).cmd_w + layout_spec(cols).args_w <= cols,
{
}

} // verus!
