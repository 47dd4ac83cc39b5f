//! Counts and price sums behind the queue price summary.

use vstd::prelude::*;

verus! {

/// A queued job as the price summary sees it.
#[derive(Clone, Copy, Debug, PartialEq, Eq, Structural)]
pub struct PriceJob {
    pub job_prio: i32,
    pub job_status: i32,
    pub request_gpus: i32,
}

/// Price of a job: its priority shifted from `[-1000, 1000]` to `[0, 2000]`.
pub open spec fn price_spec(job_prio: i32) -> int {
    job_prio + 1000
}

/// The price of a job of priority `job_prio`.
pub fn job_prio_to_price(job_prio: i32) -> (r: i64)
    ensures
        r == price_spec(job_prio),
{
    job_prio as i64 + 1000
}

/// Whether `j` belongs to the GPU group (`has_gpu`) or the CPU group.
pub open spec fn in_group(j: PriceJob, has_gpu: bool) -> bool {
    (j.request_gpus > 0) == has_gpu
}

/// Whether `j` counts: in the group and, when `status` is given, in that state.
pub open spec fn counted(j: PriceJob, has_gpu: bool, status: Option<i32>) -> bool {
    in_group(j, has_gpu) && match status {
        Some(s) => j.job_status == s,
        None => true,
    }
}

/// Number of counted jobs.
pub open spec fn count_spec(jobs: Seq<PriceJob>, has_gpu: bool, status: Option<i32>) -> nat
    decreases jobs.len(),
{
    if jobs.len() == 0 {
        0
    } else {
        count_spec(jobs.drop_last(), has_gpu, status) + if counted(jobs.last(), has_gpu, status) { 1nat } else { 0nat }
    }
}

/// Sum of the prices of the counted jobs.
pub open spec fn price_sum_spec(jobs: Seq<PriceJob>, has_gpu: bool, status: Option<i32>) -> int
    decreases jobs.len(),
{
    if jobs.len() == 0 {
        0
    } else {
        price_sum_spec(jobs.drop_last(), has_gpu, status) + if counted(jobs.last(), has_gpu, status) {
            price_spec(jobs.last().job_prio)
        } else {
            0
        }
    }
}

/// Job status code of an idle job.
pub const IDLE: i32 = 1;

/// Job status code of a running job.
pub const RUNNING: i32 = 2;

/// Counts and price sums of one group of jobs, in all, idle and running.
#[derive(Clone, Copy, Debug, PartialEq, Eq, Structural)]
pub struct PriceTotals {
    pub total_jobs: usize,
    pub idle_jobs: usize,
    pub running_jobs: usize,
    pub total_price: i128,
    pub idle_price: i128,
    pub running_price: i128,
}

proof fn lemma_bounds(jobs: Seq<PriceJob>, has_gpu: bool, status: Option<i32>)
    ensures
        count_spec(jobs, has_gpu, status) <= jobs.len(),
        -(jobs.len() * 0x1_0000_0000) <= price_sum_spec(jobs, has_gpu, status) <= jobs.len() * 0x1_0000_0000,
    decreases jobs.len(),
{
    if jobs.len() > 0 {
        lemma_bounds(jobs.drop_last(), has_gpu, status);
    }
}

/// Counts and price sums of the GPU jobs (`has_gpu`) or of the others.
pub fn calculate_stats(jobs: &Vec<PriceJob>, has_gpu: bool) -> (r: PriceTotals)
    ensures
        r.total_jobs == count_spec(jobs@, has_gpu, None),
        r.idle_jobs == count_spec(jobs@, has_gpu, Some(IDLE)),
        r.running_jobs == count_spec(jobs@, has_gpu, Some(RUNNING)),
        r.total_price == price_sum_spec(jobs@, has_gpu, None),
        r.idle_price == price_sum_spec(jobs@, has_gpu, Some(IDLE)),
        r.running_price == price_sum_spec(jobs@, has_gpu, Some(RUNNING)),
{
    let mut t = PriceTotals { total_jobs: 0, idle_jobs: 0, running_jobs: 0, total_price: 0, idle_price: 0, running_price: 0 };
    let mut i: usize = 0;
    while i < jobs.len()
        invariant
            i <= jobs@.len(),
            t.total_jobs == count_spec(jobs@.take(i as int), has_gpu, None),
            t.idle_jobs == count_spec(jobs@.take(i as int), has_gpu, Some(IDLE)),
            t.running_jobs == count_spec(jobs@.take(i as int), has_gpu, Some(RUNNING)),
            t.total_price == price_sum_spec(jobs@.take(i as int), has_gpu, None),
            t.idle_price == price_sum_spec(jobs@.take(i as int), has_gpu, Some(IDLE)),
            t.running_price == price_sum_spec(jobs@.take(i as int), has_gpu, Some(RUNNING)),
        decreases jobs@.len() - i,
    {
        let j = jobs[i];
        let ghost prev = jobs@.take(i as int);
        let ghost next = jobs@.take(i + 1);
        proof {
            assert(next.drop_last() =~= prev);
            lemma_bounds(prev, has_gpu, None);
            lemma_bounds(prev, has_gpu, Some(IDLE));
            lemma_bounds(prev, has_gpu, Some(RUNNING));
            assert(prev.len() * 0x1_0000_0000 <= 0x1_0000_0000_0000_0000_0000_0000) by (nonlinear_arith)
                requires prev.len() <= 0xFFFF_FFFF_FFFF_FFFF;
        }
        if (j.request_gpus > 0) == has_gpu {
            let p = job_prio_to_price(j.job_prio) as i128;
            t.total_jobs = t.total_jobs + 1;
            t.total_price = t.total_price + p;
            if j.job_status == IDLE {
                t.idle_jobs = t.idle_jobs + 1;
                t.idle_price = t.idle_price + p;
            } else if j.job_status == RUNNING {
                t.running_jobs = t.running_jobs + 1;
                t.running_price = t.running_price + p;
            }
        }
        i = i + 1;
    }
    assert(jobs@.take(jobs@.len() as int) =~= jobs@);
    t
}

/// The two groups of the summary.
#[derive(Clone, Copy, Debug, PartialEq, Eq, Structural)]
pub enum JobGroup {
    Gpu,
    Cpu,
}

/// What one line of a group reports.
#[derive(Clone, Copy, Debug, PartialEq, Eq, Structural)]
pub enum SummaryLine {
    Total,
    Idle,
    Running,
    NoJobs,
}

/// A number cell: a count, a mean price as sum and count, "N/A" for the
/// mean of no jobs, or a dash when the group is empty.
#[derive(Clone, Copy, Debug, PartialEq, Eq, Structural)]
pub enum Figure {
    Count(usize),
    Mean { sum: i128, count: usize },
    NotAvailable,
    Dash,
}

impl JobGroup {
    /// The group's name in the table.
    pub fn label(&self) -> (r: String)
        ensures
            r@ == (if *self == JobGroup::Gpu { "GPU"@ } else { "CPU"@ }),
    {
        match self {
            JobGroup::Gpu => String::from_str("GPU"),
            JobGroup::Cpu => String::from_str("CPU"),
        }
    }
}

impl SummaryLine {
    /// The line's name in the status column.
    pub fn label(&self) -> (r: String)
        ensures
            r@ == match *self {
                SummaryLine::Total => "Total"@,
                SummaryLine::Idle => "Idle"@,
                SummaryLine::Running => "Running"@,
                SummaryLine::NoJobs => "No jobs found"@,
            },
    {
        match self {
            SummaryLine::Total => String::from_str("Total"),
            SummaryLine::Idle => String::from_str("Idle"),
            SummaryLine::Running => String::from_str("Running"),
            SummaryLine::NoJobs => String::from_str("No jobs found"),
        }
    }
}

/// One line of the summary table; the group is named on its first line only.
#[derive(Clone, Copy, Debug, PartialEq, Eq, Structural)]
pub struct SummaryRow {
    pub group: Option<JobGroup>,
    pub line: SummaryLine,
    pub count: Figure,
    pub average: Figure,
}

/// The mean of `count` prices summing to `sum`, or "N/A" when there are none.
pub open spec fn mean_or_na(sum: i128, count: usize) -> Figure {
    if count > 0 { Figure::Mean { sum, count } } else { Figure::NotAvailable }
}

/// The lines of one group: total, idle and running when it has jobs, else
/// a single "no jobs" line.
pub open spec fn group_rows_spec(g: JobGroup, t: PriceTotals) -> Seq<SummaryRow> {
    if t.total_jobs > 0 {
        seq![
            SummaryRow { group: Some(g), line: SummaryLine::Total, count: Figure::Count(t.total_jobs),
                average: Figure::Mean { sum: t.total_price, count: t.total_jobs } },
            SummaryRow { group: None, line: SummaryLine::Idle, count: Figure::Count(t.idle_jobs),
                average: mean_or_na(t.idle_price, t.idle_jobs) },
            SummaryRow { group: None, line: SummaryLine::Running, count: Figure::Count(t.running_jobs),
                average: mean_or_na(t.running_price, t.running_jobs) },
        ]
    } else {
        seq![SummaryRow { group: Some(g), line: SummaryLine::NoJobs, count: Figure::Dash, average: Figure::Dash }]
    }
}

fn mean_or_na_exec(sum: i128, count: usize) -> (r: Figure)
    ensures
        r == mean_or_na(sum, count),
{
    if count > 0 { Figure::Mean { sum, count } } else { Figure::NotAvailable }
}

fn push_group_rows(v: &mut Vec<SummaryRow>, g: JobGroup, t: PriceTotals)
    ensures
        final(v)@ == old(v)@ + group_rows_spec(g, t),
{
    if t.total_jobs > 0 {
        v.push(SummaryRow { group: Some(g), line: SummaryLine::Total, count: Figure::Count(t.total_jobs),
            average: Figure::Mean { sum: t.total_price, count: t.total_jobs } });
        v.push(SummaryRow { group: None, line: SummaryLine::Idle, count: Figure::Count(t.idle_jobs),
            average: mean_or_na_exec(t.idle_price, t.idle_jobs) });
        v.push(SummaryRow { group: None, line: SummaryLine::Running, count: Figure::Count(t.running_jobs),
            average: mean_or_na_exec(t.running_price, t.running_jobs) });
    } else {
        v.push(SummaryRow { group: Some(g), line: SummaryLine::NoJobs, count: Figure::Dash, average: Figure::Dash });
    }
    assert(v@ =~= old(v)@ + group_rows_spec(g, t));
}

/// The lines of the price summary: the GPU group, then the CPU group.
pub fn summary_rows(gpu: PriceTotals, cpu: PriceTotals) -> (r: Vec<SummaryRow>)
    ensures
        r@ == group_rows_spec(JobGroup::Gpu, gpu) + group_rows_spec(JobGroup::Cpu, cpu),
{
    let mut r: Vec<SummaryRow> = Vec::new();
    push_group_rows(&mut r, JobGroup::Gpu, gpu);
    push_group_rows(&mut r, JobGroup::Cpu, cpu);
    assert(r@ =~= group_rows_spec(JobGroup::Gpu, gpu) + group_rows_spec(JobGroup::Cpu, cpu));
    r
}

/// Colour of the cells that name a group and that count a line's jobs.
#[derive(Clone, Copy, Debug, PartialEq, Eq, Structural)]
pub enum SummaryColor {
    Green,
    Blue,
    Magenta,
    DarkGrey,
}

/// Colour of a group's name: green for GPU jobs, blue for the others.
pub fn group_color(g: JobGroup) -> (r: SummaryColor)
    ensures
        r == (if g == JobGroup::Gpu { SummaryColor::Green } else { SummaryColor::Blue }),
{
    match g {
        JobGroup::Gpu => SummaryColor::Green,
        JobGroup::Cpu => SummaryColor::Blue,
    }
}

/// Colour of a line's count: green totals, blue idle, magenta running,
/// dark grey dashes.
pub open spec fn count_color_spec(l: SummaryLine) -> SummaryColor {
    match l {
        SummaryLine::Total => SummaryColor::Green,
        SummaryLine::Idle => SummaryColor::Blue,
        SummaryLine::Running => SummaryColor::Magenta,
        SummaryLine::NoJobs => SummaryColor::DarkGrey,
    }
}

/// Colour of a line's count.
pub fn count_color(l: SummaryLine) -> (r: SummaryColor)
    ensures
        r == count_color_spec(l),
{
    match l {
        SummaryLine::Total => SummaryColor::Green,
        SummaryLine::Idle => SummaryColor::Blue,
        SummaryLine::Running => SummaryColor::Magenta,
        SummaryLine::NoJobs => SummaryColor::DarkGrey,
    }
}

} // verus!
