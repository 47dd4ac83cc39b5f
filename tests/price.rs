use cluster_tools::price::{
    calculate_stats, count_color, group_color, job_prio_to_price, summary_rows, Figure, JobGroup, PriceJob,
    PriceTotals, SummaryColor, SummaryLine, SummaryRow,
};

fn pj(prio: i32, status: i32, gpus: i32) -> PriceJob {
    PriceJob { job_prio: prio, job_status: status, request_gpus: gpus }
}

#[test]
fn prices_shift_priorities() {
    assert_eq!(job_prio_to_price(0), 1000);
    assert_eq!(job_prio_to_price(-1000), 0);
    assert_eq!(job_prio_to_price(1000), 2000);
    assert_eq!(job_prio_to_price(i32::MIN), i32::MIN as i64 + 1000);
}

#[test]
fn stats_per_group() {
    let jobs = vec![pj(0, 1, 1), pj(500, 2, 2), pj(-500, 1, 0), pj(100, 5, 4), pj(10, 2, 0)];
    let gpu = calculate_stats(&jobs, true);
    assert_eq!(
        gpu,
        PriceTotals { total_jobs: 3, idle_jobs: 1, running_jobs: 1, total_price: 3600, idle_price: 1000, running_price: 1500 }
    );
    let cpu = calculate_stats(&jobs, false);
    assert_eq!(
        cpu,
        PriceTotals { total_jobs: 2, idle_jobs: 1, running_jobs: 1, total_price: 1510, idle_price: 500, running_price: 1010 }
    );
    let none = calculate_stats(&Vec::new(), true);
    assert_eq!(none, PriceTotals { total_jobs: 0, idle_jobs: 0, running_jobs: 0, total_price: 0, idle_price: 0, running_price: 0 });
}

#[test]
fn summary_lines() {
    let gpu = PriceTotals { total_jobs: 2, idle_jobs: 0, running_jobs: 2, total_price: 3000, idle_price: 0, running_price: 3000 };
    let cpu = PriceTotals { total_jobs: 0, idle_jobs: 0, running_jobs: 0, total_price: 0, idle_price: 0, running_price: 0 };
    assert_eq!(
        summary_rows(gpu, cpu),
        vec![
            SummaryRow { group: Some(JobGroup::Gpu), line: SummaryLine::Total, count: Figure::Count(2), average: Figure::Mean { sum: 3000, count: 2 } },
            SummaryRow { group: None, line: SummaryLine::Idle, count: Figure::Count(0), average: Figure::NotAvailable },
            SummaryRow { group: None, line: SummaryLine::Running, count: Figure::Count(2), average: Figure::Mean { sum: 3000, count: 2 } },
            SummaryRow { group: Some(JobGroup::Cpu), line: SummaryLine::NoJobs, count: Figure::Dash, average: Figure::Dash },
        ]
    );
}

#[test]
fn summary_labels_and_colors() {
    assert_eq!(JobGroup::Gpu.label(), "GPU");
    assert_eq!(JobGroup::Cpu.label(), "CPU");
    assert_eq!(SummaryLine::NoJobs.label(), "No jobs found");
    assert_eq!(SummaryLine::Running.label(), "Running");
    assert_eq!(group_color(JobGroup::Gpu), SummaryColor::Green);
    assert_eq!(group_color(JobGroup::Cpu), SummaryColor::Blue);
    assert_eq!(count_color(SummaryLine::Idle), SummaryColor::Blue);
    assert_eq!(count_color(SummaryLine::NoJobs), SummaryColor::DarkGrey);
}
