use cluster_tools::logs::{latest_job, parse_job_selector, select_job, tail_command, LogJob};

fn job(c: i32, p: i32, q: Option<i64>) -> LogJob {
    LogJob {
        cluster_id: c,
        proc_id: p,
        cmd: None,
        args: None,
        iwd: None,
        user_log: None,
        err: None,
        out: None,
        job_start_date: None,
        q_date: q,
    }
}

#[test]
fn selectors_parse() {
    assert_eq!(parse_job_selector("latest"), None);
    assert_eq!(parse_job_selector("LaTeSt"), None);
    assert_eq!(parse_job_selector("l"), None);
    assert_eq!(parse_job_selector("L"), None);
    assert_eq!(parse_job_selector("123"), Some((123, None)));
    assert_eq!(parse_job_selector("123.4"), Some((123, Some(4))));
    assert_eq!(parse_job_selector("-5"), Some((-5, None)));
    assert_eq!(parse_job_selector("+7.1"), Some((7, Some(1))));
    assert_eq!(parse_job_selector("12.x"), None);
    assert_eq!(parse_job_selector("12."), None);
    assert_eq!(parse_job_selector("abc"), None);
    assert_eq!(parse_job_selector(""), None);
    assert_eq!(parse_job_selector("99999999999"), None);
    assert_eq!(parse_job_selector("2147483647.0"), Some((i32::MAX, Some(0))));
    assert_eq!(parse_job_selector(" 5"), None);
}

#[test]
fn latest_is_last_of_greatest_queue_date() {
    let jobs = vec![job(1, 0, Some(5)), job(2, 0, Some(9)), job(3, 0, None), job(4, 0, Some(9)), job(5, 0, Some(2))];
    assert_eq!(latest_job(&jobs), 3);
    let jobs = vec![job(1, 0, None), job(2, 0, Some(-4))];
    assert_eq!(latest_job(&jobs), 0);
}

#[test]
fn select_by_selector() {
    let jobs = vec![job(7, 0, Some(1)), job(7, 1, Some(3)), job(8, 0, Some(2))];
    assert_eq!(select_job(&jobs, None), Ok(1));
    assert_eq!(select_job(&jobs, Some("latest")), Ok(1));
    assert_eq!(select_job(&jobs, Some("nonsense")), Ok(1));
    assert_eq!(select_job(&jobs, Some("7")), Ok(0));
    assert_eq!(select_job(&jobs, Some("7.1")), Ok(1));
    assert_eq!(select_job(&jobs, Some("8")), Ok(2));
    assert_eq!(select_job(&jobs, Some("7.5")), Err("Job 7.5 not found among running jobs".to_string()));
    assert_eq!(select_job(&jobs, Some("9")), Err("Job 9 not found among running jobs".to_string()));
}

#[test]
fn tail_command_quotes_path() {
    assert_eq!(
        tail_command("Out", "/w/o'1.txt"),
        "tail -n 50 '/w/o'\\''1.txt' || echo '[Out] file not found: /w/o'1.txt'"
    );
}

#[test]
fn running_jobs_query() {
    assert_eq!(
        cluster_tools::logs::running_jobs_command("ana"),
        "condor_q ana -json -attributes ClusterId,ProcId,Cmd,Args,Iwd,UserLog,Err,Out,JobStartDate,QDate -constraint 'JobStatus==2'"
    );
}
