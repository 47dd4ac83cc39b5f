use cluster_tools::dashboard::{
    column_header, job_id, merge_rows, row_body, status_style, Action, Dashboard, InputEvent, JobRow,
    StatusColor, StatusStyle,
};
use cluster_tools::layout::layout;
use cluster_tools::scroll::ScrollState;

fn row(c: i64, p: i64) -> JobRow {
    JobRow { cluster_id: c, proc_id: p, cmd: None, args: None, job_status: 1, request_gpus: 0 }
}

fn three() -> Vec<JobRow> {
    vec![row(10, 0), row(11, 1), row(12, 2)]
}

#[test]
fn job_id_joins_cluster_and_process() {
    assert_eq!(job_id(&row(123, 4)), "123.4");
    assert_eq!(job_id(&row(0, 0)), "0.0");
    assert_eq!(job_id(&row(-7, 10)), "-7.10");
    assert_eq!(job_id(&row(i64::MIN, i64::MAX)), format!("{}.{}", i64::MIN, i64::MAX));
}

#[test]
fn status_table_is_total() {
    let expect = [
        (1, 'I', StatusColor::Blue),
        (2, 'R', StatusColor::Green),
        (3, 'X', StatusColor::DarkRed),
        (4, 'C', StatusColor::DarkGreen),
        (5, 'H', StatusColor::Yellow),
        (6, 'O', StatusColor::Cyan),
        (7, 'S', StatusColor::Magenta),
    ];
    for (code, glyph, color) in expect {
        assert_eq!(status_style(code), StatusStyle { glyph, color });
    }
    for code in [0, 8, -1, 99, i32::MAX] {
        assert_eq!(status_style(code), StatusStyle { glyph: '?', color: StatusColor::White });
    }
}

#[test]
fn no_rows_never_starts() {
    assert!(Dashboard::start(Vec::new(), 0).is_none());
    let d = Dashboard::start(three(), 42).unwrap();
    assert_eq!(d.selected, 0);
    assert_eq!(d.scroll, ScrollState { offset: 0, paused: true, started_at: 42, last_tick_at: 42 });
}

#[test]
fn selection_is_clamped_by_moves() {
    let mut d = Dashboard::start(three(), 0).unwrap();
    assert_eq!(d.dispatch(InputEvent::Up, 1), Action::Continue);
    assert_eq!(d.selected, 0);
    let moves = [
        InputEvent::Down, InputEvent::Down, InputEvent::Down, InputEvent::Down, InputEvent::Up,
        InputEvent::Down, InputEvent::Up, InputEvent::Up, InputEvent::Up, InputEvent::Up,
    ];
    let expected = [1, 2, 2, 2, 1, 2, 1, 0, 0, 0];
    for (ev, want) in moves.iter().zip(expected.iter()) {
        d.dispatch(*ev, 2);
        assert_eq!(d.selected, *want);
        assert!(d.selected < d.rows.len());
    }
}

#[test]
fn single_row_selection_stays_put() {
    let mut d = Dashboard::start(vec![row(1, 0)], 0).unwrap();
    d.dispatch(InputEvent::Down, 1);
    assert_eq!(d.selected, 0);
    d.dispatch(InputEvent::Up, 1);
    assert_eq!(d.selected, 0);
}

#[test]
fn keys_map_to_actions() {
    let mut d = Dashboard::start(three(), 0).unwrap();
    d.dispatch(InputEvent::Down, 1);
    assert_eq!(d.dispatch(InputEvent::Key('q'), 1), Action::Quit);
    assert_eq!(d.dispatch(InputEvent::Key('r'), 1), Action::Refresh);
    assert_eq!(d.dispatch(InputEvent::Key('l'), 1), Action::ShowLogs("11.1".to_string()));
    assert_eq!(d.dispatch(InputEvent::Key('s'), 1), Action::OpenShell("11.1".to_string()));
    assert_eq!(d.dispatch(InputEvent::Key('x'), 1), Action::Continue);
    assert_eq!(d.dispatch(InputEvent::Other, 1), Action::Continue);
    assert_eq!(d.selected, 1);
    assert_eq!(d.dispatch(InputEvent::Key('p'), 7), Action::Continue);
    assert_eq!(d.scroll, ScrollState { offset: 0, paused: false, started_at: 7, last_tick_at: 7 });
}

#[test]
fn failed_refresh_keeps_state() {
    let mut d = Dashboard::start(three(), 0).unwrap();
    d.dispatch(InputEvent::Down, 1);
    d.dispatch(InputEvent::Down, 1);
    assert_eq!(d.selected, 2);
    d.scroll = ScrollState { offset: 3, paused: false, started_at: 0, last_tick_at: 450 };
    let notice = d.finish_refresh(Err("connection refused".to_string()), 900);
    assert_eq!(notice, Some("Refresh failed: connection refused".to_string()));
    assert_eq!(d.rows.len(), 3);
    assert_eq!(d.selected, 2);
    assert_eq!(d.scroll, ScrollState { offset: 3, paused: false, started_at: 0, last_tick_at: 450 });
}

#[test]
fn refresh_replaces_rows_and_clamps_selection() {
    let mut d = Dashboard::start(three(), 0).unwrap();
    d.dispatch(InputEvent::Down, 1);
    d.dispatch(InputEvent::Down, 1);
    d.scroll.offset = 9;
    let notice = d.finish_refresh(Ok(vec![row(50, 0)]), 800);
    assert_eq!(notice, None);
    assert_eq!(d.rows, vec![row(50, 0)]);
    assert_eq!(d.selected, 0);
    assert_eq!(d.scroll, ScrollState { offset: 0, paused: true, started_at: 800, last_tick_at: 800 });
    let notice = d.finish_refresh(Ok(Vec::new()), 900);
    assert_eq!(notice, None);
    assert_eq!(d.selected, 0);
    assert_eq!(d.dispatch(InputEvent::Key('l'), 901), Action::Continue);
}

#[test]
fn row_body_lays_out_columns() {
    let j = JobRow {
        cluster_id: 12,
        proc_id: 3,
        cmd: Some("run.sh".to_string()),
        args: None,
        job_status: 2,
        request_gpus: 1,
    };
    let expected = format!("{:>10}  {:>4}  {:<20}  {}", "12.3", 1, "run.sh", " ".repeat(56));
    assert_eq!(row_body(&j, layout(100), 0), expected);
    assert_eq!(row_body(&j, layout(100), 5), expected);
}

#[test]
fn row_body_scrolls_long_arguments() {
    let j = JobRow {
        cluster_id: 1,
        proc_id: 0,
        cmd: Some("python".to_string()),
        args: Some("--epochs 10".to_string()),
        job_status: 2,
        request_gpus: 2,
    };
    // 30 columns: command width 6, arguments width 0.
    assert_eq!(row_body(&j, layout(30), 0), "       1.0     2  python  ");
    // 50 columns: command 20, arguments 6 with a gap of 6.
    assert_eq!(row_body(&j, layout(50), 2), format!("{:>10}  {:>4}  {:<20}  {}", "1.0", 2, "python", "epochs"));
}

#[test]
fn header_matches_columns() {
    assert_eq!(column_header(layout(100)), format!("  S {:>10}  {:>4}  {:<20}  Args", "JobID", "GPUs", "Cmd"));
}

#[test]
fn frame_marks_selected_row() {
    let mut d = Dashboard::start(three(), 0).unwrap();
    d.dispatch(InputEvent::Down, 0);
    let f = d.frame(80);
    assert_eq!(f.len(), 3);
    assert!(!f[0].selected && f[1].selected && !f[2].selected);
    assert_eq!(f[2].style, StatusStyle { glyph: 'I', color: StatusColor::Blue });
    assert_eq!(f[2].body, row_body(&d.rows[2], layout(80), 0));
}

#[test]
fn merged_rows_keep_order_and_duplicates() {
    let r = merge_rows(vec![row(1, 0), row(2, 0)], vec![row(2, 0), row(3, 0)]);
    assert_eq!(r, vec![row(1, 0), row(2, 0), row(2, 0), row(3, 0)]);
}
