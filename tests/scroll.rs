use cluster_tools::dashboard::{Dashboard, InputEvent, JobRow};
use cluster_tools::scroll::{scrolling_window, ScrollState};

fn row(c: i64, p: i64) -> JobRow {
    JobRow { cluster_id: c, proc_id: p, cmd: None, args: None, job_status: 2, request_gpus: 0 }
}

#[test]
fn short_text_is_padded_at_any_offset() {
    assert_eq!(scrolling_window("abc", 5, 0), "abc  ");
    assert_eq!(scrolling_window("abc", 5, 3), "abc  ");
    assert_eq!(scrolling_window("abc", 5, 1000), "abc  ");
    assert_eq!(scrolling_window("abcde", 5, 7), "abcde");
    assert_eq!(scrolling_window("", 3, 2), "   ");
}

#[test]
fn zero_width_is_empty() {
    assert_eq!(scrolling_window("abc", 0, 0), "");
    assert_eq!(scrolling_window("", 0, 9), "");
}

#[test]
fn long_text_cycles_through_gap() {
    // "abcdefghij" + 4 spaces + "abcdefghij": 24 characters, period 20.
    assert_eq!(scrolling_window("abcdefghij", 4, 0), "abcd");
    assert_eq!(scrolling_window("abcdefghij", 4, 1), "bcde");
    assert_eq!(scrolling_window("abcdefghij", 4, 8), "ij  ");
    assert_eq!(scrolling_window("abcdefghij", 4, 11), "   a");
    assert_eq!(scrolling_window("abcdefghij", 4, 19), "fghi");
    assert_eq!(scrolling_window("abcdefghij", 4, 20), "abcd");
}

#[test]
fn long_text_is_periodic() {
    let t = "a fairly long command line";
    let w = 7usize;
    let period = 2 * t.chars().count() + 7 - w;
    for o in 0..60usize {
        assert_eq!(scrolling_window(t, w, o), scrolling_window(t, w, o + period));
        assert_eq!(scrolling_window(t, w, o).chars().count(), w);
    }
}

#[test]
fn gap_is_capped_at_ten() {
    // 15 characters in a 12-wide column: gap 10, buffer 40, period 28.
    let t = "0123456789abcde";
    assert_eq!(scrolling_window(t, 12, 13), "de          ");
    assert_eq!(scrolling_window(t, 12, 15), "          01");
    assert_eq!(scrolling_window(t, 12, 28), "0123456789ab");
}

#[test]
fn window_counts_characters_not_bytes() {
    assert_eq!(scrolling_window("héllo", 6, 0), "héllo ");
    assert_eq!(scrolling_window("héllo", 3, 1), "éll");
}

#[test]
fn tick_waits_for_settle_and_interval() {
    let mut s = ScrollState::new(1000);
    assert!(s.paused);
    s.tick(5000);
    assert_eq!(s.offset, 0);
    s.toggle_pause(5000);
    assert!(!s.paused);
    s.tick(5100);
    assert_eq!(s.offset, 0);
    s.tick(5150);
    assert_eq!(s.offset, 1);
    assert_eq!(s.last_tick_at, 5150);
    s.tick(5200);
    assert_eq!(s.offset, 1);
    s.tick(5300);
    assert_eq!(s.offset, 2);
}

#[test]
fn tick_wraps_offset() {
    let mut s = ScrollState { offset: usize::MAX, paused: false, started_at: 0, last_tick_at: 0 };
    s.tick(500);
    assert_eq!(s.offset, 0);
}

#[test]
fn pause_toggle_restarts_scroll() {
    let mut s = ScrollState { offset: 5, paused: false, started_at: 10, last_tick_at: 20 };
    s.toggle_pause(90);
    assert_eq!(s, ScrollState { offset: 0, paused: true, started_at: 90, last_tick_at: 90 });
}

#[test]
fn resize_restarts_scroll() {
    let mut d = Dashboard::start(vec![row(1, 0), row(2, 0)], 0).unwrap();
    d.scroll = ScrollState { offset: 7, paused: false, started_at: 100, last_tick_at: 400 };
    d.dispatch(InputEvent::Resize, 1000);
    assert_eq!(d.scroll, ScrollState { offset: 0, paused: false, started_at: 1000, last_tick_at: 1000 });
    assert_eq!(d.selected, 0);
    assert_eq!(d.rows.len(), 2);
}
