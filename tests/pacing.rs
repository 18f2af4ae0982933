use shooter::audio::AudioCursor;
use shooter::scheduler::{FrameScheduler, Tick};

#[test]
fn scheduler_waits_before_the_interval() {
    let mut s = FrameScheduler::new(16, 1000);
    assert_eq!(s.tick(1005), Tick::Wait(11));
    assert_eq!(s.before, 1000);
    assert_eq!(s.frames, 0);
}

#[test]
fn scheduler_runs_one_frame_with_measured_time() {
    let mut s = FrameScheduler::new(16, 1000);
    assert_eq!(s.tick(1020), Tick::Frame { elapsed: 20, fps_report: None });
    assert_eq!(s.before, 1020);
    assert_eq!(s.tick(1021), Tick::Wait(15));
}

#[test]
fn scheduler_reports_frames_per_window() {
    let mut s = FrameScheduler::new(16, 0);
    let mut now = 0u64;
    let mut reports = vec![];
    for _ in 0..70 {
        now += 16;
        if let Tick::Frame { fps_report: Some(n), .. } = s.tick(now) {
            reports.push(n);
        }
    }
    assert_eq!(reports, vec![63]);
    assert_eq!(s.last_second, 1008);
}

#[test]
fn scheduler_clock_going_back_waits() {
    let mut s = FrameScheduler::new(16, 1000);
    assert_eq!(s.tick(900), Tick::Wait(16));
}

#[test]
fn audio_cursor_copies_in_order() {
    let samples: Vec<u8> = (0..10).collect();
    let mut c = AudioCursor::new();
    let mut out = [0u8; 4];
    c.fill(&samples, &mut out);
    assert_eq!(out, [0, 1, 2, 3]);
    c.fill(&samples, &mut out);
    assert_eq!(out, [4, 5, 6, 7]);
    assert_eq!(c.position, 8);
    assert!(c.has_room(2, samples.len()));
    assert!(!c.has_room(4, samples.len()));
}
