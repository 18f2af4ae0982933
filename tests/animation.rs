use shooter::geometry::Rectangle;
use shooter::motion::{bump, wave};
use shooter::sprite::{AnimatedSprite, FrameGrid};

fn strip(n: usize) -> Vec<Rectangle> {
    (0..n).map(|i| Rectangle { x: 10 * i as i64, y: 0, w: 10, h: 20 + i as i64 }).collect()
}

#[test]
fn grid_frames_row_by_row() {
    let g = FrameGrid { total_frames: 17, frames_wide: 5, frames_high: 4, frame_w: 96, frame_h: 96 };
    let f = g.frames();
    assert_eq!(f.len(), 17);
    assert_eq!(f[0], Rectangle { x: 0, y: 0, w: 96, h: 96 });
    assert_eq!(f[6], Rectangle { x: 96, y: 96, w: 96, h: 96 });
    assert_eq!(f[16], Rectangle { x: 96, y: 288, w: 96, h: 96 });
}

#[test]
fn grid_frames_limited_by_cells() {
    let g = FrameGrid { total_frames: 10, frames_wide: 3, frames_high: 2, frame_w: 4, frame_h: 5 };
    assert_eq!(g.frames().len(), 6);
}

#[test]
fn frame_index_follows_time_and_fps() {
    let mut s = AnimatedSprite::with_fps(strip(4), 10, 0);
    assert_eq!(s.current_frame(), 0);
    s.add_time(99);
    assert_eq!(s.current_frame(), 0);
    s.add_time(1);
    assert_eq!(s.current_frame(), 1);
    s.add_time(300);
    assert_eq!(s.current_frame(), 0);
    s.set_fps(20);
    assert_eq!(s.current_frame(), 0);
    s.add_time(50);
    assert_eq!(s.current_frame(), 1);
    assert_eq!(s.size(), (10, 21));
}

#[test]
fn split_advance_matches_single_advance() {
    let mut a = AnimatedSprite::with_fps(strip(16), 7, 4);
    let mut b = a.copy();
    a.add_time(333);
    a.add_time(1444);
    b.add_time(1777);
    assert_eq!(a.current_frame(), b.current_frame());
    assert_eq!(a.current_time, b.current_time);
    assert_eq!(a.frames, b.frames);
    assert_eq!(a.is_resting, b.is_resting);
}

#[test]
fn rest_frames_entered_once_playable_frames_played() {
    let mut s = AnimatedSprite::with_fps(strip(16), 10, 4);
    s.add_time(1199);
    assert!(!s.is_resting);
    assert_eq!(s.frames.len(), 16);
    s.add_time(1);
    assert!(s.is_resting);
    assert_eq!(s.frames.len(), 4);
    assert_eq!(s.frames[0], strip(16)[12]);
    assert_eq!(s.current_frame(), 0);
    s.add_time(100);
    assert_eq!(s.current_frame(), 1);
    s.add_time(10_000);
    assert_eq!(s.frames.len(), 4);
}

#[test]
fn clock_saturates() {
    let mut s = AnimatedSprite::with_fps(strip(3), 1, 0);
    s.add_time(u64::MAX);
    s.add_time(5);
    assert_eq!(s.current_time, u64::MAX);
}

#[test]
fn wave_values() {
    assert_eq!(wave(15, 10, 0), 0);
    assert_eq!(wave(1000, 1, 1571), 1000);
    assert_eq!(wave(1000, 1, 1571 + 3142), -1000);
    assert_eq!(wave(15, 10, 157), 14);
    assert_eq!(wave(10, 15, 100), 9);
}

#[test]
fn bump_values() {
    assert_eq!(bump(-100, 1200, 0), 0);
    assert_eq!(bump(-100, 1200, 600), 12);
    assert_eq!(bump(-100, 1200, 1200), 0);
    assert_eq!(bump(-100, 1200, 2400), -400);
}
