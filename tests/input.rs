use shooter::input::{Events, InputEvent, Key};

#[test]
fn single_press_gives_one_edge_and_stays_held() {
    let mut ev = Events::new();
    ev.pump(&vec![InputEvent::KeyDown(Key::Space)]);
    assert_eq!(ev.now.key(Key::Space), Some(true));
    assert!(ev.is_down(Key::Space));
    for _ in 0..5 {
        ev.pump(&vec![]);
        assert_eq!(ev.now.key(Key::Space), None);
        assert!(ev.is_down(Key::Space));
    }
}

#[test]
fn repeated_down_gives_no_second_edge() {
    let mut ev = Events::new();
    ev.pump(&vec![InputEvent::KeyDown(Key::Left)]);
    ev.pump(&vec![InputEvent::KeyDown(Key::Left)]);
    assert_eq!(ev.now.key(Key::Left), None);
    assert!(ev.is_down(Key::Left));
}

#[test]
fn release_gives_false_edge_and_clears_held() {
    let mut ev = Events::new();
    ev.pump(&vec![InputEvent::KeyDown(Key::Up)]);
    ev.pump(&vec![InputEvent::KeyUp(Key::Up)]);
    assert_eq!(ev.now.key(Key::Up), Some(false));
    assert!(!ev.is_down(Key::Up));
    assert!(!ev.now.pressed(Key::Up));
}

#[test]
fn press_and_release_in_one_frame() {
    let mut ev = Events::new();
    ev.pump(&vec![InputEvent::KeyDown(Key::Enter), InputEvent::KeyUp(Key::Enter)]);
    assert_eq!(ev.now.key(Key::Enter), Some(false));
    assert!(!ev.is_down(Key::Enter));
}

#[test]
fn quit_and_resize_last_one_frame() {
    let mut ev = Events::new();
    ev.pump(&vec![InputEvent::Resized(1024, 768), InputEvent::Quit, InputEvent::Other]);
    assert!(ev.now.quit);
    assert_eq!(ev.now.resize, Some((1024, 768)));
    ev.pump(&vec![]);
    assert!(!ev.now.quit);
    assert_eq!(ev.now.resize, None);
}

#[test]
fn unknown_events_change_nothing() {
    let mut ev = Events::new();
    ev.pump(&vec![InputEvent::Other, InputEvent::Other]);
    assert!(!ev.now.quit);
    assert_eq!(ev.now.resize, None);
    assert!(!ev.is_down(Key::Escape));
    assert_eq!(ev.now.key(Key::Escape), None);
}
