use shooter::bullets::{spawn_bullets, Bullet, CannonType, RectBullet};
use shooter::entities::{ConfigError, Enemy, Explosion, Player, PlayerFrame};
use shooter::geometry::Rectangle;
use shooter::input::{Events, InputEvent, Key};

#[test]
fn straight_bullet_flies_up_and_leaves() {
    let b = Bullet::Rect(RectBullet { pos_x: 100, origin_y: 500, total_time: 0 });
    let b = b.update(100, 800, 600).unwrap();
    assert_eq!(b.rect(), Rectangle { x: 100, y: 440, w: 4, h: 8 });
    let b = b.update(734, 800, 600).unwrap();
    assert_eq!(b.rect().y, 0);
    assert!(b.update(1, 800, 600).is_none());
}

#[test]
fn bullet_leaving_sideways_is_dropped() {
    let b = Bullet::Rect(RectBullet { pos_x: 801, origin_y: 500, total_time: 0 });
    assert!(b.update(0, 800, 600).is_none());
}

#[test]
fn each_cannon_fires_one_shot_from_the_first_cannon() {
    let v = spawn_bullets(CannonType::RectBullet, 85, 107, 562);
    assert_eq!(v.len(), 1);
    assert_eq!(v[0].rect(), Rectangle { x: 85, y: 562, w: 4, h: 8 });

    let v = spawn_bullets(CannonType::SineBullet { amplitude: 10, angular_vel: 15 }, 85, 107, 562);
    assert_eq!(v.len(), 1);
    assert_eq!(v[0].rect(), Rectangle { x: 85, y: 562, w: 4, h: 8 });
    let moved = v[0].update(100, 800, 600).unwrap();
    assert_eq!(moved.rect(), Rectangle { x: 94, y: 502, w: 4, h: 8 });

    let v = spawn_bullets(CannonType::DivergentBullet { a: 100, b: 1200 }, 85, 107, 562);
    assert_eq!(v.len(), 1);
    let moved = v[0].update(600, 800, 600).unwrap();
    assert_eq!(moved.rect(), Rectangle { x: 97, y: 382, w: 4, h: 8 });
}

#[test]
fn enemy_factory_places_and_times_enemies() {
    let f = Enemy::factory();
    assert_eq!(f.sprite.frames.len(), 16);
    let e = f.random(800, 600, 1000, 25);
    assert_eq!(e.pos_x, 328);
    assert_eq!(e.origin_y, 280);
    assert_eq!(e.sprite.fps, 15);
    assert_eq!(e.rect(), Rectangle { x: 328, y: 280, w: 129, h: 200 });
    let narrow = f.random(100, 600, 1000, 0);
    assert_eq!(narrow.pos_x, 0);
    assert_eq!(narrow.sprite.fps, 10);
}

#[test]
fn enemy_lifetime_ends_after_eight_seconds() {
    let f = Enemy::factory();
    let e = f.random(800, 600, 0, 0);
    let e = e.update(7999).unwrap();
    assert!(e.update(1).is_none());
}

#[test]
fn enemy_settles_on_rest_frames() {
    let f = Enemy::factory();
    let e = f.random(800, 600, 0, 0);
    let e = e.update(1199).unwrap();
    assert_eq!(e.sprite.frames.len(), 16);
    let e = e.update(1).unwrap();
    assert_eq!(e.sprite.frames.len(), 4);
    assert!(e.sprite.is_resting);
}

#[test]
fn explosion_plays_once() {
    let f = Explosion::factory();
    assert_eq!(f.sprite.frames.len(), 17);
    let x = f.at_center((110, 110));
    assert_eq!(x.rect, Rectangle { x: 62, y: 62, w: 96, h: 96 });
    let x = x.update(1062).unwrap();
    assert_eq!(x.sprite.current_frame(), 16);
    assert!(x.update(1).is_none());
}

#[test]
fn player_starts_bottom_left() {
    let p = Player::new(600);
    assert_eq!(p.rect, Rectangle { x: 64, y: 581, w: 43, h: 39 });
    assert_eq!(p.current, PlayerFrame::MidNorm);
    assert_eq!(p.sprites.len(), 9);
    assert_eq!(p.sprites[4], Rectangle { x: 39, y: 43, w: 39, h: 43 });
}

#[test]
fn player_moves_and_is_kept_in_its_band() {
    let mut p = Player::new(600);
    let mut ev = Events::new();
    ev.pump(&vec![]);
    p.update(&ev, 16, 800, 600).unwrap();
    assert_eq!(p.rect, Rectangle { x: 64, y: 562, w: 43, h: 39 });
    assert_eq!(p.current, PlayerFrame::MidNorm);

    ev.pump(&vec![InputEvent::KeyDown(Key::Right)]);
    p.update(&ev, 100, 800, 600).unwrap();
    assert_eq!(p.rect.x, 100);
    assert_eq!(p.current, PlayerFrame::MidFast);

    ev.pump(&vec![InputEvent::KeyDown(Key::Up)]);
    p.update(&ev, 100, 800, 600).unwrap();
    assert_eq!(p.rect.x, 125);
    assert_eq!(p.rect.y, 562);

    ev.pump(&vec![InputEvent::KeyUp(Key::Up), InputEvent::KeyUp(Key::Right), InputEvent::KeyDown(Key::Left)]);
    p.update(&ev, 10_000, 800, 600).unwrap();
    assert_eq!(p.rect.x, 0);
    assert_eq!(p.current, PlayerFrame::MidSlow);

    ev.pump(&vec![InputEvent::KeyUp(Key::Left), InputEvent::KeyDown(Key::Right)]);
    p.update(&ev, 10_000, 800, 600).unwrap();
    assert_eq!(p.rect.x, 757);
}

#[test]
fn player_switches_cannon_on_number_keys() {
    let mut p = Player::new(600);
    let mut ev = Events::new();
    ev.pump(&vec![InputEvent::KeyDown(Key::Num2)]);
    p.update(&ev, 16, 800, 600).unwrap();
    assert_eq!(p.cannon, CannonType::SineBullet { amplitude: 10, angular_vel: 15 });
    ev.pump(&vec![InputEvent::KeyDown(Key::Num3)]);
    p.update(&ev, 16, 800, 600).unwrap();
    assert_eq!(p.cannon, CannonType::DivergentBullet { a: 100, b: 1200 });
    ev.pump(&vec![]);
    p.update(&ev, 16, 800, 600).unwrap();
    assert_eq!(p.cannon, CannonType::DivergentBullet { a: 100, b: 1200 });
    ev.pump(&vec![InputEvent::KeyDown(Key::Num1)]);
    p.update(&ev, 16, 800, 600).unwrap();
    assert_eq!(p.cannon, CannonType::RectBullet);
}

#[test]
fn player_too_large_for_its_band_is_an_error() {
    let mut p = Player::new(300);
    let before = p.rect;
    let mut ev = Events::new();
    ev.pump(&vec![InputEvent::KeyDown(Key::Num2)]);
    assert_eq!(p.update(&ev, 16, 800, 300), Err(ConfigError::ShipDoesNotFit));
    assert_eq!(p.rect, before);
    assert_eq!(p.cannon, CannonType::RectBullet);
    assert_eq!(p.update(&ev, 16, 40, 600), Err(ConfigError::ShipDoesNotFit));
}

#[test]
fn player_fires_from_its_nose() {
    let p = Player::new(600);
    let v = p.spawn_bullets();
    assert_eq!(v.len(), 1);
    assert_eq!(v[0].rect(), Rectangle { x: 85, y: 581, w: 4, h: 8 });
}
