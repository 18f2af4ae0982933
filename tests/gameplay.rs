use shooter::backdrop::{Background, BgSet};
use shooter::bullets::{Bullet, RectBullet};
use shooter::collisions::resolve_collisions;
use shooter::entities::{ConfigError, Enemy, Explosion};
use shooter::game::GameView;
use shooter::geometry::Rectangle;
use shooter::input::{Events, InputEvent, Key};
use shooter::menu::{MainMenuView, MenuAction};
use shooter::ship::ShipView;
use shooter::view::{ActiveView, GameLoop, LoopAction, ViewAction};

fn rect(x: i64, y: i64, w: i64, h: i64) -> Rectangle {
    Rectangle { x, y, w, h }
}

fn enemy_at(x: i64, y: i64) -> Enemy {
    let f = Enemy::factory();
    Enemy { sprite: f.sprite.copy(), amplitude: 15, angular_vel: 10, pos_x: x, origin_y: y }
}

fn quiet() -> Events {
    let mut ev = Events::new();
    ev.pump(&vec![]);
    ev
}

#[test]
fn bullet_and_enemy_destroy_each_other() {
    let c = resolve_collisions(&vec![rect(100, 100, 20, 20)], &vec![rect(105, 105, 4, 8)], rect(50, 500, 43, 39));
    assert_eq!(c.enemy_alive, vec![false]);
    assert_eq!(c.bullet_alive, vec![false]);
    assert!(c.player_alive);
    let boom = Explosion::factory().at_center(rect(100, 100, 20, 20).center());
    assert_eq!(boom.rect.center(), (110, 110));
}

#[test]
fn enemy_takes_only_the_first_overlapping_bullet() {
    let c = resolve_collisions(
        &vec![rect(100, 100, 20, 20)],
        &vec![rect(0, 0, 4, 8), rect(105, 105, 4, 8), rect(110, 110, 4, 8)],
        rect(500, 500, 43, 39),
    );
    assert_eq!(c.enemy_alive, vec![false]);
    assert_eq!(c.bullet_alive, vec![true, false, true]);
}

#[test]
fn bullet_kills_at_most_one_enemy() {
    let c = resolve_collisions(
        &vec![rect(100, 100, 20, 20), rect(104, 104, 20, 20)],
        &vec![rect(105, 105, 4, 8)],
        rect(500, 500, 43, 39),
    );
    assert_eq!(c.enemy_alive, vec![false, true]);
    assert_eq!(c.bullet_alive, vec![false]);
}

#[test]
fn enemy_touching_ship_dies_and_ship_is_reported() {
    let c = resolve_collisions(&vec![rect(60, 60, 20, 20), rect(300, 300, 5, 5)], &vec![], rect(50, 50, 43, 39));
    assert_eq!(c.enemy_alive, vec![false, true]);
    assert!(!c.player_alive);
}

#[test]
fn game_frame_bullet_hits_enemy() {
    let mut g = GameView::with_backgrounds(BgSet::new(100, 50), 600);
    g.enemies.push(enemy_at(100, 100));
    g.bullets.push(Bullet::Rect(RectBullet { pos_x: 105, origin_y: 105, total_time: 0 }));
    let r = g.step(&quiet(), 0, 800, 600, 1, 0, 0);
    assert!(matches!(r, Ok(ViewAction::Continue)));
    assert!(g.enemies.is_empty());
    assert!(g.bullets.is_empty());
    assert_eq!(g.explosions.len(), 1);
    assert_eq!(g.explosions[0].rect.center(), rect(100, 100, 129, 200).center());
    assert!(g.player_alive);
}

#[test]
fn game_frame_enemy_hits_player() {
    let mut g = GameView::with_backgrounds(BgSet::new(100, 50), 600);
    g.player.rect = rect(50, 50, 43, 39);
    g.enemies.push(enemy_at(0, 0));
    let r = g.step(&quiet(), 0, 800, 600, 1, 0, 0);
    assert!(matches!(r, Ok(ViewAction::Continue)));
    assert!(g.enemies.is_empty());
    assert_eq!(g.explosions.len(), 1);
    assert_eq!(g.explosions[0].rect, rect(16, 52, 96, 96));
    assert!(!g.player_alive);
}

#[test]
fn game_frame_fires_and_spawns() {
    let mut g = GameView::with_backgrounds(BgSet::new(100, 50), 600);
    let mut ev = Events::new();
    ev.pump(&vec![InputEvent::KeyDown(Key::Space)]);
    let r = g.step(&ev, 16, 800, 600, 200, 1000, 25);
    assert!(matches!(r, Ok(ViewAction::Continue)));
    assert_eq!(g.bullets.len(), 1);
    assert_eq!(g.bullets[0].rect(), rect(85, 581, 4, 8));
    assert_eq!(g.enemies.len(), 1);
    assert_eq!(g.enemies[0].pos_x, 328);
    assert_eq!(g.player.rect, rect(64, 562, 43, 39));
    // Held space fires no second shot; the first one flies on.
    g.step(&quiet(), 100, 800, 600, 1, 0, 0).unwrap();
    assert_eq!(g.bullets.len(), 1);
    assert_eq!(g.bullets[0].rect(), rect(85, 521, 4, 8));
    assert_eq!(g.enemies.len(), 1);
}

#[test]
fn game_frame_drops_expired_entities_before_collisions() {
    let mut g = GameView::with_backgrounds(BgSet::new(100, 50), 600);
    g.enemies.push(enemy_at(100, 100));
    g.bullets.push(Bullet::Rect(RectBullet { pos_x: 105, origin_y: 105, total_time: 0 }));
    g.step(&quiet(), 8000, 800, 600, 1, 0, 0).unwrap();
    assert!(g.enemies.is_empty());
    assert!(g.bullets.is_empty());
    assert!(g.explosions.is_empty());
}

#[test]
fn game_quit_escape_and_bad_output() {
    let mut g = GameView::with_backgrounds(BgSet::new(100, 50), 600);
    let mut ev = Events::new();
    ev.pump(&vec![InputEvent::Quit]);
    assert!(matches!(g.step(&ev, 16, 800, 600, 0, 0, 0), Ok(ViewAction::Quit)));
    assert!(g.enemies.is_empty());
    ev.pump(&vec![InputEvent::KeyDown(Key::Escape)]);
    match g.step(&ev, 16, 800, 600, 0, 0, 0) {
        Ok(ViewAction::ChangeView(v)) => match *v {
            ActiveView::Menu(m) => {
                assert_eq!(m.selected, 0);
                assert_eq!(m.actions, vec![MenuAction::NewGame, MenuAction::Quit]);
            },
            _ => panic!("expected the menu"),
        },
        _ => panic!("expected a view change"),
    }
    assert!(matches!(g.step(&quiet(), 16, 800, 300, 0, 0, 0), Err(ConfigError::ShipDoesNotFit)));
}

#[test]
fn game_render_draws_its_own_rolls() {
    let mut g = GameView::with_backgrounds(BgSet::new(100, 50), 600);
    for _ in 0..50 {
        assert!(matches!(g.render(&quiet(), 16, 800, 600), Ok(ViewAction::Continue)));
    }
    assert!(g.enemies.len() <= 50);
    assert!(g.player_alive);
}

#[test]
fn menu_selection_wraps() {
    let mut m = MainMenuView::new(100, 50);
    assert_eq!(MenuAction::NewGame.label(), "New Game");
    assert_eq!(MenuAction::Quit.label(), "Quit");
    let mut ev = Events::new();
    ev.pump(&vec![InputEvent::KeyDown(Key::Up)]);
    assert!(matches!(m.render(&ev, 600), ViewAction::Continue));
    assert_eq!(m.selected, 1);
    ev.pump(&vec![InputEvent::KeyUp(Key::Up), InputEvent::KeyDown(Key::Down)]);
    m.render(&ev, 600);
    assert_eq!(m.selected, 0);
    ev.pump(&vec![]);
    m.render(&ev, 600);
    assert_eq!(m.selected, 0);
}

#[test]
fn menu_runs_selected_entry() {
    let mut m = MainMenuView::new(100, 50);
    let mut ev = Events::new();
    ev.pump(&vec![InputEvent::KeyDown(Key::Enter)]);
    match m.render(&ev, 600) {
        ViewAction::ChangeView(v) => assert!(matches!(*v, ActiveView::Game(_))),
        _ => panic!("expected the game"),
    }
    m.selected = 1;
    ev.pump(&vec![InputEvent::KeyUp(Key::Enter), InputEvent::KeyDown(Key::Space)]);
    assert!(matches!(m.render(&ev, 600), ViewAction::Quit));
    ev.pump(&vec![InputEvent::KeyDown(Key::Escape)]);
    m.selected = 0;
    assert!(matches!(m.render(&ev, 600), ViewAction::Quit));
}

#[test]
fn game_loop_switches_views() {
    let mut l = GameLoop::new(ActiveView::Menu(MainMenuView::new(100, 50)));
    assert_eq!(l.frame(&vec![InputEvent::KeyDown(Key::Enter)], 16, 800, 600), Ok(LoopAction::Switched));
    assert!(matches!(l.view, ActiveView::Game(_)));
    assert_eq!(l.frame(&vec![InputEvent::KeyUp(Key::Enter)], 16, 800, 600), Ok(LoopAction::Present));
    assert_eq!(l.frame(&vec![InputEvent::KeyDown(Key::Escape)], 16, 800, 600), Ok(LoopAction::Switched));
    assert!(matches!(l.view, ActiveView::Menu(_)));
    assert_eq!(l.frame(&vec![InputEvent::Quit], 16, 800, 600), Ok(LoopAction::Quit));
}

#[test]
fn ship_view_moves_freely_inside_its_region() {
    let mut s = ShipView::new();
    let mut ev = Events::new();
    ev.pump(&vec![InputEvent::KeyDown(Key::Right), InputEvent::KeyDown(Key::Down)]);
    assert!(matches!(s.render(&ev, 1000, 800, 600), Ok(ViewAction::Continue)));
    assert_eq!(s.player, rect(318, 318, 32, 32));
    ev.pump(&vec![InputEvent::KeyUp(Key::Down)]);
    s.render(&ev, 1000, 800, 600).unwrap();
    assert_eq!(s.player, rect(678, 318, 32, 32));
    ev.pump(&vec![InputEvent::KeyDown(Key::Escape)]);
    assert!(matches!(s.render(&ev, 16, 800, 600), Ok(ViewAction::Quit)));
    assert_eq!(s.player, rect(528, 318, 32, 32));
    assert!(matches!(s.render(&ev, 16, 20, 600), Err(ConfigError::ShipDoesNotFit)));
}

#[test]
fn background_tiles_cover_the_width() {
    let b = Background { pos: 0, vel: 20, size_w: 100, size_h: 50 };
    assert_eq!(b.render(250, 100), vec![rect(0, 0, 200, 100), rect(200, 0, 200, 100)]);
    let b = Background { pos: 25, vel: 20, size_w: 100, size_h: 50 };
    assert_eq!(b.render(250, 100), vec![rect(-50, 0, 200, 100), rect(150, 0, 200, 100)]);
    assert!(b.render(250, 0).is_empty());
}
