//! The gameplay view: one frame updates every entity on its own, resolves
//! collisions, turns dead enemies into explosions, spawns, and steers the ship.

use vstd::prelude::*;
use crate::backdrop::BgSet;
use crate::bullets::Bullet;
use crate::chance::roll;
use crate::collisions::{
    enemy_survives, kept, resolve_collisions, retain_flagged, ship_survives, shots_live_after,
};
use crate::entities::{
    cannon_after, movable_region, ship_dx, spawned_enemy, ConfigError, Enemy, EnemyFactory,
    EnemyModel, Explosion, ExplosionFactory, ExplosionModel, Player, PlayerFrame, explosion_rect,
    EXPLOSION_SIDE, PLAYER_H, PLAYER_W,
};
use crate::geometry::{screen_ok, Rectangle};
use crate::input::{Events, InputModel, Key};
use crate::menu::MainMenuView;
use crate::sprite::SpriteModel;
use crate::view::{switches_to_menu, ActiveView, ViewAction};

verus! {

/// An enemy appears on average once in this many frames.
pub const SPAWN_ODDS: u64 = 100;

/// The gameplay view.
pub struct GameView {
    pub player: Player,
    pub bullets: Vec<Bullet>,
    pub enemies: Vec<Enemy>,
    pub enemy_factory: EnemyFactory,
    pub explosions: Vec<Explosion>,
    pub explosion_factory: ExplosionFactory,
    pub bg: BgSet,
    /// Whether the ship came through the last frame untouched.
    pub player_alive: bool,
}

pub open spec fn enemy_models(v: Seq<Enemy>) -> Seq<EnemyModel> {
    v.map_values(|e: Enemy| e@)
}

pub open spec fn explosion_models(v: Seq<Explosion>) -> Seq<ExplosionModel> {
    v.map_values(|e: Explosion| e@)
}

/// Every shot moved on by `dt`, those that left the output dropped.
pub open spec fn bullets_updated(bs: Seq<Bullet>, dt: nat, w: int, h: int) -> Seq<Bullet>
    decreases bs.len(),
{
    if bs.len() == 0 {
        Seq::empty()
    } else {
        let p = bullets_updated(bs.drop_last(), dt, w, h);
        let b = bs.last();
        if b.visible_at(b.time() + dt, w, h) {
            p.push(b.with_time(b.time() + dt))
        } else {
            p
        }
    }
}

/// Every enemy moved on by `dt`, those whose lifetime is over dropped.
pub open spec fn enemies_updated(es: Seq<EnemyModel>, dt: nat) -> Seq<EnemyModel>
    decreases es.len(),
{
    if es.len() == 0 {
        Seq::empty()
    } else {
        let p = enemies_updated(es.drop_last(), dt);
        match es.last().updated(dt) {
            Some(e) => p.push(e),
            None => p,
        }
    }
}

/// Every explosion moved on by `dt`, those that are over dropped.
pub open spec fn explosions_updated(xs: Seq<ExplosionModel>, dt: nat) -> Seq<ExplosionModel>
    decreases xs.len(),
{
    if xs.len() == 0 {
        Seq::empty()
    } else {
        let p = explosions_updated(xs.drop_last(), dt);
        match xs.last().updated(dt) {
            Some(x) => p.push(x),
            None => p,
        }
    }
}

pub open spec fn enemy_hitboxes(es: Seq<EnemyModel>) -> Seq<Rectangle> {
    es.map_values(|e: EnemyModel| e.hitbox())
}

pub open spec fn bullet_hitboxes(bs: Seq<Bullet>) -> Seq<Rectangle> {
    bs.map_values(|b: Bullet| b.hitbox())
}

/// Per enemy hitbox: whether it survives the collision pass.
pub open spec fn survivor_flags(es: Seq<Rectangle>, bs: Seq<Rectangle>, ship: Rectangle) -> Seq<bool> {
    Seq::new(es.len(), |i: int| enemy_survives(es, bs, ship, i))
}

/// One explosion from `tmpl` at the centre of each enemy hitbox that died.
pub open spec fn explosions_for(es: Seq<Rectangle>, alive: Seq<bool>, tmpl: SpriteModel) -> Seq<ExplosionModel>
    decreases es.len(),
{
    if es.len() == 0 {
        Seq::empty()
    } else {
        let p = explosions_for(es.drop_last(), alive, tmpl);
        if alive[es.len() - 1] {
            p
        } else {
            p.push(ExplosionModel { sprite: tmpl, rect: explosion_rect(es.last().center_spec()), alive_since: 0 })
        }
    }
}

/// No enemy, or one the enemy factory could make from `tmpl`.
pub open spec fn spawn_possible(tmpl: SpriteModel, w: int, h: int, spawn: Option<EnemyModel>) -> bool {
    match spawn {
        Some(e) => exists|rx: int, rf: int| 0 <= rx && 0 <= rf && e == spawned_enemy(tmpl, w, h, rx, rf),
        None => true,
    }
}

/// Taking the flagged elements commutes with mapping.
proof fn lemma_kept_map<A, B>(s: Seq<A>, keep: Seq<bool>, f: spec_fn(A) -> B)
    requires
        keep.len() >= s.len(),
    ensures
        kept(s, keep).map_values(f) == kept(s.map_values(f), keep),
    decreases s.len(),
{
    if s.len() > 0 {
        lemma_kept_map(s.drop_last(), keep, f);
        assert(s.map_values(f).drop_last() =~= s.drop_last().map_values(f));
        let p = kept(s.drop_last(), keep);
        if keep[s.len() - 1] {
            assert(p.push(s.last()).map_values(f) =~= p.map_values(f).push(f(s.last())));
        }
    }
}

/// What holds of every element of `s` holds of every element kept.
proof fn lemma_kept_all<A>(s: Seq<A>, keep: Seq<bool>, p: spec_fn(A) -> bool)
    requires
        forall|i: int| 0 <= i < s.len() ==> p(#[trigger] s[i]),
    ensures
        forall|i: int| 0 <= i < kept(s, keep).len() ==> p(#[trigger] kept(s, keep)[i]),
    decreases s.len(),
{
    if s.len() > 0 {
        lemma_kept_all(s.drop_last(), keep, p);
        let q = kept(s.drop_last(), keep);
        assert forall|i: int| 0 <= i < kept(s, keep).len() implies p(#[trigger] kept(s, keep)[i]) by {
            if i < q.len() {
                assert(p(q[i]));
            } else {
                assert(p(s[s.len() - 1]));
            }
        }
    }
}

fn update_bullets(bs: Vec<Bullet>, dt: u64, w: i64, h: i64) -> (r: Vec<Bullet>)
    requires
        forall|i: int| 0 <= i < bs@.len() ==> (#[trigger] bs@[i]).wf(),
        screen_ok(w as int, h as int),
    ensures
        r@ == bullets_updated(bs@, dt as nat, w as int, h as int),
        forall|i: int| 0 <= i < r@.len() ==> (#[trigger] r@[i]).wf(),
{
    let ghost orig = bs@;
    let mut src = bs;
    let mut out: Vec<Bullet> = Vec::new();
    let n = src.len();
    let mut i: usize = 0;
    while i < n
        invariant
            n == orig.len(),
            i <= n,
            screen_ok(w as int, h as int),
            forall|j: int| 0 <= j < orig.len() ==> (#[trigger] orig[j]).wf(),
            src@ == orig.subrange(i as int, n as int),
            out@ == bullets_updated(orig.take(i as int), dt as nat, w as int, h as int),
            forall|j: int| 0 <= j < out@.len() ==> (#[trigger] out@[j]).wf(),
        decreases n - i,
    {
        let b = src.remove(0);
        assert(b == orig[i as int]);
        assert(orig.take(i + 1).drop_last() =~= orig.take(i as int));
        match b.update(dt, w, h) {
            Some(nb) => out.push(nb),
            None => {},
        }
        i += 1;
        assert(src@ =~= orig.subrange(i as int, n as int));
    }
    assert(orig.take(n as int) =~= orig);
    out
}

fn update_enemies(es: Vec<Enemy>, dt: u64) -> (r: Vec<Enemy>)
    requires
        forall|i: int| 0 <= i < es@.len() ==> (#[trigger] es@[i])@.wf(),
    ensures
        enemy_models(r@) == enemies_updated(enemy_models(es@), dt as nat),
        forall|i: int| 0 <= i < r@.len() ==> (#[trigger] r@[i])@.wf(),
{
    let ghost orig = es@;
    let mut src = es;
    let mut out: Vec<Enemy> = Vec::new();
    let n = src.len();
    let mut i: usize = 0;
    while i < n
        invariant
            n == orig.len(),
            i <= n,
            forall|j: int| 0 <= j < orig.len() ==> (#[trigger] orig[j])@.wf(),
            src@ == orig.subrange(i as int, n as int),
            enemy_models(out@) == enemies_updated(enemy_models(orig.take(i as int)), dt as nat),
            forall|j: int| 0 <= j < out@.len() ==> (#[trigger] out@[j])@.wf(),
        decreases n - i,
    {
        let e = src.remove(0);
        assert(e == orig[i as int]);
        assert(enemy_models(orig.take(i + 1)).drop_last() =~= enemy_models(orig.take(i as int)));
        let ghost before = out@;
        match e.update(dt) {
            Some(ne) => {
                out.push(ne);
                assert(enemy_models(out@) =~= enemy_models(before).push(ne@));
            },
            None => {},
        }
        i += 1;
        assert(src@ =~= orig.subrange(i as int, n as int));
    }
    assert(orig.take(n as int) =~= orig);
    out
}

fn update_explosions(xs: Vec<Explosion>, dt: u64) -> (r: Vec<Explosion>)
    ensures
        explosion_models(r@) == explosions_updated(explosion_models(xs@), dt as nat),
{
    let ghost orig = xs@;
    let mut src = xs;
    let mut out: Vec<Explosion> = Vec::new();
    let n = src.len();
    let mut i: usize = 0;
    while i < n
        invariant
            n == orig.len(),
            i <= n,
            src@ == orig.subrange(i as int, n as int),
            explosion_models(out@) == explosions_updated(explosion_models(orig.take(i as int)), dt as nat),
        decreases n - i,
    {
        let x = src.remove(0);
        assert(x == orig[i as int]);
        assert(explosion_models(orig.take(i + 1)).drop_last() =~= explosion_models(orig.take(i as int)));
        let ghost before = out@;
        match x.update(dt) {
            Some(nx) => {
                out.push(nx);
                assert(explosion_models(out@) =~= explosion_models(before).push(nx@));
            },
            None => {},
        }
        i += 1;
        assert(src@ =~= orig.subrange(i as int, n as int));
    }
    assert(orig.take(n as int) =~= orig);
    out
}

impl GameView {
    pub open spec fn wf(self) -> bool {
        &&& self.player.wf()
        &&& forall|i: int| 0 <= i < self.bullets@.len() ==> (#[trigger] self.bullets@[i]).wf()
        &&& forall|i: int| 0 <= i < self.enemies@.len() ==> (#[trigger] self.enemies@[i])@.wf()
        &&& self.bg.back.wf()
    }

    /// A game just started over `bg` on an output `out_h` pixels high.
    pub open spec fn is_fresh(self, bg: BgSet, out_h: int) -> bool {
        &&& self.wf()
        &&& self.bg == bg
        &&& self.bullets@.len() == 0
        &&& self.enemies@.len() == 0
        &&& self.explosions@.len() == 0
        &&& self.player_alive
        &&& self.player.rect == (Rectangle { x: 64, y: (out_h - PLAYER_H + 20) as i64, w: PLAYER_W, h: PLAYER_H })
    }

    /// How `new` relates to `old` after one frame of play with input `input`,
    /// `elapsed` milliseconds on an output of `w` by `h` pixels, where
    /// `spawn` is the enemy that appeared this frame, if any.
    pub open spec fn frame(old: GameView, new: GameView, input: InputModel, elapsed: nat, w: int, h: int, spawn: Option<EnemyModel>) -> bool {
        let bs1 = bullets_updated(old.bullets@, elapsed, w, h);
        let es1 = enemies_updated(enemy_models(old.enemies@), elapsed);
        let xs1 = explosions_updated(explosion_models(old.explosions@), elapsed);
        let eb = enemy_hitboxes(es1);
        let bb = bullet_hitboxes(bs1);
        let ship = old.player.rect;
        let alive = survivor_flags(eb, bb, ship);
        let fired = if input.edges[Key::Space.slot()] == Some(true) {
            seq![Bullet::launched(old.player.cannon, (ship.x + ship.w / 2) as i64, ship.y)]
        } else {
            Seq::empty()
        };
        let spawned = match spawn {
            Some(e) => seq![e],
            None => Seq::empty(),
        };
        let dx = ship_dx(input, elapsed as int);
        &&& new.bullets@ == kept(bs1, shots_live_after(eb, bb, eb.len() as int)) + fired
        &&& enemy_models(new.enemies@) == kept(es1, alive) + spawned
        &&& explosion_models(new.explosions@) == xs1 + explosions_for(eb, alive, old.explosion_factory.sprite@)
        &&& new.player_alive == ship_survives(eb, ship)
        &&& new.player.cannon == cannon_after(old.player.cannon, input)
        &&& new.player.rect == (Rectangle {
            x: Rectangle::clamp_axis(ship.x + dx, PLAYER_W as int, 0, w) as i64,
            y: Rectangle::clamp_axis(ship.y as int, PLAYER_H as int, h - PLAYER_H - 20, h / 10) as i64,
            w: PLAYER_W,
            h: PLAYER_H,
        })
        &&& new.player.current == PlayerFrame::for_motion(dx, 0)
        &&& new.player.sprites == old.player.sprites
        &&& new.bg == old.bg
        &&& new.enemy_factory == old.enemy_factory
        &&& new.explosion_factory == old.explosion_factory
    }

    /// How a frame with input `input`, `elapsed` milliseconds, on an output of
    /// `w` by `h` pixels takes the game from `old` to `new` with result `r`,
    /// where `spawn` is the enemy that appears if any: quit leaves, escape
    /// goes back to the menu, and a ship that cannot fit in its movable region
    /// is a configuration error, none of these changing the game; otherwise
    /// one frame of play runs.
    pub open spec fn played(old: GameView, new: GameView, input: InputModel, elapsed: nat, w: int, h: int, r: Result<ViewAction, ConfigError>, spawn: Option<EnemyModel>) -> bool {
        if input.quit {
            (r matches Ok(ViewAction::Quit)) && new == old
        } else if input.edges[Key::Escape.slot()] == Some(true) {
            r is Ok && switches_to_menu(r.unwrap(), old.bg) && new == old
        } else if !old.player.rect.fits_in(movable_region(w, h)) {
            r == Err::<ViewAction, ConfigError>(ConfigError::ShipDoesNotFit) && new == old
        } else {
            (r matches Ok(ViewAction::Continue)) && GameView::frame(old, new, input, elapsed, w, h, spawn)
        }
    }

    /// `played` for some outcome of the spawning draw.
    pub open spec fn played_by_chance(old: GameView, new: GameView, input: InputModel, elapsed: nat, w: int, h: int, r: Result<ViewAction, ConfigError>) -> bool {
        exists|spawn: Option<EnemyModel>| #[trigger] spawn_possible(old.enemy_factory.sprite@, w, h, spawn) && GameView::played(old, new, input, elapsed, w, h, r, spawn)
    }

    /// A game over back image `w` by `h` pixels, on an output `out_h` pixels high.
    pub fn new(w: i64, h: i64, out_h: i64) -> (r: GameView)
        requires
            0 < w <= crate::backdrop::IMAGE_MAX,
            0 < h <= crate::backdrop::IMAGE_MAX,
            screen_ok(0, out_h as int),
        ensures
            r.is_fresh(BgSet::new_spec(w, h), out_h as int),
    {
        GameView::with_backgrounds(BgSet::new(w, h), out_h)
    }

    /// A game over the given backgrounds, on an output `out_h` pixels high.
    pub fn with_backgrounds(bg: BgSet, out_h: i64) -> (r: GameView)
        requires
            bg.back.wf(),
            screen_ok(0, out_h as int),
        ensures
            r.is_fresh(bg, out_h as int),
    {
        GameView {
            player: Player::new(out_h),
            bullets: Vec::new(),
            enemies: Vec::new(),
            enemy_factory: Enemy::factory(),
            explosions: Vec::new(),
            explosion_factory: Explosion::factory(),
            bg,
            player_alive: true,
        }
    }

    /// One frame of play, with the three numbers that decide spawning given:
    /// an enemy appears when `spawn_roll` is a multiple of `SPAWN_ODDS`,
    /// placed by `roll_x` and animated at a rate picked by `roll_fps`.
    ///
    /// Quit leaves, escape goes back to the menu, and a ship that cannot fit
    /// in its movable region is a configuration error; none of these changes
    /// the view.
    pub fn step(&mut self, events: &Events, elapsed: u64, w: i64, h: i64, spawn_roll: u64, roll_x: u64, roll_fps: u64) -> (r: Result<ViewAction, ConfigError>)
        requires
            old(self).wf(),
            events@.wf(),
            screen_ok(w as int, h as int),
        ensures
            final(self).wf(),
            GameView::played(*old(self), *final(self), events@, elapsed as nat, w as int, h as int, r,
                if spawn_roll % SPAWN_ODDS == 0 {
                    Some(spawned_enemy(old(self).enemy_factory.sprite@, w as int, h as int, roll_x as int, roll_fps as int))
                } else {
                    None
                }),
            r matches Ok(ViewAction::ChangeView(v)) ==> v.wf(),
    {
        if events.now.quit {
            return Ok(ViewAction::Quit);
        }
        if events.now.pressed(Key::Escape) {
            return Ok(ViewAction::ChangeView(Box::new(ActiveView::Menu(MainMenuView::with_backgrounds(self.bg)))));
        }
        if PLAYER_W > w || PLAYER_H > h / 10 {
            return Err(ConfigError::ShipDoesNotFit);
        }
        let ghost old_self = *self;
        let ghost dt = elapsed as nat;

        // Each entity on its own.
        let mut bs: Vec<Bullet> = Vec::new();
        std::mem::swap(&mut bs, &mut self.bullets);
        let bs1 = update_bullets(bs, elapsed, w, h);
        let mut es: Vec<Enemy> = Vec::new();
        std::mem::swap(&mut es, &mut self.enemies);
        let es1 = update_enemies(es, elapsed);
        let mut xs: Vec<Explosion> = Vec::new();
        std::mem::swap(&mut xs, &mut self.explosions);
        let mut xs1 = update_explosions(xs, elapsed);

        // Hitboxes, then the collision pass.
        let mut eboxes: Vec<Rectangle> = Vec::new();
        let mut i: usize = 0;
        while i < es1.len()
            invariant
                i <= es1@.len(),
                forall|j: int| 0 <= j < es1@.len() ==> (#[trigger] es1@[j])@.wf(),
                eboxes@ == enemy_hitboxes(enemy_models(es1@)).take(i as int),
                forall|j: int| 0 <= j < i ==> (#[trigger] eboxes@[j]).wf() && eboxes@[j].has_margin(EXPLOSION_SIDE as int),
            decreases es1@.len() - i,
        {
            let b = es1[i].rect();
            eboxes.push(b);
            i += 1;
            assert(eboxes@ =~= enemy_hitboxes(enemy_models(es1@)).take(i as int));
        }
        assert(eboxes@ =~= enemy_hitboxes(enemy_models(es1@)));
        let mut bboxes: Vec<Rectangle> = Vec::new();
        let mut i: usize = 0;
        while i < bs1.len()
            invariant
                i <= bs1@.len(),
                forall|j: int| 0 <= j < bs1@.len() ==> (#[trigger] bs1@[j]).wf(),
                bboxes@ == bullet_hitboxes(bs1@).take(i as int),
                forall|j: int| 0 <= j < i ==> (#[trigger] bboxes@[j]).wf(),
            decreases bs1@.len() - i,
        {
            let b = bs1[i].rect();
            bboxes.push(b);
            i += 1;
            assert(bboxes@ =~= bullet_hitboxes(bs1@).take(i as int));
        }
        assert(bboxes@ =~= bullet_hitboxes(bs1@));
        let c = resolve_collisions(&eboxes, &bboxes, self.player.rect);
        assert(c.enemy_alive@ =~= survivor_flags(eboxes@, bboxes@, self.player.rect));

        // Dead enemies become explosions.
        let ghost xs1_models = explosion_models(xs1@);
        let mut i: usize = 0;
        while i < eboxes.len()
            invariant
                i <= eboxes@.len(),
                c.enemy_alive@.len() == eboxes@.len(),
                forall|j: int| 0 <= j < eboxes@.len() ==> (#[trigger] eboxes@[j]).wf() && eboxes@[j].has_margin(EXPLOSION_SIDE as int),
                explosion_models(xs1@) == xs1_models + explosions_for(eboxes@.take(i as int), c.enemy_alive@, self.explosion_factory.sprite@),
            decreases eboxes@.len() - i,
        {
            assert(eboxes@.take(i + 1).drop_last() =~= eboxes@.take(i as int));
            let ghost before = xs1@;
            if !c.enemy_alive[i] {
                let x = self.explosion_factory.at_center(eboxes[i].center());
                xs1.push(x);
                assert(explosion_models(xs1@) =~= explosion_models(before).push(x@));
            }
            i += 1;
        }
        assert(eboxes@.take(eboxes@.len() as int) =~= eboxes@);
        proof {
            lemma_kept_map(es1@, c.enemy_alive@, |e: Enemy| e@);
            lemma_kept_all(es1@, c.enemy_alive@, |e: Enemy| e@.wf());
            lemma_kept_all(bs1@, c.bullet_alive@, |b: Bullet| b.wf());
        }
        let es2 = retain_flagged(es1, &c.enemy_alive);
        let mut bs2 = retain_flagged(bs1, &c.bullet_alive);
        self.player_alive = c.player_alive;

        // Spawning.
        let ghost bs2_before = bs2@;
        if events.now.pressed(Key::Space) {
            let mut fired = self.player.spawn_bullets();
            bs2.append(&mut fired);
        } else {
            assert(bs2@ =~= bs2_before + Seq::empty());
        }
        let mut es2 = es2;
        let ghost es2_before = es2@;
        if spawn_roll % SPAWN_ODDS == 0 {
            let e = self.enemy_factory.random(w, h, roll_x, roll_fps);
            es2.push(e);
            assert(enemy_models(es2@) =~= enemy_models(es2_before).push(e@));
        } else {
            assert(enemy_models(es2@) =~= enemy_models(es2_before) + Seq::empty());
        }
        self.bullets = bs2;
        self.enemies = es2;
        self.explosions = xs1;

        // The ship.
        let moved = self.player.update(events, elapsed, w, h);
        proof {
            assert(moved.is_ok());
            let bs1m = bullets_updated(old_self.bullets@, dt, w as int, h as int);
            let es1m = enemies_updated(enemy_models(old_self.enemies@), dt);
            let xs1m = explosions_updated(explosion_models(old_self.explosions@), dt);
            let eb = enemy_hitboxes(es1m);
            let bb = bullet_hitboxes(bs1m);
            let alive = survivor_flags(eb, bb, old_self.player.rect);
            assert(eb == eboxes@);
            assert(bb == bboxes@);
            assert(self.bullets@.subrange(0, bs2_before.len() as int) == kept(bs1m, shots_live_after(eb, bb, eb.len() as int)));
            assert(enemy_models(es2_before) == kept(es1m, alive));
            assert(explosion_models(self.explosions@) == xs1m + explosions_for(eb, alive, old_self.explosion_factory.sprite@));
            assert(self.player_alive == ship_survives(eb, old_self.player.rect));
            let fired = if events@.edges[Key::Space.slot()] == Some(true) {
                seq![Bullet::launched(old_self.player.cannon, (old_self.player.rect.x + old_self.player.rect.w / 2) as i64, old_self.player.rect.y)]
            } else {
                Seq::empty()
            };
            assert(self.bullets@ == kept(bs1m, shots_live_after(eb, bb, eb.len() as int)) + fired);
            let spawn = if spawn_roll % SPAWN_ODDS == 0 {
                Some(spawned_enemy(old_self.enemy_factory.sprite@, w as int, h as int, roll_x as int, roll_fps as int))
            } else {
                None
            };
            let spawned = match spawn {
                Some(e) => seq![e],
                None => Seq::empty(),
            };
            assert(enemy_models(self.enemies@) == kept(es1m, alive) + spawned);
            let dx = ship_dx(events@, elapsed as int);
            assert(self.player.cannon == cannon_after(old_self.player.cannon, events@));
            assert(self.player.current == PlayerFrame::for_motion(dx, 0));
            assert(self.bg == old_self.bg);
            assert(self.enemy_factory == old_self.enemy_factory);
        }
        Ok(ViewAction::Continue)
    }

    /// One frame of play, with spawning left to chance: whatever is drawn,
    /// the frame follows `step`, at most one enemy appears, and when one does
    /// it is placed and animated as the enemy factory makes them.
    pub fn render(&mut self, events: &Events, elapsed: u64, w: i64, h: i64) -> (r: Result<ViewAction, ConfigError>)
        requires
            old(self).wf(),
            events@.wf(),
            screen_ok(w as int, h as int),
        ensures
            final(self).wf(),
            GameView::played_by_chance(*old(self), *final(self), events@, elapsed as nat, w as int, h as int, r),
            r matches Ok(ViewAction::ChangeView(v)) ==> v.wf(),
    {
        let spawn_roll = roll();
        let roll_x = roll();
        let roll_fps = roll();
        let r = self.step(events, elapsed, w, h, spawn_roll, roll_x, roll_fps);
        proof {
            let spawn = if spawn_roll % SPAWN_ODDS == 0 {
                Some(spawned_enemy(old(self).enemy_factory.sprite@, w as int, h as int, roll_x as int, roll_fps as int))
            } else {
                None
            };
            assert(GameView::played(*old(self), *self, events@, elapsed as nat, w as int, h as int, r, spawn));
            if spawn_roll % SPAWN_ODDS == 0 {
                let e = spawned_enemy(old(self).enemy_factory.sprite@, w as int, h as int, roll_x as int, roll_fps as int);
                assert(0 <= roll_x as int && 0 <= roll_fps as int && e == spawned_enemy(old(self).enemy_factory.sprite@, w as int, h as int, roll_x as int, roll_fps as int));
            }
            assert(spawn_possible(old(self).enemy_factory.sprite@, w as int, h as int, spawn));
        }
        r
    }
}

} // verus!
