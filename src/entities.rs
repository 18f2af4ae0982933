//! Enemies, explosions and the player's ship, with the factories that make them.

use vstd::prelude::*;
use crate::bullets::{spawn_bullets, Bullet, CannonType};
use crate::geometry::{in_coords, screen_ok, Rectangle};
use crate::input::{Events, Key};
use crate::motion::{wave, wave_spec, WAVE_AMPLITUDE_MAX};
use crate::sprite::{AnimatedSprite, FrameGrid, SpriteModel};

verus! {

pub const ENEMY_W: i64 = 129;

pub const ENEMY_H: i64 = 200;

/// Frames of the enemy animation: a 4 by 4 sheet.
pub const ENEMY_FRAMES: usize = 16;

pub const ENEMY_FRAMES_WIDE: usize = 4;

pub const ENEMY_FRAMES_HIGH: usize = 4;

/// Trailing frames the enemy animation settles on once it has played through.
pub const ENEMY_REST_FRAMES: usize = 4;

/// How long an enemy stays, in milliseconds.
pub const ENEMY_LIFETIME: u64 = 8000;

/// Vertical bobbing of an enemy, in pixels.
pub const ENEMY_AMPLITUDE: u64 = 15;

/// Bobbing rate of an enemy, in radians per second.
pub const ENEMY_ANGULAR_VEL: u64 = 10;

/// Slowest enemy animation rate, in frames per second.
pub const ENEMY_FPS_MIN: u64 = 10;

/// Number of distinct enemy animation rates above the slowest.
pub const ENEMY_FPS_SPREAD: u64 = 20;

pub const EXPLOSION_SIDE: i64 = 96;

/// Frames of the explosion animation: 17 cells of a 5 by 4 sheet.
pub const EXPLOSION_FRAMES: usize = 17;

pub const EXPLOSION_FRAMES_WIDE: usize = 5;

pub const EXPLOSION_FRAMES_HIGH: usize = 4;

pub const EXPLOSION_FPS: u64 = 16;

/// Ship speed in pixels per second.
pub const PLAYER_SPEED: u64 = 360;

pub const PLAYER_W: i64 = 43;

pub const PLAYER_H: i64 = 39;

/// An enemy: an animation bobbing up and down around `(pos_x, origin_y)`.
#[derive(Clone, Debug)]
pub struct Enemy {
    pub sprite: AnimatedSprite,
    pub amplitude: u64,
    pub angular_vel: u64,
    pub pos_x: i64,
    pub origin_y: i64,
}

/// Mathematical form of an enemy.
pub struct EnemyModel {
    pub sprite: SpriteModel,
    pub amplitude: u64,
    pub angular_vel: u64,
    pub pos_x: i64,
    pub origin_y: i64,
}

impl EnemyModel {
    /// The hitbox, which bobs with the animation clock.
    pub open spec fn hitbox(self) -> Rectangle {
        Rectangle {
            x: self.pos_x,
            y: (self.origin_y + wave_spec(
                self.amplitude as int,
                self.angular_vel as int,
                self.sprite.time as int,
            )) as i64,
            w: ENEMY_W,
            h: ENEMY_H,
        }
    }

    /// Every hitbox the bobbing can produce, and an explosion around it, lies
    /// in the coordinate range.
    pub open spec fn wf(self) -> bool {
        &&& self.amplitude <= WAVE_AMPLITUDE_MAX
        &&& self.sprite.time <= u64::MAX
        &&& in_coords(self.pos_x - EXPLOSION_SIDE)
        &&& in_coords(self.pos_x + ENEMY_W + EXPLOSION_SIDE)
        &&& in_coords(self.origin_y - self.amplitude - EXPLOSION_SIDE)
        &&& in_coords(self.origin_y + self.amplitude + ENEMY_H + EXPLOSION_SIDE)
    }

    /// The enemy after `dt` milliseconds, or `None` once its lifetime is over.
    pub open spec fn updated(self, dt: nat) -> Option<EnemyModel> {
        let s = self.sprite.advanced(dt);
        if s.time >= ENEMY_LIFETIME {
            None
        } else {
            Some(EnemyModel { sprite: s, ..self })
        }
    }
}

impl View for Enemy {
    type V = EnemyModel;

    open spec fn view(&self) -> EnemyModel {
        EnemyModel {
            sprite: self.sprite@,
            amplitude: self.amplitude,
            angular_vel: self.angular_vel,
            pos_x: self.pos_x,
            origin_y: self.origin_y,
        }
    }
}

/// Makes enemies from a shared animation.
#[derive(Clone, Debug)]
pub struct EnemyFactory {
    pub sprite: AnimatedSprite,
}

/// Where a new enemy appears horizontally on an output `w` pixels wide.
pub open spec fn enemy_spawn_x(w: int, roll: int) -> int {
    if w > ENEMY_W {
        roll % (w - ENEMY_W + 1)
    } else {
        0
    }
}

/// The animation rate of a new enemy.
pub open spec fn enemy_fps(roll: int) -> int {
    ENEMY_FPS_MIN + roll % (ENEMY_FPS_SPREAD as int)
}

/// A new enemy made from the animation `tmpl`.
pub open spec fn spawned_enemy(tmpl: SpriteModel, w: int, h: int, roll_x: int, roll_fps: int) -> EnemyModel {
    EnemyModel {
        sprite: SpriteModel { fps: enemy_fps(roll_fps) as nat, ..tmpl },
        amplitude: ENEMY_AMPLITUDE,
        angular_vel: ENEMY_ANGULAR_VEL,
        pos_x: enemy_spawn_x(w, roll_x) as i64,
        origin_y: (h / 2 - 20) as i64,
    }
}

/// The layout of the enemy sheet.
pub open spec fn enemy_grid() -> FrameGrid {
    FrameGrid {
        total_frames: ENEMY_FRAMES,
        frames_wide: ENEMY_FRAMES_WIDE,
        frames_high: ENEMY_FRAMES_HIGH,
        frame_w: ENEMY_W,
        frame_h: ENEMY_H,
    }
}

/// The layout of the explosion sheet.
pub open spec fn explosion_grid() -> FrameGrid {
    FrameGrid {
        total_frames: EXPLOSION_FRAMES,
        frames_wide: EXPLOSION_FRAMES_WIDE,
        frames_high: EXPLOSION_FRAMES_HIGH,
        frame_w: EXPLOSION_SIDE,
        frame_h: EXPLOSION_SIDE,
    }
}

impl Enemy {
    /// The factory, with the enemy sheet's frames played at one frame per
    /// second until the rate is set per enemy.
    pub fn factory() -> (r: EnemyFactory)
        ensures
            r.sprite@.time == 0,
            r.sprite@.fps == 1,
            r.sprite@.frames.len() == ENEMY_FRAMES,
            forall|i: int| 0 <= i < ENEMY_FRAMES ==> #[trigger] r.sprite@.frames[i] == enemy_grid().region(i),
            r.sprite@.rest == ENEMY_REST_FRAMES,
            !r.sprite@.resting,
    {
        let grid = FrameGrid {
            total_frames: ENEMY_FRAMES,
            frames_wide: ENEMY_FRAMES_WIDE,
            frames_high: ENEMY_FRAMES_HIGH,
            frame_w: ENEMY_W,
            frame_h: ENEMY_H,
        };
        assert(grid.frames_wide * grid.frames_high == 16) by (nonlinear_arith)
            requires
                grid.frames_wide == 4,
                grid.frames_high == 4,
        ;
        EnemyFactory { sprite: AnimatedSprite::with_fps(grid.frames(), 1, ENEMY_REST_FRAMES) }
    }

    /// The current hitbox.
    pub fn rect(&self) -> (r: Rectangle)
        requires
            self@.wf(),
        ensures
            r == self@.hitbox(),
            r.wf(),
            r.has_margin(EXPLOSION_SIDE as int),
    {
        let dy = wave(self.amplitude, self.angular_vel, self.sprite.current_time);
        Rectangle { x: self.pos_x, y: self.origin_y + dy, w: ENEMY_W, h: ENEMY_H }
    }

    /// Moves the animation on by `dt` milliseconds; `None` once the enemy's
    /// lifetime is over.
    pub fn update(self, dt: u64) -> (r: Option<Enemy>)
        requires
            self@.wf(),
        ensures
            r.is_some() == self@.updated(dt as nat).is_some(),
            r.is_some() ==> r.unwrap()@ == self@.updated(dt as nat).unwrap(),
            r.is_some() ==> r.unwrap()@.wf(),
    {
        let mut e = self;
        e.sprite.add_time(dt);
        if e.sprite.current_time >= ENEMY_LIFETIME {
            None
        } else {
            Some(e)
        }
    }
}

impl EnemyFactory {
    /// A new enemy on an output of `w` by `h` pixels, placed by `roll_x` and
    /// animated at a rate picked by `roll_fps`.
    pub fn random(&self, w: i64, h: i64, roll_x: u64, roll_fps: u64) -> (r: Enemy)
        requires
            screen_ok(w as int, h as int),
        ensures
            r@ == spawned_enemy(self.sprite@, w as int, h as int, roll_x as int, roll_fps as int),
            r@.wf(),
    {
        let mut sprite = self.sprite.copy();
        let pos_x = if w > ENEMY_W {
            (roll_x % ((w - ENEMY_W + 1) as u64)) as i64
        } else {
            0
        };
        sprite.set_fps(ENEMY_FPS_MIN + roll_fps % ENEMY_FPS_SPREAD);
        Enemy {
            sprite,
            amplitude: ENEMY_AMPLITUDE,
            angular_vel: ENEMY_ANGULAR_VEL,
            pos_x,
            origin_y: h / 2 - 20,
        }
    }
}

/// An explosion: an animation played once at a fixed place.
#[derive(Clone, Debug)]
pub struct Explosion {
    pub sprite: AnimatedSprite,
    pub rect: Rectangle,
    pub alive_since: u64,
}

/// Mathematical form of an explosion.
pub struct ExplosionModel {
    pub sprite: SpriteModel,
    pub rect: Rectangle,
    pub alive_since: nat,
}

impl ExplosionModel {
    /// The explosion after `dt` milliseconds, or `None` once all its frames
    /// have been shown.
    pub open spec fn updated(self, dt: nat) -> Option<ExplosionModel> {
        let t = if self.alive_since + dt > u64::MAX {
            u64::MAX as nat
        } else {
            self.alive_since + dt
        };
        if t * EXPLOSION_FPS >= EXPLOSION_FRAMES * 1000 {
            None
        } else {
            Some(ExplosionModel { sprite: self.sprite.advanced(dt), rect: self.rect, alive_since: t })
        }
    }
}

impl View for Explosion {
    type V = ExplosionModel;

    open spec fn view(&self) -> ExplosionModel {
        ExplosionModel {
            sprite: self.sprite@,
            rect: self.rect,
            alive_since: self.alive_since as nat,
        }
    }
}

/// Makes explosions from a shared animation.
#[derive(Clone, Debug)]
pub struct ExplosionFactory {
    pub sprite: AnimatedSprite,
}

/// Where an explosion centred at `c` is drawn.
pub open spec fn explosion_rect(c: (int, int)) -> Rectangle {
    Rectangle { x: (c.0 - EXPLOSION_SIDE / 2) as i64, y: (c.1 - EXPLOSION_SIDE / 2) as i64, w: EXPLOSION_SIDE, h: EXPLOSION_SIDE }
}

impl Explosion {
    /// The factory, with the explosion sheet's frames.
    pub fn factory() -> (r: ExplosionFactory)
        ensures
            r.sprite@.time == 0,
            r.sprite@.frames.len() == EXPLOSION_FRAMES,
            forall|i: int| 0 <= i < EXPLOSION_FRAMES ==> #[trigger] r.sprite@.frames[i] == explosion_grid().region(i),
            r.sprite@.fps == EXPLOSION_FPS,
            r.sprite@.rest == 0,
            !r.sprite@.resting,
    {
        let grid = FrameGrid {
            total_frames: EXPLOSION_FRAMES,
            frames_wide: EXPLOSION_FRAMES_WIDE,
            frames_high: EXPLOSION_FRAMES_HIGH,
            frame_w: EXPLOSION_SIDE,
            frame_h: EXPLOSION_SIDE,
        };
        assert(grid.frames_wide * grid.frames_high == 20) by (nonlinear_arith)
            requires
                grid.frames_wide == 5,
                grid.frames_high == 4,
        ;
        ExplosionFactory { sprite: AnimatedSprite::with_fps(grid.frames(), EXPLOSION_FPS, 0) }
    }

    /// Moves the explosion on by `dt` milliseconds; `None` once it is over.
    pub fn update(self, dt: u64) -> (r: Option<Explosion>)
        ensures
            r.is_some() == self@.updated(dt as nat).is_some(),
            r.is_some() ==> r.unwrap()@ == self@.updated(dt as nat).unwrap(),
    {
        let mut e = self;
        e.alive_since = e.alive_since.saturating_add(dt);
        e.sprite.add_time(dt);
        if (e.alive_since as u128) * (EXPLOSION_FPS as u128) >= (EXPLOSION_FRAMES as u128) * 1000 {
            None
        } else {
            Some(e)
        }
    }
}

impl ExplosionFactory {
    /// A new explosion centred at `center`.
    pub fn at_center(&self, center: (i64, i64)) -> (r: Explosion)
        requires
            in_coords(center.0 - EXPLOSION_SIDE),
            in_coords(center.0 + EXPLOSION_SIDE),
            in_coords(center.1 - EXPLOSION_SIDE),
            in_coords(center.1 + EXPLOSION_SIDE),
        ensures
            r@ == (ExplosionModel {
                sprite: self.sprite@,
                rect: explosion_rect((center.0 as int, center.1 as int)),
                alive_since: 0,
            }),
            r.rect.wf(),
    {
        let rect = Rectangle::with_size(EXPLOSION_SIDE, EXPLOSION_SIDE).center_at(center);
        Explosion { sprite: self.sprite.copy(), rect, alive_since: 0 }
    }
}

/// The ship's pose in its sprite sheet, by direction of travel.
#[derive(Clone, Copy, Debug, PartialEq, Eq, Structural)]
pub enum PlayerFrame {
    UpNorm,
    UpFast,
    UpSlow,
    MidNorm,
    MidFast,
    MidSlow,
    DownNorm,
    DownFast,
    DownSlow,
}

impl PlayerFrame {
    /// The pose for a move of `(dx, dy)`: up, level or down by `dy`, then
    /// still, forward or back by `dx`.
    pub open spec fn for_motion(dx: int, dy: int) -> PlayerFrame {
        if dy < 0 {
            if dx == 0 { PlayerFrame::UpNorm } else if dx > 0 { PlayerFrame::UpFast } else { PlayerFrame::UpSlow }
        } else if dy == 0 {
            if dx == 0 { PlayerFrame::MidNorm } else if dx > 0 { PlayerFrame::MidFast } else { PlayerFrame::MidSlow }
        } else {
            if dx == 0 { PlayerFrame::DownNorm } else if dx > 0 { PlayerFrame::DownFast } else { PlayerFrame::DownSlow }
        }
    }

    pub open spec fn slot(self) -> int {
        match self {
            PlayerFrame::UpNorm => 0,
            PlayerFrame::UpFast => 1,
            PlayerFrame::UpSlow => 2,
            PlayerFrame::MidNorm => 3,
            PlayerFrame::MidFast => 4,
            PlayerFrame::MidSlow => 5,
            PlayerFrame::DownNorm => 6,
            PlayerFrame::DownFast => 7,
            PlayerFrame::DownSlow => 8,
        }
    }

    /// The pose for a move of `(dx, dy)`.
    pub fn from_motion(dx: i64, dy: i64) -> (r: PlayerFrame)
        ensures
            r == Self::for_motion(dx as int, dy as int),
    {
        if dy < 0 {
            if dx == 0 { PlayerFrame::UpNorm } else if dx > 0 { PlayerFrame::UpFast } else { PlayerFrame::UpSlow }
        } else if dy == 0 {
            if dx == 0 { PlayerFrame::MidNorm } else if dx > 0 { PlayerFrame::MidFast } else { PlayerFrame::MidSlow }
        } else {
            if dx == 0 { PlayerFrame::DownNorm } else if dx > 0 { PlayerFrame::DownFast } else { PlayerFrame::DownSlow }
        }
    }

    /// Position of the pose in the ship's sprite list.
    pub fn index(&self) -> (r: usize)
        ensures
            r as int == self.slot(),
            r < PLAYER_POSES,
    {
        match self {
            PlayerFrame::UpNorm => 0,
            PlayerFrame::UpFast => 1,
            PlayerFrame::UpSlow => 2,
            PlayerFrame::MidNorm => 3,
            PlayerFrame::MidFast => 4,
            PlayerFrame::MidSlow => 5,
            PlayerFrame::DownNorm => 6,
            PlayerFrame::DownFast => 7,
            PlayerFrame::DownSlow => 8,
        }
    }
}

/// Number of ship poses: a 3 by 3 sheet.
pub const PLAYER_POSES: usize = 9;

/// Diagonal moves are scaled by this many thousandths (one over the square
/// root of two).
pub const DIAGONAL_PER_MILLE: u64 = 707;

/// A configuration that the game cannot run with.
#[derive(Clone, Copy, Debug, PartialEq, Eq, Structural)]
pub enum ConfigError {
    /// The ship is larger than the region it must stay in.
    ShipDoesNotFit,
}

/// The player's ship.
#[derive(Clone, Debug)]
pub struct Player {
    pub rect: Rectangle,
    /// Sheet regions of the poses, in `PlayerFrame` order.
    pub sprites: Vec<Rectangle>,
    pub current: PlayerFrame,
    pub cannon: CannonType,
}

/// The sheet region of pose `i` (the sheet holds the poses column by column).
pub open spec fn player_pose_region(i: int) -> Rectangle {
    Rectangle { x: (PLAYER_H * (i / 3)) as i64, y: (PLAYER_W * (i % 3)) as i64, w: PLAYER_H, h: PLAYER_W }
}

/// The region the ship may move in on an output of `w` by `h` pixels: the
/// full width, and a band a tenth of the height just above the bottom.
pub open spec fn movable_region(w: int, h: int) -> Rectangle {
    Rectangle { x: 0, y: (h - PLAYER_H - 20) as i64, w: w as i64, h: (h / 10) as i64 }
}

/// How far the ship travels in `elapsed` milliseconds.
pub open spec fn ship_travel(elapsed: int, diagonal: bool) -> int {
    if diagonal {
        PLAYER_SPEED * elapsed * DIAGONAL_PER_MILLE / 1000000
    } else {
        PLAYER_SPEED * elapsed / 1000
    }
}

/// Horizontal move for the held keys.
pub open spec fn ship_dx(input: crate::input::InputModel, elapsed: int) -> int {
    let up = input.held[Key::Up.slot()];
    let down = input.held[Key::Down.slot()];
    let left = input.held[Key::Left.slot()];
    let right = input.held[Key::Right.slot()];
    let moved = ship_travel(elapsed, (up != down) && (left != right));
    if left && !right {
        -moved
    } else if right && !left {
        moved
    } else {
        0
    }
}

/// The weapon after this frame's number keys: the last of 1, 2, 3 pressed wins.
pub open spec fn cannon_after(c: CannonType, input: crate::input::InputModel) -> CannonType {
    let c1 = if input.edges[Key::Num1.slot()] == Some(true) { CannonType::RectBullet } else { c };
    let c2 = if input.edges[Key::Num2.slot()] == Some(true) {
        CannonType::SineBullet { amplitude: 10, angular_vel: 15 }
    } else {
        c1
    };
    if input.edges[Key::Num3.slot()] == Some(true) {
        CannonType::DivergentBullet { a: 100, b: 1200 }
    } else {
        c2
    }
}

impl Player {
    pub open spec fn wf(self) -> bool {
        &&& self.rect.wf()
        &&& self.rect.w == PLAYER_W
        &&& self.rect.h == PLAYER_H
        &&& self.cannon.wf()
        &&& self.sprites@.len() == PLAYER_POSES
    }

    /// A ship at the bottom left of an output `out_h` pixels high, with the
    /// straight cannon.
    pub fn new(out_h: i64) -> (r: Player)
        requires
            screen_ok(0, out_h as int),
        ensures
            r.wf(),
            r.rect == (Rectangle { x: 64, y: (out_h - PLAYER_H + 20) as i64, w: PLAYER_W, h: PLAYER_H }),
            r.current == PlayerFrame::MidNorm,
            r.cannon == CannonType::RectBullet,
            forall|i: int| 0 <= i < PLAYER_POSES ==> #[trigger] r.sprites@[i] == player_pose_region(i),
    {
        let mut sprites: Vec<Rectangle> = Vec::new();
        let mut i: usize = 0;
        while i < PLAYER_POSES
            invariant
                i <= PLAYER_POSES,
                sprites@.len() == i,
                forall|j: int| 0 <= j < i ==> #[trigger] sprites@[j] == player_pose_region(j),
            decreases PLAYER_POSES - i,
        {
            let col = (i / 3) as i64;
            let row = (i % 3) as i64;
            sprites.push(Rectangle { x: PLAYER_H * col, y: PLAYER_W * row, w: PLAYER_H, h: PLAYER_W });
            i += 1;
        }
        Player {
            rect: Rectangle { x: 64, y: out_h - PLAYER_H + 20, w: PLAYER_W, h: PLAYER_H },
            sprites,
            current: PlayerFrame::MidNorm,
            cannon: CannonType::RectBullet,
        }
    }

    /// The sheet region of the current pose.
    pub fn sprite(&self) -> (r: Rectangle)
        requires
            self.wf(),
        ensures
            r == self.sprites@[self.current.slot()],
    {
        self.sprites[self.current.index()]
    }

    /// The shots of one press of the trigger, from the ship's nose.
    pub fn spawn_bullets(&self) -> (r: Vec<Bullet>)
        requires
            self.wf(),
        ensures
            r@ == seq![Bullet::launched(self.cannon, (self.rect.x + self.rect.w / 2) as i64, self.rect.y)],
            r@[0].wf(),
    {
        let cannon1_x = self.rect.w / 2 + self.rect.x;
        let cannons_y = self.rect.y;
        let cannon2_x = self.rect.x + PLAYER_W;
        spawn_bullets(self.cannon, cannon1_x, cannon2_x, cannons_y)
    }

    /// One frame of steering: picks the weapon from this frame's number keys,
    /// moves sideways by the held arrow keys for `elapsed` milliseconds, keeps
    /// the ship inside its movable region and picks the matching pose. Fails,
    /// changing nothing, when the ship cannot fit in that region.
    pub fn update(&mut self, events: &Events, elapsed: u64, out_w: i64, out_h: i64) -> (r: Result<(), ConfigError>)
        requires
            old(self).wf(),
            events@.wf(),
            screen_ok(out_w as int, out_h as int),
        ensures
            r.is_err() <==> !old(self).rect.fits_in(movable_region(out_w as int, out_h as int)),
            r.is_err() ==> *final(self) == *old(self),
            r.is_ok() ==> final(self).wf(),
            r.is_ok() ==> final(self).cannon == cannon_after(old(self).cannon, events@),
            r.is_ok() ==> final(self).rect == (Rectangle {
                x: Rectangle::clamp_axis(old(self).rect.x + ship_dx(events@, elapsed as int), PLAYER_W as int, 0, out_w as int) as i64,
                y: Rectangle::clamp_axis(old(self).rect.y as int, PLAYER_H as int, out_h - PLAYER_H - 20, out_h / 10) as i64,
                w: PLAYER_W,
                h: PLAYER_H,
            }),
            r.is_ok() ==> final(self).current == PlayerFrame::for_motion(ship_dx(events@, elapsed as int), 0),
            r.is_ok() ==> final(self).sprites == old(self).sprites,
    {
        let region = Rectangle { x: 0, y: out_h - PLAYER_H - 20, w: out_w, h: out_h / 10 };
        if PLAYER_W > region.w || PLAYER_H > region.h {
            return Err(ConfigError::ShipDoesNotFit);
        }
        if events.now.pressed(Key::Num1) {
            self.cannon = CannonType::RectBullet;
        }
        if events.now.pressed(Key::Num2) {
            self.cannon = CannonType::SineBullet { amplitude: 10, angular_vel: 15 };
        }
        if events.now.pressed(Key::Num3) {
            self.cannon = CannonType::DivergentBullet { a: 100, b: 1200 };
        }
        let up = events.is_down(Key::Up);
        let down = events.is_down(Key::Down);
        let left = events.is_down(Key::Left);
        let right = events.is_down(Key::Right);
        let diagonal = (up != down) && (left != right);
        proof {
            assert((PLAYER_SPEED as u128) * (elapsed as u128) * (DIAGONAL_PER_MILLE as u128) <= 1000 * u64::MAX * 1000) by (nonlinear_arith)
                requires
                    elapsed <= u64::MAX,
            ;
            assert((PLAYER_SPEED as u128) * (elapsed as u128) <= 1000 * u64::MAX) by (nonlinear_arith)
                requires
                    elapsed <= u64::MAX,
            ;
        }
        let moved: u128 = if diagonal {
            (PLAYER_SPEED as u128) * (elapsed as u128) * (DIAGONAL_PER_MILLE as u128) / 1000000
        } else {
            (PLAYER_SPEED as u128) * (elapsed as u128) / 1000
        };
        let dx: i128 = if left && !right {
            -(moved as i128)
        } else if right && !left {
            moved as i128
        } else {
            0
        };
        let target = self.rect.x as i128 + dx;
        let pre_x: i64 = if target < -2147483648 {
            -2147483648
        } else if target > 2147483647 - PLAYER_W as i128 {
            (2147483647 - PLAYER_W) as i64
        } else {
            target as i64
        };
        let pre = Rectangle { x: pre_x, y: self.rect.y, w: PLAYER_W, h: PLAYER_H };
        match pre.move_inside(region) {
            Some(r) => {
                self.rect = r;
            },
            None => {
                return Err(ConfigError::ShipDoesNotFit);
            },
        }
        let shown_dx: i64 = if dx < 0 { -1 } else if dx > 0 { 1 } else { 0 };
        self.current = PlayerFrame::from_motion(shown_dx, 0);
        Ok(())
    }
}

} // verus!
