//! The player's shots: straight, sinusoidal and diverging trajectories, all
//! moving up the screen and dropped once they leave it.

use vstd::prelude::*;
use crate::geometry::{in_coords, screen_ok, Rectangle};
use crate::motion::{
    bump, bump_spec, lemma_offsets_at_zero, wave, wave_spec, BUMP_HEIGHT_MAX, BUMP_WIDTH_MAX, FLIGHT_TIME_MAX,
    WAVE_AMPLITUDE_MAX,
};

verus! {

/// Upward speed of straight and sinusoidal shots, in pixels per second.
pub const BULLET_SPEED: u64 = 600;

/// Upward speed of diverging shots, in pixels per second.
pub const BULLET_SPEED_SLOW: u64 = 300;

pub const BULLET_W: i64 = 4;

pub const BULLET_H: i64 = 8;

/// The weapon the player fires with.
#[derive(Clone, Copy, Debug, PartialEq, Eq, Structural)]
pub enum CannonType {
    RectBullet,
    /// Sideways wave of `amplitude` pixels at `angular_vel` radians per second.
    SineBullet { amplitude: u64, angular_vel: u64 },
    /// Sideways cubic bump of height factor `a` pixels and width `b` milliseconds.
    DivergentBullet { a: i64, b: u64 },
}

impl CannonType {
    /// Parameters within the ranges the trajectories are evaluated for.
    pub open spec fn wf(self) -> bool {
        match self {
            CannonType::RectBullet => true,
            CannonType::SineBullet { amplitude, angular_vel } => amplitude <= WAVE_AMPLITUDE_MAX,
            CannonType::DivergentBullet { a, b } => -BUMP_HEIGHT_MAX <= a <= BUMP_HEIGHT_MAX && 0
                < b <= BUMP_WIDTH_MAX,
        }
    }
}

/// A shot flying straight up from `(pos_x, origin_y)`.
#[derive(Clone, Copy, Debug, PartialEq, Eq, Structural)]
pub struct RectBullet {
    pub pos_x: i64,
    pub origin_y: i64,
    pub total_time: u64,
}

impl RectBullet {
    /// A straight shot leaving `(x, y)` now.
    pub fn new(x: i64, y: i64) -> (r: RectBullet)
        ensures
            r == (RectBullet { pos_x: x, origin_y: y, total_time: 0 }),
    {
        RectBullet { pos_x: x, origin_y: y, total_time: 0 }
    }
}

/// A shot flying up while swinging sideways around `pos_x`.
#[derive(Clone, Copy, Debug, PartialEq, Eq, Structural)]
pub struct SineBullet {
    pub pos_x: i64,
    pub origin_y: i64,
    pub amplitude: u64,
    pub angular_vel: u64,
    pub total_time: u64,
}

/// A slow shot flying up while bending sideways along a cubic.
#[derive(Clone, Copy, Debug, PartialEq, Eq, Structural)]
pub struct DivergentBullet {
    pub pos_x: i64,
    pub origin_y: i64,
    /// Height factor of the bump, in pixels.
    pub a: i64,
    /// Width of the bump, in milliseconds.
    pub b: u64,
    pub total_time: u64,
}

/// Any shot.
#[derive(Clone, Copy, Debug, PartialEq, Eq, Structural)]
pub enum Bullet {
    Rect(RectBullet),
    Sine(SineBullet),
    Divergent(DivergentBullet),
}

impl Bullet {
    pub open spec fn time(self) -> int {
        match self {
            Bullet::Rect(b) => b.total_time as int,
            Bullet::Sine(b) => b.total_time as int,
            Bullet::Divergent(b) => b.total_time as int,
        }
    }

    /// Upward speed in pixels per second.
    pub open spec fn speed(self) -> int {
        match self {
            Bullet::Divergent(_) => BULLET_SPEED_SLOW as int,
            _ => BULLET_SPEED as int,
        }
    }

    /// Parameters within range and launch point inside the coordinate range.
    pub open spec fn params_ok(self) -> bool {
        &&& in_coords(self.pos_x() as int)
        &&& in_coords(self.origin_y() as int)
        &&& match self {
            Bullet::Rect(b) => true,
            Bullet::Sine(b) => b.amplitude <= WAVE_AMPLITUDE_MAX,
            Bullet::Divergent(b) => -BUMP_HEIGHT_MAX <= b.a <= BUMP_HEIGHT_MAX && 0 < b.b
                <= BUMP_WIDTH_MAX,
        }
    }

    /// Horizontal launch coordinate.
    pub open spec fn pos_x(self) -> i64 {
        match self {
            Bullet::Rect(b) => b.pos_x,
            Bullet::Sine(b) => b.pos_x,
            Bullet::Divergent(b) => b.pos_x,
        }
    }

    /// Vertical launch coordinate.
    pub open spec fn origin_y(self) -> i64 {
        match self {
            Bullet::Rect(b) => b.origin_y,
            Bullet::Sine(b) => b.origin_y,
            Bullet::Divergent(b) => b.origin_y,
        }
    }

    /// Left edge after `t` milliseconds of flight.
    pub open spec fn x_at(self, t: int) -> int {
        match self {
            Bullet::Rect(b) => b.pos_x as int,
            Bullet::Sine(b) => b.pos_x + wave_spec(b.amplitude as int, b.angular_vel as int, t),
            Bullet::Divergent(b) => b.pos_x + bump_spec(b.a as int, b.b as int, t),
        }
    }

    /// Top edge after `t` milliseconds of flight.
    pub open spec fn y_at(self, t: int) -> int {
        match self {
            Bullet::Rect(b) => b.origin_y - self.speed() * t / 1000,
            Bullet::Sine(b) => b.origin_y - self.speed() * t / 1000,
            Bullet::Divergent(b) => b.origin_y - self.speed() * t / 1000,
        }
    }

    /// The hitbox after `t` milliseconds of flight.
    pub open spec fn hitbox_at(self, t: int) -> Rectangle {
        Rectangle { x: self.x_at(t) as i64, y: self.y_at(t) as i64, w: BULLET_W, h: BULLET_H }
    }

    /// The current hitbox.
    pub open spec fn hitbox(self) -> Rectangle {
        self.hitbox_at(self.time())
    }

    /// Whether the top-left corner is on an output of `w` by `h` pixels at time `t`.
    pub open spec fn visible_at(self, t: int, w: int, h: int) -> bool {
        0 <= self.x_at(t) <= w && 0 <= self.y_at(t) <= h
    }

    /// The same shot with its flight clock at `t`.
    pub open spec fn with_time(self, t: int) -> Bullet {
        match self {
            Bullet::Rect(b) => Bullet::Rect(RectBullet { total_time: t as u64, ..b }),
            Bullet::Sine(b) => Bullet::Sine(SineBullet { total_time: t as u64, ..b }),
            Bullet::Divergent(b) => Bullet::Divergent(DivergentBullet { total_time: t as u64, ..b }),
        }
    }

    pub open spec fn wf(self) -> bool {
        &&& self.params_ok()
        &&& self.time() <= FLIGHT_TIME_MAX
        &&& in_coords(self.x_at(self.time()))
        &&& in_coords(self.x_at(self.time()) + BULLET_W)
        &&& in_coords(self.y_at(self.time()))
        &&& in_coords(self.y_at(self.time()) + BULLET_H)
    }

    /// The shot a cannon fires from `(x, y)`.
    pub open spec fn launched(cannon: CannonType, x: i64, y: i64) -> Bullet {
        match cannon {
            CannonType::RectBullet => Bullet::Rect(RectBullet { pos_x: x, origin_y: y, total_time: 0 }),
            CannonType::SineBullet { amplitude, angular_vel } => Bullet::Sine(
                SineBullet { pos_x: x, origin_y: y, amplitude, angular_vel, total_time: 0 },
            ),
            CannonType::DivergentBullet { a, b } => Bullet::Divergent(
                DivergentBullet { pos_x: x, origin_y: y, a: (-a) as i64, b, total_time: 0 },
            ),
        }
    }

    fn time_exec(&self) -> (r: u64)
        ensures
            r as int == self.time(),
    {
        match self {
            Bullet::Rect(b) => b.total_time,
            Bullet::Sine(b) => b.total_time,
            Bullet::Divergent(b) => b.total_time,
        }
    }

    fn with_time_exec(self, t: u64) -> (r: Bullet)
        ensures
            r == self.with_time(t as int),
            r.time() == t,
    {
        match self {
            Bullet::Rect(b) => Bullet::Rect(RectBullet { total_time: t, ..b }),
            Bullet::Sine(b) => Bullet::Sine(SineBullet { total_time: t, ..b }),
            Bullet::Divergent(b) => Bullet::Divergent(DivergentBullet { total_time: t, ..b }),
        }
    }

    /// Top edge after `t` milliseconds of flight.
    fn y_at_exec(&self, t: u128) -> (r: i128)
        requires
            t <= 2 * (u64::MAX as int),
        ensures
            r as int == self.y_at(t as int),
    {
        match self {
            Bullet::Rect(b) => b.origin_y as i128 - ((BULLET_SPEED as u128) * t / 1000) as i128,
            Bullet::Sine(b) => b.origin_y as i128 - ((BULLET_SPEED as u128) * t / 1000) as i128,
            Bullet::Divergent(b) => b.origin_y as i128 - ((BULLET_SPEED_SLOW as u128) * t / 1000)
                as i128,
        }
    }

    /// Left edge after `t` milliseconds of flight.
    fn x_at_exec(&self, t: u64) -> (r: i128)
        requires
            self.params_ok(),
            t <= FLIGHT_TIME_MAX,
        ensures
            r as int == self.x_at(t as int),
    {
        match self {
            Bullet::Rect(b) => b.pos_x as i128,
            Bullet::Sine(b) => b.pos_x as i128 + wave(b.amplitude, b.angular_vel, t) as i128,
            Bullet::Divergent(b) => b.pos_x as i128 + bump(b.a, b.b, t),
        }
    }

    /// The current hitbox.
    pub fn rect(&self) -> (r: Rectangle)
        requires
            self.wf(),
        ensures
            r == self.hitbox(),
            r.wf(),
    {
        let t = self.time_exec();
        let x = self.x_at_exec(t);
        let y = self.y_at_exec(t as u128);
        Rectangle { x: x as i64, y: y as i64, w: BULLET_W, h: BULLET_H }
    }

    /// Moves the shot on by `dt` milliseconds; `None` once it has left an
    /// output of `w` by `h` pixels.
    pub fn update(self, dt: u64, w: i64, h: i64) -> (r: Option<Bullet>)
        requires
            self.wf(),
            screen_ok(w as int, h as int),
        ensures
            r.is_some() <==> self.visible_at(self.time() + dt, w as int, h as int),
            r.is_some() ==> r.unwrap() == self.with_time(self.time() + dt),
            r.is_some() ==> r.unwrap().wf(),
    {
        let t = self.time_exec() as u128 + dt as u128;
        let y = self.y_at_exec(t);
        if y < 0 || y > h as i128 {
            return None;
        }
        assert(self.speed() >= 300);
        assert(self.y_at(t as int) == self.origin_y() - self.speed() * t / 1000);
        assert(self.speed() * t >= 300 * t) by (nonlinear_arith)
            requires
                self.speed() >= 300,
                t >= 0,
        ;
        assert(t <= FLIGHT_TIME_MAX);
        let x = self.x_at_exec(t as u64);
        if x < 0 || x > w as i128 {
            return None;
        }
        let r = self.with_time_exec(t as u64);
        assert(r.x_at(t as int) == self.x_at(t as int));
        assert(r.y_at(t as int) == self.y_at(t as int));
        Some(r)
    }
}

/// The shots fired by one press of the trigger: the player's ship carries two
/// cannons, of which the first fires.
pub fn spawn_bullets(cannon: CannonType, cannon1_x: i64, cannon2_x: i64, cannons_y: i64) -> (r:
    Vec<Bullet>)
    requires
        cannon.wf(),
        in_coords(cannon1_x as int),
        in_coords(cannon1_x + BULLET_W),
        in_coords(cannons_y as int),
        in_coords(cannons_y + BULLET_H),
    ensures
        r@ == seq![Bullet::launched(cannon, cannon1_x, cannons_y)],
        r@[0].wf(),
{
    let b = match cannon {
        CannonType::RectBullet => Bullet::Rect(
            RectBullet { pos_x: cannon1_x, origin_y: cannons_y, total_time: 0 },
        ),
        CannonType::SineBullet { amplitude, angular_vel } => Bullet::Sine(
            SineBullet { pos_x: cannon1_x, origin_y: cannons_y, amplitude, angular_vel, total_time: 0 },
        ),
        CannonType::DivergentBullet { a, b } => Bullet::Divergent(
            DivergentBullet { pos_x: cannon1_x, origin_y: cannons_y, a: -a, b, total_time: 0 },
        ),
    };
    proof {
        match cannon {
            CannonType::SineBullet { amplitude, angular_vel } => {
                lemma_offsets_at_zero(amplitude as int, angular_vel as int, 0, 1);
            },
            CannonType::DivergentBullet { a, b } => {
                lemma_offsets_at_zero(0, 0, -a, b as int);
            },
            _ => {},
        }
    }
    assert(b.x_at(0) == cannon1_x);
    assert(b.y_at(0) == cannons_y);
    let mut r: Vec<Bullet> = Vec::new();
    r.push(b);
    assert(r@ =~= seq![Bullet::launched(cannon, cannon1_x, cannons_y)]);
    r
}

} // verus!
