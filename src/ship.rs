//! A bare view with a single ship steered in all four directions.

use vstd::prelude::*;
use crate::entities::{ConfigError, DIAGONAL_PER_MILLE, PLAYER_SPEED};
use crate::geometry::{screen_ok, Rectangle, COORD_MAX, COORD_MIN};
use crate::input::{Events, InputModel, Key};
use crate::view::ViewAction;

verus! {

pub const SHIP_SIDE: i64 = 32;

/// The view.
#[derive(Clone, Copy, Debug, PartialEq, Eq, Structural)]
pub struct ShipView {
    pub player: Rectangle,
}

/// The region the ship may move in: the left seven tenths of the output.
pub open spec fn ship_region(w: int, h: int) -> Rectangle {
    Rectangle { x: 0, y: 0, w: (w * 7 / 10) as i64, h: h as i64 }
}

/// Travel along one axis for the two keys that drive it.
pub open spec fn axis_move(neg: bool, pos: bool, moved: int) -> int {
    if neg && !pos {
        -moved
    } else if pos && !neg {
        moved
    } else {
        0
    }
}

/// Where a coordinate lands after a move, kept inside the coordinate range.
pub open spec fn coord_after(v: int, d: int) -> int {
    if v + d < COORD_MIN {
        COORD_MIN as int
    } else if v + d > COORD_MAX - SHIP_SIDE {
        COORD_MAX - SHIP_SIDE
    } else {
        v + d
    }
}

/// The move of the ship for the held keys over `elapsed` milliseconds.
pub open spec fn ship_travel_xy(input: InputModel, elapsed: int) -> (int, int) {
    let up = input.held[Key::Up.slot()];
    let down = input.held[Key::Down.slot()];
    let left = input.held[Key::Left.slot()];
    let right = input.held[Key::Right.slot()];
    let moved = crate::entities::ship_travel(elapsed, (up != down) && (left != right));
    (axis_move(left, right, moved), axis_move(up, down, moved))
}

impl ShipView {
    /// How a frame with input `input`, `elapsed` milliseconds, on an output of
    /// `w` by `h` pixels takes the view from `old` to `new` with result `r`:
    /// the ship is first brought back inside its region (failing, with no
    /// change, when it cannot fit); quit or escape then leaves; otherwise the
    /// ship moves by the held arrow keys.
    pub open spec fn rendered(old: ShipView, new: ShipView, input: InputModel, elapsed: int, w: int, h: int, r: Result<ViewAction, ConfigError>) -> bool {
        if !old.player.fits_in(ship_region(w, h)) {
            r == Err::<ViewAction, ConfigError>(ConfigError::ShipDoesNotFit) && new == old
        } else {
            let inside = old.player.moved_inside(ship_region(w, h));
            let d = ship_travel_xy(input, elapsed);
            if input.quit || input.edges[Key::Escape.slot()] == Some(true) {
                (r matches Ok(ViewAction::Quit)) && new.player == inside
            } else {
                &&& r matches Ok(ViewAction::Continue)
                &&& new.player.x == coord_after(inside.x as int, d.0)
                &&& new.player.y == coord_after(inside.y as int, d.1)
                &&& new.player.w == inside.w
                &&& new.player.h == inside.h
            }
        }
    }

    /// The ship near the top left corner.
    pub fn new() -> (r: ShipView)
        ensures
            r.player == (Rectangle { x: 64, y: 64, w: SHIP_SIDE, h: SHIP_SIDE }),
            r.player.wf(),
    {
        ShipView { player: Rectangle { x: 64, y: 64, w: SHIP_SIDE, h: SHIP_SIDE } }
    }

    /// One frame: the ship is first brought back inside its region (failing
    /// when it cannot fit), quit or escape then leaves, and otherwise the ship
    /// moves by the held arrow keys for `elapsed` milliseconds.
    pub fn render(&mut self, events: &Events, elapsed: u64, w: i64, h: i64) -> (r: Result<ViewAction, ConfigError>)
        requires
            old(self).player.wf(),
            old(self).player.w == SHIP_SIDE,
            old(self).player.h == SHIP_SIDE,
            events@.wf(),
            screen_ok(w as int, h as int),
        ensures
            final(self).player.wf(),
            final(self).player.w == SHIP_SIDE,
            final(self).player.h == SHIP_SIDE,
            ShipView::rendered(*old(self), *final(self), events@, elapsed as int, w as int, h as int, r),
    {
        let region = Rectangle { x: 0, y: 0, w: w * 7 / 10, h };
        let inside = match self.player.move_inside(region) {
            Some(p) => p,
            None => {
                return Err(ConfigError::ShipDoesNotFit);
            },
        };
        self.player = inside;
        if events.now.quit || events.now.pressed(Key::Escape) {
            return Ok(ViewAction::Quit);
        }
        let up = events.is_down(Key::Up);
        let down = events.is_down(Key::Down);
        let left = events.is_down(Key::Left);
        let right = events.is_down(Key::Right);
        let diagonal = (up != down) && (left != right);
        proof {
            assert((PLAYER_SPEED as u128) * (elapsed as u128) * (DIAGONAL_PER_MILLE as u128) <= 1000 * u64::MAX * 1000) by (nonlinear_arith)
                requires
                    elapsed <= u64::MAX,
            ;
            assert((PLAYER_SPEED as u128) * (elapsed as u128) <= 1000 * u64::MAX) by (nonlinear_arith)
                requires
                    elapsed <= u64::MAX,
            ;
        }
        let moved: u128 = if diagonal {
            (PLAYER_SPEED as u128) * (elapsed as u128) * (DIAGONAL_PER_MILLE as u128) / 1000000
        } else {
            (PLAYER_SPEED as u128) * (elapsed as u128) / 1000
        };
        let dx: i128 = if left && !right { -(moved as i128) } else if right && !left { moved as i128 } else { 0 };
        let dy: i128 = if up && !down { -(moved as i128) } else if down && !up { moved as i128 } else { 0 };
        self.player.x = clamp_coord(inside.x as i128 + dx);
        self.player.y = clamp_coord(inside.y as i128 + dy);
        Ok(ViewAction::Continue)
    }
}

/// A coordinate kept inside the range where the ship still fits.
fn clamp_coord(v: i128) -> (r: i64)
    ensures
        r as int == (if v < COORD_MIN { COORD_MIN as int } else if v > COORD_MAX - SHIP_SIDE { COORD_MAX - SHIP_SIDE } else { v as int }),
{
    if v < COORD_MIN as i128 {
        COORD_MIN
    } else if v > (COORD_MAX - SHIP_SIDE) as i128 {
        COORD_MAX - SHIP_SIDE
    } else {
        v as i64
    }
}

} // verus!
