//! The views a game moves between, and what a view asks of the game loop.

use vstd::prelude::*;
use crate::backdrop::BgSet;
use crate::entities::ConfigError;
use crate::game::GameView;
use crate::geometry::screen_ok;
use crate::input::{Events, InputEvent, InputModel};
use crate::menu::{MainMenuView, MenuAction};
use crate::ship::ShipView;

verus! {

/// What the current view asks the game loop to do after a frame.
pub enum ViewAction {
    /// Present the frame and keep going.
    Continue,
    /// Stop the game loop.
    Quit,
    /// Replace the current view by this one.
    ChangeView(Box<ActiveView>),
}

/// The view the game loop is running.
pub enum ActiveView {
    Menu(MainMenuView),
    Game(GameView),
    Ship(ShipView),
}

/// Whether `a` switches to a fresh main menu over the backgrounds `bg`.
pub open spec fn switches_to_menu(a: ViewAction, bg: BgSet) -> bool {
    match a {
        ViewAction::ChangeView(v) => match *v {
            ActiveView::Menu(m) => m.bg == bg && m.selected == 0 && m.actions@ == seq![
                MenuAction::NewGame,
                MenuAction::Quit,
            ],
            _ => false,
        },
        _ => false,
    }
}

/// Whether `a` switches to a fresh game over the backgrounds `bg` on an
/// output `out_h` pixels high.
pub open spec fn switches_to_game(a: ViewAction, bg: BgSet, out_h: int) -> bool {
    match a {
        ViewAction::ChangeView(v) => match *v {
            ActiveView::Game(g) => g.is_fresh(bg, out_h),
            _ => false,
        },
        _ => false,
    }
}

impl ActiveView {
    /// How a frame with input `input`, `elapsed` milliseconds, on an output of
    /// `w` by `h` pixels takes the current view from `old` to `new` with
    /// result `r`: the view stays of the same kind and follows its own rule.
    pub open spec fn rendered(old: ActiveView, new: ActiveView, input: InputModel, elapsed: nat, w: int, h: int, r: Result<ViewAction, ConfigError>) -> bool {
        match (old, new) {
            (ActiveView::Menu(m), ActiveView::Menu(m2)) => match r {
                Ok(a) => MainMenuView::rendered(m, m2, input, h, a),
                Err(_) => false,
            },
            (ActiveView::Game(g), ActiveView::Game(g2)) => GameView::played_by_chance(g, g2, input, elapsed, w, h, r),
            (ActiveView::Ship(s), ActiveView::Ship(s2)) => ShipView::rendered(s, s2, input, elapsed as int, w, h, r),
            _ => false,
        }
    }

    pub open spec fn wf(self) -> bool {
        match self {
            ActiveView::Menu(m) => m.wf(),
            ActiveView::Game(g) => g.wf(),
            ActiveView::Ship(s) => s.player.wf() && s.player.w == crate::ship::SHIP_SIDE && s.player.h
                == crate::ship::SHIP_SIDE,
        }
    }

    /// Runs one frame of the current view with this frame's input and the
    /// `elapsed` milliseconds since the last frame, on an output of `w` by
    /// `h` pixels.
    pub fn render(&mut self, events: &Events, elapsed: u64, w: i64, h: i64) -> (r: Result<ViewAction, ConfigError>)
        requires
            old(self).wf(),
            events@.wf(),
            screen_ok(w as int, h as int),
        ensures
            final(self).wf(),
            ActiveView::rendered(*old(self), *final(self), events@, elapsed as nat, w as int, h as int, r),
            r matches Ok(ViewAction::ChangeView(v)) ==> v.wf(),
    {
        match self {
            ActiveView::Menu(m) => Ok(m.render(events, h)),
            ActiveView::Game(g) => g.render(events, elapsed, w, h),
            ActiveView::Ship(s) => s.render(events, elapsed, w, h),
        }
    }
}

/// What the game loop does once a frame has run.
#[derive(Clone, Copy, Debug, PartialEq, Eq, Structural)]
pub enum LoopAction {
    /// Show the frame drawn.
    Present,
    /// The view was replaced; nothing to show for this frame.
    Switched,
    /// Leave the game loop.
    Quit,
}

/// The state the game loop carries from frame to frame: the input tracker and
/// the current view.
pub struct GameLoop {
    pub events: Events,
    pub view: ActiveView,
}

impl GameLoop {
    /// Whether the loop, after its view ended up as `shown` and answered `a`,
    /// goes on with `next` and reports `r`.
    pub open spec fn carried_out(shown: ActiveView, a: Result<ViewAction, ConfigError>, next: ActiveView, r: Result<LoopAction, ConfigError>) -> bool {
        match a {
            Ok(ViewAction::Continue) => r == Ok::<LoopAction, ConfigError>(LoopAction::Present) && next == shown,
            Ok(ViewAction::Quit) => r == Ok::<LoopAction, ConfigError>(LoopAction::Quit) && next == shown,
            Ok(ViewAction::ChangeView(v)) => r == Ok::<LoopAction, ConfigError>(LoopAction::Switched) && next == *v,
            Err(e) => r == Err::<LoopAction, ConfigError>(e) && next == shown,
        }
    }

    pub open spec fn wf(self) -> bool {
        self.events@.wf() && self.view.wf()
    }

    /// A loop starting on `view` with no key held.
    pub fn new(view: ActiveView) -> (r: GameLoop)
        requires
            view.wf(),
        ensures
            r.wf(),
            r.view == view,
    {
        GameLoop { events: Events::new(), view }
    }

    /// Runs one frame: takes in the events polled for it, hands them and the
    /// `elapsed` milliseconds to the current view, and carries out what the
    /// view asks: go on, leave, or continue with another view.
    pub fn frame(&mut self, polled: &Vec<InputEvent>, elapsed: u64, w: i64, h: i64) -> (r: Result<LoopAction, ConfigError>)
        requires
            old(self).wf(),
            screen_ok(w as int, h as int),
        ensures
            final(self).wf(),
            final(self).events@ == old(self).events@.pumped(polled@),
            exists|shown: ActiveView, a: Result<ViewAction, ConfigError>| {
                &&& #[trigger] ActiveView::rendered(old(self).view, shown, final(self).events@, elapsed as nat, w as int, h as int, a)
                &&& GameLoop::carried_out(shown, a, final(self).view, r)
            },
    {
        self.events.pump(polled);
        let answer = self.view.render(&self.events, elapsed, w, h);
        let ghost shown = self.view;
        let ghost a = answer;
        let r = match answer {
            Ok(ViewAction::Continue) => Ok(LoopAction::Present),
            Ok(ViewAction::Quit) => Ok(LoopAction::Quit),
            Ok(ViewAction::ChangeView(next)) => {
                self.view = *next;
                Ok(LoopAction::Switched)
            },
            Err(e) => Err(e),
        };
        assert(ActiveView::rendered(old(self).view, shown, self.events@, elapsed as nat, w as int, h as int, a));
        assert(GameLoop::carried_out(shown, a, self.view, r));
        r
    }
}

} // verus!
