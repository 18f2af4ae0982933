//! The main menu: a vertical list of entries, one of them selected.

use vstd::prelude::*;
use crate::backdrop::BgSet;
use crate::game::GameView;
use crate::geometry::screen_ok;
use crate::input::{Events, InputModel, Key};
use crate::view::{switches_to_game, ActiveView, ViewAction};

verus! {

/// What a menu entry does when chosen.
#[derive(Clone, Copy, Debug, PartialEq, Eq, Structural)]
pub enum MenuAction {
    NewGame,
    Quit,
}

impl MenuAction {
    /// The text shown for the entry.
    pub fn label(&self) -> (r: &'static str)
        ensures
            *self == MenuAction::NewGame ==> r@ == "New Game"@,
            *self == MenuAction::Quit ==> r@ == "Quit"@,
    {
        match self {
            MenuAction::NewGame => "New Game",
            MenuAction::Quit => "Quit",
        }
    }
}

/// The main menu.
#[derive(Clone, Debug)]
pub struct MainMenuView {
    pub actions: Vec<MenuAction>,
    /// Index of the selected entry.
    pub selected: usize,
    pub bg: BgSet,
}

/// The selection after the up and down keys of a frame, wrapping at both ends
/// of a list of `n` entries.
pub open spec fn selection_after(sel: int, n: int, up: bool, down: bool) -> int {
    let s1 = if up { if sel == 0 { n - 1 } else { sel - 1 } } else { sel };
    if down { if s1 + 1 >= n { 0 } else { s1 + 1 } } else { s1 }
}

impl MainMenuView {
    pub open spec fn wf(self) -> bool {
        &&& 0 < self.actions@.len()
        &&& self.selected < self.actions@.len()
        &&& self.bg.back.wf()
    }

    /// How a frame with input `input` on an output `out_h` pixels high takes
    /// the menu from `old` to `new` with result `r`: quit or escape leaves;
    /// space or enter runs the selected entry; otherwise the up and down keys
    /// move the selection.
    pub open spec fn rendered(old: MainMenuView, new: MainMenuView, input: InputModel, out_h: int, r: ViewAction) -> bool {
        let e = input.edges;
        let chosen = e[Key::Space.slot()] == Some(true) || e[Key::Enter.slot()] == Some(true);
        let entry = old.actions@[old.selected as int];
        if input.quit || e[Key::Escape.slot()] == Some(true) {
            r is Quit && new == old
        } else if chosen {
            new == old && (entry == MenuAction::Quit ==> r is Quit) && (entry == MenuAction::NewGame
                ==> switches_to_game(r, old.bg, out_h))
        } else {
            &&& r is Continue
            &&& new.actions == old.actions
            &&& new.bg == old.bg
            &&& new.selected as int == selection_after(
                old.selected as int,
                old.actions@.len() as int,
                e[Key::Up.slot()] == Some(true),
                e[Key::Down.slot()] == Some(true),
            )
        }
    }

    /// The menu over a back image of `w` by `h` pixels.
    pub fn new(w: i64, h: i64) -> (r: MainMenuView)
        requires
            0 < w <= crate::backdrop::IMAGE_MAX,
            0 < h <= crate::backdrop::IMAGE_MAX,
        ensures
            r.wf(),
            r.bg == BgSet::new_spec(w, h),
            r.selected == 0,
            r.actions@ == seq![MenuAction::NewGame, MenuAction::Quit],
    {
        MainMenuView::with_backgrounds(BgSet::new(w, h))
    }

    /// The menu over the given backgrounds, with its first entry selected.
    pub fn with_backgrounds(bg: BgSet) -> (r: MainMenuView)
        requires
            bg.back.wf(),
        ensures
            r.wf(),
            r.bg == bg,
            r.selected == 0,
            r.actions@ == seq![MenuAction::NewGame, MenuAction::Quit],
    {
        let mut actions: Vec<MenuAction> = Vec::new();
        actions.push(MenuAction::NewGame);
        actions.push(MenuAction::Quit);
        assert(actions@ =~= seq![MenuAction::NewGame, MenuAction::Quit]);
        MainMenuView { actions, selected: 0, bg }
    }

    /// One frame of the menu on an output `out_h` pixels high: quit or
    /// escape leaves; space or enter runs the selected entry; otherwise the
    /// up and down keys move the selection.
    pub fn render(&mut self, events: &Events, out_h: i64) -> (r: ViewAction)
        requires
            old(self).wf(),
            events@.wf(),
            screen_ok(0, out_h as int),
        ensures
            final(self).wf(),
            MainMenuView::rendered(*old(self), *final(self), events@, out_h as int, r),
            r is ChangeView ==> (match r {
                ViewAction::ChangeView(v) => v.wf(),
                _ => true,
            }),
    {
        if events.now.quit || events.now.pressed(Key::Escape) {
            return ViewAction::Quit;
        }
        if events.now.pressed(Key::Space) || events.now.pressed(Key::Enter) {
            return match self.actions[self.selected] {
                MenuAction::NewGame => ViewAction::ChangeView(
                    Box::new(ActiveView::Game(GameView::with_backgrounds(self.bg, out_h))),
                ),
                MenuAction::Quit => ViewAction::Quit,
            };
        }
        let n = self.actions.len();
        if events.now.pressed(Key::Up) {
            self.selected = if self.selected == 0 { n - 1 } else { self.selected - 1 };
        }
        if events.now.pressed(Key::Down) {
            self.selected = if self.selected + 1 >= n { 0 } else { self.selected + 1 };
        }
        ViewAction::Continue
    }
}

} // verus!
