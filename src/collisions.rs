//! The collision pass between enemies, the player's shots and the ship.
//!
//! Enemies are taken in order; each is hit by the first shot, in population
//! order, that overlaps it and has not already hit an earlier enemy this
//! frame. An enemy that overlaps the ship dies too, and the ship is then
//! reported destroyed.

use vstd::prelude::*;
use crate::geometry::Rectangle;

verus! {

/// The first shot at or after `j` that is still live and overlaps `e`.
pub open spec fn first_hit_from(e: Rectangle, bs: Seq<Rectangle>, live: Seq<bool>, j: int) -> Option<int>
    decreases bs.len() - j,
{
    if j < 0 || j >= bs.len() {
        None
    } else if live[j] && e.overlaps_spec(bs[j]) {
        Some(j)
    } else {
        first_hit_from(e, bs, live, j + 1)
    }
}

/// Which shots are still live once the first `n` enemies have been checked.
pub open spec fn shots_live_after(es: Seq<Rectangle>, bs: Seq<Rectangle>, n: int) -> Seq<bool>
    decreases n,
{
    if n <= 0 {
        Seq::new(bs.len(), |i: int| true)
    } else {
        let live = shots_live_after(es, bs, n - 1);
        match first_hit_from(es[n - 1], bs, live, 0) {
            Some(j) => live.update(j, false),
            None => live,
        }
    }
}

/// Whether enemy `i` is hit by a shot.
pub open spec fn enemy_shot(es: Seq<Rectangle>, bs: Seq<Rectangle>, i: int) -> bool {
    first_hit_from(es[i], bs, shots_live_after(es, bs, i), 0).is_some()
}

/// Whether enemy `i` survives the pass.
pub open spec fn enemy_survives(es: Seq<Rectangle>, bs: Seq<Rectangle>, ship: Rectangle, i: int) -> bool {
    !enemy_shot(es, bs, i) && !es[i].overlaps_spec(ship)
}

/// Whether no enemy touches the ship.
pub open spec fn ship_survives(es: Seq<Rectangle>, ship: Rectangle) -> bool {
    forall|i: int| 0 <= i < es.len() ==> !(#[trigger] es[i]).overlaps_spec(ship)
}

/// The elements of `s` whose flag is set, in order.
pub open spec fn kept<T>(s: Seq<T>, keep: Seq<bool>) -> Seq<T>
    decreases s.len(),
{
    if s.len() == 0 {
        Seq::empty()
    } else {
        let p = kept(s.drop_last(), keep);
        if keep[s.len() - 1] {
            p.push(s.last())
        } else {
            p
        }
    }
}

/// The result of the collision pass.
#[derive(Clone, Debug)]
pub struct Collisions {
    /// Per enemy: whether it survives.
    pub enemy_alive: Vec<bool>,
    /// Per shot: whether it survives.
    pub bullet_alive: Vec<bool>,
    pub player_alive: bool,
}

fn first_hit(e: Rectangle, bs: &Vec<Rectangle>, live: &Vec<bool>) -> (r: Option<usize>)
    requires
        e.wf(),
        forall|i: int| 0 <= i < bs@.len() ==> (#[trigger] bs@[i]).wf(),
        live@.len() == bs@.len(),
    ensures
        r.is_some() == first_hit_from(e, bs@, live@, 0).is_some(),
        r.is_some() ==> r.unwrap() as int == first_hit_from(e, bs@, live@, 0).unwrap(),
        r.is_some() ==> r.unwrap() < bs@.len(),
{
    let mut j: usize = 0;
    while j < bs.len()
        invariant
            j <= bs@.len(),
            live@.len() == bs@.len(),
            e.wf(),
            forall|i: int| 0 <= i < bs@.len() ==> (#[trigger] bs@[i]).wf(),
            first_hit_from(e, bs@, live@, 0) == first_hit_from(e, bs@, live@, j as int),
        decreases bs@.len() - j,
    {
        if live[j] && e.overlaps(bs[j]) {
            return Some(j);
        }
        j += 1;
    }
    None
}

/// Runs the collision pass over the enemies' hitboxes, the shots' hitboxes
/// and the ship's hitbox.
pub fn resolve_collisions(enemies: &Vec<Rectangle>, bullets: &Vec<Rectangle>, player: Rectangle) -> (r: Collisions)
    requires
        forall|i: int| 0 <= i < enemies@.len() ==> (#[trigger] enemies@[i]).wf(),
        forall|i: int| 0 <= i < bullets@.len() ==> (#[trigger] bullets@[i]).wf(),
        player.wf(),
    ensures
        r.enemy_alive@.len() == enemies@.len(),
        forall|i: int| 0 <= i < enemies@.len() ==> #[trigger] r.enemy_alive@[i] == enemy_survives(enemies@, bullets@, player, i),
        r.bullet_alive@ == shots_live_after(enemies@, bullets@, enemies@.len() as int),
        r.bullet_alive@.len() == bullets@.len(),
        r.player_alive == ship_survives(enemies@, player),
{
    let mut live: Vec<bool> = Vec::new();
    let mut k: usize = 0;
    while k < bullets.len()
        invariant
            k <= bullets@.len(),
            live@ == Seq::new(k as nat, |i: int| true),
        decreases bullets@.len() - k,
    {
        live.push(true);
        k += 1;
        assert(live@ =~= Seq::new(k as nat, |i: int| true));
    }
    assert(live@ =~= shots_live_after(enemies@, bullets@, 0));
    let mut enemy_alive: Vec<bool> = Vec::new();
    let mut player_alive = true;
    let mut i: usize = 0;
    while i < enemies.len()
        invariant
            i <= enemies@.len(),
            forall|j: int| 0 <= j < enemies@.len() ==> (#[trigger] enemies@[j]).wf(),
            forall|j: int| 0 <= j < bullets@.len() ==> (#[trigger] bullets@[j]).wf(),
            player.wf(),
            live@ == shots_live_after(enemies@, bullets@, i as int),
            live@.len() == bullets@.len(),
            enemy_alive@.len() == i,
            forall|j: int| 0 <= j < i ==> #[trigger] enemy_alive@[j] == enemy_survives(enemies@, bullets@, player, j),
            player_alive == (forall|j: int| 0 <= j < i ==> !(#[trigger] enemies@[j]).overlaps_spec(player)),
        decreases enemies@.len() - i,
    {
        let e = enemies[i];
        let hit = first_hit(e, bullets, &live);
        let shot = match hit {
            Some(j) => {
                live.set(j, false);
                true
            },
            None => false,
        };
        let touches = e.overlaps(player);
        if touches {
            player_alive = false;
        }
        enemy_alive.push(!shot && !touches);
        proof {
            if touches {
                assert(enemies@[i as int].overlaps_spec(player));
            }
        }
        i += 1;
    }
    Collisions { enemy_alive, bullet_alive: live, player_alive }
}

/// The elements of `v` whose flag is set, in order.
pub fn retain_flagged<T>(v: Vec<T>, keep: &Vec<bool>) -> (r: Vec<T>)
    requires
        keep@.len() == v@.len(),
    ensures
        r@ == kept(v@, keep@),
{
    let ghost orig = v@;
    let mut src = v;
    let mut out: Vec<T> = Vec::new();
    let n = src.len();
    let mut i: usize = 0;
    while i < n
        invariant
            n == orig.len(),
            keep@.len() == n,
            i <= n,
            src@ == orig.subrange(i as int, n as int),
            out@ == kept(orig.take(i as int), keep@),
        decreases n - i,
    {
        let x = src.remove(0);
        proof {
            assert(orig.take(i + 1).drop_last() =~= orig.take(i as int));
            assert(orig.take(i + 1).last() == orig[i as int]);
        }
        if keep[i] {
            out.push(x);
        }
        i += 1;
        assert(src@ =~= orig.subrange(i as int, n as int));
    }
    assert(orig.take(n as int) =~= orig);
    out
}

} // verus!
