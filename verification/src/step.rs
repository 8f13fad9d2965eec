use vstd::prelude::*;

use crate::world::{wf, World, WorldModel};

verus! {

/// The player has left the open span of its row: its column sits on or past
/// the row's left edge, or on or past its right edge.
pub open spec fn hit(m: WorldModel) -> bool {
    m.player_c <= m.map[m.player_l as int].0 || m.player_c >= m.map[m.player_l as int].1
}

/// The collision step: the termination flag is set exactly when the player's
/// row, with its geometry as rendered last tick, traps the player.
pub open spec fn collide_m(m: WorldModel) -> WorldModel {
    WorldModel { deid: m.deid || hit(m), ..m }
}

/// The scroll step: every row inherits the geometry of the row above it; the
/// top row stays as it was, to be eased next.
pub open spec fn scroll_m(m: WorldModel) -> WorldModel {
    WorldModel {
        map: Seq::new(m.map.len(), |i: int| if i == 0 { m.map[0] } else { m.map[i - 1] }),
        ..m
    }
}

/// One easing move: one unit toward the target, never past it, no move when
/// already there.
pub open spec fn ease_toward(cur: u16, target: u16) -> u16 {
    if target < cur {
        (cur - 1) as u16
    } else if target > cur {
        (cur + 1) as u16
    } else {
        cur
    }
}

/// The easing step: both edges of the top row move one unit toward the
/// target opening, independently.
pub open spec fn ease_m(m: WorldModel) -> WorldModel {
    WorldModel {
        map: m.map.update(
            0,
            (ease_toward(m.map[0].0, m.next_start), ease_toward(m.map[0].1, m.next_end)),
        ),
        ..m
    }
}

/// The deterministic part of one tick: collision, then scroll, then easing.
pub open spec fn stepped(m: WorldModel) -> WorldModel {
    ease_m(scroll_m(collide_m(m)))
}

/// The top row's geometry equals the current target opening: the channel
/// mouth has fully reached its goal, and only then may a new target be drawn.
pub open spec fn target_reached(m: WorldModel) -> bool {
    m.map[0].0 == m.next_start && m.map[0].1 == m.next_end
}

/// Exclusive upper bound of both regeneration draws: five columns past the
/// top row's right edge, clamped so that no drawn edge can leave the grid.
pub open spec fn draw_hi(m: WorldModel) -> u16 {
    if m.map[0].1 + 5 <= m.maxc {
        (m.map[0].1 + 5) as u16
    } else {
        (m.maxc + 1) as u16
    }
}

/// Inclusive lower bound of the new left edge's draw: five columns left of
/// the top row's left edge, clamped to the grid.
pub open spec fn draw_lo_start(m: WorldModel) -> u16 {
    if m.map[0].0 >= 5 {
        (m.map[0].0 - 5) as u16
    } else {
        0
    }
}

/// Inclusive lower bound of the new right edge's draw: five columns right of
/// the top row's left edge, clamped below the draws' upper bound.
pub open spec fn draw_lo_end(m: WorldModel) -> u16 {
    if m.map[0].0 + 5 < draw_hi(m) {
        (m.map[0].0 + 5) as u16
    } else {
        (draw_hi(m) - 1) as u16
    }
}

/// The regeneration step on drawn edges `ds` (left) and `de` (right): the
/// target becomes `(ds, de)`, except that a draw at most 3 columns wide is
/// widened by moving the left edge back to 4 columns left of the right edge,
/// so the new opening is always navigable.
pub open spec fn regen_m(m: WorldModel, ds: u16, de: u16) -> WorldModel {
    let ns = if de <= ds + 3 {
        (de - 4) as u16
    } else {
        ds
    };
    WorldModel { next_start: ns, next_end: de, ..m }
}

/// What one tick may do after its deterministic part `m1`: leave the target
/// opening alone, or, only when the top row has reached it, replace it by the
/// regeneration of some pair of draws from the admissible ranges.
pub open spec fn regen_outcome(m1: WorldModel, r: WorldModel) -> bool {
    exists|ds: u16, de: u16|
        {
            &&& draw_lo_start(m1) <= ds < draw_hi(m1)
            &&& draw_lo_end(m1) <= de < draw_hi(m1)
            &&& r == #[trigger] regen_m(m1, ds, de)
        }
}

/// After the scroll step, each row below the top holds exactly the geometry
/// the row above it had before the step; the row count does not change.
pub proof fn lemma_scroll_shifts(m: WorldModel)
    ensures
        scroll_m(m).map.len() == m.map.len(),
        forall|i: int| 0 <= i < m.map.len() - 1 ==> scroll_m(m).map[i + 1] == m.map[i],
{
}

/// The collision step sets the termination flag if and only if the player's
/// column lies on or outside its row's edges, read before the scroll.
pub proof fn lemma_collision_iff(m: WorldModel)
    requires
        !m.deid,
    ensures
        collide_m(m).deid <==> (m.player_c <= m.map[m.player_l as int].0 || m.player_c
            >= m.map[m.player_l as int].1),
{
}

/// Whatever edges the draws produced, a regenerated target opening is more
/// than 3 columns wide, and it still lies inside the grid.
pub proof fn lemma_regen_outcome_wide(m1: WorldModel, r: WorldModel)
    requires
        wf(m1),
        regen_outcome(m1, r),
    ensures
        r.next_end - r.next_start > 3,
        r.next_end <= m1.maxc,
{
}

/// Edge easing moves an edge by at most one unit per tick, and never moves
/// it past the target: an edge at or below the target stays within
/// `[cur, target]`, one above stays within `[target, cur]`.
pub proof fn lemma_ease_no_overshoot(cur: u16, target: u16)
    ensures
        ease_toward(cur, target) <= cur + 1,
        cur <= ease_toward(cur, target) + 1,
        cur <= target ==> cur <= ease_toward(cur, target) <= target,
        target <= cur ==> target <= ease_toward(cur, target) <= cur,
{
}

/// Easing both edges of a row toward a well-formed target keeps the row's
/// left edge strictly left of its right edge.
pub proof fn lemma_ease_keeps_order(le: u16, re: u16, ns: u16, ne: u16)
    requires
        le < re,
        ns < ne,
    ensures
        ease_toward(le, ns) < ease_toward(re, ne),
{
}

/// Relies on rand::thread_rng and rand::Rng::gen_range: a uniform draw from
/// the given half-open range, which panics only when the range is empty.
#[verifier::external_body]
fn draw_in_range(lo: u16, hi: u16) -> (r: u16)
    requires
        lo < hi,
    ensures
        lo <= r < hi,
{
    rand::Rng::gen_range(&mut rand::thread_rng(), lo..hi)
}

/// One easing move of a single edge, executably.
fn ease_edge(cur: u16, target: u16) -> (r: u16)
    ensures
        r == ease_toward(cur, target),
{
    if target < cur {
        cur - 1
    } else if target > cur {
        cur + 1
    } else {
        cur
    }
}

impl World {
    /// Collision check against the player's row as it stood before this
    /// tick's scroll; sets the termination flag, never clears it.
    pub fn check_collision(self) -> (r: World)
        requires
            wf(self@),
        ensures
            r@ == collide_m(self@),
            wf(r@),
    {
        let mut world = self;
        if world.player_c <= world.map[world.player_l as usize].0 || world.player_c
            >= world.map[world.player_l as usize].1 {
            world.deid = true;
        }
        world
    }

    /// Scroll the channel one row downward: each row takes the geometry the
    /// row above it had before this call; the top row is left unchanged.
    pub fn scroll(self) -> (r: World)
        requires
            wf(self@),
        ensures
            r@ == scroll_m(self@),
            wf(r@),
    {
        let mut world = self;
        let ghost m0 = self@;
        let ghost orig = world@.map;
        let mut i: usize = world.map.len() - 1;
        while i >= 1
            invariant
                wf(m0),
                orig == m0.map,
                world@.map.len() == orig.len(),
                i < orig.len(),
                forall|j: int| 0 <= j <= i ==> world@.map[j] == orig[j],
                forall|j: int| i < j < orig.len() ==> world@.map[j] == orig[j - 1],
                world@ == (WorldModel { map: world@.map, ..m0 }),
            decreases i,
        {
            let v = world.map[i - 1];
            world.map[i] = v;
            i = i - 1;
        }
        proof {
            assert(world@.map =~= scroll_m(self@).map);
        }
        world
    }

    /// Ease both edges of the top row one unit toward the target opening.
    pub fn ease(self) -> (r: World)
        requires
            wf(self@),
        ensures
            r@ == ease_m(self@),
            wf(r@),
    {
        let mut world = self;
        let le = ease_edge(world.map[0].0, world.next_start);
        let re = ease_edge(world.map[0].1, world.next_end);
        world.map[0] = (le, re);
        proof {
            lemma_ease_keeps_order(self@.map[0].0, self@.map[0].1, self@.next_start,
                self@.next_end);
        }
        world
    }

    /// Replace the target opening from two drawn edges, widening a draw that
    /// came out 3 columns wide or narrower. Only callable once the top row
    /// has reached the current target: a new goal is never set mid-chase.
    pub fn regenerate(self, draw_start: u16, draw_end: u16) -> (r: World)
        requires
            wf(self@),
            target_reached(self@),
            draw_lo_start(self@) <= draw_start < draw_hi(self@),
            draw_lo_end(self@) <= draw_end < draw_hi(self@),
        ensures
            r@ == regen_m(self@, draw_start, draw_end),
            wf(r@),
            r@.next_end - r@.next_start > 3,
    {
        let mut world = self;
        world.next_end = draw_end;
        world.next_start = if (draw_end as u32) <= (draw_start as u32) + 3 {
            draw_end - 4
        } else {
            draw_start
        };
        world
    }

    /// One full simulation tick.
    ///
    /// The deterministic part — collision, scroll, easing — is pinned
    /// exactly: the result equals `stepped(self@)` up to the target opening.
    /// The target opening changes only when the top row has reached it, and
    /// then only on a 2-in-10 chance; whatever the draws, the new target is
    /// the regeneration of an admissible pair of drawn edges.
    pub fn physics(self) -> (r: World)
        requires
            wf(self@),
        ensures
            wf(r@),
            !target_reached(stepped(self@)) ==> r@ == stepped(self@),
            r@ == stepped(self@) || (target_reached(stepped(self@)) && regen_outcome(
                stepped(self@),
                r@,
            )),
    {
        let world = self.check_collision();
        let world = world.scroll();
        let world = world.ease();
        let trigger = draw_in_range(0, 10);
        if trigger > 7 && world.map[0].0 == world.next_start && world.map[0].1 == world.next_end {
            let ghost m1 = world@;
            let le = world.map[0].0;
            let re = world.map[0].1;
            let hi = if re <= world.maxc - 5 {
                re + 5
            } else {
                world.maxc + 1
            };
            let lo_start = if le >= 5 {
                le - 5
            } else {
                0
            };
            let lo_end = if le <= hi - 6 {
                le + 5
            } else {
                hi - 1
            };
            let ds = draw_in_range(lo_start, hi);
            let de = draw_in_range(lo_end, hi);
            let r = world.regenerate(ds, de);
            proof {
                assert(draw_lo_start(m1) <= ds < draw_hi(m1) && draw_lo_end(m1) <= de < draw_hi(
                    m1,
                ) && r@ == regen_m(m1, ds, de));
            }
            r
        } else {
            world
        }
    }
}

} // verus!
