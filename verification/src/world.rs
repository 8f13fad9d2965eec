use vstd::prelude::*;

verus! {

/// The authoritative game state.
///
/// `map` holds one channel row per screen row, top to bottom; each entry is
/// the pair `(left_edge, right_edge)` bounding the open span of that row.
/// `next_start` and `next_end` are the target opening the top row eases
/// toward. `deid` is the termination flag: set on collision, never cleared.
pub struct World {
    pub player_c: u16,
    pub player_l: u16,
    pub map: Vec<(u16, u16)>,
    pub maxc: u16,
    pub deid: bool,
    pub next_start: u16,
    pub next_end: u16,
}

/// The mathematical model of a [`World`]: the same fields with the channel
/// rows as a sequence. All contracts of this crate speak of this model.
pub ghost struct WorldModel {
    pub player_c: u16,
    pub player_l: u16,
    pub map: Seq<(u16, u16)>,
    pub maxc: u16,
    pub deid: bool,
    pub next_start: u16,
    pub next_end: u16,
}

impl View for World {
    type V = WorldModel;

    open spec fn view(&self) -> WorldModel {
        WorldModel {
            player_c: self.player_c,
            player_l: self.player_l,
            map: self.map@,
            maxc: self.maxc,
            deid: self.deid,
            next_start: self.next_start,
            next_end: self.next_end,
        }
    }
}

/// Well-formedness of a world.
///
/// Every row keeps `left_edge < right_edge <= maxc`, the target opening is at
/// least 4 columns wide and lies inside the grid, and the player stays
/// strictly inside the grid's vertical band and horizontal extent. The grid
/// must be at least 20 columns wide (the initial geometry reaches 10 columns
/// either side of the centre) and strictly narrower than `u16::MAX` (target
/// regeneration draws bounds one past the rightmost column); its height,
/// like every coordinate, fits in a `u16`.
pub open spec fn wf(m: WorldModel) -> bool {
    &&& 2 <= m.map.len() <= u16::MAX
    &&& 1 <= m.player_l < m.map.len()
    &&& 1 <= m.player_c < m.maxc
    &&& 20 <= m.maxc < u16::MAX
    &&& m.next_start + 3 < m.next_end
    &&& m.next_end <= m.maxc
    &&& forall|i: int|
        0 <= i < m.map.len() ==> (#[trigger] m.map[i]).0 < m.map[i].1 && m.map[i].1 <= m.maxc
}

impl World {
    /// The initial world for a `maxc`-column, `maxl`-row grid: the player
    /// centred on the bottom row, every channel row a fixed opening 5 columns
    /// either side of the centre, and a 20-column-wide target opening.
    pub fn new(maxc: u16, maxl: u16) -> (w: World)
        requires
            20 <= maxc < u16::MAX,
            2 <= maxl,
        ensures
            w@.player_c == maxc / 2,
            w@.player_l == maxl - 1,
            w@.map.len() == maxl,
            forall|i: int|
                0 <= i < maxl ==> #[trigger] w@.map[i] == ((maxc / 2 - 5) as u16,
                (maxc / 2 + 5) as u16),
            w@.maxc == maxc,
            !w@.deid,
            w@.next_start == maxc / 2 - 10,
            w@.next_end == maxc / 2 + 10,
            wf(w@),
    {
        let mut map: Vec<(u16, u16)> = Vec::new();
        let mut i: u16 = 0;
        while i < maxl
            invariant
                i <= maxl,
                20 <= maxc,
                map@.len() == i,
                forall|j: int|
                    0 <= j < i ==> #[trigger] map@[j] == ((maxc / 2 - 5) as u16,
                    (maxc / 2 + 5) as u16),
            decreases maxl - i,
        {
            map.push((maxc / 2 - 5, maxc / 2 + 5));
            i = i + 1;
        }
        World {
            player_c: maxc / 2,
            player_l: maxl - 1,
            map,
            maxc,
            deid: false,
            next_start: maxc / 2 - 10,
            next_end: maxc / 2 + 10,
        }
    }
}

} // verus!
