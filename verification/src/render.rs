use vstd::prelude::*;

use crate::world::{wf, World, WorldModel};

verus! {

/// The character shown at one grid cell: the player glyph at the player's
/// position, a wall glyph on or outside the row's edges, a blank inside the
/// open span.
pub open spec fn cell_char(m: WorldModel, row: int, col: int) -> char {
    if row == m.player_l && col == m.player_c {
        'P'
    } else if col < m.map[row].0 || m.map[row].1 <= col {
        '*'
    } else {
        ' '
    }
}

/// The full frame a world projects to: one line of `maxc` cells per channel
/// row, top to bottom. A pure function of the world, so rendering the same
/// world twice yields the same grid.
pub open spec fn grid_of(m: WorldModel) -> Seq<Seq<char>> {
    Seq::new(m.map.len(), |r: int| Seq::new(m.maxc as nat, |c: int| cell_char(m, r, c)))
}

/// Rendering is a function of the world alone: any two grids that project
/// the same world are identical, so drawing hides no mutation.
pub proof fn lemma_render_deterministic(m: WorldModel, g1: Seq<Seq<char>>, g2: Seq<Seq<char>>)
    requires
        g1 == grid_of(m),
        g2 == grid_of(m),
    ensures
        g1 == g2,
{
}

/// Project a world onto a character grid; the caller only writes the grid
/// out. The world is read, never changed.
pub fn render(world: &World) -> (grid: Vec<Vec<char>>)
    requires
        wf(world@),
    ensures
        grid.deep_view() == grid_of(world@),
{
    let ghost m = world@;
    let mut grid: Vec<Vec<char>> = Vec::new();
    let mut r: usize = 0;
    while r < world.map.len()
        invariant
            wf(m),
            world@ == m,
            r <= m.map.len(),
            grid@.len() == r,
            forall|i: int| 0 <= i < r ==> #[trigger] grid@[i].deep_view() == grid_of(m)[i],
        decreases m.map.len() - r,
    {
        let row = world.map[r];
        let mut line: Vec<char> = Vec::new();
        let mut c: usize = 0;
        while c < world.maxc as usize
            invariant
                wf(m),
                world@ == m,
                r < m.map.len(),
                row == m.map[r as int],
                c <= m.maxc,
                line@.len() == c,
                forall|j: int| 0 <= j < c ==> line@[j] == cell_char(m, r as int, j),
            decreases m.maxc - c,
        {
            let ch: char = if r == world.player_l as usize && c == world.player_c as usize {
                'P'
            } else if c < row.0 as usize || row.1 as usize <= c {
                '*'
            } else {
                ' '
            };
            line.push(ch);
            c = c + 1;
        }
        proof {
            assert(line.deep_view() =~= grid_of(m)[r as int]);
        }
        grid.push(line);
        r = r + 1;
    }
    proof {
        assert(grid.deep_view() =~~= grid_of(m));
    }
    grid
}

} // verus!
