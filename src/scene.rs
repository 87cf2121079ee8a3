//! Layout of the cube grid the viewer shows: whole-unit positions on the
//! ground plane, centred on the origin.
use vstd::prelude::*;

verus! {

/// Cubes along each side of the grid.
pub const GRID_PER_ROW: u32 = 10;

/// Distance between neighbouring cubes.
pub const GRID_SPACING: i32 = 3;

/// Position of the `i`-th cube, row by row: column `i % 10` and row `i / 10`
/// measured from the grid's centre, scaled by the spacing and mirrored.
pub open spec fn grid_cell(i: int) -> (int, int, int) {
    (
        -GRID_SPACING * (i % GRID_PER_ROW as int - GRID_PER_ROW as int / 2),
        0,
        -GRID_SPACING * (i / GRID_PER_ROW as int - GRID_PER_ROW as int / 2),
    )
}

/// Positions of every cube of the grid, row by row.
pub fn grid_positions() -> (r: Vec<(i32, i32, i32)>)
    ensures
        r@.len() == GRID_PER_ROW * GRID_PER_ROW,
        forall|i: int|
            0 <= i < r@.len() ==> {
                let c = grid_cell(i);
                (#[trigger] r@[i]).0 == c.0 && r@[i].1 == c.1 && r@[i].2 == c.2
            },
{
    let n: u32 = GRID_PER_ROW * GRID_PER_ROW;
    let half: i32 = (GRID_PER_ROW / 2) as i32;
    let mut out: Vec<(i32, i32, i32)> = Vec::new();
    let mut i: u32 = 0;
    while i < n
        invariant
            n == GRID_PER_ROW * GRID_PER_ROW,
            half == GRID_PER_ROW / 2,
            i <= n,
            out@.len() == i,
            forall|j: int|
                0 <= j < i ==> {
                    let c = grid_cell(j);
                    (#[trigger] out@[j]).0 == c.0 && out@[j].1 == c.1 && out@[j].2 == c.2
                },
        decreases n - i,
    {
        let x: i32 = (i % GRID_PER_ROW) as i32;
        let z: i32 = (i / GRID_PER_ROW) as i32;
        out.push((-GRID_SPACING * (x - half), 0, -GRID_SPACING * (z - half)));
        i = i + 1;
    }
    out
}

} // verus!
