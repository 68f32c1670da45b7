//! The map-building collaborator boundary: a pure function from a depth to a
//! finished level plus the ordered history of intermediate snapshots used by
//! the generation-replay visualization. Which algorithm carves the dungeon is
//! outside this core; this builder keeps the boundary honest with a simple
//! bordered room.

use vstd::prelude::*;

use crate::map::{map_eq, GameMap, TileType, MAX_DEPTH};

verus! {

/// Builds the level for the given depth and returns it together with its
/// generation history, earliest snapshot first.
pub fn build(new_depth: i32, width: usize, height: usize) -> (r: (GameMap, Vec<GameMap>))
    requires
        1 <= width,
        2 <= height,
        width * height <= 1_000_000,
        1 <= new_depth <= MAX_DEPTH,
    ensures
        r.0.wf(),
        r.0.depth == new_depth,
        r.0.width == width,
        r.0.height == height,
        r.1.len() == 3,
        // the history runs from the untouched blank level to the finished map
        r.1[0].width == width && r.1[0].height == height && r.1[0].depth == new_depth,
        r.1[0].tiles.len() == width * height,
        forall|i: int| 0 <= i < r.1[0].tiles.len() ==> r.1[0].tiles[i] == TileType::Wall,
        forall|i: int| 0 <= i < r.1[0].revealed_tiles.len() ==> !r.1[0].revealed_tiles[i],
        map_eq(r.1[2], r.0),
{
    let name: String = "New Map".to_string();
    let mut m = GameMap::new(new_depth, width, height, name);
    let mut history: Vec<GameMap> = Vec::new();
    history.push(m.clone_map());
    // Carve the interior into one open floor.
    let mut y: usize = 1;
    while y < m.height - 1
        invariant
            m.wf(),
            m.depth == new_depth,
            m.width == width,
            m.height == height,
            1 <= y <= m.height,
        decreases m.height - y,
    {
        let mut x: usize = 1;
        while x < m.width - 1
            invariant
                m.wf(),
                m.depth == new_depth,
                m.width == width,
                m.height == height,
                1 <= y < m.height,
                1 <= x <= m.width,
            decreases m.width - x,
        {
            let idx = m.xy_idx(x, y);
            m.tiles.set(idx, TileType::Floor);
            x = x + 1;
        }
        y = y + 1;
    }
    history.push(m.clone_map());
    // Place the stairs down in the lower-right interior, where one exists.
    if m.width >= 3 && m.height >= 4 {
        let idx = m.xy_idx(m.width - 2, m.height - 3);
        m.tiles.set(idx, TileType::DownStairs);
    }
    history.push(m.clone_map());
    (m, history)
}

} // verus!
