//! A single dungeon level's grid, and the master registry that retains every
//! level ever generated, keyed by depth.

use vstd::prelude::*;

verus! {

/// Deepest level a depth identifier can name: the machine limit on `i32`
/// depth arithmetic, so that one more level always remains representable.
pub const MAX_DEPTH: i32 = 2_147_483_647;

/// Kind of terrain held by one map cell.
#[derive(Clone, Copy, PartialEq, Eq, Structural, Debug)]
pub enum TileType {
    Wall,
    Floor,
    DownStairs,
}

/// One dungeon level: tile kinds, revealed/visible masks, dimensions, a depth
/// identifier, and the cell where the player enters the level.
pub struct GameMap {
    pub width: usize,
    pub height: usize,
    pub depth: i32,
    pub tiles: Vec<TileType>,
    pub revealed_tiles: Vec<bool>,
    pub visible_tiles: Vec<bool>,
    pub name: String,
    pub start_x: usize,
    pub start_y: usize,
}

/// Field-by-field equality of two maps, with the grid vectors and the name
/// compared by contents.
pub open spec fn map_eq(a: GameMap, b: GameMap) -> bool {
    &&& a.width == b.width
    &&& a.height == b.height
    &&& a.depth == b.depth
    &&& a.tiles@ == b.tiles@
    &&& a.revealed_tiles@ == b.revealed_tiles@
    &&& a.visible_tiles@ == b.visible_tiles@
    &&& a.name@ == b.name@
    &&& a.start_x == b.start_x
    &&& a.start_y == b.start_y
}

impl GameMap {
    /// Grid consistency: every mask covers exactly the whole grid, the start
    /// cell lies on the grid, the depth is a valid level identifier, and at
    /// least two rows exist so the row-by-row reveal animation has a final
    /// row to stop at.
    pub open spec fn wf(self) -> bool {
        &&& 1 <= self.width
        &&& 2 <= self.height
        &&& self.width * self.height <= 1_000_000
        &&& self.tiles.len() == self.width * self.height
        &&& self.revealed_tiles.len() == self.width * self.height
        &&& self.visible_tiles.len() == self.width * self.height
        &&& self.start_x < self.width
        &&& self.start_y < self.height
        &&& 1 <= self.depth <= MAX_DEPTH
    }

    /// Index of cell (x, y) in the row-major grid vectors.
    pub open spec fn spec_idx(self, x: int, y: int) -> int {
        y * self.width + x
    }

    pub fn xy_idx(&self, x: usize, y: usize) -> (idx: usize)
        requires
            self.wf(),
            x < self.width,
            y < self.height,
        ensures
            idx == self.spec_idx(x as int, y as int),
            idx < self.width * self.height,
    {
        proof {
            assert((y as int) * (self.width as int) + (x as int) < (self.width as int) * (self.height as int))
                by (nonlinear_arith)
                requires
                    x < self.width,
                    y < self.height,
                    1 <= self.width,
            ;
        }
        y * self.width + x
    }

    /// A fresh all-wall level of the given size, nothing revealed or visible.
    pub fn new(new_depth: i32, width: usize, height: usize, name: String) -> (m: GameMap)
        requires
            1 <= width,
            2 <= height,
            width * height <= 1_000_000,
            1 <= new_depth <= MAX_DEPTH,
        ensures
            m.wf(),
            m.depth == new_depth,
            m.width == width,
            m.height == height,
            m.name@ == name@,
            m.start_x == width / 2,
            m.start_y == height / 2,
            forall|i: int| 0 <= i < m.tiles.len() ==> m.tiles[i] == TileType::Wall,
            forall|i: int| 0 <= i < m.revealed_tiles.len() ==> !m.revealed_tiles[i],
            forall|i: int| 0 <= i < m.visible_tiles.len() ==> !m.visible_tiles[i],
    {
        let count = width * height;
        let tiles = filled_tiles(count, TileType::Wall);
        let revealed_tiles = filled_bools(count, false);
        let visible_tiles = filled_bools(count, false);
        GameMap {
            width,
            height,
            depth: new_depth,
            tiles,
            revealed_tiles,
            visible_tiles,
            name,
            start_x: width / 2,
            start_y: height / 2,
        }
    }

    /// A copy of this map, every field preserved.
    pub fn clone_map(&self) -> (m: GameMap)
        ensures
            map_eq(m, *self),
    {
        GameMap {
            width: self.width,
            height: self.height,
            depth: self.depth,
            tiles: copy_tiles(&self.tiles),
            revealed_tiles: copy_bools(&self.revealed_tiles),
            visible_tiles: copy_bools(&self.visible_tiles),
            name: self.name.clone(),
            start_x: self.start_x,
            start_y: self.start_y,
        }
    }

    /// Marks every cell of row `y` revealed; no other cell and no other field
    /// changes.
    pub fn reveal_row(&mut self, y: usize)
        requires
            old(self).wf(),
            y < old(self).height,
        ensures
            final(self).wf(),
            final(self).width == old(self).width,
            final(self).height == old(self).height,
            final(self).depth == old(self).depth,
            final(self).tiles@ == old(self).tiles@,
            final(self).visible_tiles@ == old(self).visible_tiles@,
            final(self).name@ == old(self).name@,
            final(self).start_x == old(self).start_x,
            final(self).start_y == old(self).start_y,
            final(self).revealed_tiles.len() == old(self).revealed_tiles.len(),
            forall|i: int|
                0 <= i < final(self).revealed_tiles.len() ==> final(self).revealed_tiles[i]
                    == (old(self).revealed_tiles[i] || old(self).spec_idx(0, y as int) <= i
                        < old(self).spec_idx(0, y as int) + old(self).width),
    {
        let base = self.xy_idx(0, y);
        proof {
            assert((y as int) * (self.width as int) + (self.width as int) <= (self.width
                as int) * (self.height as int)) by (nonlinear_arith)
                requires
                    y < self.height,
                    0 <= self.width,
            ;
        }
        let mut x: usize = 0;
        while x < self.width
            invariant
                old(self).wf(),
                self.wf(),
                x <= self.width,
                y < self.height,
                base == old(self).spec_idx(0, y as int),
                base + self.width <= self.revealed_tiles.len(),
                self.width == old(self).width,
                self.height == old(self).height,
                self.depth == old(self).depth,
                self.tiles@ == old(self).tiles@,
                self.visible_tiles@ == old(self).visible_tiles@,
                self.name@ == old(self).name@,
                self.start_x == old(self).start_x,
                self.start_y == old(self).start_y,
                self.revealed_tiles.len() == old(self).revealed_tiles.len(),
                forall|i: int|
                    0 <= i < self.revealed_tiles.len() ==> self.revealed_tiles[i]
                        == (old(self).revealed_tiles[i] || base <= i < base + x),
            decreases self.width - x,
        {
            let idx = base + x;
            self.revealed_tiles.set(idx, true);
            x = x + 1;
        }
    }
}

/// Two distinct rows of the grid occupy disjoint index ranges: revealing the
/// map row by row touches every cell exactly once.
pub proof fn lemma_rows_disjoint(m: GameMap, r1: int, r2: int)
    requires
        m.wf(),
        0 <= r1 < r2 < m.height,
    ensures
        m.spec_idx(0, r1) + m.width <= m.spec_idx(0, r2),
{
    assert(r1 * (m.width as int) + (m.width as int) <= r2 * (m.width as int))
        by (nonlinear_arith)
        requires
            r1 + 1 <= r2,
            0 <= m.width,
    ;
}

/// A vector of `n` copies of the given tile.
fn filled_tiles(n: usize, val: TileType) -> (v: Vec<TileType>)
    ensures
        v.len() == n,
        forall|i: int| 0 <= i < n ==> v[i] == val,
{
    let mut v: Vec<TileType> = Vec::new();
    let mut k: usize = 0;
    while k < n
        invariant
            k <= n,
            v.len() == k,
            forall|i: int| 0 <= i < k ==> v[i] == val,
        decreases n - k,
    {
        v.push(val);
        k = k + 1;
    }
    v
}

/// A vector of `n` copies of the given flag.
fn filled_bools(n: usize, val: bool) -> (v: Vec<bool>)
    ensures
        v.len() == n,
        forall|i: int| 0 <= i < n ==> v[i] == val,
{
    let mut v: Vec<bool> = Vec::new();
    let mut k: usize = 0;
    while k < n
        invariant
            k <= n,
            v.len() == k,
            forall|i: int| 0 <= i < k ==> v[i] == val,
        decreases n - k,
    {
        v.push(val);
        k = k + 1;
    }
    v
}

/// An element-for-element copy of a tile vector.
fn copy_tiles(v: &Vec<TileType>) -> (r: Vec<TileType>)
    ensures
        r@ == v@,
{
    let mut r: Vec<TileType> = Vec::new();
    let mut k: usize = 0;
    while k < v.len()
        invariant
            k <= v.len(),
            r@ =~= v@.subrange(0, k as int),
        decreases v.len() - k,
    {
        r.push(v[k]);
        k = k + 1;
    }
    proof {
        assert(r@ =~= v@);
    }
    r
}

/// An element-for-element copy of a flag vector.
fn copy_bools(v: &Vec<bool>) -> (r: Vec<bool>)
    ensures
        r@ == v@,
{
    let mut r: Vec<bool> = Vec::new();
    let mut k: usize = 0;
    while k < v.len()
        invariant
            k <= v.len(),
            r@ =~= v@.subrange(0, k as int),
        decreases v.len() - k,
    {
        r.push(v[k]);
        k = k + 1;
    }
    proof {
        assert(r@ =~= v@);
    }
    r
}

/// The registry of every level generated so far, keyed by its depth.
pub struct MasterDungeonMap {
    pub maps: Vec<GameMap>,
}

impl MasterDungeonMap {
    /// Every stored level is well formed and no two share a depth.
    pub open spec fn wf(self) -> bool {
        &&& forall|i: int| 0 <= i < self.maps.len() ==> (#[trigger] self.maps[i]).wf()
        &&& forall|i: int, j: int|
            0 <= i < j < self.maps.len() ==> self.maps[i].depth != self.maps[j].depth
    }

    /// Whether a level of the given depth has been stored.
    pub open spec fn has_depth(self, depth: int) -> bool {
        exists|i: int| 0 <= i < self.maps.len() && (#[trigger] self.maps[i]).depth == depth
    }

    /// Position of the level of the given depth, where one is stored.
    pub open spec fn index_of(self, depth: int) -> int {
        choose|i: int| 0 <= i < self.maps.len() && (#[trigger] self.maps[i]).depth == depth
    }

    /// The stored level of the given depth, where one is stored.
    pub open spec fn spec_get(self, depth: int) -> GameMap {
        self.maps[self.index_of(depth)]
    }

    pub proof fn lemma_index_unique(self, depth: int, i: int)
        requires
            self.wf(),
            0 <= i < self.maps.len(),
            self.maps[i].depth == depth,
        ensures
            self.has_depth(depth),
            self.index_of(depth) == i,
    {
        assert(self.has_depth(depth));
        let j = self.index_of(depth);
        if i < j {
            assert(self.maps[i].depth != self.maps[j].depth);
        } else if j < i {
            assert(self.maps[j].depth != self.maps[i].depth);
        }
    }

    /// A registry with no levels stored.
    pub fn new() -> (d: MasterDungeonMap)
        ensures
            d.wf(),
            d.maps.len() == 0,
    {
        MasterDungeonMap { maps: Vec::new() }
    }

    /// A copy of the stored level of the given depth, or `None` when no level
    /// of that depth has been stored.
    pub fn get_map(&self, depth: i32) -> (r: Option<GameMap>)
        requires
            self.wf(),
        ensures
            (match r {
                Option::Some(m) => self.has_depth(depth as int) && map_eq(
                    m,
                    self.spec_get(depth as int),
                ),
                Option::None => !self.has_depth(depth as int),
            }),
    {
        let mut k: usize = 0;
        while k < self.maps.len()
            invariant
                self.wf(),
                k <= self.maps.len(),
                forall|i: int| 0 <= i < k ==> (#[trigger] self.maps[i]).depth != depth,
            decreases self.maps.len() - k,
        {
            if self.maps[k].depth == depth {
                proof {
                    self.lemma_index_unique(depth as int, k as int);
                }
                return Option::Some(self.maps[k].clone_map());
            }
            k = k + 1;
        }
        proof {
            assert forall|i: int|
                0 <= i < self.maps.len() implies (#[trigger] self.maps[i]).depth != depth by {}
        }
        Option::None
    }

    /// Stores a copy of the given level under its depth, replacing any level
    /// previously stored at that depth. Other depths keep their levels.
    pub fn store_map(&mut self, m: &GameMap)
        requires
            old(self).wf(),
            m.wf(),
        ensures
            final(self).wf(),
            final(self).has_depth(m.depth as int),
            map_eq(final(self).spec_get(m.depth as int), *m),
            forall|d: int|
                d != m.depth ==> (final(self).has_depth(d) <==> old(self).has_depth(d)),
            forall|d: int|
                d != m.depth && old(self).has_depth(d) ==> map_eq(
                    final(self).spec_get(d),
                    old(self).spec_get(d),
                ),
            old(self).has_depth(m.depth as int) ==> final(self).maps.len() == old(
                self,
            ).maps.len(),
            !old(self).has_depth(m.depth as int) ==> final(self).maps.len() == old(
                self,
            ).maps.len() + 1,
    {
        let mut k: usize = 0;
        while k < self.maps.len()
            invariant
                self.wf(),
                m.wf(),
                *self == *old(self),
                k <= self.maps.len(),
                forall|i: int| 0 <= i < k ==> (#[trigger] self.maps[i]).depth != m.depth,
            decreases self.maps.len() - k,
        {
            if self.maps[k].depth == m.depth {
                self.maps.set(k, m.clone_map());
                proof {
                    let c = self.maps[k as int];
                    assert(map_eq(c, *m));
                    assert(c.tiles@.len() == m.tiles@.len());
                    assert(c.revealed_tiles@.len() == m.revealed_tiles@.len());
                    assert(c.visible_tiles@.len() == m.visible_tiles@.len());
                    assert(c.wf());
                    assert forall|i: int| 0 <= i < self.maps.len() implies (#[trigger] self
                        .maps[i]).wf() by {
                        if i != k {
                            assert(self.maps[i] == old(self).maps[i]);
                        }
                    }
                    assert(self.wf());
                    self.lemma_index_unique(m.depth as int, k as int);
                    assert forall|d: int| d != m.depth && old(self).has_depth(d) implies self.has_depth(d) && map_eq(self.spec_get(d), old(self).spec_get(d)) by {
                        let i = old(self).index_of(d);
                        assert(old(self).maps[i].depth == d);
                        assert(self.maps[i].depth == d);
                        self.lemma_index_unique(d, i);
                    }
                    assert forall|d: int| d != m.depth && self.has_depth(d) implies old(self).has_depth(d) by {
                        let i = self.index_of(d);
                        assert(old(self).maps[i].depth == d);
                        old(self).lemma_index_unique(d, i);
                    }
                }
                return ;
            }
            k = k + 1;
        }
        self.maps.push(m.clone_map());
        proof {
            let n = old(self).maps.len() as int;
            let c = self.maps[n];
            assert(map_eq(c, *m));
            assert(c.tiles@.len() == m.tiles@.len());
            assert(c.revealed_tiles@.len() == m.revealed_tiles@.len());
            assert(c.visible_tiles@.len() == m.visible_tiles@.len());
            assert(c.wf());
            assert forall|i: int| 0 <= i < self.maps.len() implies (#[trigger] self.maps[i]).wf()
                by {
                if i != n {
                    assert(self.maps[i] == old(self).maps[i]);
                }
            }
            assert(self.wf());
            self.lemma_index_unique(m.depth as int, n);
            assert forall|d: int| d != m.depth && old(self).has_depth(d) implies self.has_depth(d) && map_eq(self.spec_get(d), old(self).spec_get(d)) by {
                let i = old(self).index_of(d);
                assert(old(self).maps[i].depth == d);
                assert(self.maps[i].depth == d);
                self.lemma_index_unique(d, i);
            }
            assert forall|d: int| d != m.depth && self.has_depth(d) implies old(self).has_depth(d) by {
                let i = self.index_of(d);
                assert(i < n);
                assert(old(self).maps[i].depth == d);
                old(self).lemma_index_unique(d, i);
            }
        }
    }
}

} // verus!
