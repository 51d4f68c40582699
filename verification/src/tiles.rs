//! Grid addressing: the footprint of a layer, the positions of tiles, and the
//! order in which the cells of a layer are visited.

use crate::map_gen::height::Height;
use itertools::Itertools;
use vstd::arithmetic::div_mod::{lemma_fundamental_div_mod, lemma_fundamental_div_mod_converse};
use vstd::arithmetic::mul::lemma_mul_is_commutative;
use vstd::prelude::*;
use vstd::std_specs::convert::FromSpecImpl;

verus! {

/// The footprint shared by every layer of a map: `x` columns, each `y` cells deep.
#[derive(Debug, Clone, Copy, PartialEq, Eq, Structural)]
pub struct GameTilemapSize {
    pub x: u32,
    pub y: u32,
}

/// Wraps `Itertools::cartesian_product` on the ranges `0..width` and `0..depth`,
/// collected into a vector. Trusted: the adaptor yields every pair `(x, y)` with
/// `x < width` and `y < depth` exactly once, all pairs of one `x` before those of
/// the next, and within one `x` by rising `y`. The bound keeps the vector's
/// allocation within what `Vec` accepts.
#[verifier::external_body]
fn cartesian_product(width: usize, depth: usize) -> (pairs: Vec<(usize, usize)>)
    requires
        width * depth * 16 <= isize::MAX,
    ensures
        pairs@.len() == width * depth,
        forall|i: int|
            0 <= i < width * depth ==> #[trigger] pairs@[i] == (
                (i / depth as int) as usize,
                (i % depth as int) as usize,
            ),
{
    (0..width).cartesian_product(0..depth).collect()
}

impl GameTilemapSize {
    /// The number of cells of one layer.
    pub open spec fn area(self) -> nat {
        (self.x * self.y) as nat
    }

    /// Whether the cells of one layer, and the list of their coordinates, can be
    /// held in memory on this machine: at sixteen bytes for a pair of
    /// coordinates the list stays within `isize::MAX` bytes, the most that one
    /// allocation can hold. An axis of length zero counts as one.
    pub open spec fn fits(self) -> bool {
        (if self.x == 0 { 1 } else { self.x as int })
            * (if self.y == 0 { 1 } else { self.y as int }) * 16 <= isize::MAX
    }

    /// Whether `coord` names a cell of the layer.
    pub open spec fn contains(self, coord: (usize, usize)) -> bool {
        coord.0 < self.x && coord.1 < self.y
    }

    /// The place of the cell `coord` in the order in which cells are visited.
    pub open spec fn index_of(self, coord: (usize, usize)) -> int {
        coord.0 * self.y + coord.1
    }

    /// The cell visited at place `index`.
    pub open spec fn coordinate(self, index: int) -> (usize, usize) {
        ((index / self.y as int) as usize, (index % self.y as int) as usize)
    }

    /// Every cell of the layer, column by column.
    pub open spec fn spec_coordinates(self) -> Seq<(usize, usize)> {
        Seq::new(self.area(), |index: int| self.coordinate(index))
    }

    /// A footprint of `x` by `y` cells; each length is kept in 32 bits.
    pub fn new(x: usize, y: usize) -> (size: Self)
        ensures
            size.x == x as u32,
            size.y == y as u32,
    {
        let x = x as u32;
        let y = y as u32;
        Self { x, y }
    }

    /// Tells whether a layer of this footprint can be held in memory.
    pub fn can_hold(&self) -> (fits: bool)
        ensures
            fits == self.fits(),
    {
        let columns: u64 = if self.x == 0 { 1 } else { self.x as u64 };
        let rows: u64 = if self.y == 0 { 1 } else { self.y as u64 };
        assert(columns * rows <= 0xffff_ffff * 0xffff_ffff) by (nonlinear_arith)
            requires
                columns <= 0xffff_ffff,
                rows <= 0xffff_ffff,
        ;
        let cells: u64 = columns * rows;
        let limit: u64 = (isize::MAX as u64) / 16;
        cells <= limit
    }

    /// The number of cells of one layer.
    pub fn cell_count(&self) -> (count: usize)
        requires
            self.fits(),
        ensures
            count == self.area(),
    {
        proof {
            self.lemma_area_fits();
        }
        (self.x as usize) * (self.y as usize)
    }

    /// The coordinates of every cell, in the order in which the layer is visited:
    /// column by column, and within a column from `y == 0` up.
    pub fn coordinates(&self) -> (coords: Vec<(usize, usize)>)
        requires
            self.fits(),
        ensures
            coords@ == self.spec_coordinates(),
    {
        proof {
            self.lemma_area_fits();
        }
        let coords = cartesian_product(self.x as usize, self.y as usize);
        assert(coords@ =~= self.spec_coordinates());
        coords
    }

    /// The place of `coord` in the visiting order, if it names a cell.
    pub fn position(&self, coord: (usize, usize)) -> (place: Option<usize>)
        requires
            self.fits(),
        ensures
            place.is_some() == self.contains(coord),
            self.contains(coord) ==> place == Some(self.index_of(coord) as usize),
    {
        let (x, y) = coord;
        if x < self.x as usize && y < self.y as usize {
            proof {
                self.lemma_index_of(coord);
                self.lemma_area_fits();
            }
            Some(x * (self.y as usize) + y)
        } else {
            None
        }
    }

    /// A footprint that fits has at most `isize::MAX / 16` cells.
    pub proof fn lemma_area_fits(self)
        requires
            self.fits(),
        ensures
            self.area() * 16 <= isize::MAX,
            self.area() == self.x * self.y,
    {
        let columns = if self.x == 0 { 1 } else { self.x as int };
        let rows = if self.y == 0 { 1 } else { self.y as int };
        assert(0 <= self.x * self.y <= columns * rows) by (nonlinear_arith)
            requires
                0 <= self.x <= columns,
                0 <= self.y <= rows,
        ;
    }

    /// The cell at a place below the area lies in the layer, and its place is
    /// that place.
    pub proof fn lemma_coordinate(self, index: int)
        requires
            0 <= index < self.area(),
        ensures
            self.contains(self.coordinate(index)),
            self.index_of(self.coordinate(index)) == index,
    {
        let depth = self.y as int;
        assert(depth > 0) by (nonlinear_arith)
            requires
                0 <= index < self.x * depth,
                0 <= self.x,
                0 <= depth,
        ;
        lemma_fundamental_div_mod(index, depth);
        let column = index / depth;
        let row = index % depth;
        assert(0 <= row < depth);
        lemma_mul_is_commutative(depth, column);
        assert(0 <= column < self.x) by (nonlinear_arith)
            requires
                index == column * depth + row,
                0 <= row < depth,
                0 <= index < self.x * depth,
        ;
    }

    /// A cell of the layer has a place below the area, and the cell at that
    /// place is the cell itself.
    pub proof fn lemma_index_of(self, coord: (usize, usize))
        requires
            self.contains(coord),
        ensures
            0 <= self.index_of(coord) < self.area(),
            self.coordinate(self.index_of(coord)) == coord,
    {
        let depth = self.y as int;
        let column = coord.0 as int;
        let row = coord.1 as int;
        assert(column * depth + row < self.x * depth && 0 <= column * depth) by (nonlinear_arith)
            requires
                0 <= column < self.x,
                0 <= row < depth,
        ;
        lemma_fundamental_div_mod_converse(column * depth + row, depth, column, row);
    }
}

/// The position of a tile: column `x`, row `y`, and the height `z` of its layer.
#[derive(Debug, Clone, Copy, PartialEq, Eq, Structural)]
pub struct GameTilePos {
    pub x: usize,
    pub y: usize,
    pub z: usize,
}

/// The extent of a map along its three axes.
#[derive(Debug, Clone, Copy, PartialEq, Eq, Structural)]
pub struct Game3DSize {
    pub x: usize,
    pub y: usize,
    pub z: usize,
}

/// What stands in a cell of the world: air above the surface, or solid ground
/// at and below it.
#[derive(Debug, Clone, Copy, PartialEq, Eq, Structural)]
pub enum TileKind {
    Open,
    Terrain,
}

impl TileKind {
    /// The kind of the cell at `height` over a surface at height `surface`:
    /// ground up to and including the surface, air above it.
    pub open spec fn classify(height: Height, surface: Height) -> TileKind {
        if height.value > surface.value {
            TileKind::Open
        } else {
            TileKind::Terrain
        }
    }

    /// The kind of the cell at `height` over a surface at height `surface`.
    pub fn of(height: Height, surface: Height) -> (kind: TileKind)
        ensures
            kind == TileKind::classify(height, surface),
            kind == TileKind::Terrain <==> height.value <= surface.value,
    {
        if height.value > surface.value {
            TileKind::Open
        } else {
            TileKind::Terrain
        }
    }
}

/// One cell of one layer.
#[derive(Debug, Clone, Copy, PartialEq, Eq, Structural)]
pub struct Tile {
    pub position: GameTilePos,
    pub kind: TileKind,
    pub visible: bool,
}

/// Lookup of a tile by its coordinate within a layer.
pub trait Index2D {
    /// The tile that `get_2d` finds at `coord`, if there is one.
    spec fn tile_at(&self, coord: (usize, usize)) -> Option<Tile>;

    fn get_2d(&self, coord: (usize, usize)) -> (tile: Option<Tile>)
        ensures
            tile == self.tile_at(coord),
    ;
}

impl From<GameTilemapSize> for [usize; 2] {
    fn from(value: GameTilemapSize) -> (lengths: [usize; 2]) {
        [value.x as usize, value.y as usize]
    }
}

impl FromSpecImpl<GameTilemapSize> for [usize; 2] {
    open spec fn obeys_from_spec() -> bool {
        true
    }

    open spec fn from_spec(value: GameTilemapSize) -> [usize; 2] {
        [value.x as usize, value.y as usize]
    }
}

impl From<[usize; 3]> for GameTilePos {
    fn from(value: [usize; 3]) -> (position: GameTilePos) {
        GameTilePos { x: value[0], y: value[1], z: value[2] }
    }
}

impl FromSpecImpl<[usize; 3]> for GameTilePos {
    open spec fn obeys_from_spec() -> bool {
        true
    }

    open spec fn from_spec(value: [usize; 3]) -> GameTilePos {
        GameTilePos { x: value[0], y: value[1], z: value[2] }
    }
}

impl From<[usize; 2]> for GameTilePos {
    fn from(value: [usize; 2]) -> (position: GameTilePos) {
        GameTilePos { x: value[0], y: value[1], z: 0 }
    }
}

impl FromSpecImpl<[usize; 2]> for GameTilePos {
    open spec fn obeys_from_spec() -> bool {
        true
    }

    open spec fn from_spec(value: [usize; 2]) -> GameTilePos {
        GameTilePos { x: value[0], y: value[1], z: 0 }
    }
}

impl From<(usize, usize)> for GameTilePos {
    fn from(value: (usize, usize)) -> (position: GameTilePos) {
        GameTilePos { x: value.0, y: value.1, z: 0 }
    }
}

impl FromSpecImpl<(usize, usize)> for GameTilePos {
    open spec fn obeys_from_spec() -> bool {
        true
    }

    open spec fn from_spec(value: (usize, usize)) -> GameTilePos {
        GameTilePos { x: value.0, y: value.1, z: 0 }
    }
}

impl From<(usize, usize, usize)> for GameTilePos {
    fn from(value: (usize, usize, usize)) -> (position: GameTilePos) {
        GameTilePos { x: value.0, y: value.1, z: value.2 }
    }
}

impl FromSpecImpl<(usize, usize, usize)> for GameTilePos {
    open spec fn obeys_from_spec() -> bool {
        true
    }

    open spec fn from_spec(value: (usize, usize, usize)) -> GameTilePos {
        GameTilePos { x: value.0, y: value.1, z: value.2 }
    }
}

impl From<GameTilePos> for [usize; 2] {
    fn from(value: GameTilePos) -> (coordinate: [usize; 2]) {
        [value.x, value.y]
    }
}

impl FromSpecImpl<GameTilePos> for [usize; 2] {
    open spec fn obeys_from_spec() -> bool {
        true
    }

    open spec fn from_spec(value: GameTilePos) -> [usize; 2] {
        [value.x, value.y]
    }
}

impl From<Game3DSize> for [usize; 3] {
    fn from(value: Game3DSize) -> (lengths: [usize; 3]) {
        [value.x, value.y, value.z]
    }
}

impl FromSpecImpl<Game3DSize> for [usize; 3] {
    open spec fn obeys_from_spec() -> bool {
        true
    }

    open spec fn from_spec(value: Game3DSize) -> [usize; 3] {
        [value.x, value.y, value.z]
    }
}

impl GameTilePos {
    /// The cell of the layer that the position lies in, each coordinate kept in
    /// 32 bits as the tile grid of a layer addresses its cells.
    pub fn layer_cell(self) -> (cell: (u32, u32))
        ensures
            cell.0 == self.x as u32,
            cell.1 == self.y as u32,
    {
        (self.x as u32, self.y as u32)
    }
}

} // verus!
