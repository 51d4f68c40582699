//! World generation: the height limits of a map, its surface heights, and the
//! layers of tiles built from them.

use crate::map_gen::height::Height;
use crate::tiles::{Game3DSize, GameTilePos, GameTilemapSize, Index2D, Tile, TileKind};
use std::ops::Range;
use vstd::prelude::*;

pub mod height;

verus! {

/// The range of heights of a map: the layers `min`, `min + 1`, .. up to, but
/// without, `max`.
#[derive(Debug, Clone, Copy, PartialEq, Eq, Structural)]
pub struct MapHeight {
    pub max: Height,
    pub min: Height,
}

impl MapHeight {
    /// Limits are valid when they hold at least one height.
    pub open spec fn valid(self) -> bool {
        self.min.value < self.max.value
    }

    /// Whether `height` is one of the heights of the map.
    pub open spec fn contains(self, height: Height) -> bool {
        self.min.value <= height.value < self.max.value
    }

    /// The number of heights between the limits.
    pub open spec fn interval(self) -> nat {
        if self.min.value <= self.max.value {
            (self.max.value - self.min.value) as nat
        } else {
            0
        }
    }

    /// The height within valid limits that is nearest to `raw`.
    pub open spec fn clamped(self, raw: usize) -> Height {
        if raw < self.min.value {
            self.min
        } else if raw >= self.max.value {
            Height { value: (self.max.value - 1) as usize }
        } else {
            Height { value: raw }
        }
    }

    /// The limits from `min` up to, but without, `max`.
    pub fn new(max: usize, min: usize) -> (limits: Self)
        ensures
            limits.max.value == max,
            limits.min.value == min,
    {
        Self { max: Height { value: max }, min: Height { value: min } }
    }

    /// The heights of the map, lowest first.
    pub fn iter(&self) -> (heights: Range<usize>)
        ensures
            heights.start == self.min.value,
            heights.end == self.max.value,
    {
        self.min.value..self.max.value
    }

    /// The number of heights between the limits, as a height.
    pub fn height_interval(&self) -> (interval: Height)
        requires
            self.min.value <= self.max.value,
        ensures
            interval.value == self.interval(),
    {
        self.max - self.min
    }

    /// Tells whether the limits hold at least one height.
    pub fn is_valid(&self) -> (valid: bool)
        ensures
            valid == self.valid(),
    {
        self.min.value < self.max.value
    }

    /// Tells whether `height` is one of the heights of the map.
    pub fn holds(&self, height: Height) -> (inside: bool)
        ensures
            inside == self.contains(height),
    {
        self.min.value <= height.value && height.value < self.max.value
    }

    /// Brings a raw height into the limits: one below `min` becomes `min`, one at
    /// or above `max` becomes the highest layer, `max - 1`.
    pub fn clamp(&self, raw: usize) -> (height: Height)
        requires
            self.valid(),
        ensures
            height == self.clamped(raw),
            self.contains(height),
    {
        if raw < self.min.value {
            self.min
        } else if raw >= self.max.value {
            Height { value: self.max.value - 1 }
        } else {
            Height { value: raw }
        }
    }
}

/// The surface height of every cell of a map, held in a two-dimensional
/// `ndarray` array of `usize`. Verus does not look inside: what the array holds
/// is named by `heightmap_shape` and `heightmap_cells`.
#[verifier::external_body]
pub struct HeightMap {
    cells: ndarray::Array2<usize>,
}

/// The lengths of the two axes of the array inside a `HeightMap`.
pub uninterp spec fn heightmap_shape(heightmap: HeightMap) -> (nat, nat);

/// The elements of the array inside a `HeightMap`, by their index `(x, y)`.
pub uninterp spec fn heightmap_cells(heightmap: HeightMap) -> Map<(int, int), usize>;

/// Wraps `ndarray::Array2::from_elem` with the shape `(width, depth)`. Trusted:
/// the array has that shape and every element is `fill`. `from_elem` panics
/// where the product of the non-zero axis lengths overflows `isize`, and the
/// buffer behind it must stay within `isize::MAX` bytes; the bound leaves both
/// out.
#[verifier::external_body]
fn heightmap_from_elem(width: usize, depth: usize, fill: usize) -> (heightmap: HeightMap)
    requires
        (if width == 0 { 1 } else { width as int })
            * (if depth == 0 { 1 } else { depth as int }) * 16 <= isize::MAX,
    ensures
        heightmap_shape(heightmap) == (width as nat, depth as nat),
        forall|x: int, y: int|
            0 <= x < width && 0 <= y < depth ==> #[trigger] heightmap_cells(heightmap)[(x, y)]
                == fill,
{
    HeightMap { cells: ndarray::Array2::from_elem((width, depth), fill) }
}

/// Wraps `ArrayBase::dim` of a two-dimensional array. Trusted: it returns the
/// lengths of the two axes.
#[verifier::external_body]
fn heightmap_dim(heightmap: &HeightMap) -> (shape: (usize, usize))
    ensures
        shape.0 == heightmap_shape(*heightmap).0,
        shape.1 == heightmap_shape(*heightmap).1,
{
    heightmap.cells.dim()
}

/// Wraps the `Index` of `ndarray` arrays with a two-element index. Trusted: it
/// returns the element at `[x, y]`. It panics on an index outside the shape,
/// which the bounds leave out.
#[verifier::external_body]
fn heightmap_index(heightmap: &HeightMap, x: usize, y: usize) -> (value: usize)
    requires
        x < heightmap_shape(*heightmap).0,
        y < heightmap_shape(*heightmap).1,
    ensures
        value == heightmap_cells(*heightmap)[(x as int, y as int)],
{
    heightmap.cells[[x, y]]
}

/// Wraps the `IndexMut` of `ndarray` arrays with a two-element index. Trusted:
/// the element at `[x, y]` becomes `value`, every other element and the shape
/// stay. It panics on an index outside the shape, which the bounds leave out.
#[verifier::external_body]
fn heightmap_index_mut(heightmap: &mut HeightMap, x: usize, y: usize, value: usize)
    requires
        x < heightmap_shape(*old(heightmap)).0,
        y < heightmap_shape(*old(heightmap)).1,
    ensures
        heightmap_shape(*final(heightmap)) == heightmap_shape(*old(heightmap)),
        heightmap_cells(*final(heightmap)) == heightmap_cells(*old(heightmap)).insert(
            (x as int, y as int),
            value,
        ),
{
    heightmap.cells[[x, y]] = value;
}

impl HeightMap {
    /// The number of columns.
    pub open spec fn width(self) -> nat {
        heightmap_shape(self).0
    }

    /// The number of cells of one column.
    pub open spec fn depth(self) -> nat {
        heightmap_shape(self).1
    }

    /// The surface height at `coord`.
    pub open spec fn height_at(self, coord: (usize, usize)) -> Height {
        Height { value: heightmap_cells(self)[(coord.0 as int, coord.1 as int)] }
    }

    /// Whether the heightmap covers exactly the footprint `size`.
    pub open spec fn covers(self, size: GameTilemapSize) -> bool {
        self.width() == size.x && self.depth() == size.y
    }

    /// Whether every surface height over the footprint `size` lies within
    /// `limits`.
    pub open spec fn within(self, size: GameTilemapSize, limits: MapHeight) -> bool {
        forall|coord: (usize, usize)|
            size.contains(coord) ==> limits.contains(#[trigger] self.height_at(coord))
    }

    /// The number of columns and the number of cells of one column.
    pub fn dim(&self) -> (shape: (usize, usize))
        ensures
            shape.0 == self.width(),
            shape.1 == self.depth(),
    {
        heightmap_dim(self)
    }

    /// The surface height at `coord`, where the heightmap has such a cell.
    pub fn get(&self, coord: (usize, usize)) -> (height: Option<Height>)
        ensures
            height.is_some() == (coord.0 < self.width() && coord.1 < self.depth()),
            height.is_some() ==> height == Some(self.height_at(coord)),
    {
        let (width, depth) = heightmap_dim(self);
        if coord.0 < width && coord.1 < depth {
            Some(Height { value: heightmap_index(self, coord.0, coord.1) })
        } else {
            None
        }
    }
}

/// Lays out the surface heights of a map from one raw height per cell, given in
/// the order of `GameTilemapSize::coordinates`. Each raw height is brought into
/// the limits, so every height of the result lies within them.
pub fn create_heightmap(
    tilemap_size: &GameTilemapSize,
    height_limits: &MapHeight,
    samples: &Vec<usize>,
) -> (heightmap: HeightMap)
    requires
        tilemap_size.fits(),
        height_limits.valid(),
        samples@.len() == tilemap_size.area(),
    ensures
        heightmap.covers(*tilemap_size),
        forall|coord: (usize, usize)|
            tilemap_size.contains(coord) ==> #[trigger] heightmap.height_at(coord)
                == height_limits.clamped(samples@[tilemap_size.index_of(coord)]),
        heightmap.within(*tilemap_size, *height_limits),
{
    let size = *tilemap_size;
    let limits = *height_limits;
    let mut heightmap = heightmap_from_elem(size.x as usize, size.y as usize, 0);
    let coords = size.coordinates();
    let mut index: usize = 0;
    while index < coords.len()
        invariant
            0 <= index <= coords@.len(),
            coords@ == size.spec_coordinates(),
            samples@.len() == size.area(),
            limits.valid(),
            heightmap.covers(size),
            forall|done: int|
                0 <= done < index ==> heightmap.height_at(#[trigger] size.coordinate(done))
                    == limits.clamped(samples@[done]),
        decreases coords@.len() - index,
    {
        let (x, y) = coords[index];
        let height = limits.clamp(samples[index]);
        proof {
            size.lemma_coordinate(index as int);
            assert forall|done: int| 0 <= done < index implies size.coordinate(done) != (x, y) by {
                size.lemma_coordinate(done);
            }
        }
        heightmap_index_mut(&mut heightmap, x, y, height.value);
        index += 1;
    }
    proof {
        assert forall|coord: (usize, usize)| size.contains(coord) implies #[trigger] heightmap.height_at(
            coord,
        ) == limits.clamped(samples@[size.index_of(coord)]) by {
            size.lemma_index_of(coord);
            assert(size.coordinate(size.index_of(coord)) == coord);
        }
    }
    heightmap
}

/// What a map is generated from and what every later step reads: the
/// footprint of a layer, the height limits, and the surface heights.
pub struct MapSettings {
    layer_size: GameTilemapSize,
    size: Game3DSize,
    height_limits: MapHeight,
    heightmap: HeightMap,
}

impl MapSettings {
    /// The footprint of one layer.
    pub closed spec fn spec_layer_size(&self) -> GameTilemapSize {
        self.layer_size
    }

    /// The extent of the map along its three axes.
    pub closed spec fn spec_size(&self) -> Game3DSize {
        self.size
    }

    /// The height limits of the map.
    pub closed spec fn spec_height_limits(&self) -> MapHeight {
        self.height_limits
    }

    /// The surface heights of the map.
    pub closed spec fn spec_heightmap(&self) -> &HeightMap {
        &self.heightmap
    }

    /// The surface height at `coord`.
    pub open spec fn surface(&self, coord: (usize, usize)) -> Height {
        self.heightmap().height_at(coord)
    }

    /// Settings are well formed when the limits hold a height, a layer fits in
    /// memory, the heightmap covers the footprint, every surface height lies
    /// within the limits, and `size` is the extent along the three axes.
    pub open spec fn wf(&self) -> bool {
        &&& self.layer_size().fits()
        &&& self.height_limits().valid()
        &&& self.heightmap().covers(self.layer_size())
        &&& self.heightmap().within(self.layer_size(), self.height_limits())
        &&& self.size() == Game3DSize {
            x: self.layer_size().x as usize,
            y: self.layer_size().y as usize,
            z: self.height_limits().interval() as usize,
        }
    }

    /// Settings for a map of footprint `size` between `height_limits`, with the
    /// surface laid out from one raw height per cell, given in the order of
    /// `GameTilemapSize::coordinates` and brought into the limits.
    pub fn new(size: GameTilemapSize, height_limits: MapHeight, samples: &Vec<usize>) -> (settings:
        Self)
        requires
            size.fits(),
            height_limits.valid(),
            samples@.len() == size.area(),
        ensures
            settings.wf(),
            settings.layer_size() == size,
            settings.height_limits() == height_limits,
            forall|coord: (usize, usize)|
                size.contains(coord) ==> #[trigger] settings.surface(coord)
                    == height_limits.clamped(samples@[size.index_of(coord)]),
    {
        let heightmap = create_heightmap(&size, &height_limits, samples);
        let interval: usize = height_limits.height_interval().into();
        let size3d = Game3DSize { x: size.x as usize, y: size.y as usize, z: interval };
        Self { layer_size: size, size: size3d, height_limits, heightmap }
    }

    /// The footprint of one layer.
    #[verifier::when_used_as_spec(spec_layer_size)]
    pub fn layer_size(&self) -> (layer_size: GameTilemapSize)
        ensures
            layer_size == self.spec_layer_size(),
    {
        self.layer_size
    }

    /// The extent of the map along its three axes.
    #[verifier::when_used_as_spec(spec_size)]
    pub fn size(&self) -> (size: Game3DSize)
        ensures
            size == self.spec_size(),
    {
        self.size
    }

    /// The height limits of the map.
    #[verifier::when_used_as_spec(spec_height_limits)]
    pub fn height_limits(&self) -> (height_limits: MapHeight)
        ensures
            height_limits == self.spec_height_limits(),
    {
        self.height_limits
    }

    /// The surface heights of the map.
    #[verifier::when_used_as_spec(spec_heightmap)]
    pub fn heightmap(&self) -> (heightmap: &HeightMap)
        ensures
            heightmap == self.spec_heightmap(),
    {
        &self.heightmap
    }

    /// The surface height at a cell of the footprint.
    pub fn surface_height(&self, coord: (usize, usize)) -> (height: Height)
        requires
            self.wf(),
            self.layer_size().contains(coord),
        ensures
            height == self.surface(coord),
            self.height_limits().contains(height),
    {
        let height = Height { value: heightmap_index(&self.heightmap, coord.0, coord.1) };
        assert(height == self.heightmap().height_at(coord));
        height
    }
}

/// The tile that a newly built world holds at place `index` of the layer at
/// `height`: at its position, ground or air by the surface below it, hidden.
pub open spec fn fresh_tile(map_settings: &MapSettings, height: Height, index: int) -> Tile {
    let coord = map_settings.layer_size().coordinate(index);
    Tile {
        position: GameTilePos { x: coord.0, y: coord.1, z: height.value },
        kind: TileKind::classify(height, map_settings.surface(coord)),
        visible: false,
    }
}

/// The tiles of one height: one tile per cell of the footprint, in the order of
/// `GameTilemapSize::coordinates`.
pub struct Layer {
    height: Height,
    size: GameTilemapSize,
    tiles: Vec<Tile>,
}

impl View for Layer {
    type V = Seq<Tile>;

    closed spec fn view(&self) -> Seq<Tile> {
        self.tiles@
    }
}

impl Layer {
    /// The height of the layer.
    pub closed spec fn spec_height(&self) -> Height {
        self.height
    }

    /// The footprint of the layer.
    pub closed spec fn spec_size(&self) -> GameTilemapSize {
        self.size
    }

    /// A layer is well formed when it holds one tile per cell of its footprint
    /// and each tile stands at the position of its place, at the layer's height.
    pub open spec fn wf(&self) -> bool {
        &&& self.size().fits()
        &&& self@.len() == self.size().area()
        &&& forall|index: int|
            0 <= index < self@.len() ==> (#[trigger] self@[index]).position == GameTilePos {
                x: self.size().coordinate(index).0,
                y: self.size().coordinate(index).1,
                z: self.height().value,
            }
    }

    /// A layer of the given height and footprint that holds no tile yet.
    fn empty(height: Height, size: GameTilemapSize) -> (layer: Layer)
        ensures
            layer@.len() == 0,
            layer.height() == height,
            layer.size() == size,
    {
        Layer { height, size, tiles: Vec::new() }
    }

    /// The height of the layer.
    #[verifier::when_used_as_spec(spec_height)]
    pub fn height(&self) -> (height: Height)
        ensures
            height == self.spec_height(),
    {
        self.height
    }

    /// The footprint of the layer.
    #[verifier::when_used_as_spec(spec_size)]
    pub fn size(&self) -> (size: GameTilemapSize)
        ensures
            size == self.spec_size(),
    {
        self.size
    }

    /// The tiles of the layer, in the order of `GameTilemapSize::coordinates`.
    pub fn tiles(&self) -> (tiles: &Vec<Tile>)
        ensures
            tiles@ == self@,
    {
        &self.tiles
    }

    /// Shows or hides the tile at place `index`; every other tile, and the
    /// position and kind of this one, stay.
    pub(crate) fn set_visible(&mut self, index: usize, visible: bool)
        requires
            index < old(self)@.len(),
        ensures
            final(self)@ == old(self)@.update(
                index as int,
                Tile { visible, ..old(self)@[index as int] },
            ),
            final(self).height() == old(self).height(),
            final(self).size() == old(self).size(),
            old(self).wf() ==> final(self).wf(),
    {
        self.tiles[index].visible = visible;
    }
}

impl Index2D for Layer {
    open spec fn tile_at(&self, coord: (usize, usize)) -> Option<Tile> {
        if self.size().contains(coord) && self.size().index_of(coord) < self@.len() {
            Some(self@[self.size().index_of(coord)])
        } else {
            None
        }
    }

    fn get_2d(&self, coord: (usize, usize)) -> (tile: Option<Tile>) {
        let (x, y) = coord;
        if x < self.size.x as usize && y < self.size.y as usize {
            let depth: u64 = self.size.y as u64;
            assert(x * depth + y <= 0xffff_ffff * 0xffff_ffff + 0xffff_ffff) by (nonlinear_arith)
                requires
                    0 <= x <= 0xffff_ffff,
                    0 <= depth <= 0xffff_ffff,
                    0 <= y <= 0xffff_ffff,
            ;
            let place: u64 = (x as u64) * depth + (y as u64);
            if place < self.tiles.len() as u64 {
                Some(self.tiles[place as usize])
            } else {
                None
            }
        } else {
            None
        }
    }
}

/// Fills a layer that holds no tile yet with one tile per cell of the
/// footprint: ground where the layer's height is at or below the surface, air
/// above it, every tile hidden.
fn fill_tilemap(tile_storage: &mut Layer, height: Height, map_settings: &MapSettings)
    requires
        map_settings.wf(),
        old(tile_storage)@.len() == 0,
        old(tile_storage).height() == height,
        old(tile_storage).size() == map_settings.layer_size(),
    ensures
        final(tile_storage).wf(),
        final(tile_storage).height() == height,
        final(tile_storage).size() == map_settings.layer_size(),
        final(tile_storage)@ == Seq::new(
            map_settings.layer_size().area(),
            |index: int| fresh_tile(map_settings, height, index),
        ),
{
    let size = map_settings.layer_size();
    let coords = size.coordinates();
    let mut index: usize = 0;
    while index < coords.len()
        invariant
            0 <= index <= coords@.len(),
            coords@ == size.spec_coordinates(),
            size == map_settings.layer_size(),
            map_settings.wf(),
            tile_storage.height() == height,
            tile_storage.size() == size,
            tile_storage@ == Seq::new(
                index as nat,
                |place: int| fresh_tile(map_settings, height, place),
            ),
        decreases coords@.len() - index,
    {
        let coordinate = coords[index];
        proof {
            size.lemma_coordinate(index as int);
        }
        let surface = map_settings.surface_height(coordinate);
        let tile = Tile {
            position: GameTilePos { x: coordinate.0, y: coordinate.1, z: height.value },
            kind: TileKind::of(height, surface),
            visible: false,
        };
        tile_storage.tiles.push(tile);
        index += 1;
        assert(tile_storage@ =~= Seq::new(
            index as nat,
            |place: int| fresh_tile(map_settings, height, place),
        ));
    }
}

/// Builds the layer of one height.
pub fn create_tilemap(height: Height, map_settings: &MapSettings) -> (layer: Layer)
    requires
        map_settings.wf(),
    ensures
        layer.wf(),
        layer.height() == height,
        layer.size() == map_settings.layer_size(),
        layer@ == Seq::new(
            map_settings.layer_size().area(),
            |index: int| fresh_tile(map_settings, height, index),
        ),
{
    let mut tile_storage = Layer::empty(height, map_settings.layer_size());
    fill_tilemap(&mut tile_storage, height, map_settings);
    tile_storage
}

/// The world: one layer per height between the limits, lowest first.
pub struct Tilemap3D {
    layer_size: GameTilemapSize,
    height_limits: MapHeight,
    layers: Vec<Layer>,
}

impl View for Tilemap3D {
    type V = Seq<Layer>;

    closed spec fn view(&self) -> Seq<Layer> {
        self.layers@
    }
}

impl Tilemap3D {
    /// The footprint of every layer of the world.
    pub closed spec fn spec_layer_size(&self) -> GameTilemapSize {
        self.layer_size
    }

    /// The height limits of the world.
    pub closed spec fn spec_height_limits(&self) -> MapHeight {
        self.height_limits
    }

    /// A world is well formed when it holds one well-formed layer of its
    /// footprint for each height between its limits, lowest first.
    pub open spec fn wf(&self) -> bool {
        &&& self.layer_size().fits()
        &&& self.height_limits().valid()
        &&& self@.len() == self.height_limits().interval()
        &&& forall|k: int|
            0 <= k < self@.len() ==> {
                &&& (#[trigger] self@[k]).wf()
                &&& self@[k].size() == self.layer_size()
                &&& self@[k].height().value == self.height_limits().min.value + k
            }
    }

    /// Whether `position` names a cell of the world.
    pub open spec fn contains(&self, position: GameTilePos) -> bool {
        &&& self.layer_size().contains((position.x, position.y))
        &&& self.height_limits().contains(Height { value: position.z })
    }

    /// The layer of the given height.
    pub open spec fn layer(&self, height: Height) -> Layer {
        self@[height.value - self.height_limits().min.value]
    }

    /// The tile at `position`.
    pub open spec fn tile(&self, position: GameTilePos) -> Tile {
        self.layer(Height { value: position.z })@[self.layer_size().index_of(
            (position.x, position.y),
        )]
    }

    /// Whether the world has the footprint and the height limits of
    /// `map_settings`.
    pub open spec fn built_for(&self, map_settings: &MapSettings) -> bool {
        &&& self.layer_size() == map_settings.layer_size()
        &&& self.height_limits() == map_settings.height_limits()
    }

    /// Whether every tile is ground exactly where its height is at or below the
    /// surface of `map_settings`, and air above it.
    pub open spec fn classified_by(&self, map_settings: &MapSettings) -> bool {
        forall|position: GameTilePos|
            self.contains(position) ==> (#[trigger] self.tile(position)).kind
                == TileKind::classify(
                Height { value: position.z },
                map_settings.surface((position.x, position.y)),
            )
    }

    /// Whether no tile of the world is shown.
    pub open spec fn hidden(&self) -> bool {
        forall|position: GameTilePos|
            self.contains(position) ==> !(#[trigger] self.tile(position)).visible
    }

    /// In a well-formed world the tile at a position stands at that position.
    pub proof fn lemma_tile_position(&self, position: GameTilePos)
        requires
            self.wf(),
            self.contains(position),
        ensures
            self.tile(position).position == position,
    {
        self.layer_size().lemma_index_of((position.x, position.y));
    }

    /// The footprint of every layer of the world.
    #[verifier::when_used_as_spec(spec_layer_size)]
    pub fn layer_size(&self) -> (layer_size: GameTilemapSize)
        ensures
            layer_size == self.spec_layer_size(),
    {
        self.layer_size
    }

    /// The height limits of the world.
    #[verifier::when_used_as_spec(spec_height_limits)]
    pub fn height_limits(&self) -> (height_limits: MapHeight)
        ensures
            height_limits == self.spec_height_limits(),
    {
        self.height_limits
    }

    /// The layers of the world, lowest first.
    pub fn layers(&self) -> (layers: &Vec<Layer>)
        ensures
            layers@ == self@,
    {
        &self.layers
    }

    /// Tells whether the world has the footprint and the height limits of
    /// `map_settings`.
    pub fn fits(&self, map_settings: &MapSettings) -> (fits: bool)
        ensures
            fits == self.built_for(map_settings),
    {
        let size = map_settings.layer_size();
        let limits = map_settings.height_limits();
        self.layer_size.x == size.x && self.layer_size.y == size.y
            && self.height_limits.min.value == limits.min.value
            && self.height_limits.max.value == limits.max.value
    }

    /// The tile at `position`, where the world has such a cell.
    pub fn get(&self, position: GameTilePos) -> (tile: Option<Tile>)
        requires
            self.wf(),
        ensures
            tile.is_some() == self.contains(position),
            self.contains(position) ==> tile == Some(self.tile(position)),
    {
        if !self.height_limits.holds(Height { value: position.z }) {
            return None;
        }
        match self.layer_size.position((position.x, position.y)) {
            Some(place) => {
                proof {
                    self.layer_size.lemma_index_of((position.x, position.y));
                }
                let layer = &self.layers[position.z - self.height_limits.min.value];
                Some(layer.tiles[place])
            },
            None => None,
        }
    }

    /// Shows or hides the tile at place `index` of the layer at `height`; every
    /// other tile, and the position and kind of this one, stay.
    pub(crate) fn set_visible(&mut self, height: Height, index: usize, visible: bool)
        requires
            old(self).wf(),
            old(self).height_limits().contains(height),
            index < old(self).layer_size().area(),
        ensures
            final(self).wf(),
            final(self).layer_size() == old(self).layer_size(),
            final(self).height_limits() == old(self).height_limits(),
            final(self)@.len() == old(self)@.len(),
            final(self).layer(height)@ == old(self).layer(height)@.update(
                index as int,
                Tile { visible, ..old(self).layer(height)@[index as int] },
            ),
            forall|k: int|
                0 <= k < old(self)@.len() && k != height.value - old(
                    self,
                ).height_limits().min.value ==> #[trigger] final(self)@[k] == old(self)@[k],
    {
        let k = height.value - self.height_limits.min.value;
        self.layers[k].set_visible(index, visible);
    }
}

/// Builds the world of `map_settings`: one layer per height between the
/// limits, every tile ground or air by the surface below it, every tile hidden.
pub fn create_tilemap3d(map_settings: &MapSettings) -> (tilemap3d: Tilemap3D)
    requires
        map_settings.wf(),
    ensures
        tilemap3d.wf(),
        tilemap3d.built_for(map_settings),
        tilemap3d.classified_by(map_settings),
        tilemap3d.hidden(),
        forall|k: int|
            0 <= k < tilemap3d@.len() ==> (#[trigger] tilemap3d@[k])@ == Seq::new(
                map_settings.layer_size().area(),
                |index: int|
                    fresh_tile(
                        map_settings,
                        Height { value: (map_settings.height_limits().min.value + k) as usize },
                        index,
                    ),
            ),
{
    let limits = map_settings.height_limits();
    let size = map_settings.layer_size();
    let mut layers: Vec<Layer> = Vec::new();
    let mut height: usize = limits.min.value;
    while height < limits.max.value
        invariant
            limits == map_settings.height_limits(),
            size == map_settings.layer_size(),
            map_settings.wf(),
            limits.min.value <= height <= limits.max.value,
            layers@.len() == height - limits.min.value,
            forall|k: int|
                0 <= k < layers@.len() ==> {
                    &&& (#[trigger] layers@[k]).wf()
                    &&& layers@[k].size() == size
                    &&& layers@[k].height().value == limits.min.value + k
                    &&& layers@[k]@ == Seq::new(
                        size.area(),
                        |index: int|
                            fresh_tile(
                                map_settings,
                                Height { value: (limits.min.value + k) as usize },
                                index,
                            ),
                    )
                },
        decreases limits.max.value - height,
    {
        layers.push(create_tilemap(Height { value: height }, map_settings));
        height += 1;
    }
    let tilemap3d = Tilemap3D { layer_size: size, height_limits: limits, layers };
    proof {
        assert forall|position: GameTilePos| tilemap3d.contains(position) implies {
            &&& (#[trigger] tilemap3d.tile(position)).kind == TileKind::classify(
                Height { value: position.z },
                map_settings.surface((position.x, position.y)),
            )
            &&& !tilemap3d.tile(position).visible
        } by {
            size.lemma_index_of((position.x, position.y));
        }
    }
    tilemap3d
}

} // verus!
