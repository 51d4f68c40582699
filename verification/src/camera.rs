//! The height the viewer looks at, and what follows from it: which tiles of
//! the world are shown, and the shadow overlay above them.

use crate::map_gen::height::Height;
use crate::map_gen::{Layer, MapHeight, MapSettings, Tilemap3D};
use crate::tiles::{GameTilePos, GameTilemapSize, Tile, TileKind};
use vstd::prelude::*;

verus! {

/// The height of the layer that the viewer looks at.
#[derive(Debug, Clone, Copy, PartialEq, Eq, Structural)]
pub struct DisplayHeight {
    pub height: Height,
}

/// Whether the tile at `height`, over a surface at height `surface`, is shown
/// after the view moves to `viewed`, given the height `previous` that was
/// viewed before (none before the first update) and whether the tile was
/// `visible` until now.
///
/// The first update shows the viewed layer and leaves the rest as it is. A step
/// up shows the viewed layer and hides the layer below it, except where that
/// layer is the surface, which stays as it is. A step down shows the viewed
/// layer and hides the layer above it. Without a change of height nothing
/// changes.
pub open spec fn visible_after(
    previous: Option<Height>,
    viewed: Height,
    surface: Height,
    height: Height,
    visible: bool,
) -> bool {
    match previous {
        None => visible || height == viewed,
        Some(before) => {
            if viewed.value > before.value {
                if height == viewed {
                    true
                } else if height.value + 1 == viewed.value {
                    visible && surface == height
                } else {
                    visible
                }
            } else if viewed.value < before.value {
                if height == viewed {
                    true
                } else if height.value == viewed.value + 1 {
                    false
                } else {
                    visible
                }
            } else {
                visible
            }
        },
    }
}

/// The tile `tile`, over a surface at height `surface`, after the view moves to
/// `viewed`: only whether it is shown can change.
pub open spec fn tile_after(
    previous: Option<Height>,
    viewed: Height,
    surface: Height,
    tile: Tile,
) -> Tile {
    Tile {
        visible: visible_after(
            previous,
            viewed,
            surface,
            Height { value: tile.position.z },
            tile.visible,
        ),
        ..tile
    }
}

/// The updates that `display_layer` accepts: the viewed height is a height of
/// the map, and so is the height viewed before, from which the view moves by
/// one layer at most.
pub open spec fn display_allowed(
    limits: MapHeight,
    previous: Option<Height>,
    viewed: Height,
) -> bool {
    &&& limits.contains(viewed)
    &&& previous matches Some(before) ==> {
        &&& limits.contains(before)
        &&& before.value <= viewed.value + 1
        &&& viewed.value <= before.value + 1
    }
}

/// Tells whether `display_layer` accepts the update to `display_height` from
/// the state `previous_height`.
pub fn can_display(
    display_height: &DisplayHeight,
    previous_height: &Option<Height>,
    map_settings: &MapSettings,
) -> (allowed: bool)
    ensures
        allowed == display_allowed(
            map_settings.height_limits(),
            *previous_height,
            display_height.height,
        ),
{
    let limits = map_settings.height_limits();
    let viewed = display_height.height;
    if !limits.holds(viewed) {
        return false;
    }
    match previous_height {
        Some(before) => {
            if limits.holds(*before) {
                before.value <= viewed.value + 1 && viewed.value <= before.value + 1
            } else {
                false
            }
        },
        None => true,
    }
}

/// Whether `now` is `before` with the tiles at the first `done` places of every
/// layer brought to their state after the update.
spec fn updated_upto(
    before: &Tilemap3D,
    now: &Tilemap3D,
    map_settings: &MapSettings,
    previous: Option<Height>,
    viewed: Height,
    done: int,
) -> bool {
    &&& now.wf()
    &&& now.layer_size() == before.layer_size()
    &&& now.height_limits() == before.height_limits()
    &&& forall|k: int, place: int|
        0 <= k < before@.len() && 0 <= place < before.layer_size().area() ==> (
        #[trigger] now@[k]@[place]) == if place < done {
            tile_after(
                previous,
                viewed,
                map_settings.surface(before.layer_size().coordinate(place)),
                before@[k]@[place],
            )
        } else {
            before@[k]@[place]
        }
}

/// A world updated at every place holds, at each position, the tile that was
/// there brought to its state after the update.
proof fn lemma_updated_all(
    before: &Tilemap3D,
    now: &Tilemap3D,
    map_settings: &MapSettings,
    previous: Option<Height>,
    viewed: Height,
)
    requires
        before.wf(),
        updated_upto(before, now, map_settings, previous, viewed, before.layer_size().area() as int),
    ensures
        forall|position: GameTilePos|
            before.contains(position) ==> #[trigger] now.tile(position) == tile_after(
                previous,
                viewed,
                map_settings.surface((position.x, position.y)),
                before.tile(position),
            ),
{
    assert forall|position: GameTilePos| before.contains(position) implies #[trigger] now.tile(
        position,
    ) == tile_after(
        previous,
        viewed,
        map_settings.surface((position.x, position.y)),
        before.tile(position),
    ) by {
        let size = before.layer_size();
        size.lemma_index_of((position.x, position.y));
        let k = position.z - before.height_limits().min.value;
        let place = size.index_of((position.x, position.y));
        assert(now@[k]@[place] == now.tile(position));
    }
}

/// The first update: shows every tile of the viewed layer.
fn show_viewed_layer(viewed: Height, map_settings: &MapSettings, tilemap3d: &mut Tilemap3D)
    requires
        map_settings.wf(),
        old(tilemap3d).wf(),
        old(tilemap3d).built_for(map_settings),
        map_settings.height_limits().contains(viewed),
    ensures
        updated_upto(
            old(tilemap3d),
            final(tilemap3d),
            map_settings,
            None,
            viewed,
            map_settings.layer_size().area() as int,
        ),
{
    let count = map_settings.layer_size().cell_count();
    let mut place: usize = 0;
    while place < count
        invariant
            0 <= place <= count,
            count == map_settings.layer_size().area(),
            old(tilemap3d).wf(),
            old(tilemap3d).built_for(map_settings),
            map_settings.height_limits().contains(viewed),
            updated_upto(old(tilemap3d), tilemap3d, map_settings, None, viewed, place as int),
        decreases count - place,
    {
        tilemap3d.set_visible(viewed, place, true);
        place += 1;
    }
}

/// A step up: shows every tile of the viewed layer and hides the tiles of the
/// layer below it, except where that layer is the surface.
fn ascend(
    before: Height,
    viewed: Height,
    map_settings: &MapSettings,
    tilemap3d: &mut Tilemap3D,
)
    requires
        map_settings.wf(),
        old(tilemap3d).wf(),
        old(tilemap3d).built_for(map_settings),
        map_settings.height_limits().contains(viewed),
        map_settings.height_limits().contains(before),
        viewed.value == before.value + 1,
    ensures
        updated_upto(
            old(tilemap3d),
            final(tilemap3d),
            map_settings,
            Some(before),
            viewed,
            map_settings.layer_size().area() as int,
        ),
{
    let size = map_settings.layer_size();
    let coords = size.coordinates();
    let mut place: usize = 0;
    while place < coords.len()
        invariant
            0 <= place <= coords@.len(),
            coords@ == size.spec_coordinates(),
            size == map_settings.layer_size(),
            map_settings.wf(),
            old(tilemap3d).wf(),
            old(tilemap3d).built_for(map_settings),
            map_settings.height_limits().contains(viewed),
            map_settings.height_limits().contains(before),
            viewed.value == before.value + 1,
            updated_upto(
                old(tilemap3d),
                tilemap3d,
                map_settings,
                Some(before),
                viewed,
                place as int,
            ),
        decreases coords@.len() - place,
    {
        let coordinate = coords[place];
        proof {
            size.lemma_coordinate(place as int);
        }
        tilemap3d.set_visible(viewed, place, true);
        if map_settings.surface_height(coordinate).value != before.value {
            tilemap3d.set_visible(before, place, false);
        }
        place += 1;
    }
}

/// A step down: shows every tile of the viewed layer and hides every tile of
/// the layer above it.
fn descend(
    before: Height,
    viewed: Height,
    map_settings: &MapSettings,
    tilemap3d: &mut Tilemap3D,
)
    requires
        map_settings.wf(),
        old(tilemap3d).wf(),
        old(tilemap3d).built_for(map_settings),
        map_settings.height_limits().contains(viewed),
        map_settings.height_limits().contains(before),
        before.value == viewed.value + 1,
    ensures
        updated_upto(
            old(tilemap3d),
            final(tilemap3d),
            map_settings,
            Some(before),
            viewed,
            map_settings.layer_size().area() as int,
        ),
{
    let count = map_settings.layer_size().cell_count();
    let mut place: usize = 0;
    while place < count
        invariant
            0 <= place <= count,
            count == map_settings.layer_size().area(),
            old(tilemap3d).wf(),
            old(tilemap3d).built_for(map_settings),
            map_settings.height_limits().contains(viewed),
            map_settings.height_limits().contains(before),
            before.value == viewed.value + 1,
            updated_upto(
                old(tilemap3d),
                tilemap3d,
                map_settings,
                Some(before),
                viewed,
                place as int,
            ),
        decreases count - place,
    {
        tilemap3d.set_visible(viewed, place, true);
        tilemap3d.set_visible(before, place, false);
        place += 1;
    }
}

/// Brings the world to the height `display_height` from the state
/// `previous_height`: the height viewed at the last update, or none before the
/// first one.
///
/// Every tile keeps its position and kind; whether it is shown afterwards is
/// `visible_after` of whether it was shown before. The work is done on the
/// viewed layer and the layer just left, so it grows with the area of a layer
/// and not with the number of layers.
pub fn display_layer(
    display_height: &DisplayHeight,
    previous_height: &mut Option<Height>,
    map_settings: &MapSettings,
    tilemap3d: &mut Tilemap3D,
)
    requires
        map_settings.wf(),
        old(tilemap3d).wf(),
        old(tilemap3d).built_for(map_settings),
        display_allowed(
            map_settings.height_limits(),
            *old(previous_height),
            display_height.height,
        ),
    ensures
        *final(previous_height) == Some(display_height.height),
        final(tilemap3d).wf(),
        final(tilemap3d).built_for(map_settings),
        forall|position: GameTilePos|
            old(tilemap3d).contains(position) ==> #[trigger] final(tilemap3d).tile(position)
                == tile_after(
                *old(previous_height),
                display_height.height,
                map_settings.surface((position.x, position.y)),
                old(tilemap3d).tile(position),
            ),
        old(tilemap3d).classified_by(map_settings) ==> final(tilemap3d).classified_by(
            map_settings,
        ),
        *old(previous_height) is None && old(tilemap3d).hidden() ==> forall|position: GameTilePos|
            old(tilemap3d).contains(position) ==> ((#[trigger] final(tilemap3d).tile(
                position,
            )).visible <==> position.z == display_height.height.value),
        *old(previous_height) == Some(display_height.height) ==> *final(tilemap3d) == *old(
            tilemap3d,
        ),
{
    let viewed = display_height.height;
    let ghost before_update = *tilemap3d;
    match *previous_height {
        Some(before) => {
            if viewed.value > before.value {
                ascend(before, viewed, map_settings, tilemap3d);
            } else if viewed.value < before.value {
                descend(before, viewed, map_settings, tilemap3d);
            }
        },
        None => {
            show_viewed_layer(viewed, map_settings, tilemap3d);
        },
    }
    proof {
        lemma_updated_all(
            &before_update,
            tilemap3d,
            map_settings,
            *old(previous_height),
            viewed,
        );
        assert forall|position: GameTilePos|
            before_update.contains(position) implies (#[trigger] before_update.tile(
            position,
        )).position == position by {
            before_update.lemma_tile_position(position);
        }
    }
    *previous_height = Some(viewed);
}

/// The first update of a world in which no tile is shown leaves exactly the
/// tiles of the viewed height shown.
pub proof fn lemma_first_update_shows_viewed_layer_only(
    viewed: Height,
    surface: Height,
    height: Height,
)
    ensures
        visible_after(None, viewed, surface, height, false) == (height == viewed),
{
}

/// A step up from `start` followed by a step back down: whatever was shown
/// before, the tile at `start` is shown again, and the tile one layer above it
/// is hidden, also where that layer is the surface.
pub proof fn lemma_ascend_then_descend(
    start: Height,
    surface: Height,
    height: Height,
    visible: bool,
)
    requires
        start.value < usize::MAX,
    ensures
        ({
            let above = Height { value: (start.value + 1) as usize };
            let risen = visible_after(Some(start), above, surface, height, visible);
            let back = visible_after(Some(above), start, surface, height, risen);
            &&& height == start ==> back
            &&& height == above ==> !back
            &&& height != start && height != above ==> back == visible
        }),
{
}

/// A step up from `start`: the tile at `start` stays as it was where `start` is
/// the surface, so ground that was shown stays shown underfoot; everywhere else
/// the tile at `start` is hidden.
pub proof fn lemma_surface_persists(start: Height, surface: Height, visible: bool)
    requires
        start.value < usize::MAX,
    ensures
        ({
            let above = Height { value: (start.value + 1) as usize };
            let after = visible_after(Some(start), above, surface, start, visible);
            &&& surface == start ==> after == visible
            &&& surface != start ==> !after
        }),
{
}

/// Ground stays shown underfoot: after an update that brings the view to
/// `start` and a step up from there, the tile at `start` is shown exactly where
/// `start` is the surface.
pub proof fn lemma_ground_stays_shown_underfoot(
    previous: Option<Height>,
    start: Height,
    surface: Height,
    visible: bool,
)
    requires
        start.value < usize::MAX,
        previous != Some(start),
    ensures
        ({
            let above = Height { value: (start.value + 1) as usize };
            let arrived = visible_after(previous, start, surface, start, visible);
            visible_after(Some(start), above, surface, start, arrived) == (surface == start)
        }),
{
}

/// After every update the tile at the viewed height is shown, unless the
/// height did not change, when it stays as it was.
pub proof fn lemma_viewed_layer_shown(
    previous: Option<Height>,
    viewed: Height,
    surface: Height,
    visible: bool,
)
    ensures
        previous != Some(viewed) ==> visible_after(previous, viewed, surface, viewed, visible),
        previous == Some(viewed) ==> visible_after(previous, viewed, surface, viewed, visible)
            == visible,
{
}

/// Where the viewer starts: the lowest height of the map.
pub fn initalize_resources(map_settings: &MapSettings) -> (display_height: DisplayHeight)
    ensures
        display_height.height == map_settings.height_limits().min,
        map_settings.wf() ==> display_allowed(
            map_settings.height_limits(),
            None,
            display_height.height,
        ),
{
    DisplayHeight { height: Height { value: map_settings.height_limits().min.into() } }
}

/// The height one step from `height` in the direction asked for, kept within
/// `limits`: with `raise` one layer up, else with `lower` one layer down, else
/// `height` itself.
pub open spec fn height_after_input(
    limits: MapHeight,
    height: Height,
    raise: bool,
    lower: bool,
) -> Height {
    let target: int = if raise {
        height.value + 1
    } else if lower {
        height.value - 1
    } else {
        height.value as int
    };
    if !raise && !lower {
        height
    } else if target < limits.min.value {
        limits.min
    } else if target > limits.max.value - 1 {
        Height { value: (limits.max.value - 1) as usize }
    } else {
        Height { value: target as usize }
    }
}

/// Moves the viewed height by one layer on the viewer's input, kept within the
/// limits of the map. When both directions are asked for, up wins.
pub fn display_height_input(
    raise: bool,
    lower: bool,
    display_height: &mut DisplayHeight,
    map_settings: &MapSettings,
)
    requires
        map_settings.height_limits().valid(),
    ensures
        final(display_height).height == height_after_input(
            map_settings.height_limits(),
            old(display_height).height,
            raise,
            lower,
        ),
        (raise || lower) ==> map_settings.height_limits().contains(final(display_height).height),
        map_settings.height_limits().contains(old(display_height).height) ==> {
            &&& map_settings.height_limits().contains(final(display_height).height)
            &&& final(display_height).height.value <= old(display_height).height.value + 1
            &&& old(display_height).height.value <= final(display_height).height.value + 1
        },
{
    let limits = map_settings.height_limits();
    let current = display_height.height.value;
    let lowest = limits.min.value;
    let highest = limits.max.value - 1;
    if raise {
        display_height.height.value = if current >= highest {
            highest
        } else if current + 1 < lowest {
            lowest
        } else {
            current + 1
        };
    } else if lower {
        display_height.height.value = if current <= lowest {
            lowest
        } else if current - 1 > highest {
            highest
        } else {
            current - 1
        };
    }
}

/// How dark the overlay is above a tile at `height` seen from `viewed`: four
/// steps of darkness per layer of depth, and fully dark from there on. A tile
/// above the viewed height has depth zero.
pub open spec fn darkness(viewed: Height, height: Height) -> u8 {
    let depth: int = if viewed.value >= height.value {
        viewed.value - height.value
    } else {
        0
    };
    if depth * 4 >= 255 {
        255u8
    } else {
        (depth * 4) as u8
    }
}

/// Computes `darkness`.
pub fn shadow_alpha(viewed: Height, height: Height) -> (alpha: u8)
    ensures
        alpha == darkness(viewed, height),
{
    let depth = viewed.value.saturating_sub(height.value);
    if depth >= 64 {
        255
    } else {
        (depth * 4) as u8
    }
}

/// Seen from one height, a deeper tile is at least as dark as a shallower one.
pub proof fn lemma_darkness_monotone(viewed: Height, lower: Height, higher: Height)
    requires
        lower.value <= higher.value,
        higher.value <= viewed.value,
    ensures
        darkness(viewed, lower) >= darkness(viewed, higher),
{
}

/// The overlay is fully dark exactly from a depth of 64 layers on.
pub proof fn lemma_darkness_saturates(viewed: Height, height: Height)
    ensures
        viewed.value - height.value >= 64 <==> darkness(viewed, height) == 255,
        viewed.value <= height.value ==> darkness(viewed, height) == 0,
{
}

/// One tile of the shadow overlay: a black tile at the cell `(x, y)` of the
/// overlay layer, as opaque as `alpha` says.
#[derive(Debug, Clone, Copy, PartialEq, Eq, Structural)]
pub struct ShadowTile {
    pub x: usize,
    pub y: usize,
    pub alpha: u8,
}

/// The shadow overlay: one flat layer with the footprint of the map, drawn
/// above the terrain.
#[derive(Debug)]
pub struct ShadowMap {
    pub size: GameTilemapSize,
    pub tiles: Vec<ShadowTile>,
}

/// Whether `tile` gets a shadow when the view is at `viewed`: it is shown, it
/// is ground, and it lies at or below the viewed height.
pub open spec fn casts_shadow(viewed: Height, tile: Tile) -> bool {
    tile.visible && tile.kind == TileKind::Terrain && tile.position.z <= viewed.value
}

/// The shadow above `tile` when the view is at `viewed`.
pub open spec fn shadow_of(viewed: Height, tile: Tile) -> ShadowTile {
    ShadowTile {
        x: tile.position.x,
        y: tile.position.y,
        alpha: darkness(viewed, Height { value: tile.position.z }),
    }
}

/// `casts_shadow` for one viewed height, as a function of the tile.
pub open spec fn shadow_filter(viewed: Height) -> spec_fn(Tile) -> bool {
    |tile: Tile| casts_shadow(viewed, tile)
}

/// `shadow_of` for one viewed height, as a function of the tile.
pub open spec fn shadow_maker(viewed: Height) -> spec_fn(Tile) -> ShadowTile {
    |tile: Tile| shadow_of(viewed, tile)
}

/// The shadows above the tiles `tiles`, in their order: one for each tile that
/// casts a shadow.
pub open spec fn layer_shadows(viewed: Height, tiles: Seq<Tile>) -> Seq<ShadowTile> {
    tiles.filter(shadow_filter(viewed)).map_values(shadow_maker(viewed))
}

/// The shadows above the tiles of `layers`: those of the lowest layer first.
pub open spec fn world_shadows(viewed: Height, layers: Seq<Layer>) -> Seq<ShadowTile>
    decreases layers.len(),
{
    if layers.len() == 0 {
        Seq::empty()
    } else {
        world_shadows(viewed, layers.drop_last()) + layer_shadows(viewed, layers.last()@)
    }
}

/// The shadows of a list of tiles with one more tile at its end.
proof fn lemma_layer_shadows_push(viewed: Height, tiles: Seq<Tile>, tile: Tile)
    ensures
        layer_shadows(viewed, tiles.push(tile)) == if casts_shadow(viewed, tile) {
            layer_shadows(viewed, tiles).push(shadow_of(viewed, tile))
        } else {
            layer_shadows(viewed, tiles)
        },
{
    let longer = tiles.push(tile);
    assert(longer.drop_last() == tiles);
    assert(longer.last() == tile);
    assert(longer.filter(shadow_filter(viewed)) == if casts_shadow(viewed, tile) {
        tiles.filter(shadow_filter(viewed)).push(tile)
    } else {
        tiles.filter(shadow_filter(viewed))
    }) by {
        reveal_with_fuel(Seq::filter, 2);
    }
    if casts_shadow(viewed, tile) {
        tiles.filter(shadow_filter(viewed)).lemma_push_map_commute(shadow_maker(viewed), tile);
    }
}

/// Builds the shadow overlay for the viewed height from the tiles that are
/// shown: above each shown ground tile at or below the viewed height stands a
/// shadow, four steps darker for each layer of depth and fully dark from a
/// depth of 64 layers on. The overlay is built new each time.
pub fn create_shadows(
    map_settings: &MapSettings,
    display_height: &DisplayHeight,
    tilemap3d: &Tilemap3D,
) -> (shadows: ShadowMap)
    ensures
        shadows.size == map_settings.layer_size(),
        shadows.tiles@ == world_shadows(display_height.height, tilemap3d@),
{
    let viewed = display_height.height;
    let layers = tilemap3d.layers();
    let mut tiles: Vec<ShadowTile> = Vec::new();
    let mut k: usize = 0;
    while k < layers.len()
        invariant
            0 <= k <= layers@.len(),
            layers@ == tilemap3d@,
            tiles@ == world_shadows(viewed, layers@.take(k as int)),
        decreases layers@.len() - k,
    {
        let layer = layers[k].tiles();
        let ghost below = tiles@;
        let mut place: usize = 0;
        while place < layer.len()
            invariant
                0 <= place <= layer@.len(),
                tiles@ == below + layer_shadows(viewed, layer@.take(place as int)),
            decreases layer@.len() - place,
        {
            let tile = layer[place];
            proof {
                assert(layer@.take(place + 1) == layer@.take(place as int).push(tile));
                lemma_layer_shadows_push(viewed, layer@.take(place as int), tile);
            }
            if tile.visible && tile.kind == TileKind::Terrain && tile.position.z <= viewed.value {
                tiles.push(
                    ShadowTile {
                        x: tile.position.x,
                        y: tile.position.y,
                        alpha: shadow_alpha(viewed, Height { value: tile.position.z }),
                    },
                );
            }
            place += 1;
        }
        proof {
            assert(layer@.take(layer@.len() as int) == layer@);
            assert(layers@.take(k + 1).drop_last() == layers@.take(k as int));
            assert(layers@.take(k + 1).last() == layers@[k as int]);
        }
        k += 1;
    }
    proof {
        assert(layers@.take(layers@.len() as int) == layers@);
    }
    ShadowMap { size: map_settings.layer_size(), tiles }
}

} // verus!
