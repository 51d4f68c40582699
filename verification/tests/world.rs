use rusted_fortress::camera::{
    can_display, create_shadows, display_height_input, display_layer, initalize_resources,
    shadow_alpha, DisplayHeight, ShadowTile,
};
use rusted_fortress::map_gen::height::Height;
use rusted_fortress::map_gen::{create_tilemap, create_tilemap3d, MapHeight, MapSettings, Tilemap3D};
use rusted_fortress::tiles::{GameTilePos, GameTilemapSize, Index2D, Tile, TileKind};

fn settings(width: usize, depth: usize, min: usize, max: usize, samples: Vec<usize>) -> MapSettings {
    let size = GameTilemapSize::new(width, depth);
    let limits = MapHeight::new(max, min);
    assert!(size.can_hold() && limits.is_valid());
    assert_eq!(samples.len(), size.cell_count());
    MapSettings::new(size, limits, &samples)
}

fn flat(surface: usize) -> MapSettings {
    settings(4, 4, 0, 4, vec![surface; 16])
}

fn visible(world: &Tilemap3D, x: usize, y: usize, z: usize) -> bool {
    world.get(GameTilePos { x, y, z }).unwrap().visible
}

fn layer_visible(world: &Tilemap3D, z: usize) -> Vec<bool> {
    world.layers()[z - world.height_limits().min.value]
        .tiles()
        .iter()
        .map(|tile| tile.visible)
        .collect()
}

fn view(
    height: usize,
    previous: &mut Option<Height>,
    settings: &MapSettings,
    world: &mut Tilemap3D,
) {
    let display_height = DisplayHeight { height: Height { value: height } };
    assert!(world.fits(settings));
    assert!(can_display(&display_height, previous, settings));
    display_layer(&display_height, previous, settings, world);
    assert_eq!(*previous, Some(Height { value: height }));
}

#[test]
fn world_has_one_layer_per_height() {
    let settings = settings(3, 2, 2, 6, vec![2, 3, 4, 5, 3, 2]);
    let world = create_tilemap3d(&settings);
    assert!(world.fits(&settings));
    assert_eq!(world.layers().len(), 4);
    for (k, layer) in world.layers().iter().enumerate() {
        assert_eq!(layer.height(), Height { value: 2 + k });
        assert_eq!(layer.size(), settings.layer_size());
        assert_eq!(layer.tiles().len(), 6);
    }
}

#[test]
fn tiles_are_ground_exactly_up_to_the_surface() {
    let samples = vec![2, 3, 4, 5, 3, 2];
    let settings = settings(3, 2, 2, 6, samples);
    let world = create_tilemap3d(&settings);
    for x in 0..3usize {
        for y in 0..2usize {
            let surface = settings.surface_height((x, y));
            for z in 2..6usize {
                let tile = world.get(GameTilePos { x, y, z }).unwrap();
                assert_eq!(tile.position, GameTilePos { x, y, z });
                assert_eq!(tile.kind == TileKind::Terrain, z <= surface.value);
                assert_eq!(tile.kind == TileKind::Open, z > surface.value);
                assert!(!tile.visible);
            }
        }
    }
    assert_eq!(
        world.get(GameTilePos { x: 1, y: 1, z: 3 }),
        Some(Tile {
            position: GameTilePos { x: 1, y: 1, z: 3 },
            kind: TileKind::Terrain,
            visible: false
        })
    );
    assert_eq!(
        world.get(GameTilePos { x: 0, y: 1, z: 4 }).unwrap().kind,
        TileKind::Open
    );
    assert_eq!(
        world.get(GameTilePos { x: 0, y: 1, z: 3 }).unwrap().kind,
        TileKind::Terrain
    );
}

#[test]
fn get_finds_no_tile_outside_the_world() {
    let settings = settings(3, 2, 2, 6, vec![2; 6]);
    let world = create_tilemap3d(&settings);
    assert_eq!(world.get(GameTilePos { x: 3, y: 0, z: 2 }), None);
    assert_eq!(world.get(GameTilePos { x: 0, y: 2, z: 2 }), None);
    assert_eq!(world.get(GameTilePos { x: 0, y: 0, z: 1 }), None);
    assert_eq!(world.get(GameTilePos { x: 0, y: 0, z: 6 }), None);
    assert!(world.get(GameTilePos { x: 2, y: 1, z: 5 }).is_some());
}

#[test]
fn layer_lookup_by_coordinate() {
    let settings = settings(3, 2, 0, 4, vec![0, 1, 2, 3, 2, 1]);
    let layer = create_tilemap(Height { value: 2 }, &settings);
    assert_eq!(layer.height(), Height { value: 2 });
    assert_eq!(
        layer.get_2d((1, 0)),
        Some(Tile {
            position: GameTilePos { x: 1, y: 0, z: 2 },
            kind: TileKind::Terrain,
            visible: false
        })
    );
    assert_eq!(layer.get_2d((0, 1)).unwrap().kind, TileKind::Open);
    assert_eq!(layer.get_2d((3, 0)), None);
    assert_eq!(layer.get_2d((0, 2)), None);
}

#[test]
fn first_update_shows_exactly_the_viewed_layer() {
    for start in 0..4usize {
        let settings = flat(2);
        let mut world = create_tilemap3d(&settings);
        let mut previous = None;
        view(start, &mut previous, &settings, &mut world);
        for z in 0..4usize {
            for x in 0..4usize {
                for y in 0..4usize {
                    assert_eq!(visible(&world, x, y, z), z == start);
                }
            }
        }
    }
}

#[test]
fn ascend_then_descend_round_trip() {
    // Surface at 1 in one column, at 2 in another, at 0 elsewhere.
    let mut samples = vec![0; 16];
    samples[0] = 1;
    samples[5] = 2;
    let settings = settings(4, 4, 0, 4, samples);
    let mut world = create_tilemap3d(&settings);
    let mut previous = None;
    view(1, &mut previous, &settings, &mut world);
    view(2, &mut previous, &settings, &mut world);
    view(1, &mut previous, &settings, &mut world);
    assert_eq!(layer_visible(&world, 1), vec![true; 16]);
    // The layer above is hidden after the step down, also where it is the
    // surface (the column at place 5, which is the cell (1, 1)).
    assert_eq!(layer_visible(&world, 2), vec![false; 16]);
    assert_eq!(settings.surface_height((1, 1)), Height { value: 2 });
    assert!(!visible(&world, 1, 1, 2));
}

#[test]
fn surface_stays_visible_underfoot() {
    let mut samples = vec![3; 16];
    samples[0] = 1;
    samples[7] = 1;
    samples[9] = 0;
    let settings = settings(4, 4, 0, 4, samples);
    let mut world = create_tilemap3d(&settings);
    let mut previous = None;
    view(1, &mut previous, &settings, &mut world);
    view(2, &mut previous, &settings, &mut world);
    let coords = settings.layer_size().coordinates();
    for (place, &(x, y)) in coords.iter().enumerate() {
        let on_surface = place == 0 || place == 7;
        assert_eq!(settings.surface_height((x, y)).value == 1, on_surface);
        assert_eq!(visible(&world, x, y, 1), on_surface);
        assert!(visible(&world, x, y, 2));
        assert!(!visible(&world, x, y, 0));
    }
}

#[test]
fn flat_world_walkthrough() {
    let settings = flat(2);
    let mut world = create_tilemap3d(&settings);
    let mut previous = None;
    let shown = vec![true; 16];
    let hidden = vec![false; 16];

    view(0, &mut previous, &settings, &mut world);
    assert_eq!(layer_visible(&world, 0), shown);
    assert_eq!(layer_visible(&world, 1), hidden);
    assert_eq!(layer_visible(&world, 2), hidden);
    assert_eq!(layer_visible(&world, 3), hidden);

    view(1, &mut previous, &settings, &mut world);
    assert_eq!(layer_visible(&world, 1), shown);
    assert_eq!(layer_visible(&world, 0), hidden);

    view(2, &mut previous, &settings, &mut world);
    assert_eq!(layer_visible(&world, 2), shown);
    assert_eq!(layer_visible(&world, 1), hidden);

    view(3, &mut previous, &settings, &mut world);
    assert_eq!(layer_visible(&world, 3), shown);
    assert_eq!(layer_visible(&world, 2), shown);
    assert_eq!(layer_visible(&world, 1), hidden);
    assert_eq!(layer_visible(&world, 0), hidden);

    view(2, &mut previous, &settings, &mut world);
    assert_eq!(layer_visible(&world, 2), shown);
    assert_eq!(layer_visible(&world, 3), hidden);
}

#[test]
fn update_without_a_change_of_height_changes_nothing() {
    let settings = flat(1);
    let mut world = create_tilemap3d(&settings);
    let mut previous = None;
    view(1, &mut previous, &settings, &mut world);
    view(2, &mut previous, &settings, &mut world);
    let before: Vec<Vec<bool>> = (0..4).map(|z| layer_visible(&world, z)).collect();
    view(2, &mut previous, &settings, &mut world);
    let after: Vec<Vec<bool>> = (0..4).map(|z| layer_visible(&world, z)).collect();
    assert_eq!(before, after);
}

#[test]
fn updates_keep_position_and_kind() {
    let settings = settings(2, 2, 0, 3, vec![0, 1, 2, 1]);
    let fresh = create_tilemap3d(&settings);
    let mut world = create_tilemap3d(&settings);
    let mut previous = None;
    for height in [0usize, 1, 2, 1, 0, 1] {
        view(height, &mut previous, &settings, &mut world);
    }
    for x in 0..2usize {
        for y in 0..2usize {
            for z in 0..3usize {
                let position = GameTilePos { x, y, z };
                let now = world.get(position).unwrap();
                let then = fresh.get(position).unwrap();
                assert_eq!(now.position, then.position);
                assert_eq!(now.kind, then.kind);
            }
        }
    }
}

#[test]
fn out_of_range_and_multi_step_updates_are_not_accepted() {
    let settings = flat(2);
    let at = |value: usize| DisplayHeight { height: Height { value } };
    assert!(can_display(&at(0), &None, &settings));
    assert!(can_display(&at(3), &None, &settings));
    assert!(!can_display(&at(4), &None, &settings));
    let tracking = Some(Height { value: 1 });
    assert!(can_display(&at(0), &tracking, &settings));
    assert!(can_display(&at(1), &tracking, &settings));
    assert!(can_display(&at(2), &tracking, &settings));
    assert!(!can_display(&at(3), &tracking, &settings));
    assert!(!can_display(&at(3), &Some(Height { value: 0 }), &settings));
    assert!(!can_display(&at(3), &Some(Height { value: 4 }), &settings));
    let raised = MapSettings::new(GameTilemapSize::new(1, 1), MapHeight::new(8, 4), &vec![5]);
    assert!(!can_display(&at(3), &None, &raised));
    assert!(can_display(&at(4), &None, &raised));
}

#[test]
fn world_fits_only_the_settings_it_was_built_for() {
    let settings = flat(2);
    let world = create_tilemap3d(&settings);
    assert!(world.fits(&settings));
    assert!(!world.fits(&self::settings(4, 3, 0, 4, vec![2; 12])));
    assert!(!world.fits(&self::settings(4, 4, 0, 5, vec![2; 16])));
    assert!(!world.fits(&self::settings(4, 4, 1, 4, vec![2; 16])));
}

#[test]
fn viewer_starts_at_the_lowest_height() {
    let settings = settings(2, 2, 3, 9, vec![4; 4]);
    assert_eq!(
        initalize_resources(&settings),
        DisplayHeight { height: Height { value: 3 } }
    );
}

#[test]
fn input_moves_the_view_by_one_layer_within_the_limits() {
    let settings = settings(1, 1, 2, 5, vec![3]);
    let mut display_height = DisplayHeight { height: Height { value: 2 } };
    let mut step = |raise: bool, lower: bool| {
        display_height_input(raise, lower, &mut display_height, &settings);
        display_height.height.value
    };
    assert_eq!(step(false, false), 2);
    assert_eq!(step(false, true), 2);
    assert_eq!(step(true, false), 3);
    assert_eq!(step(true, true), 4);
    assert_eq!(step(true, false), 4);
    assert_eq!(step(false, true), 3);
    assert_eq!(step(false, false), 3);
}

#[test]
fn input_brings_a_stray_height_back_into_the_limits() {
    let settings = settings(1, 1, 2, 5, vec![3]);
    let mut display_height = DisplayHeight { height: Height { value: 0 } };
    display_height_input(false, true, &mut display_height, &settings);
    assert_eq!(display_height.height.value, 2);
    display_height.height.value = 0;
    display_height_input(true, false, &mut display_height, &settings);
    assert_eq!(display_height.height.value, 2);
    display_height.height.value = 9;
    display_height_input(false, true, &mut display_height, &settings);
    assert_eq!(display_height.height.value, 4);
    display_height.height.value = usize::MAX;
    display_height_input(true, false, &mut display_height, &settings);
    assert_eq!(display_height.height.value, 4);
}

#[test]
fn darkness_is_four_steps_per_layer_and_saturates() {
    let at = |value: usize| Height { value };
    assert_eq!(shadow_alpha(at(10), at(10)), 0);
    assert_eq!(shadow_alpha(at(10), at(9)), 4);
    assert_eq!(shadow_alpha(at(10), at(0)), 40);
    assert_eq!(shadow_alpha(at(63), at(0)), 252);
    assert_eq!(shadow_alpha(at(64), at(0)), 255);
    assert_eq!(shadow_alpha(at(65), at(0)), 255);
    assert_eq!(shadow_alpha(at(300), at(0)), 255);
    assert_eq!(shadow_alpha(at(usize::MAX), at(0)), 255);
    assert_eq!(shadow_alpha(at(3), at(7)), 0);
}

#[test]
fn darkness_grows_with_depth() {
    let viewed = Height { value: 100 };
    for lower in 0..=100usize {
        for higher in lower..=100usize {
            assert!(
                shadow_alpha(viewed, Height { value: lower })
                    >= shadow_alpha(viewed, Height { value: higher })
            );
        }
    }
}

#[test]
fn shadows_lie_above_shown_ground() {
    // Surface: 1 at (0, 0), 0 at (0, 1), 2 at (1, 0), 1 at (1, 1).
    let settings = settings(2, 2, 0, 3, vec![1, 0, 2, 1]);
    let mut world = create_tilemap3d(&settings);
    let mut previous = None;
    let at = |value: usize| DisplayHeight { height: Height { value } };

    let none = create_shadows(&settings, &at(0), &world);
    assert_eq!(none.size, settings.layer_size());
    assert_eq!(none.tiles, vec![]);

    view(0, &mut previous, &settings, &mut world);
    let ground = create_shadows(&settings, &at(0), &world);
    assert_eq!(
        ground.tiles,
        vec![
            ShadowTile { x: 0, y: 0, alpha: 0 },
            ShadowTile { x: 0, y: 1, alpha: 0 },
            ShadowTile { x: 1, y: 0, alpha: 0 },
            ShadowTile { x: 1, y: 1, alpha: 0 },
        ]
    );

    view(1, &mut previous, &settings, &mut world);
    let first = create_shadows(&settings, &at(1), &world);
    assert_eq!(
        first.tiles,
        vec![
            ShadowTile { x: 0, y: 1, alpha: 4 },
            ShadowTile { x: 0, y: 0, alpha: 0 },
            ShadowTile { x: 1, y: 0, alpha: 0 },
            ShadowTile { x: 1, y: 1, alpha: 0 },
        ]
    );

    view(2, &mut previous, &settings, &mut world);
    let second = create_shadows(&settings, &at(2), &world);
    assert_eq!(
        second.tiles,
        vec![
            ShadowTile { x: 0, y: 1, alpha: 8 },
            ShadowTile { x: 0, y: 0, alpha: 4 },
            ShadowTile { x: 1, y: 1, alpha: 4 },
            ShadowTile { x: 1, y: 0, alpha: 0 },
        ]
    );
    assert_eq!(second.size, GameTilemapSize { x: 2, y: 2 });
}

#[test]
fn shadows_leave_out_tiles_above_the_view() {
    let settings = settings(1, 1, 0, 3, vec![2]);
    let mut world = create_tilemap3d(&settings);
    let mut previous = None;
    view(2, &mut previous, &settings, &mut world);
    let at = |value: usize| DisplayHeight { height: Height { value } };
    assert_eq!(
        create_shadows(&settings, &at(2), &world).tiles,
        vec![ShadowTile { x: 0, y: 0, alpha: 0 }]
    );
    assert_eq!(create_shadows(&settings, &at(1), &world).tiles, vec![]);
}
