use tilemap::decoder::{
    atlas_position_for, locate_tile, sample_atlas, sample_tile_map, AtlasPosition, Rgba, TileHit,
    TileMapMaterial, TileSetAtlas, Uv, TILE_PITCH, UV_ONE,
};
use tilemap::tile_index::{TileId, TileIndexTexture};

const ONE: u32 = 0x1_0000;

fn uv(u: u32, v: u32) -> Uv {
    Uv::new(u, v).expect("a coordinate in the unit square")
}

/// An atlas in which every texel holds its own column and row.
fn atlas(width: usize, height: usize) -> TileSetAtlas {
    let mut texels = Vec::new();
    for y in 0..height {
        for x in 0..width {
            texels.push(Rgba { r: x as u8, g: y as u8, b: 7, a: 255 });
        }
    }
    TileSetAtlas::new(width, height, texels).expect("an atlas that is not empty")
}

fn texel(x: u8, y: u8) -> Rgba {
    Rgba { r: x, g: y, b: 7, a: 255 }
}

fn map_of_one(id: TileId) -> TileIndexTexture {
    TileIndexTexture::new(1, 1, vec![id]).expect("one texel")
}

#[test]
fn coordinate_units() {
    assert_eq!(UV_ONE, 65_536);
    assert_eq!(UV_ONE, ONE);
    assert_eq!(TILE_PITCH, 8);
}

#[test]
fn coordinates_lie_in_the_closed_unit_square() {
    assert!(Uv::new(0, 0).is_some());
    assert!(Uv::new(ONE, ONE).is_some());
    assert!(Uv::new(ONE - 1, 0).is_some());
    assert!(Uv::new(ONE + 1, 0).is_none());
    assert!(Uv::new(0, ONE + 1).is_none());
    assert!(Uv::new(u32::MAX, u32::MAX).is_none());
    let c = uv(123, 456);
    assert_eq!((c.u(), c.v()), (123, 456));
}

#[test]
fn atlas_position_adds_offset_to_tile_and_scales_by_the_pitch() {
    // Tile 1 at half a tile: (1 + 0.5) * 8 = 12 texels. Tile 2 at no offset: 16 texels.
    let pos = atlas_position_for(TileHit { id: TileId { x: 1, y: 2 }, offset_x: ONE / 2, offset_y: 0 });
    assert_eq!(pos, AtlasPosition { x: 12 * 65_536, y: 16 * 65_536 });
    // Tile 0 at three quarters: 6 texels. Tile 255 at the last offset below one.
    let pos = atlas_position_for(TileHit {
        id: TileId { x: 0, y: 255 },
        offset_x: 3 * ONE / 4,
        offset_y: ONE - 1,
    });
    assert_eq!(pos.x, 6 * 65_536);
    assert_eq!(pos.y, (255 * 65_536 + 65_535) * 8);
    assert_eq!(pos.y, 2_048 * 65_536 - 8);
}

#[test]
fn atlas_position_takes_any_offset() {
    let pos = atlas_position_for(TileHit {
        id: TileId { x: 255, y: 0 },
        offset_x: u32::MAX,
        offset_y: u32::MAX,
    });
    assert_eq!(pos.x, (255u64 * 65_536 + 4_294_967_295) * 8);
    assert_eq!(pos.y, 4_294_967_295u64 * 8);
}

#[test]
fn one_tile_atlas_and_a_known_index_texel() {
    // The map is one cell that names tile (0, 0); the atlas is that one tile.
    // A coordinate then reads the texel of the atlas that lies at eight times
    // the coordinate.
    let map = map_of_one(TileId { x: 0, y: 0 });
    let tiles = atlas(8, 8);
    for py in 0..8u32 {
        for px in 0..8u32 {
            let left = uv(px * ONE / 8, py * ONE / 8);
            let centre = uv(px * ONE / 8 + ONE / 16, py * ONE / 8 + ONE / 16);
            let last = uv((px + 1) * ONE / 8 - 1, (py + 1) * ONE / 8 - 1);
            for c in [left, centre, last] {
                let hit = locate_tile(&map, c);
                assert_eq!(hit.id, TileId { x: 0, y: 0 });
                assert_eq!((hit.offset_x, hit.offset_y), (c.u(), c.v()));
                let pos = atlas_position_for(hit);
                assert_eq!(pos, AtlasPosition { x: c.u() as u64 * 8, y: c.v() as u64 * 8 });
                assert_eq!(sample_tile_map(&map, &tiles, c), texel(px as u8, py as u8));
            }
        }
    }
}

#[test]
fn the_tile_id_selects_the_tile_of_the_atlas() {
    let map = map_of_one(TileId { x: 2, y: 1 });
    let tiles = atlas(32, 16);
    assert_eq!(sample_tile_map(&map, &tiles, uv(0, 0)), texel(16, 8));
    assert_eq!(sample_tile_map(&map, &tiles, uv(ONE / 2, ONE / 4)), texel(20, 10));
    assert_eq!(sample_tile_map(&map, &tiles, uv(ONE - 1, ONE - 1)), texel(23, 15));
}

#[test]
fn locate_finds_cell_and_offset() {
    let map = TileIndexTexture::demo_map();
    // u = 1.5 / 16 lies half way into column 1; v = 1 / 16 is the top of row 1.
    let hit = locate_tile(&map, uv(0x1800, 0x1000));
    assert_eq!(hit, TileHit { id: TileId { x: 1, y: 1 }, offset_x: 0x8000, offset_y: 0 });
    // Column 4 of row 0, a quarter in; row 0 at three quarters.
    let hit = locate_tile(&map, uv(0x4400, 0x0c00));
    assert_eq!(hit, TileHit { id: TileId { x: 0, y: 0 }, offset_x: 0x4000, offset_y: 0xc000 });
    // Row 9 holds the fill tile.
    let hit = locate_tile(&map, uv(0x0001, 0x9fff));
    assert_eq!(hit, TileHit { id: TileId { x: 8, y: 0 }, offset_x: 0x0010, offset_y: 0xfff0 });
}

#[test]
fn offsets_are_fractions_of_a_cell_that_is_not_a_power_of_two() {
    let texels = vec![
        TileId { x: 0, y: 0 },
        TileId { x: 1, y: 0 },
        TileId { x: 2, y: 0 },
    ];
    let map = TileIndexTexture::new(3, 1, texels).expect("three texels");
    // u * 3 = 0x1_8000: column 1, half a cell in.
    let hit = locate_tile(&map, uv(0x8000, 0));
    assert_eq!(hit, TileHit { id: TileId { x: 1, y: 0 }, offset_x: 0x8000, offset_y: 0 });
    // u * 3 = 0x2_fffd: column 2, three units short of its end.
    let hit = locate_tile(&map, uv(0xffff, 0x4000));
    assert_eq!(hit, TileHit { id: TileId { x: 2, y: 0 }, offset_x: 0xfffd, offset_y: 0x4000 });
}

#[test]
fn a_coordinate_of_one_reads_the_last_cell_at_offset_zero() {
    let map = TileIndexTexture::demo_map();
    let hit = locate_tile(&map, uv(ONE, ONE));
    assert_eq!(hit, TileHit { id: TileId { x: 8, y: 0 }, offset_x: 0, offset_y: 0 });
    let hit = locate_tile(&map, uv(ONE, 0));
    assert_eq!(hit, TileHit { id: TileId { x: 1, y: 0 }, offset_x: 0, offset_y: 0 });
    let hit = locate_tile(&map, uv(ONE, 0x1000));
    assert_eq!(hit, TileHit { id: TileId { x: 1, y: 1 }, offset_x: 0, offset_y: 0 });
    let tiles = atlas(72, 16);
    assert_eq!(sample_tile_map(&map, &tiles, uv(ONE, ONE)), texel(64, 0));
    assert_eq!(sample_tile_map(&map, &tiles, uv(ONE, 0)), texel(8, 0));
}

#[test]
fn a_position_past_the_atlas_reads_its_last_texel() {
    let tiles = atlas(8, 8);
    assert_eq!(sample_atlas(&tiles, AtlasPosition { x: 0, y: 0 }), texel(0, 0));
    assert_eq!(sample_atlas(&tiles, AtlasPosition { x: 0x7_ffff, y: 0x3_0000 }), texel(7, 3));
    assert_eq!(sample_atlas(&tiles, AtlasPosition { x: 0x8_0000, y: 0 }), texel(7, 0));
    assert_eq!(sample_atlas(&tiles, AtlasPosition { x: 0, y: 0x8_0000 }), texel(0, 7));
    assert_eq!(sample_atlas(&tiles, AtlasPosition { x: u64::MAX, y: u64::MAX }), texel(7, 7));
    // The fill tile (8, 0) lies past an atlas of one tile.
    let map = TileIndexTexture::demo_map();
    assert_eq!(sample_tile_map(&map, &tiles, uv(ONE / 2, ONE / 2)), texel(7, 0));
}

#[test]
fn atlas_reads_round_down_to_the_texel() {
    let tiles = atlas(16, 16);
    assert_eq!(sample_atlas(&tiles, AtlasPosition { x: 0xffff, y: 0x1_0000 }), texel(0, 1));
    assert_eq!(sample_atlas(&tiles, AtlasPosition { x: 0x1_0000, y: 0xffff }), texel(1, 0));
    assert_eq!(sample_atlas(&tiles, AtlasPosition { x: 0xc_8000, y: 0xf_ffff }), texel(12, 15));
}

#[test]
fn demo_map_draws_alternating_tiles_and_fill() {
    let map = TileIndexTexture::demo_map();
    let tiles = atlas(72, 16);
    let cell = ONE / 16;
    let pixel = cell / 8;
    for row in 0..16u32 {
        for col in 0..16u32 {
            let (tx, ty) = if row < 2 { (col % 2, row % 2) } else { (8, 0) };
            for (px, py) in [(0u32, 0u32), (3, 5), (7, 7)] {
                let c = uv(col * cell + px * pixel + pixel / 2, row * cell + py * pixel + pixel / 2);
                let expected = texel((tx * 8 + px) as u8, (ty * 8 + py) as u8);
                assert_eq!(sample_tile_map(&map, &tiles, c), expected);
            }
        }
    }
    assert_eq!(sample_tile_map(&map, &tiles, uv(0, 0)), texel(0, 0));
    assert_eq!(sample_tile_map(&map, &tiles, uv(cell, 0)), texel(8, 0));
    assert_eq!(sample_tile_map(&map, &tiles, uv(cell, cell)), texel(8, 8));
    assert_eq!(sample_tile_map(&map, &tiles, uv(0, 2 * cell)), texel(64, 0));
    assert_eq!(sample_tile_map(&map, &tiles, uv(ONE - 1, ONE - 1)), texel(71, 7));
}

#[test]
fn sampling_is_the_three_steps_in_a_row() {
    let map = TileIndexTexture::demo_map();
    let tiles = atlas(72, 16);
    for c in [uv(0, 0), uv(0x1234, 0x0456), uv(0xffff, 0x1fff), uv(ONE, ONE), uv(0x8000, 0x8000)] {
        let by_steps = sample_atlas(&tiles, atlas_position_for(locate_tile(&map, c)));
        assert_eq!(sample_tile_map(&map, &tiles, c), by_steps);
    }
}

#[test]
fn equal_inputs_give_equal_colours() {
    let map = TileIndexTexture::demo_map();
    let tiles = atlas(72, 16);
    let again = atlas(72, 16);
    let map_again = TileIndexTexture::demo_map();
    for step in 0..64u32 {
        let c = uv(step * 1_021 % ONE, step * 4_093 % ONE);
        let same = uv(c.u(), c.v());
        let first = sample_tile_map(&map, &tiles, c);
        assert_eq!(sample_tile_map(&map, &tiles, c), first);
        assert_eq!(sample_tile_map(&map, &tiles, same), first);
        assert_eq!(sample_tile_map(&map_again, &again, same), first);
    }
    assert_eq!(sample_tile_map(&map, &tiles, uv(0x1234, 0x0456)), texel(9, 2));
}

#[test]
fn nothing_is_drawn_until_the_atlas_is_loaded() {
    let mut material = TileMapMaterial {
        tile_map_texture: TileIndexTexture::demo_map(),
        tile_set_texture: None,
    };
    assert_eq!(material.fragment(uv(0, 0)), None);
    assert_eq!(material.fragment(uv(ONE, ONE)), None);
    material.tile_set_texture = Some(atlas(72, 16));
    assert_eq!(material.fragment(uv(0, 0)), Some(texel(0, 0)));
    assert_eq!(material.fragment(uv(ONE, ONE)), Some(texel(64, 0)));
    assert_eq!(material.fragment(uv(0x1800, 0x1000)), Some(texel(12, 8)));
}
