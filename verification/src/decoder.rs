//! The tile decoder: from a coordinate on the map to a colour of the atlas.
//!
//! The tile-index texture is read at the coordinate; its texel names a tile of
//! the atlas by column and row. The coordinate's offset into its cell of the
//! map is the offset into that tile, and the atlas is read there.
//!
//! A coordinate is a binary fixed-point number with sixteen fractional bits.
//! A texture coordinate runs from zero to one across a texture; a position in
//! texel space counts texels, so it is the coordinate times the texture's size.
//! Both textures are read with nearest-neighbour filtering and clamp
//! addressing: a position is rounded down to its texel, and a position past
//! the last texel reads the last texel.

use vstd::prelude::*;
use crate::texture::{Grid, Texture};
use crate::tile_index::{TileId, TileIndexTexture};

verus! {

/// Coordinate units in one: in a texture coordinate of one, and in a position
/// of one texel.
pub const UV_ONE: u32 = 0x1_0000;

/// The width and the height of a tile of the atlas, in texels.
pub const TILE_PITCH: u32 = 8;

/// A colour: red, green, blue and alpha.
#[derive(Clone, Copy, Debug, PartialEq, Eq, Structural)]
pub struct Rgba {
    pub r: u8,
    pub g: u8,
    pub b: u8,
    pub a: u8,
}

/// A tile-set atlas: a picture that holds the tiles in a grid.
pub type TileSetAtlas = Texture<Rgba>;

/// A texture coordinate in the unit square, both ends included.
#[derive(Clone, Copy, Debug, PartialEq, Eq)]
pub struct Uv {
    u: u32,
    v: u32,
}

impl View for Uv {
    type V = (int, int);

    /// The horizontal and the vertical coordinate, in coordinate units.
    closed spec fn view(&self) -> (int, int) {
        (self.u as int, self.v as int)
    }
}

impl Uv {
    #[verifier::type_invariant]
    spec fn in_unit_square(self) -> bool {
        self.u <= UV_ONE && self.v <= UV_ONE
    }

    /// The coordinate `(u, v)`, where neither is greater than one.
    pub fn new(u: u32, v: u32) -> (uv: Option<Uv>)
        ensures
            uv is Some <==> u <= UV_ONE && v <= UV_ONE,
            uv matches Some(c) ==> c@ == (u as int, v as int),
    {
        if u <= UV_ONE && v <= UV_ONE {
            Some(Uv { u, v })
        } else {
            None
        }
    }

    /// The horizontal coordinate.
    pub fn u(&self) -> (u: u32)
        ensures
            u == self@.0,
            u <= UV_ONE,
    {
        proof {
            use_type_invariant(self);
        }
        self.u
    }

    /// The vertical coordinate.
    pub fn v(&self) -> (v: u32)
        ensures
            v == self@.1,
            v <= UV_ONE,
    {
        proof {
            use_type_invariant(self);
        }
        self.v
    }
}

/// The texel that a nearest-neighbour read at position `pos` of a texture of
/// `size` texels returns: the texel that holds the position, or the last texel
/// where the position lies past it.
pub open spec fn nearest_texel(pos: int, size: int) -> int {
    if pos / (UV_ONE as int) < size {
        pos / (UV_ONE as int)
    } else {
        size - 1
    }
}

/// The fractional part of a position: how far it lies into its texel.
pub open spec fn fraction(pos: int) -> int {
    pos % (UV_ONE as int)
}

/// The position in the atlas, in texel space, of the point that lies `offset`
/// of a tile into tile number `id`: the tile number and the offset are added
/// and scaled by the tile pitch. Divided by the atlas's size this is the
/// texture coordinate at which the atlas is read.
pub open spec fn atlas_position(id: int, offset: int) -> int {
    (id * UV_ONE + offset) * TILE_PITCH
}

/// Where a coordinate falls on the map: the tile id of the cell that it hits,
/// and how far into that cell it lies along each axis.
#[derive(Clone, Copy, Debug, PartialEq, Eq, Structural)]
pub struct TileHit {
    pub id: TileId,
    pub offset_x: u32,
    pub offset_y: u32,
}

/// A position in the atlas, in texel space.
#[derive(Clone, Copy, Debug, PartialEq, Eq, Structural)]
pub struct AtlasPosition {
    pub x: u64,
    pub y: u64,
}

/// The cell of the map that the coordinate `uv` hits and the offset into it.
pub open spec fn tile_hit(tile_map: Grid<TileId>, uv: (int, int)) -> TileHit {
    TileHit {
        id: tile_map.at(
            nearest_texel(uv.0 * tile_map.width, tile_map.width as int),
            nearest_texel(uv.1 * tile_map.height, tile_map.height as int),
        ),
        offset_x: fraction(uv.0 * tile_map.width) as u32,
        offset_y: fraction(uv.1 * tile_map.height) as u32,
    }
}

/// The position in the atlas that a hit on the map is drawn from.
pub open spec fn atlas_position_of(hit: TileHit) -> AtlasPosition {
    AtlasPosition {
        x: atlas_position(hit.id.x as int, hit.offset_x as int) as u64,
        y: atlas_position(hit.id.y as int, hit.offset_y as int) as u64,
    }
}

/// The colour that the atlas holds at a position.
pub open spec fn atlas_color(tile_set: Grid<Rgba>, pos: AtlasPosition) -> Rgba {
    tile_set.at(
        nearest_texel(pos.x as int, tile_set.width as int),
        nearest_texel(pos.y as int, tile_set.height as int),
    )
}

/// The colour of the map at the coordinate `uv`.
pub open spec fn map_color(tile_map: Grid<TileId>, tile_set: Grid<Rgba>, uv: (int, int)) -> Rgba {
    atlas_color(tile_set, atlas_position_of(tile_hit(tile_map, uv)))
}

/// A nearest-neighbour read stays within the texture.
pub proof fn lemma_nearest_texel_in_bounds(pos: int, size: int)
    requires
        0 <= pos,
        0 < size,
    ensures
        0 <= nearest_texel(pos, size) < size,
{
}

/// The offset of a position into its texel is less than one.
pub proof fn lemma_fraction_below_one(pos: int)
    ensures
        0 <= fraction(pos) < UV_ONE,
{
}

/// A position that lies `offset` into texel number `cell` is read from that
/// texel, and its fractional part is the offset.
pub proof fn lemma_position_in_cell(pos: int, size: int, cell: int, offset: int)
    requires
        0 <= cell < size,
        0 <= offset < UV_ONE,
        pos == cell * UV_ONE + offset,
    ensures
        nearest_texel(pos, size) == cell,
        fraction(pos) == offset,
{
    vstd::arithmetic::div_mod::lemma_fundamental_div_mod_converse(
        pos,
        UV_ONE as int,
        cell,
        offset,
    );
}

/// A coordinate of exactly one is clamped: it reads the last texel of the
/// texture, at an offset of zero.
pub proof fn lemma_coordinate_one_is_clamped(size: int)
    requires
        0 < size,
    ensures
        nearest_texel(UV_ONE * size, size) == size - 1,
        fraction(UV_ONE * size) == 0,
{
    vstd::arithmetic::div_mod::lemma_fundamental_div_mod_converse(
        UV_ONE * size,
        UV_ONE as int,
        size,
        0,
    );
}

/// The position in the atlas lies within the tile that the tile id names: the
/// texel that holds it is one of the `TILE_PITCH` texels of that tile, found
/// by scaling the offset by the pitch.
pub proof fn lemma_atlas_position_in_tile(id: int, offset: int)
    requires
        0 <= offset < UV_ONE,
    ensures
        atlas_position(id, offset) / (UV_ONE as int) == id * TILE_PITCH + (offset * TILE_PITCH) / (
            UV_ONE as int
        ),
        id * TILE_PITCH <= atlas_position(id, offset) / (UV_ONE as int) < (id + 1) * TILE_PITCH,
        fraction(atlas_position(id, offset)) == fraction(offset * TILE_PITCH),
{
    let scaled = offset * TILE_PITCH;
    vstd::arithmetic::div_mod::lemma_fundamental_div_mod_converse(
        atlas_position(id, offset),
        UV_ONE as int,
        id * TILE_PITCH + scaled / (UV_ONE as int),
        scaled % (UV_ONE as int),
    );
}

/// Where the tile that a coordinate hits lies within the atlas, the colour of
/// the map there is a texel of that tile: along each axis the texel of the
/// atlas is the tile number times the pitch, plus the offset into the cell
/// scaled by the pitch and rounded down.
pub proof fn lemma_map_color_is_tile_texel(
    tile_map: Grid<TileId>,
    tile_set: Grid<Rgba>,
    uv: (int, int),
)
    requires
        tile_map.wf(),
        tile_set.wf(),
        0 <= uv.0 <= UV_ONE,
        0 <= uv.1 <= UV_ONE,
        (tile_hit(tile_map, uv).id.x + 1) * TILE_PITCH <= tile_set.width,
        (tile_hit(tile_map, uv).id.y + 1) * TILE_PITCH <= tile_set.height,
    ensures
        map_color(tile_map, tile_set, uv) == tile_set.at(
            tile_hit(tile_map, uv).id.x * TILE_PITCH + (tile_hit(tile_map, uv).offset_x
                * TILE_PITCH) / (UV_ONE as int),
            tile_hit(tile_map, uv).id.y * TILE_PITCH + (tile_hit(tile_map, uv).offset_y
                * TILE_PITCH) / (UV_ONE as int),
        ),
{
    let hit = tile_hit(tile_map, uv);
    lemma_atlas_position_in_tile(hit.id.x as int, hit.offset_x as int);
    lemma_atlas_position_in_tile(hit.id.y as int, hit.offset_y as int);
}

/// Reads the texel of a texture that holds the position `pos`.
fn texel_index(pos: u128, size: usize) -> (index: usize)
    requires
        0 < size,
    ensures
        index == nearest_texel(pos as int, size as int),
        index < size,
{
    let texel: u128 = pos / (UV_ONE as u128);
    if texel < size as u128 {
        texel as usize
    } else {
        size - 1
    }
}

/// Finds the cell of the map that a coordinate hits: the tile id that the
/// tile-index texture holds there, and the offset of the coordinate into the
/// cell.
pub fn locate_tile(tile_map: &TileIndexTexture, uv: Uv) -> (hit: TileHit)
    ensures
        hit == tile_hit(tile_map@, uv@),
        hit.offset_x < UV_ONE,
        hit.offset_y < UV_ONE,
{
    let width = tile_map.width();
    let height = tile_map.height();
    let u = uv.u();
    let v = uv.v();
    assert(u * width <= u128::MAX && v * height <= u128::MAX) by (nonlinear_arith)
        requires
            u <= 0x1_0000,
            v <= 0x1_0000,
            width <= u64::MAX,
            height <= u64::MAX,
    ;
    let pos_x: u128 = (u as u128) * (width as u128);
    let pos_y: u128 = (v as u128) * (height as u128);
    let x = texel_index(pos_x, width);
    let y = texel_index(pos_y, height);
    TileHit {
        id: *tile_map.texel(x, y),
        offset_x: (pos_x % (UV_ONE as u128)) as u32,
        offset_y: (pos_y % (UV_ONE as u128)) as u32,
    }
}

/// Computes the position in the atlas that a hit on the map is drawn from:
/// along each axis the tile number plus the offset into the cell, times the
/// tile pitch.
pub fn atlas_position_for(hit: TileHit) -> (pos: AtlasPosition)
    ensures
        pos == atlas_position_of(hit),
        pos.x == (hit.id.x * UV_ONE + hit.offset_x) * TILE_PITCH,
        pos.y == (hit.id.y * UV_ONE + hit.offset_y) * TILE_PITCH,
{
    let one: u64 = UV_ONE as u64;
    let pitch: u64 = TILE_PITCH as u64;
    AtlasPosition {
        x: (hit.id.x as u64 * one + hit.offset_x as u64) * pitch,
        y: (hit.id.y as u64 * one + hit.offset_y as u64) * pitch,
    }
}

/// Reads the colour that the atlas holds at a position.
pub fn sample_atlas(tile_set: &TileSetAtlas, pos: AtlasPosition) -> (color: Rgba)
    ensures
        color == atlas_color(tile_set@, pos),
{
    let x = texel_index(pos.x as u128, tile_set.width());
    let y = texel_index(pos.y as u128, tile_set.height());
    *tile_set.texel(x, y)
}

/// The colour of the map at the coordinate `uv`: the tile id is read from the
/// tile-index texture, and the colour from that tile of the atlas, at the
/// offset at which the coordinate lies in its cell. The colour depends on the
/// two textures and the coordinate alone.
pub fn sample_tile_map(tile_map: &TileIndexTexture, tile_set: &TileSetAtlas, uv: Uv) -> (color:
    Rgba)
    ensures
        color == map_color(tile_map@, tile_set@, uv@),
{
    let hit = locate_tile(tile_map, uv);
    let pos = atlas_position_for(hit);
    sample_atlas(tile_set, pos)
}

/// What the map is drawn with: the tile-index texture, and the atlas once it
/// has been loaded.
#[derive(Debug, PartialEq, Eq)]
pub struct TileMapMaterial {
    pub tile_map_texture: TileIndexTexture,
    pub tile_set_texture: Option<TileSetAtlas>,
}

impl TileMapMaterial {
    /// The colour of one fragment of the map. Nothing is drawn while the atlas
    /// has not been loaded.
    pub fn fragment(&self, uv: Uv) -> (color: Option<Rgba>)
        ensures
            self.tile_set_texture is None ==> color is None,
            self.tile_set_texture matches Some(tile_set) ==> color == Some(
                map_color(self.tile_map_texture@, tile_set@, uv@),
            ),
    {
        match &self.tile_set_texture {
            Some(tile_set) => Some(sample_tile_map(&self.tile_map_texture, tile_set, uv)),
            None => None,
        }
    }
}

} // verus!
