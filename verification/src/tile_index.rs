//! The tile-index texture: one texel per map cell, which names the tile of the
//! atlas that is drawn in that cell.

use vstd::prelude::*;
use crate::texture::{Texture, lemma_place_in_bounds, lemma_place_of_position};

verus! {

/// The columns of the demo map.
pub const DEMO_WIDTH: usize = 16;

/// The rows of the demo map.
pub const DEMO_HEIGHT: usize = 16;

/// The rows at the top of a pattern in which the tiles alternate.
pub const ALTERNATING_ROWS: usize = 2;

/// The atlas column of the tile that fills a pattern below its alternating
/// rows.
pub const FILL_TILE_X: u8 = 8;

/// The atlas row of that tile.
pub const FILL_TILE_Y: u8 = 0;

/// One texel of the tile-index texture: the column and the row of a tile in
/// the atlas, counted in tiles.
#[derive(Clone, Copy, Debug, PartialEq, Eq, Structural)]
pub struct TileId {
    pub x: u8,
    pub y: u8,
}

/// The tile that a pattern holds in column `x` of row `y`. In the first rows
/// the tile's column alternates between 0 and 1 along the row, and the tile's
/// row between 0 and 1 from one row to the next. Every row below holds the
/// fill tile.
pub open spec fn pattern_tile(x: int, y: int) -> TileId {
    if y < ALTERNATING_ROWS {
        TileId { x: (x % 2) as u8, y: (y % 2) as u8 }
    } else {
        TileId { x: FILL_TILE_X, y: FILL_TILE_Y }
    }
}

/// The bytes of a row of tile ids as a two-channel image: for each texel its
/// `x`, then its `y`.
pub open spec fn texel_bytes(texels: Seq<TileId>) -> Seq<u8> {
    Seq::new(
        2 * texels.len(),
        |i: int|
            if i % 2 == 0 {
                texels[i / 2].x
            } else {
                texels[i / 2].y
            },
    )
}

/// The tile of a pattern in column `x` of row `y`.
fn tile_of_pattern(x: usize, y: usize) -> (id: TileId)
    ensures
        id == pattern_tile(x as int, y as int),
{
    if y < ALTERNATING_ROWS {
        TileId { x: (x % 2) as u8, y: (y % 2) as u8 }
    } else {
        TileId { x: FILL_TILE_X, y: FILL_TILE_Y }
    }
}

/// A tile-index texture.
pub type TileIndexTexture = Texture<TileId>;

impl Texture<TileId> {
    /// The pattern of the given size: alternating tiles in the first two
    /// rows, the fill tile below. There is one for every size that is not
    /// empty.
    pub fn pattern(width: usize, height: usize) -> (texture: Option<TileIndexTexture>)
        ensures
            texture is Some <==> 0 < width && 0 < height,
            texture matches Some(t) ==> {
                &&& t@.wf()
                &&& t@.width == width
                &&& t@.height == height
                &&& forall|x: int, y: int|
                    t@.contains(x, y) ==> #[trigger] t@.at(x, y) == pattern_tile(x, y)
            },
    {
        if width == 0 || height == 0 {
            return None;
        }
        let mut texels: Vec<TileId> = Vec::new();
        let mut y: usize = 0;
        while y < height
            invariant
                0 < width,
                y <= height,
                texels@.len() == y * width,
                forall|k: int|
                    0 <= k < texels@.len() ==> texels@[k] == pattern_tile(
                        k % (width as int),
                        k / (width as int),
                    ),
            decreases height - y,
        {
            let mut x: usize = 0;
            while x < width
                invariant
                    0 < width,
                    y < height,
                    x <= width,
                    texels@.len() == y * width + x,
                    forall|k: int|
                        0 <= k < texels@.len() ==> texels@[k] == pattern_tile(
                            k % (width as int),
                            k / (width as int),
                        ),
                decreases width - x,
            {
                proof {
                    lemma_place_of_position(x as int, y as int, width as int);
                }
                texels.push(tile_of_pattern(x, y));
                x += 1;
            }
            assert((y + 1) * width == y * width + width) by (nonlinear_arith);
            y += 1;
        }
        assert(height * width == width * height) by (nonlinear_arith);
        let texture = Texture::new(width, height, texels).unwrap();
        assert forall|x: int, y: int| texture@.contains(x, y) implies #[trigger] texture@.at(x, y)
            == pattern_tile(x, y) by {
            lemma_place_in_bounds(x, y, width as int, height as int);
            lemma_place_of_position(x, y, width as int);
        }
        Some(texture)
    }

    /// The demo map: sixteen columns and sixteen rows of the pattern.
    /// Row 0 alternates between the tiles (0, 0) and (1, 0), row 1 between
    /// (0, 1) and (1, 1), and every texel of the rows below is the tile (8, 0).
    pub fn demo_map() -> (texture: TileIndexTexture)
        ensures
            texture@.wf(),
            texture@.width == DEMO_WIDTH,
            texture@.height == DEMO_HEIGHT,
            forall|x: int, y: int|
                texture@.contains(x, y) ==> #[trigger] texture@.at(x, y) == pattern_tile(x, y),
            forall|x: int|
                0 <= x < 16 ==> #[trigger] texture@.at(x, 0) == (TileId { x: (x % 2) as u8, y: 0 }),
            forall|x: int|
                0 <= x < 16 ==> #[trigger] texture@.at(x, 1) == (TileId { x: (x % 2) as u8, y: 1 }),
            forall|x: int, y: int|
                0 <= x < 16 && 2 <= y < 16 ==> #[trigger] texture@.at(x, y) == (TileId {
                    x: 8,
                    y: 0,
                }),
    {
        let texture = Self::pattern(DEMO_WIDTH, DEMO_HEIGHT).unwrap();
        texture
    }

    /// The texture as the bytes of a two-channel image with one byte per
    /// channel: the rows one after another, and for each texel its `x`, then
    /// its `y`.
    pub fn to_bytes(&self) -> (bytes: Vec<u8>)
        ensures
            bytes@ == texel_bytes(self@.texels),
            bytes@.len() == 2 * (self@.width * self@.height),
    {
        let texels = self.texels();
        let mut bytes: Vec<u8> = Vec::new();
        let mut i: usize = 0;
        while i < texels.len()
            invariant
                i <= texels@.len(),
                bytes@.len() == 2 * i,
                forall|k: int| 0 <= k < bytes@.len() ==> bytes@[k] == texel_bytes(texels@)[k],
            decreases texels@.len() - i,
        {
            let id = texels[i];
            bytes.push(id.x);
            bytes.push(id.y);
            i += 1;
        }
        bytes
    }
}

} // verus!
