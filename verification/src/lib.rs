//! A zoomable 2D tile map, in exact arithmetic.
//!
//! A tile map is drawn from two textures: a small tile-index texture with one
//! texel per map cell, and a tile-set atlas that holds the tile images. The
//! camera that looks at the map has a single scale, moved by the scroll wheel
//! and kept between an eighth and one.
//!
//! Every quantity that a renderer would hold as a floating-point number is held
//! here as a fixed-point integer, so that each function has an exact contract.

pub mod decoder;
pub mod texture;
pub mod tile_index;
pub mod zoom;
