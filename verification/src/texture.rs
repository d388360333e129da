//! Textures: a rectangle of texels, row by row, and its mathematical model.

use vstd::prelude::*;

verus! {

/// What a texture holds: `width` times `height` texels, the rows one after
/// another, each row from left to right.
pub struct Grid<T> {
    pub width: nat,
    pub height: nat,
    pub texels: Seq<T>,
}

impl<T> Grid<T> {
    /// The grid is not empty and holds one texel for each of its places.
    pub open spec fn wf(self) -> bool {
        &&& 0 < self.width
        &&& 0 < self.height
        &&& self.texels.len() == self.width * self.height
    }

    /// Whether column `x` of row `y` is a place of the grid.
    pub open spec fn contains(self, x: int, y: int) -> bool {
        0 <= x < self.width && 0 <= y < self.height
    }

    /// The texel in column `x` of row `y`.
    pub open spec fn at(self, x: int, y: int) -> T
        recommends
            self.contains(x, y),
    {
        self.texels[y * self.width + x]
    }
}

/// A texture. It is never empty, and it does not change once made.
#[derive(Debug, PartialEq, Eq)]
pub struct Texture<T> {
    width: usize,
    height: usize,
    texels: Vec<T>,
}

impl<T> View for Texture<T> {
    type V = Grid<T>;

    closed spec fn view(&self) -> Grid<T> {
        Grid { width: self.width as nat, height: self.height as nat, texels: self.texels@ }
    }
}

impl<T> Texture<T> {
    #[verifier::type_invariant]
    spec fn inv(self) -> bool {
        self@.wf()
    }

    /// The texture of the given size over the given texels, row by row. There
    /// is one where the size is not empty and the texels fill it exactly.
    pub fn new(width: usize, height: usize, texels: Vec<T>) -> (texture: Option<Texture<T>>)
        ensures
            texture is Some <==> 0 < width && 0 < height && texels@.len() == width * height,
            texture matches Some(t) ==> t@ == (Grid {
                width: width as nat,
                height: height as nat,
                texels: texels@,
            }),
    {
        if width == 0 || height == 0 {
            return None;
        }
        assert(texels@.len() == texels.len());
        match width.checked_mul(height) {
            Some(count) => {
                if texels.len() == count {
                    Some(Texture { width, height, texels })
                } else {
                    None
                }
            },
            None => None,
        }
    }

    /// The number of columns.
    pub fn width(&self) -> (width: usize)
        ensures
            width == self@.width,
            self@.wf(),
    {
        proof {
            use_type_invariant(self);
        }
        self.width
    }

    /// The number of rows.
    pub fn height(&self) -> (height: usize)
        ensures
            height == self@.height,
            self@.wf(),
    {
        proof {
            use_type_invariant(self);
        }
        self.height
    }

    /// The texel in column `x` of row `y`.
    pub fn texel(&self, x: usize, y: usize) -> (texel: &T)
        requires
            self@.contains(x as int, y as int),
        ensures
            *texel == self@.at(x as int, y as int),
    {
        proof {
            use_type_invariant(self);
            lemma_place_in_bounds(x as int, y as int, self.width as int, self.height as int);
            assert(self.texels@.len() == self.texels.len());
        }
        &self.texels[y * self.width + x]
    }

    /// The texels, row by row.
    pub fn texels(&self) -> (texels: &Vec<T>)
        ensures
            texels@ == self@.texels,
            self@.wf(),
    {
        proof {
            use_type_invariant(self);
        }
        &self.texels
    }
}

/// A place of a grid lies within the grid's texels.
pub proof fn lemma_place_in_bounds(x: int, y: int, width: int, height: int)
    by (nonlinear_arith)
    requires
        0 <= x < width,
        0 <= y < height,
    ensures
        0 <= y * width + x < width * height,
{
}

/// The column and the row of a place are found again from its position among
/// the texels.
pub proof fn lemma_place_of_position(x: int, y: int, width: int)
    requires
        0 <= x < width,
    ensures
        (y * width + x) % width == x,
        (y * width + x) / width == y,
{
    vstd::arithmetic::div_mod::lemma_fundamental_div_mod_converse(y * width + x, width, y, x);
}

} // verus!
