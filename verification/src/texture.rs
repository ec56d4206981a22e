//! Textures: what colours a surface at each of its points.

use vstd::prelude::*;
use crate::math::color::Color;
use crate::math::scalar::Scalar;

verus! {

/// One colour everywhere.
#[derive(Clone, Copy, Debug, PartialEq, Eq, Structural)]
pub struct SolidColor(pub Color);

/// Cubes of two textures in turn, like a chessboard in space.
#[derive(Clone, Copy, Debug, PartialEq, Eq, Structural)]
pub struct Checkerboard {
    /// The length of the edge of a cube.
    pub scale: Scalar,
    /// The handle of the texture of the even cubes.
    pub even: usize,
    /// The handle of the texture of the odd cubes.
    pub odd: usize,
}

/// A picture: three bytes for each pixel, red, green and blue, row by row
/// from the top left.
#[derive(Debug)]
pub struct ImageTexture {
    pub image_data: Vec<u8>,
    pub width: u32,
    pub height: u32,
}

impl SolidColor {
    /// The texture of the colour given.
    pub fn new(albedo: Color) -> (r: SolidColor)
        ensures
            r.0 == albedo,
    {
        SolidColor(albedo)
    }

    /// The colour of the texture, which is the same at every point.
    pub fn value(&self) -> (c: Color)
        ensures
            c == self.0,
    {
        self.0
    }
}

impl Checkerboard {
    /// The chessboard of the two textures given, with cubes of edge
    /// `scale`.
    pub fn new(scale: Scalar, even: usize, odd: usize) -> (r: Checkerboard)
        ensures
            r == (Checkerboard { scale, even, odd }),
    {
        Checkerboard { scale, even, odd }
    }

    /// The handle of the texture of the cube that is the `x`-th along X,
    /// the `y`-th along Y and the `z`-th along Z: the even texture where
    /// the sum of the three is even, the odd one where it is odd.
    pub fn pick(&self, x: i32, y: i32, z: i32) -> (texture: usize)
        ensures
            texture == if (x + y + z) % 2 == 0 {
                self.even
            } else {
                self.odd
            },
    {
        let sum: i64 = x as i64 + y as i64 + z as i64;
        if sum % 2 == 0 {
            self.even
        } else {
            self.odd
        }
    }
}

impl ImageTexture {
    /// Whether the picture holds three bytes for each of its pixels.
    pub open spec fn wf(self) -> bool {
        self.image_data@.len() == self.width * self.height * 3
    }

    /// Where the bytes of the pixel in column `i` and row `j` start.
    pub open spec fn spec_offset(self, i: u32, j: u32) -> int {
        (j * self.width + i) * 3
    }

    /// The picture of the bytes given, which holds `dimensions.0` columns
    /// and `dimensions.1` rows.
    pub fn new(image_data: Vec<u8>, dimensions: (u32, u32)) -> (r: ImageTexture)
        requires
            dimensions.0 * dimensions.1 * 3 <= u32::MAX,
            image_data@.len() == dimensions.0 * dimensions.1 * 3,
        ensures
            r.image_data == image_data,
            r.width == dimensions.0,
            r.height == dimensions.1,
            r.wf(),
    {
        ImageTexture { image_data, width: dimensions.0, height: dimensions.1 }
    }

    /// The column of the picture that a texture coordinate falls on, where
    /// `column` is that coordinate times the width, cut to a whole number:
    /// `column` itself, and the last column where it lies beyond, as it
    /// does for a coordinate of one.
    pub open spec fn spec_column(self, column: u32) -> u32 {
        if column >= self.width {
            (self.width - 1) as u32
        } else {
            column
        }
    }

    /// The row of the picture that a texture coordinate falls on: `row`
    /// itself, and the last row where it lies beyond.
    pub open spec fn spec_row(self, row: u32) -> u32 {
        if row >= self.height {
            (self.height - 1) as u32
        } else {
            row
        }
    }

    /// The red, green and blue bytes of the picture at a pair of texture
    /// coordinates. `column` is the first coordinate times the width and
    /// `row` is one less the second coordinate times the height, each cut
    /// to a whole number; the caller works both out. A coordinate at the
    /// very end of its range falls beyond the last column or row and is
    /// taken to mean the last one, so that every pair of coordinates from
    /// zero to one has a colour. The picture holds a pixel at least.
    pub fn value(&self, column: u32, row: u32) -> (rgb: [u8; 3])
        requires
            self.wf(),
            self.width > 0,
            self.height > 0,
        ensures
            rgb[0] == self.image_data@[self.spec_offset(
                self.spec_column(column),
                self.spec_row(row),
            )],
            rgb[1] == self.image_data@[self.spec_offset(
                self.spec_column(column),
                self.spec_row(row),
            ) + 1],
            rgb[2] == self.image_data@[self.spec_offset(
                self.spec_column(column),
                self.spec_row(row),
            ) + 2],
    {
        let i: u32 = if column >= self.width {
            self.width - 1
        } else {
            column
        };
        let j: u32 = if row >= self.height {
            self.height - 1
        } else {
            row
        };
        assert(j * self.width + i < self.width * self.height) by (nonlinear_arith)
            requires
                i < self.width,
                j < self.height,
        ;
        self.texel(i, j)
    }

    /// The red, green and blue bytes of the pixel in column `i` and row
    /// `j`, which the picture holds. A column beyond the last one runs on
    /// into the next row, as the bytes do.
    pub fn texel(&self, i: u32, j: u32) -> (rgb: [u8; 3])
        requires
            self.wf(),
            j * self.width + i < self.width * self.height,
        ensures
            rgb[0] == self.image_data@[self.spec_offset(i, j)],
            rgb[1] == self.image_data@[self.spec_offset(i, j) + 1],
            rgb[2] == self.image_data@[self.spec_offset(i, j) + 2],
    {
        assert(j as u64 * self.width as u64 <= 0xffff_ffff * 0xffff_ffff) by (nonlinear_arith);
        let place: u64 = j as u64 * self.width as u64 + i as u64;
        let len = self.image_data.len();
        assert(place * 3 + 2 < len) by (nonlinear_arith)
            requires
                place < self.width * self.height,
                len == self.width * self.height * 3,
        ;
        let ind: usize = (place * 3) as usize;
        [self.image_data[ind], self.image_data[ind + 1], self.image_data[ind + 2]]
    }
}

} // verus!
