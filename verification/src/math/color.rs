//! Colours.

use vstd::prelude::*;
use crate::math::interval::Interval;
use crate::math::scalar::Scalar;
use crate::math::scalar::ONE_BITS;
use crate::math::vec::NormalizationState;
use crate::math::vec::Vec3;
use crate::texture::SolidColor;

verus! {

/// A colour: the share of red, of green and of blue, each from zero for none
/// to one for full. A colour outside that range can be held; `is_valid`
/// tells.
#[derive(Clone, Copy, Debug, PartialEq, Eq, Structural)]
pub struct Color {
    pub r: Scalar,
    pub g: Scalar,
    pub b: Scalar,
}

/// A colour as three bytes: the levels of red, green and blue out of 255.
#[derive(Clone, Copy, Debug, PartialEq, Eq, Structural)]
pub struct Rgb {
    pub r: u8,
    pub g: u8,
    pub b: u8,
}

impl Rgb {
    /// The levels that a hexadecimal colour code stands for.
    pub open spec fn spec_hex(color: u32) -> Rgb {
        Rgb { r: hex_red(color) as u8, g: hex_green(color) as u8, b: hex_blue(color) as u8 }
    }

    /// The levels that a hexadecimal colour code stands for, as
    /// [`Color::hex`] gives them.
    pub fn hex(color: u32) -> (rgb: Rgb)
        ensures
            rgb == Self::spec_hex(color),
            rgb.r == hex_red(color),
            rgb.g == hex_green(color),
            rgb.b == hex_blue(color),
    {
        let levels = Color::hex(color);
        Rgb { r: levels[0], g: levels[1], b: levels[2] }
    }
}

/// The mean of the samples of a pixel, and the square roots of its shares.
#[derive(Clone, Copy, Debug, PartialEq, Eq, Structural)]
pub struct Scaled {
    pub mean: Color,
    pub roots: Color,
}

/// The range from zero to one.
pub open spec fn unit_range() -> Interval {
    Interval { start: Scalar { bits: 0 }, end: Scalar { bits: ONE_BITS } }
}

/// The red share that a hexadecimal colour code stands for, out of 255.
pub open spec fn hex_red(color: u32) -> int {
    if color <= 0xfff {
        16 * (color as int / 0x100)
    } else {
        (color as int / 0x10000) % 0x100
    }
}

/// The green share that a hexadecimal colour code stands for, out of 255.
pub open spec fn hex_green(color: u32) -> int {
    if color <= 0xfff {
        16 * ((color as int / 0x10) % 0x10)
    } else {
        (color as int / 0x100) % 0x100
    }
}

/// The blue share that a hexadecimal colour code stands for, out of 255.
pub open spec fn hex_blue(color: u32) -> int {
    if color <= 0xfff {
        16 * (color as int % 0x10)
    } else {
        color as int % 0x100
    }
}

/// A share of light made ready for the eye: its square root `root`, which
/// the caller works out, where the share is above zero, and zero where it
/// is not.
pub fn linear_to_gamma(linear_component: Scalar, root: Scalar) -> (r: Scalar)
    ensures
        r == if linear_component.ord() > 0 {
            root
        } else {
            Scalar { bits: 0 }
        },
{
    if linear_component.ord() > 0 {
        root
    } else {
        Scalar::zero()
    }
}

impl Color {
    /// Whether each share is zero.
    pub open spec fn is_black(self) -> bool {
        self.r.ord() == 0 && self.g.ord() == 0 && self.b.ord() == 0
    }

    /// Whether each share lies between zero and one.
    pub open spec fn spec_is_valid(self) -> bool {
        &&& unit_range().spec_contains(self.r)
        &&& unit_range().spec_contains(self.g)
        &&& unit_range().spec_contains(self.b)
    }

    /// The colour with each share moved into the range from zero to one.
    pub open spec fn spec_clamped(self) -> Color {
        Color {
            r: unit_range().spec_clamp(self.r),
            g: unit_range().spec_clamp(self.g),
            b: unit_range().spec_clamp(self.b),
        }
    }

    /// The colour made ready for the eye, where `roots` holds the square
    /// roots of its shares: each share above zero gives way to its root,
    /// and every other share to zero.
    pub open spec fn spec_gamma_corrected(self, roots: Color) -> Color {
        Color {
            r: if self.r.ord() > 0 {
                roots.r
            } else {
                Scalar { bits: 0 }
            },
            g: if self.g.ord() > 0 {
                roots.g
            } else {
                Scalar { bits: 0 }
            },
            b: if self.b.ord() > 0 {
                roots.b
            } else {
                Scalar { bits: 0 }
            },
        }
    }

    /// The colour as it is handed to a writer: made ready for the eye,
    /// then each share moved into the range from zero to one.
    pub open spec fn spec_finished(self, roots: Color) -> Color {
        self.spec_gamma_corrected(roots).spec_clamped()
    }

    /// The colour as it is handed to a writer: made ready for the eye and
    /// then moved into the range from zero to one, share by share. `roots`
    /// holds the square roots of the three shares, which the caller works
    /// out.
    pub fn finished(&self, roots: &Color) -> (c: Color)
        ensures
            c == self.spec_finished(*roots),
            c.spec_is_valid(),
    {
        self.as_gamma_corrected(roots).clamped()
    }

    /// The colour with the three shares given.
    pub fn new(r: Scalar, g: Scalar, b: Scalar) -> (c: Color)
        ensures
            c == (Color { r, g, b }),
    {
        Color { r, g, b }
    }

    /// Black: no share of any colour.
    pub fn black() -> (c: Color)
        ensures
            c.r.bits == 0,
            c.g.bits == 0,
            c.b.bits == 0,
            c.is_black(),
    {
        Color { r: Scalar::zero(), g: Scalar::zero(), b: Scalar::zero() }
    }

    /// White: the full share of each colour.
    pub fn white() -> (c: Color)
        ensures
            c.r.bits == ONE_BITS,
            c.g.bits == ONE_BITS,
            c.b.bits == ONE_BITS,
    {
        Color { r: Scalar::one(), g: Scalar::one(), b: Scalar::one() }
    }

    /// Full red.
    pub fn red() -> (c: Color)
        ensures
            c.r.bits == ONE_BITS,
            c.g.bits == 0,
            c.b.bits == 0,
    {
        Color { r: Scalar::one(), g: Scalar::zero(), b: Scalar::zero() }
    }

    /// Full green.
    pub fn green() -> (c: Color)
        ensures
            c.r.bits == 0,
            c.g.bits == ONE_BITS,
            c.b.bits == 0,
    {
        Color { r: Scalar::zero(), g: Scalar::one(), b: Scalar::zero() }
    }

    /// Full blue.
    pub fn blue() -> (c: Color)
        ensures
            c.r.bits == 0,
            c.g.bits == 0,
            c.b.bits == ONE_BITS,
    {
        Color { r: Scalar::zero(), g: Scalar::zero(), b: Scalar::one() }
    }

    /// The colour whose shares of red, green and blue are the three
    /// components of the vector.
    pub fn from_vec3<N: NormalizationState>(vec: &Vec3<N>) -> (c: Color)
        ensures
            c == (Color { r: vec.x, g: vec.y, b: vec.z }),
    {
        Color { r: vec.x, g: vec.y, b: vec.z }
    }

    /// The colour made ready for the eye, share by share. `roots` holds
    /// the square roots of the three shares, which the caller works out; a
    /// share that is not above zero becomes zero.
    pub fn as_gamma_corrected(&self, roots: &Color) -> (c: Color)
        ensures
            c == self.spec_gamma_corrected(*roots),
            c.r == if self.r.ord() > 0 {
                roots.r
            } else {
                Scalar { bits: 0 }
            },
            c.g == if self.g.ord() > 0 {
                roots.g
            } else {
                Scalar { bits: 0 }
            },
            c.b == if self.b.ord() > 0 {
                roots.b
            } else {
                Scalar { bits: 0 }
            },
    {
        Color {
            r: linear_to_gamma(self.r, roots.r),
            g: linear_to_gamma(self.g, roots.g),
            b: linear_to_gamma(self.b, roots.b),
        }
    }

    /// The texture that is this colour everywhere.
    pub fn solid_texture(self) -> (t: SolidColor)
        ensures
            t.0 == self,
    {
        SolidColor::new(self)
    }

    /// The share of red.
    pub fn r(&self) -> (r: Scalar)
        ensures
            r == self.r,
    {
        self.r
    }

    /// The share of green.
    pub fn g(&self) -> (r: Scalar)
        ensures
            r == self.g,
    {
        self.g
    }

    /// The share of blue.
    pub fn b(&self) -> (r: Scalar)
        ensures
            r == self.b,
    {
        self.b
    }

    /// Whether each share lies between zero and one, the two included.
    pub fn is_valid(&self) -> (r: bool)
        ensures
            r == self.spec_is_valid(),
    {
        let inter = Interval::new(Scalar::zero(), Scalar::one());
        inter.contains(self.r) && inter.contains(self.g) && inter.contains(self.b)
    }

    /// The colour with each share below zero raised to zero and each share
    /// above one lowered to one: what is left to scale to the 256 levels of
    /// a byte.
    pub fn clamped(&self) -> (c: Color)
        ensures
            c == self.spec_clamped(),
            c.spec_is_valid(),
    {
        let intensity = Interval::new(Scalar::zero(), Scalar::one());
        Color {
            r: intensity.clamp(self.r),
            g: intensity.clamp(self.g),
            b: intensity.clamp(self.b),
        }
    }

    /// The shares of red, green and blue, out of 255, that a hexadecimal
    /// colour code stands for. A code up to `0xfff` has one digit for each
    /// share, which stands for sixteen times its value; a code above has two
    /// digits for each share, and what lies above its lowest six digits is
    /// left out.
    pub fn hex(color: u32) -> (rgb: [u8; 3])
        ensures
            rgb[0] == hex_red(color),
            rgb[1] == hex_green(color),
            rgb[2] == hex_blue(color),
    {
        if color <= 0xfff {
            let r: u32 = (color & 0xf00) >> 8;
            let g: u32 = ((color << 4) & 0xf00) >> 8;
            let b: u32 = ((color << 8) & 0xf00) >> 8;
            assert(r == color / 0x100 && g == (color / 0x10) % 0x10 && b == color % 0x10 && r < 16
                && g < 16 && b < 16) by (bit_vector)
                requires
                    color <= 0xfff,
                    r == (color & 0xf00) >> 8,
                    g == ((color << 4) & 0xf00) >> 8,
                    b == ((color << 8) & 0xf00) >> 8,
            ;
            [(r * 16) as u8, (g * 16) as u8, (b * 16) as u8]
        } else {
            let r: u32 = (color & 0xff0000) >> 16;
            let g: u32 = ((color << 8) & 0xff0000) >> 16;
            let b: u32 = ((color << 16) & 0xff0000) >> 16;
            assert(r == (color / 0x10000) % 0x100 && g == (color / 0x100) % 0x100 && b == color
                % 0x100 && r < 256 && g < 256 && b < 256) by (bit_vector)
                requires
                    r == (color & 0xff0000) >> 16,
                    g == ((color << 8) & 0xff0000) >> 16,
                    b == ((color << 16) & 0xff0000) >> 16,
            ;
            [r as u8, g as u8, b as u8]
        }
    }
}

} // verus!
