//! The materials of surfaces: what each of them decides once the numbers of
//! a hit have been worked out.

use vstd::prelude::*;
use crate::math::color::Color;
use crate::math::ray::Ray4;
use crate::math::scalar::Scalar;
use crate::math::scalar::ONE_ORD;

verus! {

/// What a surface makes of a ray: the ray that it sends on, the share of
/// light that it lets through, and the density of the choice of that ray.
#[derive(Clone, Copy, Debug)]
pub struct MaterialResult {
    pub attenuation: Color,
    pub scattered: Ray4,
    pub pdf: Scalar,
}

/// A matt surface. It holds the handle of its texture.
#[derive(Clone, Copy, Debug, PartialEq, Eq, Structural)]
pub struct Lambertian(pub usize);

/// A surface that gives light and sends no ray on. It holds the handle of
/// its texture.
#[derive(Clone, Copy, Debug, PartialEq, Eq, Structural)]
pub struct DiffuseLight(pub usize);

/// A mirror, which may be blurred.
#[derive(Clone, Copy, Debug, PartialEq, Eq, Structural)]
pub struct Metal {
    pub albedo: Color,
    /// How much a mirrored ray is blurred, from zero to one.
    pub fuzz: Scalar,
}

/// A clear material, such as glass.
#[derive(Clone, Copy, Debug, PartialEq, Eq, Structural)]
pub struct Dielectric {
    /// The refraction index of the material over that of what surrounds it.
    pub refraction_index: Scalar,
}

/// A material that scatters evenly in all directions. It holds the handle
/// of its texture.
#[derive(Clone, Copy, Debug, PartialEq, Eq, Structural)]
pub struct Isotropic(pub usize);

/// The material of a surface.
#[derive(Clone, Copy, Debug, PartialEq, Eq, Structural)]
pub enum Material {
    Lambertian(Lambertian),
    DiffuseLight(DiffuseLight),
    Metal(Metal),
    Dielectric(Dielectric),
    Isotropic(Isotropic),
}

impl Material {
    /// The handle of the texture of the material, if it has one.
    pub open spec fn spec_texture(self) -> Option<usize> {
        match self {
            Material::Lambertian(m) => Some(m.0),
            Material::DiffuseLight(m) => Some(m.0),
            Material::Isotropic(m) => Some(m.0),
            Material::Metal(_) => None,
            Material::Dielectric(_) => None,
        }
    }

    /// The light that a surface of the material gives towards a ray: that
    /// of a light on its front, and none for any other material.
    pub open spec fn spec_emitted(self, front_face: bool, value: Color) -> Color {
        match self {
            Material::DiffuseLight(_) => DiffuseLight::spec_emitted(front_face, value),
            _ => Color { r: Scalar { bits: 0 }, g: Scalar { bits: 0 }, b: Scalar { bits: 0 } },
        }
    }

    /// The handle of the texture of the material, if it has one: a mirror
    /// and a clear material have none.
    pub fn texture(&self) -> (r: Option<usize>)
        ensures
            r == self.spec_texture(),
    {
        match self {
            Material::Lambertian(m) => Some(m.0),
            Material::DiffuseLight(m) => Some(m.0),
            Material::Isotropic(m) => Some(m.0),
            Material::Metal(_) => None,
            Material::Dielectric(_) => None,
        }
    }

    /// The light that a surface of the material gives towards a ray that
    /// met it. `value` is the colour of its texture at the hit. Only a
    /// light gives any, and from its front only; every other material
    /// gives black.
    pub fn emitted(&self, front_face: bool, value: Color) -> (c: Color)
        ensures
            c == self.spec_emitted(front_face, value),
            !(self is DiffuseLight) ==> c.is_black(),
    {
        match self {
            Material::DiffuseLight(light) => light.emitted(front_face, value),
            _ => Color::black(),
        }
    }

    /// Whether a surface of the material can send a ray on: every material
    /// but a light can.
    pub fn scatters(&self) -> (r: bool)
        ensures
            r <==> !(self is DiffuseLight),
    {
        match self {
            Material::DiffuseLight(_) => false,
            _ => true,
        }
    }
}

impl Lambertian {
    /// The matt material with the texture given.
    pub fn new(texture: usize) -> (r: Lambertian)
        ensures
            r.0 == texture,
    {
        Lambertian(texture)
    }
}

impl Isotropic {
    /// The evenly scattering material with the texture given.
    pub fn new(texture: usize) -> (r: Isotropic)
        ensures
            r.0 == texture,
    {
        Isotropic(texture)
    }
}

impl DiffuseLight {
    /// The light that a surface gives towards a ray: the colour of its
    /// texture on its front, and none on its back.
    pub open spec fn spec_emitted(front_face: bool, value: Color) -> Color {
        if front_face {
            value
        } else {
            Color { r: Scalar { bits: 0 }, g: Scalar { bits: 0 }, b: Scalar { bits: 0 } }
        }
    }

    /// The light with the texture given.
    pub fn new(texture: usize) -> (r: DiffuseLight)
        ensures
            r.0 == texture,
    {
        DiffuseLight(texture)
    }

    /// The light that the surface gives towards a ray that met it.
    /// `value` is the colour of the texture at the hit. The surface gives
    /// light from its front only: towards a ray that met its back it gives
    /// black.
    pub fn emitted(&self, front_face: bool, value: Color) -> (c: Color)
        ensures
            c == Self::spec_emitted(front_face, value),
            !front_face ==> c.is_black(),
    {
        if front_face {
            value
        } else {
            Color::black()
        }
    }

    /// Whether the surface sends a ray on: it never does.
    pub fn scatters(&self) -> (r: bool)
        ensures
            !r,
    {
        false
    }
}

impl Metal {
    /// The clear mirror of the colour given.
    pub fn new(albedo: Color) -> (r: Metal)
        ensures
            r.albedo == albedo,
            r.fuzz.bits == 0,
    {
        Metal { albedo, fuzz: Scalar::zero() }
    }

    /// The mirror of the colour given, blurred by `fuzz`, which lies
    /// between zero and one.
    pub fn with_fuzz(albedo: Color, fuzz: Scalar) -> (r: Metal)
        requires
            0 <= fuzz.ord() <= ONE_ORD,
        ensures
            r.albedo == albedo,
            r.fuzz == fuzz,
    {
        Metal { albedo, fuzz }
    }

    /// Whether the mirror swallows the ray. `facing` is the product of the
    /// mirrored and blurred direction and the normal of the surface: below
    /// zero the direction points into the surface and the ray is lost.
    pub fn absorbs(facing: Scalar) -> (r: bool)
        ensures
            r <==> facing.ord() < 0,
    {
        facing.ord() < 0
    }
}

impl Dielectric {
    /// Whether a ray cannot pass the surface, where `bend` is the ratio of
    /// the refraction indices times the sine of the angle between the ray
    /// and the normal: whether `bend` is above one.
    pub open spec fn spec_cannot_refract(bend: Scalar) -> bool {
        bend.ord() > ONE_ORD
    }

    /// Whether a ray is mirrored: where it cannot pass, and else where the
    /// share `reflectance` of mirrored light is above the number drawn.
    pub open spec fn spec_will_reflect(bend: Scalar, reflectance: Scalar, draw: Scalar) -> bool {
        Self::spec_cannot_refract(bend) || reflectance.ord() > draw.ord()
    }

    /// The clear material with the refraction index given.
    pub fn new(refraction_index: Scalar) -> (r: Dielectric)
        ensures
            r.refraction_index == refraction_index,
    {
        Dielectric { refraction_index }
    }

    /// The ratio of the refraction indices for a ray that met the surface:
    /// `inverse`, which is one divided by the index of the material and
    /// which the caller works out, for a ray that enters the material
    /// through its front; the index itself for a ray that leaves it.
    pub fn ratio(&self, front_face: bool, inverse: Scalar) -> (r: Scalar)
        ensures
            r == if front_face {
                inverse
            } else {
                self.refraction_index
            },
    {
        if front_face {
            inverse
        } else {
            self.refraction_index
        }
    }

    /// Whether a ray cannot pass the surface and is mirrored whole. `bend`
    /// is the ratio of the refraction indices times the sine of the angle
    /// between the ray and the normal.
    pub fn cannot_refract(bend: Scalar) -> (r: bool)
        ensures
            r == Self::spec_cannot_refract(bend),
    {
        bend.ord() > ONE_ORD
    }

    /// Whether a ray is mirrored rather than let through. `reflectance` is
    /// the share of light that the surface mirrors at the angle of the
    /// ray, and `draw` a number drawn between zero and one.
    pub fn will_reflect(bend: Scalar, reflectance: Scalar, draw: Scalar) -> (r: bool)
        ensures
            r == Self::spec_will_reflect(bend, reflectance, draw),
    {
        Self::cannot_refract(bend) || reflectance.ord() > draw.ord()
    }
}

/// A ray that cannot pass is mirrored whatever number is drawn. A ray that
/// meets the surface head on has a sine of zero, so that `bend` is zero
/// whatever the ratio: it can pass, and is mirrored only where the share of
/// mirrored light is above the number drawn.
pub proof fn lemma_reflection(bend: Scalar, reflectance: Scalar, draw: Scalar)
    ensures
        Dielectric::spec_cannot_refract(bend) ==> Dielectric::spec_will_reflect(
            bend,
            reflectance,
            draw,
        ),
        bend.ord() <= ONE_ORD ==> !Dielectric::spec_cannot_refract(bend),
        bend.ord() == 0 ==> (Dielectric::spec_will_reflect(bend, reflectance, draw)
            <==> reflectance.ord() > draw.ord()),
{
}

} // verus!
