use std::sync::Arc;
use vstd::prelude::*;

use crate::texture::{SolidColor, Texture};
use crate::vec3::Vec3;

verus! {

/// A diffuse surface whose reflectance is given by a texture.
#[derive(Debug, PartialEq)]
pub struct Lambertian {
    pub albedo: Texture,
}

/// A surface that emits light of the colour of a texture.
#[derive(Debug, PartialEq)]
pub struct DiffuseLight {
    pub emit: Texture,
}

/// A reflecting surface: its colour and the fuzz of its reflections (hundredths).
#[derive(Clone, Copy, Debug, PartialEq)]
pub struct Metal {
    pub albedo: Vec3,
    pub fuzz: i64,
}

/// A clear refracting surface with index of refraction `ir` (hundredths).
#[derive(Clone, Copy, Debug, PartialEq)]
pub struct Dielectric {
    pub ir: i64,
}

/// A surface that neither scatters nor emits; shapes that only serve to
/// aim sampled rays carry it.
#[derive(Clone, Copy, Debug, PartialEq)]
pub struct NOMaterial {}

/// The material of a surface.
#[derive(Debug, PartialEq)]
pub enum Material {
    Lambertian(Lambertian),
    DiffuseLight(DiffuseLight),
    Metal(Metal),
    Dielectric(Dielectric),
    NoMaterial(NOMaterial),
}

impl Lambertian {
    /// A diffuse surface of one colour.
    pub fn new(albedo: Vec3) -> (r: Lambertian)
        ensures
            r.albedo == Texture::Solid(SolidColor { col: albedo }),
    {
        Lambertian { albedo: Texture::Solid(SolidColor::new(albedo)) }
    }

    /// A diffuse surface whose colour is the texture `albedo`.
    pub fn newarc(albedo: Texture) -> (r: Lambertian)
        ensures
            r.albedo == albedo,
    {
        Lambertian { albedo }
    }
}

impl DiffuseLight {
    /// A light of one colour.
    pub fn new(emit: Vec3) -> (r: DiffuseLight)
        ensures
            r.emit == Texture::Solid(SolidColor { col: emit }),
    {
        DiffuseLight { emit: Texture::Solid(SolidColor::new(emit)) }
    }
}

impl Metal {
    /// A metal of colour `albedo` and fuzz `fuzz` (hundredths).
    pub fn new(albedo: Vec3, fuzz: i64) -> (r: Metal)
        ensures
            r.albedo == albedo,
            r.fuzz == fuzz,
    {
        Metal { albedo, fuzz }
    }
}

impl Dielectric {
    /// A dielectric of index of refraction `ir` (hundredths).
    pub fn new(ir: i64) -> (r: Dielectric)
        ensures
            r.ir == ir,
    {
        Dielectric { ir }
    }
}

/// Another handle on the value behind `a`: calls `Arc::clone`, which makes a
/// new pointer to the same allocation, so the value behind both is the same.
#[verifier::external_body]
pub(crate) fn share<T>(a: &Arc<T>) -> (r: Arc<T>)
    ensures
        r == *a,
{
    Arc::clone(a)
}

} // verus!
