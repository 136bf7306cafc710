//! Scene description and path-tracing decisions of a Cornell-box renderer.
//!
//! Every scalar of a scene (coordinates, colour channels, angles, refractive
//! indices) is held as an integer count of hundredths, so that the scene is
//! exact and every decimal constant of the Cornell box is represented without
//! rounding. The floating-point shading itself lives outside this crate.

pub mod hit;
pub mod material;
pub mod render;
pub mod scene;
pub mod texture;
pub mod vec3;

pub use hit::{
    Bbox, FlipFace, Hittable, HittableList, Rotatey, Sphere, Translate, XyRect, XzRect, YzRect,
};
pub use material::{Dielectric, DiffuseLight, Lambertian, Material, Metal, NOMaterial};
pub use render::{decide, image_row, traces, PathAction, PathEvent};
pub use scene::{cornellbox, cornellbox_lights};
pub use texture::{checker_texture, SolidColor, Texture};
pub use vec3::{Vec3, UNIT};
