use std::sync::Arc;
use vstd::prelude::*;

use crate::hit::{
    box_sides, same_shape, Bbox, FlipFace, Hittable, HittableList, Rotatey, Sphere, Translate,
    XyRect, XzRect, YzRect,
};
use crate::material::{share, Dielectric, DiffuseLight, Lambertian, Material, Metal, NOMaterial};
use crate::texture::{SolidColor, Texture};
use crate::vec3::Vec3;

verus! {

/// A diffuse material of one colour.
pub open spec fn matte(col: Vec3) -> Material {
    Material::Lambertian(Lambertian { albedo: Texture::Solid(SolidColor { col }) })
}

/// The red of the left wall.
pub open spec fn red() -> Material {
    matte(Vec3 { x: 65, y: 5, z: 5 })
}

/// The white of floor, ceiling, back wall and box.
pub open spec fn white() -> Material {
    matte(Vec3 { x: 73, y: 73, z: 73 })
}

/// The green of the right wall.
pub open spec fn green() -> Material {
    matte(Vec3 { x: 12, y: 45, z: 15 })
}

/// The ceiling lamp's light.
pub open spec fn lamp() -> Material {
    Material::DiffuseLight(
        DiffuseLight { emit: Texture::Solid(SolidColor { col: Vec3 { x: 1500, y: 1500, z: 1500 } }) },
    )
}

/// The lamp rectangle under the ceiling, with the material behind `mat_ptr`.
pub open spec fn lamp_rect(mat_ptr: Arc<Material>) -> Hittable {
    Hittable::XzRect(XzRect { x0: 21300, x1: 34300, z0: 22700, z1: 33200, k: 55400, mat_ptr })
}

/// The glass ball, with the material behind `mat_ptr`.
pub open spec fn ball(mat_ptr: Arc<Material>) -> Hittable {
    Hittable::Sphere(Sphere { center: Vec3 { x: 19000, y: 9000, z: 19000 }, radius: 9000, mat_ptr })
}

/// Whether `h` is the tall box: a white box from (0, 0, 0) to (165, 330, 165),
/// turned by 15 degrees and then moved by (265, 0, 295).
pub open spec fn is_tall_box(h: Hittable) -> bool {
    &&& h matches Hittable::Translate(t)
    &&& t.offset == (Vec3 { x: 26500, y: 0, z: 29500 })
    &&& *t.ptr matches Hittable::Rotatey(r)
    &&& r.angle == 1500
    &&& *r.ptr matches Hittable::Bbox(b)
    &&& b.box_min == (Vec3 { x: 0, y: 0, z: 0 })
    &&& b.box_max == (Vec3 { x: 16500, y: 33000, z: 16500 })
    &&& b.sides.objects@ == box_sides(b.box_min, b.box_max, Arc::new(white()))
}

/// Whether `s` holds the objects of the Cornell box, in the order they are added.
pub open spec fn is_cornellbox(s: Seq<Hittable>) -> bool {
    &&& s.len() == 8
    &&& s[0] == Hittable::YzRect(
        YzRect { y0: 0, y1: 55500, z0: 0, z1: 55500, k: 55500, mat_ptr: Arc::new(green()) },
    )
    &&& s[1] == Hittable::YzRect(
        YzRect { y0: 0, y1: 55500, z0: 0, z1: 55500, k: 0, mat_ptr: Arc::new(red()) },
    )
    &&& s[2] == Hittable::FlipFace(FlipFace { ptr: Box::new(lamp_rect(Arc::new(lamp()))) })
    &&& s[3] == Hittable::XzRect(
        XzRect { x0: 0, x1: 55500, z0: 0, z1: 55500, k: 0, mat_ptr: Arc::new(white()) },
    )
    &&& s[4] == Hittable::XzRect(
        XzRect { x0: 0, x1: 55500, z0: 0, z1: 55500, k: 55500, mat_ptr: Arc::new(white()) },
    )
    &&& s[5] == Hittable::XyRect(
        XyRect { x0: 0, x1: 55500, y0: 0, y1: 55500, k: 55500, mat_ptr: Arc::new(white()) },
    )
    &&& is_tall_box(s[6])
    &&& s[7] == ball(Arc::new(Material::Dielectric(Dielectric { ir: 150 })))
}

/// The shapes towards which light is sampled: the lamp and the glass ball.
pub open spec fn cornellbox_light_objects() -> Seq<Hittable> {
    seq![
        lamp_rect(Arc::new(Material::NoMaterial(NOMaterial {}))),
        ball(Arc::new(Material::NoMaterial(NOMaterial {}))),
    ]
}

/// The Cornell box: five walls (green right, red left, white floor, ceiling and
/// back), a lamp in the ceiling facing down, a tall white box turned by 15
/// degrees, and a glass ball. The white of the floor, ceiling, back wall and
/// box is one material, shared.
pub fn cornellbox() -> (r: HittableList)
    ensures
        is_cornellbox(r.objects@),
{
    let mut objects = HittableList::default();

    let red = Arc::new(Material::Lambertian(Lambertian::new(Vec3::new(65, 5, 5))));
    let white = Arc::new(Material::Lambertian(Lambertian::new(Vec3::new(73, 73, 73))));
    let green = Arc::new(Material::Lambertian(Lambertian::new(Vec3::new(12, 45, 15))));
    let light = Arc::new(Material::DiffuseLight(DiffuseLight::new(Vec3::new(1500, 1500, 1500))));

    objects.add(Hittable::YzRect(YzRect::new(0, 55500, 0, 55500, 55500, green)));
    objects.add(Hittable::YzRect(YzRect::new(0, 55500, 0, 55500, 0, red)));
    objects.add(
        Hittable::FlipFace(
            FlipFace::new(Hittable::XzRect(XzRect::new(21300, 34300, 22700, 33200, 55400, light))),
        ),
    );
    objects.add(Hittable::XzRect(XzRect::new(0, 55500, 0, 55500, 0, share(&white))));
    objects.add(Hittable::XzRect(XzRect::new(0, 55500, 0, 55500, 55500, share(&white))));
    objects.add(Hittable::XyRect(XyRect::new(0, 55500, 0, 55500, 55500, share(&white))));

    let _aluminum = Arc::new(Material::Metal(Metal::new(Vec3::new(80, 85, 88), 0)));
    let box1 = Bbox::new(Vec3::new(0, 0, 0), Vec3::new(16500, 33000, 16500), white);
    let box1 = Rotatey::new(Hittable::Bbox(box1), 1500);
    let box1 = Translate::new(Hittable::Rotatey(box1), Vec3::new(26500, 0, 29500));
    objects.add(Hittable::Translate(box1));

    let glass_sphere = Sphere::new(
        Vec3::new(19000, 9000, 19000),
        9000,
        Arc::new(Material::Dielectric(Dielectric::new(150))),
    );
    objects.add(Hittable::Sphere(glass_sphere));

    objects
}

/// The shapes of the Cornell box towards which scattered light is sampled:
/// the lamp rectangle and the glass ball, neither with a material of its own.
pub fn cornellbox_lights() -> (r: HittableList)
    ensures
        r.objects@ == cornellbox_light_objects(),
{
    let mut lights = HittableList::default();
    lights.add(
        Hittable::XzRect(
            XzRect::new(
                21300,
                34300,
                22700,
                33200,
                55400,
                Arc::new(Material::NoMaterial(NOMaterial {})),
            ),
        ),
    );
    lights.add(
        Hittable::Sphere(
            Sphere::new(
                Vec3::new(19000, 9000, 19000),
                9000,
                Arc::new(Material::NoMaterial(NOMaterial {})),
            ),
        ),
    );
    assert(lights.objects@ =~= cornellbox_light_objects());
    lights
}

/// Every shape towards which light is sampled occupies the place of an object
/// of the Cornell box: the lamp's rectangle and the glass ball. Those shapes
/// carry no material of their own: they only aim the sampled rays.
pub proof fn lemma_lights_are_scene_shapes(scene: Seq<Hittable>)
    requires
        is_cornellbox(scene),
    ensures
        forall|i: int|
            0 <= i < cornellbox_light_objects().len() ==> exists|j: int|
                0 <= j < scene.len() && same_shape(
                    #[trigger] scene[j],
                    #[trigger] cornellbox_light_objects()[i],
                ),
        cornellbox_light_objects().len() == 2,
        forall|i: int|
            0 <= i < cornellbox_light_objects().len() ==> primitive_material(
                #[trigger] cornellbox_light_objects()[i],
            ) == Some(Material::NoMaterial(NOMaterial {})),
{
    reveal_with_fuel(same_shape, 3);
    let lights = cornellbox_light_objects();
    assert forall|i: int| 0 <= i < lights.len() implies exists|j: int|
        0 <= j < scene.len() && same_shape(#[trigger] scene[j], #[trigger] lights[i]) by {
        if i == 0 {
            assert(same_shape(scene[2], lights[0]));
        } else {
            assert(same_shape(scene[7], lights[1]));
        }
    }
}

/// The material of a rectangle or sphere.
pub open spec fn primitive_material(h: Hittable) -> Option<Material> {
    match h {
        Hittable::XyRect(r) => Some(*r.mat_ptr),
        Hittable::XzRect(r) => Some(*r.mat_ptr),
        Hittable::YzRect(r) => Some(*r.mat_ptr),
        Hittable::Sphere(b) => Some(*b.mat_ptr),
        _ => None,
    }
}

/// The Cornell box is a closed room 555 units wide, high and deep, lit from
/// the ceiling:
/// - the walls are the planes x = 555 (green), x = 0 (red), y = 0 (floor),
///   y = 555 (ceiling) and z = 555 (back), each spanning the whole room;
/// - the lamp is a rectangle inside the ceiling's span, just below it, that
///   emits 15 in every channel and faces down (its faces are flipped);
/// - the glass ball, of index 1.5, lies wholly inside the room;
/// - the tall box stands on the floor, its corners (0, 0, 0) and (165, 330, 165);
/// - no wall, no face of the box and not the ball emits light.
pub proof fn lemma_cornellbox_room(s: Seq<Hittable>)
    requires
        is_cornellbox(s),
    ensures
        s[0] matches Hittable::YzRect(r) && r.k == 55500 && r.y0 == 0 && r.y1 == 55500 && r.z0 == 0
            && r.z1 == 55500 && *r.mat_ptr == matte(Vec3 { x: 12, y: 45, z: 15 }),
        s[1] matches Hittable::YzRect(r) && r.k == 0 && r.y0 == 0 && r.y1 == 55500 && r.z0 == 0
            && r.z1 == 55500 && *r.mat_ptr == matte(Vec3 { x: 65, y: 5, z: 5 }),
        s[3] matches Hittable::XzRect(r) && r.k == 0 && r.x0 == 0 && r.x1 == 55500 && r.z0 == 0
            && r.z1 == 55500,
        s[4] matches Hittable::XzRect(r) && r.k == 55500 && r.x0 == 0 && r.x1 == 55500 && r.z0
            == 0 && r.z1 == 55500,
        s[5] matches Hittable::XyRect(r) && r.k == 55500 && r.x0 == 0 && r.x1 == 55500 && r.y0
            == 0 && r.y1 == 55500,
        s[2] matches Hittable::FlipFace(f) && *f.ptr matches Hittable::XzRect(l) && 0 <= l.x0
            < l.x1 <= 55500 && 0 <= l.z0 < l.z1 <= 55500 && 0 < l.k < 55500 && *l.mat_ptr
            == Material::DiffuseLight(
            DiffuseLight {
                emit: Texture::Solid(SolidColor { col: Vec3 { x: 1500, y: 1500, z: 1500 } }),
            },
        ),
        s[7] matches Hittable::Sphere(b) && 0 <= b.center.x - b.radius && b.center.x + b.radius
            <= 55500 && 0 <= b.center.y - b.radius && b.center.y + b.radius <= 55500 && 0
            <= b.center.z - b.radius && b.center.z + b.radius <= 55500 && *b.mat_ptr
            == Material::Dielectric(Dielectric { ir: 150 }),
        s[6] matches Hittable::Translate(t) && *t.ptr matches Hittable::Rotatey(r) && *r.ptr
            matches Hittable::Bbox(b) && b.box_min == (Vec3 { x: 0, y: 0, z: 0 }) && b.box_max
            == (Vec3 { x: 16500, y: 33000, z: 16500 }) && t.offset.y == 0 && b.sides.objects@.len()
            == 6 && forall|i: int|
            0 <= i < 6 ==> primitive_material(#[trigger] b.sides.objects@[i]) == Some(white()),
        forall|i: int|
            0 <= i < 8 && i != 2 && i != 6 ==> !(primitive_material(#[trigger] s[i]) matches Some(
                Material::DiffuseLight(_),
            )),
{
    let t = s[6]->Translate_0;
    let r = t.ptr->Rotatey_0;
    let b = r.ptr->Bbox_0;
    assert forall|i: int| 0 <= i < 6 implies primitive_material(#[trigger] b.sides.objects@[i])
        == Some(white()) by {
        assert(b.sides.objects@ == box_sides(b.box_min, b.box_max, Arc::new(white())));
    }
}

} // verus!
