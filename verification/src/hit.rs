use std::sync::Arc;
use vstd::prelude::*;

use crate::material::{share, Material};
use crate::vec3::Vec3;

verus! {

/// The rectangle `x0 <= x <= x1`, `y0 <= y <= y1` in the plane `z = k`.
#[derive(Debug, PartialEq)]
pub struct XyRect {
    pub x0: i64,
    pub x1: i64,
    pub y0: i64,
    pub y1: i64,
    pub k: i64,
    pub mat_ptr: Arc<Material>,
}

/// The rectangle `x0 <= x <= x1`, `z0 <= z <= z1` in the plane `y = k`.
#[derive(Debug, PartialEq)]
pub struct XzRect {
    pub x0: i64,
    pub x1: i64,
    pub z0: i64,
    pub z1: i64,
    pub k: i64,
    pub mat_ptr: Arc<Material>,
}

/// The rectangle `y0 <= y <= y1`, `z0 <= z <= z1` in the plane `x = k`.
#[derive(Debug, PartialEq)]
pub struct YzRect {
    pub y0: i64,
    pub y1: i64,
    pub z0: i64,
    pub z1: i64,
    pub k: i64,
    pub mat_ptr: Arc<Material>,
}

/// The sphere of centre `center` and radius `radius`.
#[derive(Debug, PartialEq)]
pub struct Sphere {
    pub center: Vec3,
    pub radius: i64,
    pub mat_ptr: Arc<Material>,
}

/// The axis-aligned box with opposite corners `box_min` and `box_max`, made
/// of its six faces.
#[derive(Debug, PartialEq)]
pub struct Bbox {
    pub box_min: Vec3,
    pub box_max: Vec3,
    pub sides: HittableList,
}

/// A shape whose surface normals point the other way.
#[derive(Debug, PartialEq)]
pub struct FlipFace {
    pub ptr: Box<Hittable>,
}

/// A shape turned by `angle` (hundredths of a degree) about the y axis.
#[derive(Debug, PartialEq)]
pub struct Rotatey {
    pub ptr: Box<Hittable>,
    pub angle: i64,
}

/// A shape moved by `offset`.
#[derive(Debug, PartialEq)]
pub struct Translate {
    pub ptr: Box<Hittable>,
    pub offset: Vec3,
}

/// Anything a ray can hit.
#[derive(Debug, PartialEq)]
pub enum Hittable {
    XyRect(XyRect),
    XzRect(XzRect),
    YzRect(YzRect),
    Sphere(Sphere),
    Bbox(Bbox),
    FlipFace(FlipFace),
    Rotatey(Rotatey),
    Translate(Translate),
}

/// A collection of shapes, hit where its nearest member is hit.
#[derive(Debug, PartialEq)]
pub struct HittableList {
    pub objects: Vec<Hittable>,
}

impl XyRect {
    /// The rectangle of the given bounds and plane, of material `mat_ptr`.
    pub fn new(x0: i64, x1: i64, y0: i64, y1: i64, k: i64, mat_ptr: Arc<Material>) -> (r: XyRect)
        ensures
            r == (XyRect { x0, x1, y0, y1, k, mat_ptr }),
    {
        XyRect { x0, x1, y0, y1, k, mat_ptr }
    }
}

impl XzRect {
    /// The rectangle of the given bounds and plane, of material `mat_ptr`.
    pub fn new(x0: i64, x1: i64, z0: i64, z1: i64, k: i64, mat_ptr: Arc<Material>) -> (r: XzRect)
        ensures
            r == (XzRect { x0, x1, z0, z1, k, mat_ptr }),
    {
        XzRect { x0, x1, z0, z1, k, mat_ptr }
    }
}

impl YzRect {
    /// The rectangle of the given bounds and plane, of material `mat_ptr`.
    pub fn new(y0: i64, y1: i64, z0: i64, z1: i64, k: i64, mat_ptr: Arc<Material>) -> (r: YzRect)
        ensures
            r == (YzRect { y0, y1, z0, z1, k, mat_ptr }),
    {
        YzRect { y0, y1, z0, z1, k, mat_ptr }
    }
}

impl Sphere {
    /// The sphere of the given centre and radius, of material `mat_ptr`.
    pub fn new(center: Vec3, radius: i64, mat_ptr: Arc<Material>) -> (r: Sphere)
        ensures
            r == (Sphere { center, radius, mat_ptr }),
    {
        Sphere { center, radius, mat_ptr }
    }
}

/// The six faces of the box with opposite corners `p0` and `p1`, all of the
/// material behind `ptr`: the two faces at `z = p1.z` and `z = p0.z`, then
/// those at `y = p1.y` and `y = p0.y`, then those at `x = p1.x` and `x = p0.x`.
pub open spec fn box_sides(p0: Vec3, p1: Vec3, ptr: Arc<Material>) -> Seq<Hittable> {
    seq![
        Hittable::XyRect(XyRect { x0: p0.x, x1: p1.x, y0: p0.y, y1: p1.y, k: p1.z, mat_ptr: ptr }),
        Hittable::XyRect(XyRect { x0: p0.x, x1: p1.x, y0: p0.y, y1: p1.y, k: p0.z, mat_ptr: ptr }),
        Hittable::XzRect(XzRect { x0: p0.x, x1: p1.x, z0: p0.z, z1: p1.z, k: p1.y, mat_ptr: ptr }),
        Hittable::XzRect(XzRect { x0: p0.x, x1: p1.x, z0: p0.z, z1: p1.z, k: p0.y, mat_ptr: ptr }),
        Hittable::YzRect(YzRect { y0: p0.y, y1: p1.y, z0: p0.z, z1: p1.z, k: p1.x, mat_ptr: ptr }),
        Hittable::YzRect(YzRect { y0: p0.y, y1: p1.y, z0: p0.z, z1: p1.z, k: p0.x, mat_ptr: ptr }),
    ]
}

impl Bbox {
    /// The box with opposite corners `p0` and `p1`, its six faces sharing the
    /// material behind `ptr`.
    pub fn new(p0: Vec3, p1: Vec3, ptr: Arc<Material>) -> (r: Bbox)
        ensures
            r.box_min == p0,
            r.box_max == p1,
            r.sides.objects@ == box_sides(p0, p1, ptr),
            r.sides.objects@.len() == 6,
            r.sides.objects@[0] == Hittable::XyRect(
                XyRect { x0: p0.x, x1: p1.x, y0: p0.y, y1: p1.y, k: p1.z, mat_ptr: ptr },
            ),
            r.sides.objects@[1] == Hittable::XyRect(
                XyRect { x0: p0.x, x1: p1.x, y0: p0.y, y1: p1.y, k: p0.z, mat_ptr: ptr },
            ),
            r.sides.objects@[2] == Hittable::XzRect(
                XzRect { x0: p0.x, x1: p1.x, z0: p0.z, z1: p1.z, k: p1.y, mat_ptr: ptr },
            ),
            r.sides.objects@[3] == Hittable::XzRect(
                XzRect { x0: p0.x, x1: p1.x, z0: p0.z, z1: p1.z, k: p0.y, mat_ptr: ptr },
            ),
            r.sides.objects@[4] == Hittable::YzRect(
                YzRect { y0: p0.y, y1: p1.y, z0: p0.z, z1: p1.z, k: p1.x, mat_ptr: ptr },
            ),
            r.sides.objects@[5] == Hittable::YzRect(
                YzRect { y0: p0.y, y1: p1.y, z0: p0.z, z1: p1.z, k: p0.x, mat_ptr: ptr },
            ),
    {
        let mut sides = HittableList::default();
        sides.add(Hittable::XyRect(XyRect::new(p0.x, p1.x, p0.y, p1.y, p1.z, share(&ptr))));
        sides.add(Hittable::XyRect(XyRect::new(p0.x, p1.x, p0.y, p1.y, p0.z, share(&ptr))));
        sides.add(Hittable::XzRect(XzRect::new(p0.x, p1.x, p0.z, p1.z, p1.y, share(&ptr))));
        sides.add(Hittable::XzRect(XzRect::new(p0.x, p1.x, p0.z, p1.z, p0.y, share(&ptr))));
        sides.add(Hittable::YzRect(YzRect::new(p0.y, p1.y, p0.z, p1.z, p1.x, share(&ptr))));
        sides.add(Hittable::YzRect(YzRect::new(p0.y, p1.y, p0.z, p1.z, p0.x, ptr)));
        assert(sides.objects@ =~= box_sides(p0, p1, ptr));
        Bbox { box_min: p0, box_max: p1, sides }
    }
}

impl FlipFace {
    /// The shape `ptr` with its faces turned the other way.
    pub fn new(ptr: Hittable) -> (r: FlipFace)
        ensures
            *r.ptr == ptr,
    {
        FlipFace { ptr: Box::new(ptr) }
    }
}

impl Rotatey {
    /// The shape `ptr` turned by `angle` hundredths of a degree about the y axis.
    pub fn new(ptr: Hittable, angle: i64) -> (r: Rotatey)
        ensures
            *r.ptr == ptr,
            r.angle == angle,
    {
        Rotatey { ptr: Box::new(ptr), angle }
    }
}

impl Translate {
    /// The shape `ptr` moved by `offset`.
    pub fn new(ptr: Hittable, offset: Vec3) -> (r: Translate)
        ensures
            *r.ptr == ptr,
            r.offset == offset,
    {
        Translate { ptr: Box::new(ptr), offset }
    }
}

impl HittableList {
    /// Adds `object` after the shapes already in the list.
    pub fn add(&mut self, object: Hittable)
        ensures
            final(self).objects@ == old(self).objects@.push(object),
    {
        self.objects.push(object);
    }

    /// The number of shapes in the list.
    pub fn len(&self) -> (r: usize)
        ensures
            r == self.objects@.len(),
    {
        self.objects.len()
    }
}

impl Default for HittableList {
    /// The empty list.
    fn default() -> (r: HittableList)
        ensures
            r.objects@ == Seq::<Hittable>::empty(),
    {
        HittableList { objects: Vec::new() }
    }
}

/// Whether point `p` lies on the surface of the axis-aligned box with corners
/// `p0 <= p1`: inside the box, and on one of its six planes.
pub open spec fn on_box_surface(p0: Vec3, p1: Vec3, p: Vec3) -> bool {
    &&& p0.x <= p.x <= p1.x
    &&& p0.y <= p.y <= p1.y
    &&& p0.z <= p.z <= p1.z
    &&& (p.x == p0.x || p.x == p1.x || p.y == p0.y || p.y == p1.y || p.z == p0.z || p.z == p1.z)
}

/// Whether point `p` lies on the shape `h` when `h` is one of the three kinds
/// of rectangle.
pub open spec fn on_rect(h: Hittable, p: Vec3) -> bool {
    match h {
        Hittable::XyRect(r) => r.x0 <= p.x <= r.x1 && r.y0 <= p.y <= r.y1 && p.z == r.k,
        Hittable::XzRect(r) => r.x0 <= p.x <= r.x1 && r.z0 <= p.z <= r.z1 && p.y == r.k,
        Hittable::YzRect(r) => r.y0 <= p.y <= r.y1 && r.z0 <= p.z <= r.z1 && p.x == r.k,
        _ => false,
    }
}

/// The faces of a box are its six sides, each in the plane of one corner
/// coordinate and spanning the box in the other two, all of the box's material.
pub proof fn lemma_box_faces(p0: Vec3, p1: Vec3, ptr: Arc<Material>)
    ensures
        box_sides(p0, p1, ptr).len() == 6,
        box_sides(p0, p1, ptr)[0] matches Hittable::XyRect(r) && r.k == p1.z && r.x0 == p0.x
            && r.x1 == p1.x && r.y0 == p0.y && r.y1 == p1.y && r.mat_ptr == ptr,
        box_sides(p0, p1, ptr)[1] matches Hittable::XyRect(r) && r.k == p0.z && r.x0 == p0.x
            && r.x1 == p1.x && r.y0 == p0.y && r.y1 == p1.y && r.mat_ptr == ptr,
        box_sides(p0, p1, ptr)[2] matches Hittable::XzRect(r) && r.k == p1.y && r.x0 == p0.x
            && r.x1 == p1.x && r.z0 == p0.z && r.z1 == p1.z && r.mat_ptr == ptr,
        box_sides(p0, p1, ptr)[3] matches Hittable::XzRect(r) && r.k == p0.y && r.x0 == p0.x
            && r.x1 == p1.x && r.z0 == p0.z && r.z1 == p1.z && r.mat_ptr == ptr,
        box_sides(p0, p1, ptr)[4] matches Hittable::YzRect(r) && r.k == p1.x && r.y0 == p0.y
            && r.y1 == p1.y && r.z0 == p0.z && r.z1 == p1.z && r.mat_ptr == ptr,
        box_sides(p0, p1, ptr)[5] matches Hittable::YzRect(r) && r.k == p0.x && r.y0 == p0.y
            && r.y1 == p1.y && r.z0 == p0.z && r.z1 == p1.z && r.mat_ptr == ptr,
{
}

/// The faces of a box cover exactly its surface: a point lies on one of the
/// six faces if and only if it lies on the surface of the box.
pub proof fn lemma_box_faces_cover_surface(p0: Vec3, p1: Vec3, ptr: Arc<Material>, p: Vec3)
    requires
        p0.x <= p1.x,
        p0.y <= p1.y,
        p0.z <= p1.z,
    ensures
        (exists|i: int| 0 <= i < 6 && on_rect(#[trigger] box_sides(p0, p1, ptr)[i], p))
            <==> on_box_surface(p0, p1, p),
{
    let s = box_sides(p0, p1, ptr);
    if on_box_surface(p0, p1, p) {
        if p.z == p1.z {
            assert(on_rect(s[0], p));
        } else if p.z == p0.z {
            assert(on_rect(s[1], p));
        } else if p.y == p1.y {
            assert(on_rect(s[2], p));
        } else if p.y == p0.y {
            assert(on_rect(s[3], p));
        } else if p.x == p1.x {
            assert(on_rect(s[4], p));
        } else {
            assert(on_rect(s[5], p));
        }
    }
}

/// Whether two shapes occupy the same place, whatever their materials and
/// whichever way their faces point.
pub open spec fn same_shape(a: Hittable, b: Hittable) -> bool
    decreases a, b,
{
    match a {
        Hittable::FlipFace(f) => same_shape(*f.ptr, b),
        _ => match b {
            Hittable::FlipFace(g) => same_shape(a, *g.ptr),
            Hittable::XyRect(s) => match a {
                Hittable::XyRect(r) => r.x0 == s.x0 && r.x1 == s.x1 && r.y0 == s.y0 && r.y1
                    == s.y1 && r.k == s.k,
                _ => false,
            },
            Hittable::XzRect(s) => match a {
                Hittable::XzRect(r) => r.x0 == s.x0 && r.x1 == s.x1 && r.z0 == s.z0 && r.z1
                    == s.z1 && r.k == s.k,
                _ => false,
            },
            Hittable::YzRect(s) => match a {
                Hittable::YzRect(r) => r.y0 == s.y0 && r.y1 == s.y1 && r.z0 == s.z0 && r.z1
                    == s.z1 && r.k == s.k,
                _ => false,
            },
            Hittable::Sphere(s) => match a {
                Hittable::Sphere(r) => r.center == s.center && r.radius == s.radius,
                _ => false,
            },
            Hittable::Bbox(s) => match a {
                Hittable::Bbox(r) => r.box_min == s.box_min && r.box_max == s.box_max,
                _ => false,
            },
            Hittable::Rotatey(s) => match a {
                Hittable::Rotatey(r) => r.angle == s.angle && same_shape(*r.ptr, *s.ptr),
                _ => false,
            },
            Hittable::Translate(s) => match a {
                Hittable::Translate(r) => r.offset == s.offset && same_shape(*r.ptr, *s.ptr),
                _ => false,
            },
        },
    }
}

} // verus!
