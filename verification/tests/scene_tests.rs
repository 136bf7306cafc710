use raytrace::{
    cornellbox, cornellbox_lights, Bbox, Dielectric, DiffuseLight, FlipFace, Hittable,
    HittableList, Lambertian, Material, Metal, NOMaterial, Rotatey, SolidColor, Sphere, Texture,
    Translate, Vec3, XyRect, XzRect, YzRect,
};
use std::sync::Arc;

fn matte(x: i64, y: i64, z: i64) -> Arc<Material> {
    Arc::new(Material::Lambertian(Lambertian {
        albedo: Texture::Solid(SolidColor { col: Vec3 { x, y, z } }),
    }))
}

fn nothing() -> Arc<Material> {
    Arc::new(Material::NoMaterial(NOMaterial {}))
}

fn material_of(h: &Hittable) -> &Arc<Material> {
    match h {
        Hittable::XyRect(r) => &r.mat_ptr,
        Hittable::XzRect(r) => &r.mat_ptr,
        Hittable::YzRect(r) => &r.mat_ptr,
        Hittable::Sphere(s) => &s.mat_ptr,
        _ => panic!("not a primitive shape"),
    }
}

fn box_of(h: &Hittable) -> &Bbox {
    match h {
        Hittable::Translate(t) => match &*t.ptr {
            Hittable::Rotatey(r) => match &*r.ptr {
                Hittable::Bbox(b) => b,
                _ => panic!("not a box"),
            },
            _ => panic!("not rotated"),
        },
        _ => panic!("not translated"),
    }
}

#[test]
fn cornellbox_has_eight_objects_in_order() {
    let scene = cornellbox();
    assert_eq!(scene.len(), 8);
    let o = &scene.objects;
    assert_eq!(
        o[0],
        Hittable::YzRect(YzRect { y0: 0, y1: 55500, z0: 0, z1: 55500, k: 55500, mat_ptr: matte(12, 45, 15) })
    );
    assert_eq!(
        o[1],
        Hittable::YzRect(YzRect { y0: 0, y1: 55500, z0: 0, z1: 55500, k: 0, mat_ptr: matte(65, 5, 5) })
    );
    let lamp = Arc::new(Material::DiffuseLight(DiffuseLight {
        emit: Texture::Solid(SolidColor { col: Vec3 { x: 1500, y: 1500, z: 1500 } }),
    }));
    assert_eq!(
        o[2],
        Hittable::FlipFace(FlipFace {
            ptr: Box::new(Hittable::XzRect(XzRect {
                x0: 21300, x1: 34300, z0: 22700, z1: 33200, k: 55400, mat_ptr: lamp
            }))
        })
    );
    assert_eq!(
        o[3],
        Hittable::XzRect(XzRect { x0: 0, x1: 55500, z0: 0, z1: 55500, k: 0, mat_ptr: matte(73, 73, 73) })
    );
    assert_eq!(
        o[4],
        Hittable::XzRect(XzRect { x0: 0, x1: 55500, z0: 0, z1: 55500, k: 55500, mat_ptr: matte(73, 73, 73) })
    );
    assert_eq!(
        o[5],
        Hittable::XyRect(XyRect { x0: 0, x1: 55500, y0: 0, y1: 55500, k: 55500, mat_ptr: matte(73, 73, 73) })
    );
    let tall_box = Hittable::Translate(Translate {
        ptr: Box::new(Hittable::Rotatey(Rotatey {
            ptr: Box::new(Hittable::Bbox(Bbox::new(
                Vec3 { x: 0, y: 0, z: 0 },
                Vec3 { x: 16500, y: 33000, z: 16500 },
                matte(73, 73, 73),
            ))),
            angle: 1500,
        })),
        offset: Vec3 { x: 26500, y: 0, z: 29500 },
    });
    assert_eq!(o[6], tall_box);
    assert_eq!(
        o[7],
        Hittable::Sphere(Sphere {
            center: Vec3 { x: 19000, y: 9000, z: 19000 },
            radius: 9000,
            mat_ptr: Arc::new(Material::Dielectric(Dielectric { ir: 150 })),
        })
    );
}

#[test]
fn cornellbox_white_is_one_shared_material() {
    let scene = cornellbox();
    let o = &scene.objects;
    let floor = material_of(&o[3]);
    assert!(Arc::ptr_eq(floor, material_of(&o[4])));
    assert!(Arc::ptr_eq(floor, material_of(&o[5])));
    let b = box_of(&o[6]);
    assert_eq!(b.sides.len(), 6);
    for side in &b.sides.objects {
        assert!(Arc::ptr_eq(floor, material_of(side)));
    }
    assert!(!Arc::ptr_eq(material_of(&o[0]), material_of(&o[1])));
}

#[test]
fn only_the_lamp_emits_in_cornellbox() {
    let scene = cornellbox();
    let mut emitters = 0;
    for (i, obj) in scene.objects.iter().enumerate() {
        let mut h = obj;
        while let Hittable::FlipFace(f) = h {
            h = &f.ptr;
        }
        if let Hittable::XzRect(r) = h {
            if let Material::DiffuseLight(_) = *r.mat_ptr {
                emitters += 1;
                assert_eq!(i, 2);
            }
        }
    }
    assert_eq!(emitters, 1);
}

#[test]
fn cornellbox_lights_are_lamp_and_ball() {
    let lights = cornellbox_lights();
    assert_eq!(lights.len(), 2);
    assert_eq!(
        lights.objects[0],
        Hittable::XzRect(XzRect { x0: 21300, x1: 34300, z0: 22700, z1: 33200, k: 55400, mat_ptr: nothing() })
    );
    assert_eq!(
        lights.objects[1],
        Hittable::Sphere(Sphere {
            center: Vec3 { x: 19000, y: 9000, z: 19000 },
            radius: 9000,
            mat_ptr: nothing(),
        })
    );
}

#[test]
fn lights_coincide_with_scene_shapes() {
    let scene = cornellbox();
    let lights = cornellbox_lights();
    match (&scene.objects[2], &lights.objects[0]) {
        (Hittable::FlipFace(f), Hittable::XzRect(l)) => match &*f.ptr {
            Hittable::XzRect(s) => {
                assert_eq!((s.x0, s.x1, s.z0, s.z1, s.k), (l.x0, l.x1, l.z0, l.z1, l.k));
            }
            _ => panic!("lamp is not a rectangle"),
        },
        _ => panic!("unexpected shapes"),
    }
    match (&scene.objects[7], &lights.objects[1]) {
        (Hittable::Sphere(s), Hittable::Sphere(l)) => {
            assert_eq!(s.center, l.center);
            assert_eq!(s.radius, l.radius);
        }
        _ => panic!("unexpected shapes"),
    }
}

#[test]
fn bbox_has_six_faces_on_its_surface() {
    let b = Bbox::new(Vec3::new(10, 20, 30), Vec3::new(40, 50, 60), nothing());
    assert_eq!(b.box_min, Vec3::new(10, 20, 30));
    assert_eq!(b.box_max, Vec3::new(40, 50, 60));
    let s = &b.sides.objects;
    assert_eq!(s.len(), 6);
    assert_eq!(s[0], Hittable::XyRect(XyRect::new(10, 40, 20, 50, 60, nothing())));
    assert_eq!(s[1], Hittable::XyRect(XyRect::new(10, 40, 20, 50, 30, nothing())));
    assert_eq!(s[2], Hittable::XzRect(XzRect::new(10, 40, 30, 60, 50, nothing())));
    assert_eq!(s[3], Hittable::XzRect(XzRect::new(10, 40, 30, 60, 20, nothing())));
    assert_eq!(s[4], Hittable::YzRect(YzRect::new(20, 50, 30, 60, 40, nothing())));
    assert_eq!(s[5], Hittable::YzRect(YzRect::new(20, 50, 30, 60, 10, nothing())));
}

#[test]
fn hittable_list_add_appends_in_order() {
    let mut list = HittableList::default();
    assert_eq!(list.len(), 0);
    list.add(Hittable::Sphere(Sphere::new(Vec3::new(1, 2, 3), 4, nothing())));
    list.add(Hittable::XyRect(XyRect::new(0, 1, 0, 1, 5, nothing())));
    assert_eq!(list.len(), 2);
    assert!(matches!(list.objects[0], Hittable::Sphere(ref s) if s.radius == 4));
    assert!(matches!(list.objects[1], Hittable::XyRect(ref r) if r.k == 5));
}

#[test]
fn shape_constructors_keep_arguments() {
    let b = Bbox::new(Vec3::new(0, 0, 0), Vec3::new(1, 2, 3), nothing());
    assert_eq!(b.box_max, Vec3::new(1, 2, 3));
    let r = Rotatey::new(Hittable::Bbox(b), -1800);
    assert_eq!(r.angle, -1800);
    let t = Translate::new(Hittable::Rotatey(r), Vec3::new(5, 6, 7));
    assert_eq!(t.offset, Vec3 { x: 5, y: 6, z: 7 });
    let f = FlipFace::new(Hittable::Translate(t));
    assert!(matches!(*f.ptr, Hittable::Translate(_)));
    let y = YzRect::new(1, 2, 3, 4, 5, nothing());
    assert_eq!((y.y0, y.y1, y.z0, y.z1, y.k), (1, 2, 3, 4, 5));
}

#[test]
fn material_constructors_keep_arguments() {
    let m = Metal::new(Vec3::new(80, 85, 88), 0);
    assert_eq!(m.albedo, Vec3::new(80, 85, 88));
    assert_eq!(m.fuzz, 0);
    assert_eq!(Dielectric::new(150).ir, 150);
    let l = DiffuseLight::new(Vec3::new(4, 4, 4));
    assert_eq!(l.emit, Texture::Solid(SolidColor::new(Vec3::new(4, 4, 4))));
    let w = Lambertian::new(Vec3::new(73, 73, 73));
    assert_eq!(w.albedo, Texture::Solid(SolidColor::new(Vec3::new(73, 73, 73))));
}
