use rusty_rays_core::model::{Cone, IntersectedObjectInfo, Model, Polygon, PrimitiveKind, Sphere, Triangle};
use rusty_rays_core::numeric::FloatBits;
use rusty_rays_core::parser::iterate_input_data;
use rusty_rays_core::scene::{Color, Coords, Surface, Word};
use rusty_rays_core::text::split_words;

fn bits(v: f64) -> FloatBits {
    FloatBits(v.to_bits())
}

fn xyz(x: f64, y: f64, z: f64) -> Coords {
    Coords { x: bits(x), y: bits(y), z: bits(z) }
}

fn surface(name: &str) -> Surface {
    let black = Color { r: bits(0.0), g: bits(0.0), b: bits(0.0), a: bits(1.0) };
    Surface {
        name: name.to_string(),
        ambient: black,
        diffuse: black,
        specular: black,
        specpow: bits(0.0),
        reflect: bits(0.0),
    }
}

fn sphere(uuid: u128, radius: f64) -> Sphere {
    Sphere { uuid, surface: surface("s"), radius: bits(radius), position: xyz(0.0, 0.0, 0.0) }
}

#[test]
fn new_model_is_empty_with_default_camera() {
    let m = Model::new();
    assert_eq!(m.fov.horz, bits(45.0));
    assert_eq!(m.fov.vert, bits(45.0));
    assert_eq!(m.screen.width, 500);
    assert_eq!(m.screen.height, 500);
    assert_eq!(m.eyep, xyz(0.0, 0.0, 0.0));
    assert!(m.light_sources.is_empty());
    assert!(m.get_all_spheres().is_empty());
    assert!(m.get_all_primitives().is_empty());
}

#[test]
fn upsert_gives_back_what_it_replaces() {
    let mut m = Model::new();
    assert_eq!(m.upsert_sphere(sphere(7, 1.0)), None);
    assert_eq!(m.upsert_sphere(sphere(7, 2.0)), Some(sphere(7, 1.0)));
    assert_eq!(m.get_all_spheres().get(&7), Some(&sphere(7, 2.0)));
    assert_eq!(m.get_all_primitives().get(&7), Some(&PrimitiveKind::Sphere));
    assert_eq!(m.get_all_spheres().len(), 1);
}

#[test]
fn delete_gives_back_what_it_removes() {
    let mut m = Model::new();
    m.upsert_sphere(sphere(1, 1.0));
    m.upsert_sphere(sphere(2, 2.0));
    assert_eq!(m.delete_sphere(1), Some(sphere(1, 1.0)));
    assert_eq!(m.delete_sphere(1), None);
    assert!(m.get_all_spheres().get(&1).is_none());
    assert!(m.get_all_primitives().get(&1).is_none());
    assert_eq!(m.get_all_primitives().get(&2), Some(&PrimitiveKind::Sphere));
}

#[test]
fn delete_undoes_a_fresh_upsert() {
    let mut m = Model::new();
    m.upsert_sphere(sphere(1, 1.0));
    let cone = Cone {
        uuid: 5,
        surface: surface("c"),
        base_radius: bits(1.0),
        base: xyz(0.0, 0.0, 0.0),
        apex_radius: bits(0.5),
        apex: xyz(0.0, 1.0, 0.0),
    };
    m.upsert_cone(cone.clone());
    assert_eq!(m.delete_cone(5), Some(cone));
    assert!(m.get_all_cones().is_empty());
    assert_eq!(m.get_all_primitives().len(), 1);
    assert_eq!(m.get_all_spheres().len(), 1);
}

#[test]
fn index_follows_the_latest_upsert_of_an_identifier() {
    let mut m = Model::new();
    m.upsert_sphere(sphere(3, 1.0));
    let p = Polygon { uuid: 3, surface: surface("p"), vertices: vec![xyz(0.0, 0.0, 0.0)] };
    assert_eq!(m.upsert_polygon(p.clone()), None);
    assert_eq!(m.get_all_primitives().get(&3), Some(&PrimitiveKind::Polygon));
    // the sphere stays in its own map
    assert_eq!(m.get_all_spheres().get(&3), Some(&sphere(3, 1.0)));
    assert_eq!(m.delete_polygon(3), Some(p));
    assert!(m.get_all_primitives().get(&3).is_none());
}

#[test]
fn triangles_from_three_or_six_coordinates() {
    let flat = Triangle::from_coords(surface("t"), &vec![xyz(0.0, 0.0, 0.0), xyz(1.0, 0.0, 0.0), xyz(0.0, 1.0, 0.0)]);
    assert!(flat.flat_shaded);
    assert_eq!(flat.vertex_2, xyz(1.0, 0.0, 0.0));
    assert_eq!(flat.v1_normal, xyz(0.0, 0.0, 0.0));
    let smooth = Triangle::from_coords(
        surface("t"),
        &vec![
            xyz(0.0, 0.0, 0.0),
            xyz(0.0, 0.0, 1.0),
            xyz(1.0, 0.0, 0.0),
            xyz(0.0, 1.0, 1.0),
            xyz(0.0, 1.0, 0.0),
            xyz(1.0, 0.0, 1.0),
        ],
    );
    assert!(!smooth.flat_shaded);
    assert_eq!(smooth.vertex_2, xyz(1.0, 0.0, 0.0));
    assert_eq!(smooth.vertex_3, xyz(0.0, 1.0, 0.0));
    assert_eq!(smooth.v2_normal, xyz(0.0, 1.0, 1.0));
    assert_eq!(smooth.v3_normal, xyz(1.0, 0.0, 1.0));
    let mut m = Model::new();
    m.upsert_triangle(smooth.clone());
    assert_eq!(m.get_all_triangles().get(&smooth.uuid), Some(&smooth));
    assert_eq!(m.delete_triangle(smooth.uuid), Some(smooth));
}

#[test]
fn fresh_identifiers_differ() {
    let a = Sphere::new(surface("s"), bits(1.0), xyz(0.0, 0.0, 0.0));
    let b = Sphere::new(surface("s"), bits(1.0), xyz(0.0, 0.0, 0.0));
    assert_ne!(a.uuid, b.uuid);
    assert_eq!(a.radius, bits(1.0));
}

#[test]
fn model_from_a_parsed_scene() {
    let src = "eyep 0 0 5\nsurface s\nsphere s 1 0 0 0\ncone s 1 0 0 0 0.5 0 1 0\npolygon s\n0 0 0 1 0 0 1 1 0\ntriangle s 0 0 0 1 0 0 0 1 0";
    let ls: Vec<Vec<Word>> = src
        .lines()
        .map(|l| {
            split_words(l)
                .iter()
                .map(|w| Word { text: w.clone(), number: w.parse::<f64>().ok().map(|v| FloatBits(v.to_bits())) })
                .collect()
        })
        .collect();
    let (scene, err) = iterate_input_data(&ls, &None);
    assert!(err.is_none());
    let m = Model::from_scene(scene);
    assert_eq!(m.eyep, xyz(0.0, 0.0, 5.0));
    assert_eq!(m.get_all_spheres().len(), 1);
    assert_eq!(m.get_all_cones().len(), 1);
    assert_eq!(m.get_all_polygons().len(), 1);
    assert_eq!(m.get_all_triangles().len(), 1);
    assert_eq!(m.get_all_primitives().len(), 4);
    let p = m.get_all_polygons().values().next().unwrap();
    assert_eq!(p.vertices.len(), 3);
    assert_eq!(p.surface.name, "name");
    assert_eq!(m.get_all_surfaces().len(), 1);
    assert_eq!(m.get_all_surfaces()[0].0, "s");
}

#[test]
fn intersected_object_info_text() {
    let info = IntersectedObjectInfo::new(0x0123456789abcdef0123456789abcdef, PrimitiveKind::Cone);
    assert_eq!(info.uuid, "01234567-89ab-cdef-0123-456789abcdef");
    assert_eq!(info.object_type, "cone");
    let info = IntersectedObjectInfo::new(0, PrimitiveKind::Triangle);
    assert_eq!(info.uuid, "00000000-0000-0000-0000-000000000000");
    assert_eq!(info.object_type, "triangle");
}

#[test]
fn kind_names() {
    assert_eq!(PrimitiveKind::Sphere.name(), "sphere");
    assert_eq!(PrimitiveKind::Polygon.name(), "polygon");
}

#[test]
fn upserting_twice_is_upserting_once() {
    let mut m = Model::new();
    m.upsert_sphere(sphere(9, 1.0));
    assert_eq!(m.upsert_sphere(sphere(9, 1.0)), Some(sphere(9, 1.0)));
    assert_eq!(m.get_all_spheres().len(), 1);
    assert_eq!(m.get_all_spheres().get(&9), Some(&sphere(9, 1.0)));
    assert_eq!(m.get_all_primitives().len(), 1);
}
