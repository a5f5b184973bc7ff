use rusty_rays_core::errors::ModelError;
use rusty_rays_core::numeric::FloatBits;
use rusty_rays_core::parser::iterate_input_data;
use rusty_rays_core::scene::{Color, Coords, LightSourceType, PrimitiveDecl, SceneDescription, Word};

use rusty_rays_core::text::split_words;

fn word(t: &str) -> Word {
    Word { text: t.to_string(), number: t.parse::<f64>().ok().map(|v| FloatBits(v.to_bits())) }
}

fn lines(src: &str) -> Vec<Vec<Word>> {
    src.lines().map(|l| split_words(l).iter().map(|w| word(w)).collect()).collect()
}

fn bits(v: f64) -> FloatBits {
    FloatBits(v.to_bits())
}

fn xyz(x: f64, y: f64, z: f64) -> Coords {
    Coords { x: bits(x), y: bits(y), z: bits(z) }
}

fn parse(src: &str) -> (SceneDescription, Option<ModelError>) {
    iterate_input_data(&lines(src), &None)
}

fn parse_error(src: &str) -> (usize, String) {
    match parse(src).1 {
        Some(ModelError::FailedToParseInputFile(n, m)) => (n, m),
        other => panic!("expected a parse error, got {:?}", other),
    }
}

const FULL_SCENE: &str = "eyep 0 0 10
lookp 0 0 0
up 0 1 0
fov 45 30
screen 640 480
background 0.1 0.2 0.3
light 1.5 point 1 2 3
light 0.5 ambient
light 2 extended 0.25 4 5 6
light 1 directional 0 -1 0
surface shiny
diffuse 1 0 0
ambient 0 1 0
specular 0.5 0.5 0.5 1
specpow 20
reflect 0.3
sphere shiny 2 0 0 0
cone shiny 1 0 0 0 0.5 0 1 0
cylinder shiny 1 0 0 0 0 1 0 3
polygon shiny
0 0 0 1 0 0
1 1 0
0 1 0
triangle shiny 0 0 0
1 0 0 0 1 0";

#[test]
fn full_scene_camera_and_screen() {
    let (sc, err) = parse(FULL_SCENE);
    assert!(err.is_none());
    assert_eq!(sc.eyep, xyz(0.0, 0.0, 10.0));
    assert_eq!(sc.lookp, xyz(0.0, 0.0, 0.0));
    assert_eq!(sc.up, xyz(0.0, 1.0, 0.0));
    assert_eq!(sc.fov.horz, bits(45.0));
    assert_eq!(sc.fov.vert, bits(30.0));
    assert_eq!(sc.screen.width, 640);
    assert_eq!(sc.screen.height, 480);
    assert_eq!(sc.background, Color { r: bits(0.1), g: bits(0.2), b: bits(0.3), a: bits(0.0) });
}

#[test]
fn full_scene_lights() {
    let (sc, _) = parse(FULL_SCENE);
    assert_eq!(sc.light_sources.len(), 4);
    let l = &sc.light_sources;
    assert_eq!(l[0].source_type, LightSourceType::Point);
    assert_eq!(l[0].intensity, bits(1.5));
    assert_eq!(l[0].position, xyz(1.0, 2.0, 3.0));
    assert_eq!(l[0].radius, bits(0.0));
    assert_eq!(l[1].source_type, LightSourceType::Ambient);
    assert_eq!(l[1].position, xyz(0.0, 0.0, 0.0));
    assert_eq!(l[2].source_type, LightSourceType::Extended);
    assert_eq!(l[2].radius, bits(0.25));
    assert_eq!(l[2].position, xyz(4.0, 5.0, 6.0));
    assert_eq!(l[3].source_type, LightSourceType::Directional);
    assert_eq!(l[3].position, xyz(0.0, -1.0, 0.0));
}

#[test]
fn full_scene_surface_attributes() {
    let (sc, _) = parse(FULL_SCENE);
    assert_eq!(sc.surfaces.len(), 1);
    let (key, s) = &sc.surfaces[0];
    assert_eq!(key, "shiny");
    // the surface keeps the default name, and an `ambient` line sets the diffuse color
    assert_eq!(s.name, "name");
    assert_eq!(s.diffuse, Color { r: bits(0.0), g: bits(1.0), b: bits(0.0), a: bits(0.0) });
    assert_eq!(s.ambient, Color { r: bits(0.0), g: bits(0.0), b: bits(0.0), a: bits(1.0) });
    assert_eq!(s.specular, Color { r: bits(0.5), g: bits(0.5), b: bits(0.5), a: bits(1.0) });
    assert_eq!(s.specpow, bits(20.0));
    assert_eq!(s.reflect, bits(0.3));
}

#[test]
fn full_scene_primitives() {
    let (sc, _) = parse(FULL_SCENE);
    let shiny = sc.surfaces[0].1.clone();
    assert_eq!(shiny.name, "name");
    assert_eq!(sc.primitives.len(), 5);
    assert_eq!(
        sc.primitives[0],
        PrimitiveDecl::Sphere { line: 18, surface: shiny.clone(), radius: bits(2.0), position: xyz(0.0, 0.0, 0.0) }
    );
    assert_eq!(
        sc.primitives[1],
        PrimitiveDecl::Cone {
            line: 19,
            surface: shiny.clone(),
            base_radius: bits(1.0),
            base: xyz(0.0, 0.0, 0.0),
            apex_radius: bits(0.5),
            apex: xyz(0.0, 1.0, 0.0),
        }
    );
    assert_eq!(
        sc.primitives[2],
        PrimitiveDecl::Cylinder {
            line: 20,
            surface: shiny.clone(),
            radius: bits(1.0),
            base: xyz(0.0, 0.0, 0.0),
            axis: xyz(0.0, 1.0, 0.0),
            height: bits(3.0),
        }
    );
    assert_eq!(
        sc.primitives[3],
        PrimitiveDecl::Polygon {
            line: 24,
            surface: shiny.clone(),
            vertices: vec![xyz(0.0, 0.0, 0.0), xyz(1.0, 0.0, 0.0), xyz(1.0, 1.0, 0.0), xyz(0.0, 1.0, 0.0)],
        }
    );
    assert_eq!(
        sc.primitives[4],
        PrimitiveDecl::Triangle {
            line: 25,
            surface: shiny.clone(),
            coords: vec![xyz(0.0, 0.0, 0.0), xyz(1.0, 0.0, 0.0), xyz(0.0, 1.0, 0.0)],
        }
    );
}

#[test]
fn empty_input_is_an_error_at_line_1() {
    let (_, err) = iterate_input_data(&vec![], &None);
    match err {
        Some(e) => {
            assert_eq!(e, ModelError::FailedToParseInputFile(1, "input file is empty".to_string()));
            assert_eq!(e.message(), "Failed to parse input file at line 1. Error: input file is empty");
        }
        None => panic!("expected an error"),
    }
}

#[test]
fn read_failure_is_reported_after_the_lines_read() {
    let (sc, err) = iterate_input_data(&lines("eyep 1 2 3\n"), &Some("disk gone".to_string()));
    assert_eq!(sc.eyep, xyz(1.0, 2.0, 3.0));
    assert_eq!(
        err,
        Some(ModelError::FailedToParseInputFile(
            2,
            "failed to read input file from disk. Error: disk gone".to_string()
        ))
    );
}

#[test]
fn first_line_errors_are_reported_as_line_2() {
    assert_eq!(
        parse_error("background 2 0 0"),
        (
            2,
            "Failed to parse color from &str vec: failed to parse color. value 2 not a valid rgba channel value"
                .to_string()
        )
    );
}

#[test]
fn unknown_surface_is_an_error() {
    assert_eq!(
        parse_error("eyep 0 0 1\nsphere nosuch 1 0 0 0"),
        (3, "surface nosuch referenced before definition".to_string())
    );
}

#[test]
fn extra_value_on_a_line_is_an_error() {
    assert_eq!(parse_error("eyep 0 0 0 7"), (2, "value 7 should be on a new line".to_string()));
}

#[test]
fn bad_coordinates_are_errors() {
    assert_eq!(
        parse_error("eyep 0 x 0"),
        (2, "Failed to parse coords from &str vec: failed to parse coords. x is not a number".to_string())
    );
    assert_eq!(
        parse_error("up 0 0"),
        (
            2,
            "Failed to parse coords from &str vec: 3d coordinate values should be defined by 3 numerical values"
                .to_string()
        )
    );
}

#[test]
fn bad_light_lines_are_errors() {
    assert_eq!(parse_error("light 1 laser"), (2, "'laser' is not a valid light source type".to_string()));
    assert_eq!(parse_error("light"), (2, "missing light source intensity value".to_string()));
    assert_eq!(parse_error("light x point 0 0 0"), (2, "light intensity must be a valid decimal value".to_string()));
    assert_eq!(parse_error("light 1"), (2, "missing light source type".to_string()));
    assert_eq!(parse_error("light 1 extended"), (2, "missing radius for extended light".to_string()));
}

#[test]
fn bad_fov_and_screen_lines_are_errors() {
    assert_eq!(parse_error("fov 45"), (2, "missing vertical fov value".to_string()));
    assert_eq!(parse_error("fov a 1"), (2, "invalid horizontal fov value: a".to_string()));
    assert_eq!(parse_error("screen 10 -5"), (2, "invalid vertical screen size: -5".to_string()));
    assert_eq!(parse_error("screen"), (2, "missing horizontal screen size value".to_string()));
}

#[test]
fn triangle_needs_3_or_6_coordinates() {
    assert_eq!(
        parse_error("surface s\ntriangle s 0 0 0 1 0 0\n1 1 0 0 1 1"),
        (3, "a triangle definition should contain a 3 or 6 3D coordinate values. got 4".to_string())
    );
}

#[test]
fn polygon_vertex_errors_name_their_line() {
    assert_eq!(
        parse_error("surface s\npolygon s\n0 0 0\n0 0 0 1 0"),
        (
            5,
            "Failed to parse coords from &str vec: 3d coordinate values should be defined by 3 numerical values"
                .to_string()
        )
    );
}

#[test]
fn dangling_surface_keyword_is_an_error() {
    assert_eq!(parse_error("surface"), (2, "dangling \"surface\" keyword".to_string()));
}

#[test]
fn scene_up_to_the_error_is_kept() {
    let (sc, err) = parse("eyep 1 1 1\nlookp 2 2 2\nfov 1");
    assert!(err.is_some());
    assert_eq!(sc.eyep, xyz(1.0, 1.0, 1.0));
    assert_eq!(sc.lookp, xyz(2.0, 2.0, 2.0));
}

#[test]
fn comments_blank_lines_and_unknown_words_are_passed_over() {
    let (sc, err) = parse("// eyep 9 9 9\n\n   \nfoo bar\neyep 1 0 0");
    assert!(err.is_none());
    assert_eq!(sc.eyep, xyz(1.0, 0.0, 0.0));
}

#[test]
fn surface_redefinition_replaces_in_place() {
    let (sc, err) = parse("surface a\nspecpow 1\nsurface b\nsurface a\nspecpow 2");
    assert!(err.is_none());
    assert_eq!(sc.surfaces.len(), 2);
    assert_eq!(sc.surfaces[0].0, "a");
    assert_eq!(sc.surfaces[0].1.specpow, bits(2.0));
    assert_eq!(sc.surfaces[1].0, "b");
}

#[test]
fn nan_color_channels_are_accepted() {
    let (sc, err) = parse("background NaN 0 0 1");
    assert!(err.is_none());
    assert!(f64::from_bits(sc.background.r.0).is_nan());
    assert_eq!(sc.background.a, bits(1.0));
}

#[test]
fn surface_attribute_errors_name_their_line() {
    assert_eq!(parse_error("surface s\nspecpow\n"), (3, "missing specpow value".to_string()));
    assert_eq!(
        parse_error("surface s\nreflect x\n"),
        (3, "reflect value must be valid decimal value".to_string())
    );
}
