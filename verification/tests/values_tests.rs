use rusty_rays_core::errors::{ColorError, CoordsError, ModelError, PlaneError, PointError, PolygonError, RenderError, TriangleError};
use rusty_rays_core::logger::shutdown_logger;
use rusty_rays_core::numeric::{is_not_outside_unit_interval, parse_usize, FloatBits};
use rusty_rays_core::scene::{Color, Coords, LightSourceType, Screen, Word};
use rusty_rays_core::text::{decimal_string, is_whitespace_char, split_words, str_eq};
use rusty_rays_core::values::{parse_color_channel_from_str, Point};

fn word(t: &str) -> Word {
    Word { text: t.to_string(), number: t.parse::<f64>().ok().map(|v| FloatBits(v.to_bits())) }
}

fn words(ts: &[&str]) -> Vec<Word> {
    ts.iter().map(|t| word(t)).collect()
}

fn bits(v: f64) -> FloatBits {
    FloatBits(v.to_bits())
}

#[test]
fn words_of_a_line() {
    assert_eq!(split_words("  a\tbb  c \u{3000}d"), vec!["a", "bb", "c", "d"]);
    assert!(split_words("   ").is_empty());
    assert!(is_whitespace_char('\u{a0}'));
    assert!(!is_whitespace_char('x'));
    assert!(str_eq("abc", "abc"));
    assert!(!str_eq("abc", "abd"));
}

#[test]
fn decimal_strings() {
    assert_eq!(decimal_string(0), "0");
    assert_eq!(decimal_string(7), "7");
    assert_eq!(decimal_string(12345), "12345");
    assert_eq!(decimal_string(usize::MAX), usize::MAX.to_string());
}

#[test]
fn unsigned_numbers() {
    assert_eq!(parse_usize("640"), Some(640));
    assert_eq!(parse_usize("+3"), Some(3));
    assert_eq!(parse_usize(""), None);
    assert_eq!(parse_usize("+"), None);
    assert_eq!(parse_usize("-1"), None);
    assert_eq!(parse_usize("1.5"), None);
    assert_eq!(parse_usize("99999999999999999999999"), None);
}

#[test]
fn unit_interval_test_follows_float_comparison() {
    for v in [0.0f64, -0.0, 0.5, 1.0, 1.0000001, -0.1, 2.0, f64::NAN, f64::INFINITY, f64::NEG_INFINITY, 1e-300] {
        let expected = !(v < 0.0 || v > 1.0);
        assert_eq!(is_not_outside_unit_interval(FloatBits(v.to_bits())), expected, "value {}", v);
    }
}

#[test]
fn coords_from_words() {
    assert_eq!(
        Coords::new_from_str_vec(&words(&["1", "2.5", "-3"])),
        Ok(Coords { x: bits(1.0), y: bits(2.5), z: bits(-3.0) })
    );
    let e = Coords::new_from_str_vec(&words(&["1", "y", "3"])).unwrap_err();
    assert_eq!(e.message(), "Failed to parse coords from &str vec: failed to parse coords. y is not a number");
    assert_eq!(
        Coords::new_from_str_vec(&words(&["1"])),
        Err(CoordsError::FailedToParseFromVec("3d coordinate values should be defined by 3 numerical values".to_string()))
    );
}

#[test]
fn points_from_words() {
    assert_eq!(
        Point::new_from_str_vec(&words(&["0", "1", "2"])),
        Ok(Point { x: bits(0.0), y: bits(1.0), z: bits(2.0) })
    );
    let e = Point::new_from_str_vec(&words(&["0", "1"])).unwrap_err();
    assert_eq!(
        e.message(),
        "Failed to parse point from &str vec: 3d point values should be defined by 3 numerical values"
    );
    assert_eq!(
        Point::new_from_str_vec(&words(&["q", "1", "2"])),
        Err(PointError::FailedToParseFromVec("failed to parse point. q is not a number".to_string()))
    );
}

#[test]
fn colors_from_words() {
    assert_eq!(
        Color::new_from_str_vec(&words(&["1", "0.5", "0"])),
        Ok(Color { r: bits(1.0), g: bits(0.5), b: bits(0.0), a: bits(0.0) })
    );
    assert_eq!(
        Color::new_from_str_vec(&words(&["1", "0.5", "0", "0.25"])),
        Ok(Color { r: bits(1.0), g: bits(0.5), b: bits(0.0), a: bits(0.25) })
    );
    assert_eq!(
        Color::new_from_str_vec(&words(&["1", "0.5"])),
        Err(ColorError::FailedToParseFromVec("colors should be defined by 3 or 4 numerical values".to_string()))
    );
    let e = Color::new_from_str_vec(&words(&["1", "255", "0"])).unwrap_err();
    assert_eq!(
        e.message(),
        "Failed to parse color from &str vec: failed to parse color. value 255 not a valid rgba channel value"
    );
    assert_eq!(parse_color_channel_from_str(&word("0.75")), Ok(bits(0.75)));
    assert_eq!(
        parse_color_channel_from_str(&word("-0.1")),
        Err("failed to parse color. value -0.1 not a valid rgba channel value".to_string())
    );
    assert_eq!(
        parse_color_channel_from_str(&word("red")),
        Err("failed to parse color. value red not a valid rgba channel value".to_string())
    );
}

#[test]
fn light_source_types() {
    assert_eq!(LightSourceType::from_str("point"), Ok(LightSourceType::Point));
    assert_eq!(LightSourceType::from_str("extended"), Ok(LightSourceType::Extended));
    assert_eq!(LightSourceType::from_str("Point"), Err("'Point' is not a valid light source type".to_string()));
    assert_eq!(LightSourceType::Directional.name(), "directional");
    assert_eq!(LightSourceType::from_str(LightSourceType::Ambient.name()), Ok(LightSourceType::Ambient));
}

#[test]
fn default_values() {
    assert_eq!(Coords::new(), Coords { x: bits(0.0), y: bits(0.0), z: bits(0.0) });
    assert_eq!(Color::new(), Color { r: bits(0.0), g: bits(0.0), b: bits(0.0), a: bits(0.0) });
    assert_eq!(Screen::default_screen(), Screen { width: 500, height: 500 });
    assert_eq!(FloatBits::zero(), bits(0.0));
}

#[test]
fn error_messages() {
    assert_eq!(
        ModelError::FailedToParseInputFile(12, "bad".to_string()).message(),
        "Failed to parse input file at line 12. Error: bad"
    );
    assert_eq!(
        ModelError::FailedToOpenInputFile("No such file".to_string()).message(),
        "Failed to open input file: No such file"
    );
    assert_eq!(RenderError("canceled".to_string()).message(), "failed to render model. Error: canceled");
    assert_eq!(
        PlaneError::FailedToInitializePlane("collinear".to_string()).message(),
        "Failed to initialize plane: collinear"
    );
    assert_eq!(
        PolygonError::FailedToInitializePolygon("x".to_string()).message(),
        "Failed to initialize polygon: x"
    );
    assert_eq!(
        TriangleError::FailedToInitializeTriangle("y".to_string()).message(),
        "Failed to initialize triangle: y"
    );
    assert_eq!(
        ColorError::FailedToParseFromVec("z".to_string()).message(),
        "Failed to parse color from &str vec: z"
    );
}

#[test]
fn logger_shutdown_empties_the_slot() {
    let (_drain, guard) = slog_async::Async::new(slog::Discard).build_with_guard();
    let mut slot = Some(guard);
    shutdown_logger(&mut slot);
    assert!(slot.is_none());
    shutdown_logger(&mut slot);
    assert!(slot.is_none());
}
