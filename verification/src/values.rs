//! Reading coordinates, colors and light source types from scene file words.

use crate::errors::{ColorError, CoordsError, PointError};
use crate::numeric::{not_outside_unit_interval, is_not_outside_unit_interval, FloatBits};
use crate::scene::{Color, Coords, LightSourceType, Word};
use crate::text::str_eq;
use vstd::prelude::*;
use vstd::string::*;

verus! {

pub open spec fn coords_count_message() -> Seq<char> {
    "3d coordinate values should be defined by 3 numerical values"@
}

pub open spec fn coords_not_number_message(t: Seq<char>) -> Seq<char> {
    "failed to parse coords. "@ + t + " is not a number"@
}

/// Three words that all read as numbers give the coordinates they denote;
/// otherwise the detail of the error, for the first word that fails.
pub open spec fn coords_from_words(ws: Seq<Word>) -> Result<Coords, Seq<char>> {
    if ws.len() != 3 {
        Err(coords_count_message())
    } else if ws[0].number is None {
        Err(coords_not_number_message(ws[0].text@))
    } else if ws[1].number is None {
        Err(coords_not_number_message(ws[1].text@))
    } else if ws[2].number is None {
        Err(coords_not_number_message(ws[2].text@))
    } else {
        Ok(Coords { x: ws[0].number.unwrap(), y: ws[1].number.unwrap(), z: ws[2].number.unwrap() })
    }
}

pub open spec fn coords_result_view(r: Result<Coords, CoordsError>) -> Result<Coords, Seq<char>> {
    match r {
        Ok(c) => Ok(c),
        Err(e) => Err(e.detail()),
    }
}

impl Coords {
    /// Reads coordinates from exactly three numeric words.
    pub fn new_from_str_vec(xyz: &[Word]) -> (r: Result<Coords, CoordsError>)
        ensures
            coords_result_view(r) == coords_from_words(xyz@),
    {
        if xyz.len() != 3 {
            return Err(
                CoordsError::FailedToParseFromVec(
                    String::from_str("3d coordinate values should be defined by 3 numerical values"),
                ),
            );
        }
        let mut i: usize = 0;
        while i < 3
            invariant
                xyz@.len() == 3,
                i <= 3,
                forall|k: int| 0 <= k < i ==> xyz@[k].number is Some,
            decreases 3 - i,
        {
            if xyz[i].number.is_none() {
                return Err(
                    CoordsError::FailedToParseFromVec(
                        String::from_str("failed to parse coords. ").concat(
                            xyz[i].text.as_str(),
                        ).concat(" is not a number"),
                    ),
                );
            }
            i = i + 1;
        }
        Ok(
            Coords {
                x: xyz[0].number.unwrap(),
                y: xyz[1].number.unwrap(),
                z: xyz[2].number.unwrap(),
            },
        )
    }
}

/// A point in space (the coordinates of a vertex, before shading data is attached).
#[derive(Clone, Copy, Debug, PartialEq, Eq, Structural)]
pub struct Point {
    pub x: FloatBits,
    pub y: FloatBits,
    pub z: FloatBits,
}

pub open spec fn point_not_number_message(t: Seq<char>) -> Seq<char> {
    "failed to parse point. "@ + t + " is not a number"@
}

/// Three words that all read as numbers give the point they denote; otherwise
/// the detail of the error, for the first word that fails.
pub open spec fn point_from_words(ws: Seq<Word>) -> Result<Point, Seq<char>> {
    if ws.len() != 3 {
        Err("3d point values should be defined by 3 numerical values"@)
    } else if ws[0].number is None {
        Err(point_not_number_message(ws[0].text@))
    } else if ws[1].number is None {
        Err(point_not_number_message(ws[1].text@))
    } else if ws[2].number is None {
        Err(point_not_number_message(ws[2].text@))
    } else {
        Ok(Point { x: ws[0].number.unwrap(), y: ws[1].number.unwrap(), z: ws[2].number.unwrap() })
    }
}

impl Point {
    /// Reads a point from exactly three numeric words.
    pub fn new_from_str_vec(xyz: &[Word]) -> (r: Result<Point, PointError>)
        ensures
            match r {
                Ok(p) => point_from_words(xyz@) == Ok::<Point, Seq<char>>(p),
                Err(e) => point_from_words(xyz@) == Err::<Point, Seq<char>>(e.detail()),
            },
    {
        if xyz.len() != 3 {
            return Err(
                PointError::FailedToParseFromVec(
                    String::from_str("3d point values should be defined by 3 numerical values"),
                ),
            );
        }
        let mut i: usize = 0;
        while i < 3
            invariant
                xyz@.len() == 3,
                i <= 3,
                forall|k: int| 0 <= k < i ==> xyz@[k].number is Some,
            decreases 3 - i,
        {
            if xyz[i].number.is_none() {
                return Err(
                    PointError::FailedToParseFromVec(
                        String::from_str("failed to parse point. ").concat(
                            xyz[i].text.as_str(),
                        ).concat(" is not a number"),
                    ),
                );
            }
            i = i + 1;
        }
        Ok(
            Point {
                x: xyz[0].number.unwrap(),
                y: xyz[1].number.unwrap(),
                z: xyz[2].number.unwrap(),
            },
        )
    }
}

/// A word denotes a color channel when it reads as a number `v` of which neither
/// `v < 0` nor `v > 1` holds.
///
/// A word that does not read as a number is never a channel: every unsigned
/// byte literal also reads as a number, so the byte reading that follows a failed
/// number reading cannot succeed.
pub open spec fn channel_value(w: Word) -> Option<FloatBits> {
    match w.number {
        Some(b) => if not_outside_unit_interval(b.0) {
            Some(b)
        } else {
            None
        },
        None => None,
    }
}

pub open spec fn channel_message(t: Seq<char>) -> Seq<char> {
    "failed to parse color. value "@ + t + " not a valid rgba channel value"@
}

pub open spec fn color_count_message() -> Seq<char> {
    "colors should be defined by 3 or 4 numerical values"@
}

/// Three or four channel words give the color they denote (alpha zero when
/// absent); otherwise the detail of the error, for the first word that fails.
pub open spec fn color_from_words(ws: Seq<Word>) -> Result<Color, Seq<char>> {
    if ws.len() != 3 && ws.len() != 4 {
        Err(color_count_message())
    } else if channel_value(ws[0]) is None {
        Err(channel_message(ws[0].text@))
    } else if channel_value(ws[1]) is None {
        Err(channel_message(ws[1].text@))
    } else if channel_value(ws[2]) is None {
        Err(channel_message(ws[2].text@))
    } else if ws.len() == 4 && channel_value(ws[3]) is None {
        Err(channel_message(ws[3].text@))
    } else {
        Ok(
            Color {
                r: channel_value(ws[0]).unwrap(),
                g: channel_value(ws[1]).unwrap(),
                b: channel_value(ws[2]).unwrap(),
                a: if ws.len() == 4 {
                    channel_value(ws[3]).unwrap()
                } else {
                    FloatBits(0)
                },
            },
        )
    }
}

pub open spec fn color_result_view(r: Result<Color, ColorError>) -> Result<Color, Seq<char>> {
    match r {
        Ok(c) => Ok(c),
        Err(e) => Err(e.detail()),
    }
}

/// Reads one color channel from a word.
pub fn parse_color_channel_from_str(w: &Word) -> (r: Result<FloatBits, String>)
    ensures
        match r {
            Ok(b) => channel_value(*w) == Some(b),
            Err(m) => channel_value(*w) is None && m@ == channel_message(w.text@),
        },
{
    match w.number {
        Some(b) => {
            if is_not_outside_unit_interval(b) {
                return Ok(b);
            }
        },
        None => {},
    }
    Err(
        String::from_str("failed to parse color. value ").concat(w.text.as_str()).concat(
            " not a valid rgba channel value",
        ),
    )
}

impl Color {
    /// Reads a color from three or four channel words.
    pub fn new_from_str_vec(rgba: &[Word]) -> (r: Result<Color, ColorError>)
        ensures
            color_result_view(r) == color_from_words(rgba@),
    {
        if rgba.len() != 4 && rgba.len() != 3 {
            return Err(
                ColorError::FailedToParseFromVec(
                    String::from_str("colors should be defined by 3 or 4 numerical values"),
                ),
            );
        }
        let mut color = Color::new();
        let mut i: usize = 0;
        while i < rgba.len()
            invariant
                rgba@.len() == 3 || rgba@.len() == 4,
                i <= rgba@.len(),
                forall|k: int| 0 <= k < i ==> channel_value(#[trigger] rgba@[k]) is Some,
                i > 0 ==> color.r == channel_value(rgba@[0]).unwrap(),
                i > 1 ==> color.g == channel_value(rgba@[1]).unwrap(),
                i > 2 ==> color.b == channel_value(rgba@[2]).unwrap(),
                i > 3 ==> color.a == channel_value(rgba@[3]).unwrap(),
                i <= 3 ==> color.a == FloatBits(0),
            decreases rgba@.len() - i,
        {
            match parse_color_channel_from_str(&rgba[i]) {
                Ok(v) => {
                    if i == 0 {
                        color.r = v;
                    } else if i == 1 {
                        color.g = v;
                    } else if i == 2 {
                        color.b = v;
                    } else {
                        color.a = v;
                    }
                },
                Err(m) => {
                    return Err(ColorError::FailedToParseFromVec(m));
                },
            }
            i = i + 1;
        }
        Ok(color)
    }
}

pub open spec fn light_source_type_message(t: Seq<char>) -> Seq<char> {
    "'"@ + t + "' is not a valid light source type"@
}

/// The light source type that a word names.
pub open spec fn light_source_type_from(t: Seq<char>) -> Result<LightSourceType, Seq<char>> {
    if t == "point"@ {
        Ok(LightSourceType::Point)
    } else if t == "directional"@ {
        Ok(LightSourceType::Directional)
    } else if t == "ambient"@ {
        Ok(LightSourceType::Ambient)
    } else if t == "extended"@ {
        Ok(LightSourceType::Extended)
    } else {
        Err(light_source_type_message(t))
    }
}

impl LightSourceType {
    /// Reads a light source type from its name.
    pub fn from_str(s: &str) -> (r: Result<LightSourceType, String>)
        ensures
            match r {
                Ok(t) => light_source_type_from(s@) == Ok::<LightSourceType, Seq<char>>(t),
                Err(m) => light_source_type_from(s@) == Err::<LightSourceType, Seq<char>>(m@),
            },
    {
        if str_eq(s, "point") {
            Ok(LightSourceType::Point)
        } else if str_eq(s, "directional") {
            Ok(LightSourceType::Directional)
        } else if str_eq(s, "ambient") {
            Ok(LightSourceType::Ambient)
        } else if str_eq(s, "extended") {
            Ok(LightSourceType::Extended)
        } else {
            Err(String::from_str("'").concat(s).concat("' is not a valid light source type"))
        }
    }

    /// The name of this light source type.
    pub fn name(&self) -> (r: &'static str)
        ensures
            light_source_type_from(r@) == Ok::<LightSourceType, Seq<char>>(*self),
    {
        proof {
            reveal_strlit("point");
            reveal_strlit("directional");
            reveal_strlit("ambient");
            reveal_strlit("extended");
            assert("point"@.len() == 5);
            assert("directional"@.len() == 11);
            assert("ambient"@.len() == 7);
            assert("extended"@.len() == 8);
        }
        match self {
            LightSourceType::Point => "point",
            LightSourceType::Directional => "directional",
            LightSourceType::Ambient => "ambient",
            LightSourceType::Extended => "extended",
        }
    }
}

} // verus!
