//! The scene file format: a line-oriented description of camera, lights,
//! surfaces and primitives. Each line is handed over already split into words
//! (see `text::split_words`), each word with its reading as a number.

use crate::errors::{coords_error_text, color_error_text, ModelError, ModelErrorView};
use crate::numeric::{parse_usize, usize_value, FloatBits};
use crate::scene::{
    opaque_black, origin, transparent_black, Color, Coords, Fov, Light, LightSourceType, PrimitiveDecl, PrimitiveDeclView, SceneDescription,
    SceneView, Screen, Surface, SurfaceView, Word,
};
use crate::text::{decimal_digits, decimal_string, opt_text, str_eq};
use crate::values::{color_from_words, coords_from_words, light_source_type_from};
use vstd::prelude::*;
use vstd::string::*;

verus! {

// ----------------------------------------------------------------------------
// The format, stated over the words of each line.
// ----------------------------------------------------------------------------

pub open spec fn is_scene_keyword(t: Seq<char>) -> bool {
    ||| t == "background"@
    ||| t == "eyep"@
    ||| t == "lookp"@
    ||| t == "fov"@
    ||| t == "screen"@
    ||| t == "sphere"@
    ||| t == "cylinder"@
    ||| t == "cone"@
    ||| t == "polygon"@
    ||| t == "triangle"@
    ||| t == "up"@
    ||| t == "surface"@
    ||| t == "light"@
}

pub open spec fn is_surface_keyword(t: Seq<char>) -> bool {
    ||| t == "diffuse"@
    ||| t == "ambient"@
    ||| t == "specular"@
    ||| t == "specpow"@
    ||| t == "reflect"@
}

/// A line that continues a surface definition: its first word is a surface keyword.
pub open spec fn is_surface_line(l: Seq<Word>) -> bool {
    l.len() > 0 && is_surface_keyword(l[0].text@)
}

/// A line that continues a polygon or triangle: its first word is a number and
/// not a scene keyword.
pub open spec fn is_vertex_line(l: Seq<Word>) -> bool {
    l.len() > 0 && !is_scene_keyword(l[0].text@) && l[0].number is Some
}

pub open spec fn continues(l: Seq<Word>, surface_block: bool) -> bool {
    if surface_block {
        is_surface_line(l)
    } else {
        is_vertex_line(l)
    }
}

/// The index of the first line at or after `j` that does not continue the block.
pub open spec fn block_end(ls: Seq<Seq<Word>>, j: int, surface_block: bool) -> int
    decreases ls.len() - j,
{
    if j < 0 || j >= ls.len() || !continues(ls[j], surface_block) {
        j
    } else {
        block_end(ls, j + 1, surface_block)
    }
}

/// The line number under which the line at index `k` is reported.
pub open spec fn line_no(k: int) -> nat {
    (k + 2) as nat
}

pub open spec fn perr(n: nat, m: Seq<char>) -> ModelErrorView {
    ModelErrorView::FailedToParseInputFile(n, m)
}

pub open spec fn min_index(a: int, b: int) -> int {
    if a < b {
        a
    } else {
        b
    }
}

/// The up to `count` words from index `i` on.
pub open spec fn take_words(ws: Seq<Word>, i: int, count: int) -> Seq<Word> {
    if i >= ws.len() {
        Seq::empty()
    } else {
        ws.subrange(i, min_index(i + count, ws.len() as int))
    }
}

pub open spec fn new_line_message(t: Seq<char>) -> Seq<char> {
    "value "@ + t + " should be on a new line"@
}

/// A word at index `i` or later is left over on a line that should end before it.
pub open spec fn check_line_end(ws: Seq<Word>, i: int, n: nat) -> Result<(), ModelErrorView> {
    if 0 <= i < ws.len() {
        Err(perr(n, new_line_message(ws[i].text@)))
    } else {
        Ok(())
    }
}

pub open spec fn coords_at(ws: Seq<Word>, i: int, n: nat, prefix: Seq<char>) -> Result<
    Coords,
    ModelErrorView,
> {
    match coords_from_words(take_words(ws, i, 3)) {
        Ok(c) => Ok(c),
        Err(d) => Err(perr(n, prefix + coords_error_text(d))),
    }
}

/// The number at index `i`: an error `missing` when the line is shorter, an
/// error `invalid` when the word is no number.
pub open spec fn number_at(
    ws: Seq<Word>,
    i: int,
    n: nat,
    missing: Seq<char>,
    invalid: Seq<char>,
) -> Result<FloatBits, ModelErrorView> {
    if i >= ws.len() {
        Err(perr(n, missing))
    } else {
        match ws[i].number {
            Some(v) => Ok(v),
            None => Err(perr(n, invalid)),
        }
    }
}

/// The position of the definition of surface `name`, if any.
pub open spec fn surface_index(ss: Seq<(Seq<char>, SurfaceView)>, name: Seq<char>) -> Option<int>
    decreases ss.len(),
{
    if ss.len() == 0 {
        None
    } else if ss.last().0 == name {
        Some(ss.len() - 1)
    } else {
        surface_index(ss.drop_last(), name)
    }
}

pub proof fn lemma_surface_index_bound(ss: Seq<(Seq<char>, SurfaceView)>, name: Seq<char>)
    ensures
        surface_index(ss, name) matches Some(i) ==> 0 <= i < ss.len() && ss[i].0 == name,
    decreases ss.len(),
{
    if ss.len() > 0 && ss.last().0 != name {
        lemma_surface_index_bound(ss.drop_last(), name);
    }
}

/// Defines surface `name`, replacing an earlier definition of it in place.
pub open spec fn define_surface(
    ss: Seq<(Seq<char>, SurfaceView)>,
    name: Seq<char>,
    sf: SurfaceView,
) -> Seq<(Seq<char>, SurfaceView)> {
    match surface_index(ss, name) {
        Some(i) => ss.update(i, (name, sf)),
        None => ss.push((name, sf)),
    }
}

/// After surface `name` is defined, looking `name` up finds that definition;
/// other names find what they found before.
pub proof fn lemma_define_surface_lookup(
    ss: Seq<(Seq<char>, SurfaceView)>,
    name: Seq<char>,
    sf: SurfaceView,
    other: Seq<char>,
)
    ensures
        surface_index(define_surface(ss, name, sf), name) matches Some(i) && define_surface(
            ss,
            name,
            sf,
        )[i] == (name, sf),
        other != name ==> surface_index(define_surface(ss, name, sf), other) == surface_index(
            ss,
            other,
        ),
{
    lemma_surface_index_bound(ss, name);
    lemma_surface_index_update(ss, name, sf, name);
    lemma_surface_index_update(ss, name, sf, other);
}

proof fn lemma_surface_index_update(
    ss: Seq<(Seq<char>, SurfaceView)>,
    name: Seq<char>,
    sf: SurfaceView,
    q: Seq<char>,
)
    ensures
        surface_index(define_surface(ss, name, sf), q) == if q == name {
            match surface_index(ss, name) {
                Some(i) => Some(i),
                None => Some(ss.len() as int),
            }
        } else {
            surface_index(ss, q)
        },
    decreases ss.len(),
{
    lemma_surface_index_bound(ss, name);
    match surface_index(ss, name) {
        Some(i) => {
            let t = ss.update(i, (name, sf));
            if i == ss.len() - 1 {
                assert(t.drop_last() =~= ss.drop_last());
            } else {
                assert(ss.last().0 != name);
                lemma_surface_index_update(ss.drop_last(), name, sf, q);
                assert(surface_index(ss.drop_last(), name) == Some(i));
                assert(t.drop_last() =~= ss.drop_last().update(i, (name, sf)));
            }
        },
        None => {
            assert(ss.push((name, sf)).drop_last() =~= ss);
        },
    }
}

/// The surface that a primitive declaration names in word 1.
pub open spec fn surface_at(
    ws: Seq<Word>,
    n: nat,
    sc: SceneView,
    missing: Seq<char>,
) -> Result<SurfaceView, ModelErrorView> {
    if ws.len() < 2 {
        Err(perr(n, missing))
    } else {
        match surface_index(sc.surfaces, ws[1].text@) {
            Some(i) => Ok(sc.surfaces[i].1),
            None => Err(perr(n, "surface "@ + ws[1].text@ + " referenced before definition"@)),
        }
    }
}

pub open spec fn with_background(sc: SceneView, c: Color) -> SceneView {
    SceneView { background: c, ..sc }
}

pub open spec fn with_light(sc: SceneView, l: Light) -> SceneView {
    SceneView { light_sources: sc.light_sources.push(l), ..sc }
}

pub open spec fn with_primitive(sc: SceneView, p: PrimitiveDeclView) -> SceneView {
    SceneView { primitives: sc.primitives.push(p), ..sc }
}

/// `background R G B [A]`
pub open spec fn background_line(ws: Seq<Word>, n: nat, sc: SceneView) -> Result<
    SceneView,
    ModelErrorView,
> {
    match color_from_words(take_words(ws, 1, 4)) {
        Err(d) => Err(perr(n, color_error_text(d))),
        Ok(c) => match check_line_end(ws, 5, n) {
            Err(e) => Err(e),
            Ok(_) => Ok(with_background(sc, c)),
        },
    }
}

/// `light INTENSITY TYPE ...`: a point or directional light is followed by
/// its position or direction, an extended light by its radius and position,
/// an ambient light by nothing.
pub open spec fn light_line(ws: Seq<Word>, n: nat, sc: SceneView) -> Result<
    SceneView,
    ModelErrorView,
> {
    match number_at(
        ws,
        1,
        n,
        "missing light source intensity value"@,
        "light intensity must be a valid decimal value"@,
    ) {
        Err(e) => Err(e),
        Ok(intensity) => if ws.len() < 3 {
            Err(perr(n, "missing light source type"@))
        } else {
            match light_source_type_from(ws[2].text@) {
                Err(m) => Err(perr(n, m)),
                Ok(t) => match light_place(ws, n, t) {
                    Err(e) => Err(e),
                    Ok((position, radius, end)) => match check_line_end(ws, end, n) {
                        Err(e) => Err(e),
                        Ok(_) => Ok(
                            with_light(
                                sc,
                                Light { position, intensity, source_type: t, radius },
                            ),
                        ),
                    },
                },
            }
        },
    }
}

/// The position and radius of a light of type `t`, and the index where its line should end.
pub open spec fn light_place(ws: Seq<Word>, n: nat, t: LightSourceType) -> Result<
    (Coords, FloatBits, int),
    ModelErrorView,
> {
    match t {
        LightSourceType::Ambient => Ok((origin(), FloatBits(0), 3)),
        LightSourceType::Point | LightSourceType::Directional => match coords_at(
            ws,
            3,
            n,
            Seq::empty(),
        ) {
            Err(e) => Err(e),
            Ok(c) => Ok((c, FloatBits(0), 6)),
        },
        LightSourceType::Extended => match number_at(
            ws,
            3,
            n,
            "missing radius for extended light"@,
            "light radius must be a valid decimal value"@,
        ) {
            Err(e) => Err(e),
            Ok(radius) => match coords_at(ws, 4, n, Seq::empty()) {
                Err(e) => Err(e),
                Ok(c) => Ok((c, radius, 7)),
            },
        },
    }
}

/// `eyep`, `lookp` or `up`: three coordinates.
pub open spec fn point_line(ws: Seq<Word>, n: nat) -> Result<Coords, ModelErrorView> {
    match coords_at(ws, 1, n, Seq::empty()) {
        Err(e) => Err(e),
        Ok(c) => match check_line_end(ws, 4, n) {
            Err(e) => Err(e),
            Ok(_) => Ok(c),
        },
    }
}

/// `fov HORIZONTAL VERTICAL`, in degrees.
pub open spec fn fov_line(ws: Seq<Word>, n: nat) -> Result<Fov, ModelErrorView> {
    if ws.len() < 2 {
        Err(perr(n, "missing horizontal fov value"@))
    } else if ws[1].number is None {
        Err(perr(n, "invalid horizontal fov value: "@ + ws[1].text@))
    } else if ws.len() < 3 {
        Err(perr(n, "missing vertical fov value"@))
    } else if ws[2].number is None {
        Err(perr(n, "invalid vertical fov value: "@ + ws[2].text@))
    } else {
        match check_line_end(ws, 3, n) {
            Err(e) => Err(e),
            Ok(_) => Ok(Fov { horz: ws[1].number.unwrap(), vert: ws[2].number.unwrap() }),
        }
    }
}

/// `screen WIDTH HEIGHT`, in pixels.
pub open spec fn screen_line(ws: Seq<Word>, n: nat) -> Result<Screen, ModelErrorView> {
    if ws.len() < 2 {
        Err(perr(n, "missing horizontal screen size value"@))
    } else if usize_value(ws[1].text@) is None {
        Err(perr(n, "invalid horizontal screen size: "@ + ws[1].text@))
    } else if ws.len() < 3 {
        Err(perr(n, "missing horizontal screen size value"@))
    } else if usize_value(ws[2].text@) is None {
        Err(perr(n, "invalid vertical screen size: "@ + ws[2].text@))
    } else {
        match check_line_end(ws, 3, n) {
            Err(e) => Err(e),
            Ok(_) => Ok(
                Screen {
                    width: usize_value(ws[1].text@).unwrap(),
                    height: usize_value(ws[2].text@).unwrap(),
                },
            ),
        }
    }
}

/// `sphere SURFACE RADIUS X Y Z`
pub open spec fn sphere_line(ws: Seq<Word>, n: nat, sc: SceneView) -> Result<
    PrimitiveDeclView,
    ModelErrorView,
> {
    match surface_at(ws, n, sc, "sphere declaration missing surface"@) {
        Err(e) => Err(e),
        Ok(surface) => match number_at(ws, 2, n, "sphere missing radius"@, "invalid radius value"@) {
            Err(e) => Err(e),
            Ok(radius) => match coords_at(ws, 3, n, Seq::empty()) {
                Err(e) => Err(e),
                Ok(position) => match check_line_end(ws, 6, n) {
                    Err(e) => Err(e),
                    Ok(_) => Ok(PrimitiveDeclView::Sphere { line: n, surface, radius, position }),
                },
            },
        },
    }
}

/// `cone SURFACE BASE_RADIUS BX BY BZ APEX_RADIUS AX AY AZ`
pub open spec fn cone_line(ws: Seq<Word>, n: nat, sc: SceneView) -> Result<
    PrimitiveDeclView,
    ModelErrorView,
> {
    match surface_at(ws, n, sc, "cone declaration missing surface"@) {
        Err(e) => Err(e),
        Ok(surface) => match number_at(
            ws,
            2,
            n,
            "cone missing base radius"@,
            "invalid base radius value"@,
        ) {
            Err(e) => Err(e),
            Ok(base_radius) => match coords_at(ws, 3, n, "error parsing cone base: "@) {
                Err(e) => Err(e),
                Ok(base) => match number_at(
                    ws,
                    6,
                    n,
                    "cone missing apex radius"@,
                    "invalid apex radius value"@,
                ) {
                    Err(e) => Err(e),
                    Ok(apex_radius) => match coords_at(ws, 7, n, "error parsing cone apex: "@) {
                        Err(e) => Err(e),
                        Ok(apex) => match check_line_end(ws, 10, n) {
                            Err(e) => Err(e),
                            Ok(_) => Ok(
                                PrimitiveDeclView::Cone {
                                    line: n,
                                    surface,
                                    base_radius,
                                    base,
                                    apex_radius,
                                    apex,
                                },
                            ),
                        },
                    },
                },
            },
        },
    }
}

/// `cylinder SURFACE RADIUS BX BY BZ AXIS_X AXIS_Y AXIS_Z HEIGHT`
pub open spec fn cylinder_line(ws: Seq<Word>, n: nat, sc: SceneView) -> Result<
    PrimitiveDeclView,
    ModelErrorView,
> {
    match surface_at(ws, n, sc, "cylinder declaration missing surface"@) {
        Err(e) => Err(e),
        Ok(surface) => match number_at(
            ws,
            2,
            n,
            "cylinder missing radius"@,
            "invalid radius value"@,
        ) {
            Err(e) => Err(e),
            Ok(radius) => match coords_at(ws, 3, n, "error parsing cylinder base: "@) {
                Err(e) => Err(e),
                Ok(base) => match coords_at(ws, 6, n, "error parsing cylinder axis: "@) {
                    Err(e) => Err(e),
                    Ok(axis) => match number_at(
                        ws,
                        9,
                        n,
                        "cylinder missing height"@,
                        "invalid height value"@,
                    ) {
                        Err(e) => Err(e),
                        Ok(height) => match check_line_end(ws, 10, n) {
                            Err(e) => Err(e),
                            Ok(_) => Ok(
                                PrimitiveDeclView::Cylinder {
                                    line: n,
                                    surface,
                                    radius,
                                    base,
                                    axis,
                                    height,
                                },
                            ),
                        },
                    },
                },
            },
        },
    }
}

/// The surface that a `surface` line starts with, before its attribute lines:
/// named "name", black and opaque, with no specular power and no reflection.
pub open spec fn default_surface() -> SurfaceView {
    SurfaceView {
        name: "name"@,
        ambient: opaque_black(),
        diffuse: opaque_black(),
        specular: opaque_black(),
        specpow: FloatBits(0),
        reflect: FloatBits(0),
    }
}

/// One attribute line of a surface definition. Both `diffuse` and `ambient`
/// lines set the diffuse color.
pub open spec fn surface_attribute(sf: SurfaceView, l: Seq<Word>, n: nat) -> Result<
    SurfaceView,
    ModelErrorView,
> {
    let kw = l[0].text@;
    if kw == "diffuse"@ || kw == "ambient"@ {
        match color_from_words(take_words(l, 1, 4)) {
            Err(d) => Err(perr(n, color_error_text(d))),
            Ok(c) => Ok(SurfaceView { diffuse: c, ..sf }),
        }
    } else if kw == "specular"@ {
        match color_from_words(take_words(l, 1, 4)) {
            Err(d) => Err(perr(n, color_error_text(d))),
            Ok(c) => Ok(SurfaceView { specular: c, ..sf }),
        }
    } else if kw == "specpow"@ {
        match number_at(l, 1, n, "missing specpow value"@, "specpow value must be valid decimal value"@) {
            Err(e) => Err(e),
            Ok(v) => Ok(SurfaceView { specpow: v, ..sf }),
        }
    } else if kw == "reflect"@ {
        match number_at(l, 1, n, "missing reflect value"@, "reflect value must be valid decimal value"@) {
            Err(e) => Err(e),
            Ok(v) => Ok(SurfaceView { reflect: v, ..sf }),
        }
    } else {
        Ok(sf)
    }
}

/// The attribute lines at indexes `j..end`, applied in order.
pub open spec fn surface_body(ls: Seq<Seq<Word>>, j: int, end: int, sf: SurfaceView) -> Result<
    SurfaceView,
    ModelErrorView,
>
    decreases end - j,
{
    if j >= end {
        Ok(sf)
    } else {
        match surface_attribute(sf, ls[j], line_no(j)) {
            Err(e) => Err(e),
            Ok(sf2) => surface_body(ls, j + 1, end, sf2),
        }
    }
}

/// `surface NAME`, followed by attribute lines: defines surface `NAME`.
pub open spec fn surface_statement(ls: Seq<Seq<Word>>, k: int, sc: SceneView) -> Result<
    (int, SceneView),
    ModelErrorView,
> {
    let ws = ls[k];
    let n = line_no(k);
    if ws.len() < 2 {
        Err(perr(n, "dangling \"surface\" keyword"@))
    } else {
        match check_line_end(ws, 2, n) {
            Err(e) => Err(e),
            Ok(_) => {
                let end = block_end(ls, k + 1, true);
                match surface_body(ls, k + 1, end, default_surface()) {
                    Err(e) => Err(e),
                    Ok(sf) => Ok(
                        (
                            end,
                            SceneView { surfaces: define_surface(sc.surfaces, ws[1].text@, sf), ..sc },
                        ),
                    ),
                }
            },
        }
    }
}

/// The words of a line, three at a time, each three read as coordinates.
pub open spec fn coords_chunks(l: Seq<Word>, n: nat) -> Result<Seq<Coords>, ModelErrorView>
    decreases l.len(),
{
    if l.len() == 0 {
        Ok(Seq::empty())
    } else {
        let m = min_index(3, l.len() as int);
        match coords_from_words(l.take(m)) {
            Err(d) => Err(perr(n, coords_error_text(d))),
            Ok(c) => match coords_chunks(l.skip(m), n) {
                Err(e) => Err(e),
                Ok(cs) => Ok(seq![c] + cs),
            },
        }
    }
}

/// The coordinate lines at indexes `j..end`, appended in order to `acc`, with
/// the number of the last of them (`line` when there is none).
pub open spec fn vertex_body(
    ls: Seq<Seq<Word>>,
    j: int,
    end: int,
    acc: Seq<Coords>,
    line: nat,
) -> Result<(Seq<Coords>, nat), ModelErrorView>
    decreases end - j,
{
    if j >= end {
        Ok((acc, line))
    } else {
        match coords_chunks(ls[j], line_no(j)) {
            Err(e) => Err(e),
            Ok(cs) => vertex_body(ls, j + 1, end, acc + cs, line_no(j)),
        }
    }
}

/// `polygon SURFACE`, followed by lines of vertex coordinates; the polygon is
/// reported at the last of those lines.
pub open spec fn polygon_statement(ls: Seq<Seq<Word>>, k: int, sc: SceneView) -> Result<
    (int, SceneView),
    ModelErrorView,
> {
    let ws = ls[k];
    let n = line_no(k);
    match surface_at(ws, n, sc, "polygon declaration missing surface"@) {
        Err(e) => Err(e),
        Ok(surface) => match check_line_end(ws, 2, n) {
            Err(e) => Err(e),
            Ok(_) => {
                let end = block_end(ls, k + 1, false);
                match vertex_body(ls, k + 1, end, Seq::empty(), n) {
                    Err(e) => Err(e),
                    Ok((vertices, line)) => Ok(
                        (
                            end,
                            with_primitive(
                                sc,
                                PrimitiveDeclView::Polygon { line, surface, vertices },
                            ),
                        ),
                    ),
                }
            },
        },
    }
}

pub open spec fn triangle_count_message(count: nat) -> Seq<char> {
    "a triangle definition should contain a 3 or 6 3D coordinate values. got "@ + decimal_digits(
        count,
    )
}

/// `triangle SURFACE [coordinates]`, followed by lines of coordinates: 3
/// vertices, or 3 vertices each followed by its normal.
pub open spec fn triangle_statement(ls: Seq<Seq<Word>>, k: int, sc: SceneView) -> Result<
    (int, SceneView),
    ModelErrorView,
> {
    let ws = ls[k];
    let n = line_no(k);
    match surface_at(ws, n, sc, "triangle declaration missing surface"@) {
        Err(e) => Err(e),
        Ok(surface) => match coords_chunks(ws.skip(2), n) {
            Err(e) => Err(e),
            Ok(first) => {
                let end = block_end(ls, k + 1, false);
                match vertex_body(ls, k + 1, end, first, n) {
                    Err(e) => Err(e),
                    Ok((coords, _)) => if coords.len() == 3 || coords.len() == 6 {
                        Ok(
                            (
                                end,
                                with_primitive(
                                    sc,
                                    PrimitiveDeclView::Triangle { line: n, surface, coords },
                                ),
                            ),
                        )
                    } else {
                        Err(perr(n, triangle_count_message(coords.len())))
                    },
                }
            },
        },
    }
}

pub open spec fn one_line(r: Result<SceneView, ModelErrorView>, k: int) -> Result<
    (int, SceneView),
    ModelErrorView,
> {
    match r {
        Err(e) => Err(e),
        Ok(sc) => Ok((k + 1, sc)),
    }
}

pub open spec fn one_primitive(r: Result<PrimitiveDeclView, ModelErrorView>, k: int, sc: SceneView) -> Result<
    (int, SceneView),
    ModelErrorView,
> {
    match r {
        Err(e) => Err(e),
        Ok(p) => Ok((k + 1, with_primitive(sc, p))),
    }
}

/// The statement that starts at line `k` (whose first word is `ls[k][0]`): the
/// index of the line after it, and the scene with it applied.
/// A line that starts with an unknown word is passed over.
pub open spec fn statement(ls: Seq<Seq<Word>>, k: int, sc: SceneView) -> Result<
    (int, SceneView),
    ModelErrorView,
> {
    let ws = ls[k];
    let n = line_no(k);
    let kw = ws[0].text@;
    if kw == "background"@ {
        one_line(background_line(ws, n, sc), k)
    } else if kw == "light"@ {
        one_line(light_line(ws, n, sc), k)
    } else if kw == "eyep"@ {
        match point_line(ws, n) {
            Err(e) => Err(e),
            Ok(c) => Ok((k + 1, SceneView { eyep: c, ..sc })),
        }
    } else if kw == "lookp"@ {
        match point_line(ws, n) {
            Err(e) => Err(e),
            Ok(c) => Ok((k + 1, SceneView { lookp: c, ..sc })),
        }
    } else if kw == "up"@ {
        match point_line(ws, n) {
            Err(e) => Err(e),
            Ok(c) => Ok((k + 1, SceneView { up: c, ..sc })),
        }
    } else if kw == "fov"@ {
        match fov_line(ws, n) {
            Err(e) => Err(e),
            Ok(f) => Ok((k + 1, SceneView { fov: f, ..sc })),
        }
    } else if kw == "screen"@ {
        match screen_line(ws, n) {
            Err(e) => Err(e),
            Ok(s) => Ok((k + 1, SceneView { screen: s, ..sc })),
        }
    } else if kw == "surface"@ {
        surface_statement(ls, k, sc)
    } else if kw == "sphere"@ {
        one_primitive(sphere_line(ws, n, sc), k, sc)
    } else if kw == "cylinder"@ {
        one_primitive(cylinder_line(ws, n, sc), k, sc)
    } else if kw == "cone"@ {
        one_primitive(cone_line(ws, n, sc), k, sc)
    } else if kw == "polygon"@ {
        polygon_statement(ls, k, sc)
    } else if kw == "triangle"@ {
        triangle_statement(ls, k, sc)
    } else {
        Ok((k + 1, sc))
    }
}

/// The error with which reading ends after `k` lines: a read failure, an empty
/// input, or none.
pub open spec fn end_error(read_error: Option<Seq<char>>, k: int) -> Option<ModelErrorView> {
    match read_error {
        Some(e) => Some(perr((k + 1) as nat, "failed to read input file from disk. Error: "@ + e)),
        None => if k == 0 {
            Some(perr(1, "input file is empty"@))
        } else {
            None
        },
    }
}

/// A line that holds no statement: blank, or a comment that starts with the word `//`.
pub open spec fn is_skipped_line(ws: Seq<Word>) -> bool {
    ws.len() == 0 || ws[0].text@ == "//"@
}

/// The statements from line `k` on, applied to `sc`: the scene as it stands
/// when reading stops, and the error that stopped it, if any.
pub open spec fn run(ls: Seq<Seq<Word>>, read_error: Option<Seq<char>>, k: int, sc: SceneView) -> (
    SceneView,
    Option<ModelErrorView>,
)
    decreases ls.len() - k,
{
    if k < 0 || k >= ls.len() {
        (sc, end_error(read_error, k))
    } else if is_skipped_line(ls[k]) {
        run(ls, read_error, k + 1, sc)
    } else {
        match statement(ls, k, sc) {
            Err(e) => (sc, Some(e)),
            Ok((k2, sc2)) => if k < k2 <= ls.len() {
                run(ls, read_error, k2, sc2)
            } else {
                (sc, None)
            },
        }
    }
}

/// The scene before any statement: transparent black background, camera at
/// the origin, zero field of view and screen, nothing else.
pub open spec fn initial_scene() -> SceneView {
    SceneView {
        background: transparent_black(),
        eyep: origin(),
        lookp: origin(),
        up: origin(),
        fov: Fov { horz: FloatBits(0), vert: FloatBits(0) },
        screen: Screen { width: 0, height: 0 },
        light_sources: Seq::empty(),
        surfaces: Seq::empty(),
        primitives: Seq::empty(),
    }
}

/// The whole of a scene file, given as the words of its lines and the failure,
/// if any, with which reading stopped after them.
pub open spec fn parse_scene(ls: Seq<Seq<Word>>, read_error: Option<Seq<char>>) -> (
    SceneView,
    Option<ModelErrorView>,
) {
    run(ls, read_error, 0, initial_scene())
}

/// Every triangle among `ps` is defined by 3 or 6 coordinates.
pub open spec fn triangles_well_sized(ps: Seq<PrimitiveDeclView>) -> bool {
    forall|i: int|
        0 <= i < ps.len() ==> (#[trigger] ps[i] matches PrimitiveDeclView::Triangle { coords, .. }
            ==> coords.len() == 3 || coords.len() == 6)
}

proof fn lemma_push_keeps_triangles(ps: Seq<PrimitiveDeclView>, p: PrimitiveDeclView)
    requires
        triangles_well_sized(ps),
        p matches PrimitiveDeclView::Triangle { coords, .. } ==> coords.len() == 3 || coords.len()
            == 6,
    ensures
        triangles_well_sized(ps.push(p)),
{
    assert forall|i: int| 0 <= i < ps.push(p).len() implies (#[trigger] ps.push(p)[i] matches PrimitiveDeclView::Triangle {
        coords,
        ..
    } ==> coords.len() == 3 || coords.len() == 6) by {
        if i < ps.len() {
            assert(ps.push(p)[i] == ps[i]);
        }
    }
}

proof fn lemma_statement_keeps_triangles(ls: Seq<Seq<Word>>, k: int, sc: SceneView)
    requires
        triangles_well_sized(sc.primitives),
    ensures
        statement(ls, k, sc) matches Ok((_, sc2)) ==> triangles_well_sized(sc2.primitives),
{
    let ws = ls[k];
    let n = line_no(k);
    match sphere_line(ws, n, sc) {
        Ok(p) => lemma_push_keeps_triangles(sc.primitives, p),
        Err(_) => {},
    }
    match cone_line(ws, n, sc) {
        Ok(p) => lemma_push_keeps_triangles(sc.primitives, p),
        Err(_) => {},
    }
    match cylinder_line(ws, n, sc) {
        Ok(p) => lemma_push_keeps_triangles(sc.primitives, p),
        Err(_) => {},
    }
    match polygon_statement(ls, k, sc) {
        Ok((_, sc2)) => {
            let p = sc2.primitives.last();
            assert(sc2.primitives == sc.primitives.push(p));
            lemma_push_keeps_triangles(sc.primitives, p);
        },
        Err(_) => {},
    }
    match triangle_statement(ls, k, sc) {
        Ok((_, sc2)) => {
            let p = sc2.primitives.last();
            assert(sc2.primitives == sc.primitives.push(p));
            lemma_push_keeps_triangles(sc.primitives, p);
        },
        Err(_) => {},
    }
}

proof fn lemma_run_keeps_triangles(
    ls: Seq<Seq<Word>>,
    read_error: Option<Seq<char>>,
    k: int,
    sc: SceneView,
)
    requires
        triangles_well_sized(sc.primitives),
    ensures
        triangles_well_sized(run(ls, read_error, k, sc).0.primitives),
    decreases ls.len() - k,
{
    if 0 <= k < ls.len() {
        if is_skipped_line(ls[k]) {
            lemma_run_keeps_triangles(ls, read_error, k + 1, sc);
        } else {
            lemma_statement_keeps_triangles(ls, k, sc);
            match statement(ls, k, sc) {
                Ok((k2, sc2)) => if k < k2 <= ls.len() {
                    lemma_run_keeps_triangles(ls, read_error, k2, sc2);
                },
                Err(_) => {},
            }
        }
    }
}

/// Every triangle of a parsed scene, complete or cut short by an error, is
/// defined by 3 or 6 coordinates.
pub proof fn lemma_parsed_triangles_well_sized(ls: Seq<Seq<Word>>, read_error: Option<Seq<char>>)
    ensures
        triangles_well_sized(parse_scene(ls, read_error).0.primitives),
{
    lemma_run_keeps_triangles(ls, read_error, 0, initial_scene());
}

proof fn lemma_surface_body_keeps(ls: Seq<Seq<Word>>, j: int, end: int, sf: SurfaceView)
    ensures
        surface_body(ls, j, end, sf) matches Ok(sf2) ==> {
            &&& sf2.name == sf.name
            &&& sf2.ambient == sf.ambient
            &&& (forall|x: int| j <= x < end ==> #[trigger] ls[x][0].text@ != "reflect"@) ==> sf2.reflect
                == sf.reflect
            &&& (forall|x: int| j <= x < end ==> #[trigger] ls[x][0].text@ != "specpow"@) ==> sf2.specpow
                == sf.specpow
        },
    decreases end - j,
{
    if j < end {
        match surface_attribute(sf, ls[j], line_no(j)) {
            Ok(sf2) => {
                lemma_surface_body_keeps(ls, j + 1, end, sf2);
                assert(sf2.name == sf.name && sf2.ambient == sf.ambient);
                assert(ls[j][0].text@ != "reflect"@ ==> sf2.reflect == sf.reflect);
                assert(ls[j][0].text@ != "specpow"@ ==> sf2.specpow == sf.specpow);
            },
            Err(_) => {},
        }
    }
}

/// A surface definition that parses defines the surface it names; that
/// surface is named "name" and has an opaque black ambient color whatever its
/// attribute lines say (an `ambient` line sets the diffuse color), a
/// reflection of 0 unless a `reflect` line follows, and a specular power of 0
/// unless a `specpow` line follows.
pub proof fn lemma_surface_definition_defaults(ls: Seq<Seq<Word>>, k: int, sc: SceneView)
    requires
        0 <= k < ls.len(),
    ensures
        surface_statement(ls, k, sc) matches Ok((end, sc2)) ==> {
            let i = surface_index(sc2.surfaces, ls[k][1].text@).unwrap();
            &&& surface_index(sc2.surfaces, ls[k][1].text@) is Some
            &&& 0 <= i < sc2.surfaces.len()
            &&& sc2.surfaces[i].0 == ls[k][1].text@
            &&& sc2.surfaces[i].1.name == "name"@
            &&& sc2.surfaces[i].1.ambient == (Color {
                r: FloatBits(0),
                g: FloatBits(0),
                b: FloatBits(0),
                a: FloatBits(0x3ff0_0000_0000_0000),
            })
            &&& (forall|x: int| k < x < end ==> #[trigger] ls[x][0].text@ != "reflect"@)
                ==> sc2.surfaces[i].1.reflect == FloatBits(0)
            &&& (forall|x: int| k < x < end ==> #[trigger] ls[x][0].text@ != "specpow"@)
                ==> sc2.surfaces[i].1.specpow == FloatBits(0)
        },
{
    match surface_statement(ls, k, sc) {
        Ok((end, sc2)) => {
            let ws = ls[k];
            let name = ws[1].text@;
            let body_end = block_end(ls, k + 1, true);
            assert(end == body_end);
            let sf = surface_body(ls, k + 1, body_end, default_surface())->Ok_0;
            lemma_surface_body_keeps(ls, k + 1, body_end, default_surface());
            lemma_define_surface_lookup(sc.surfaces, name, sf, name);
            lemma_surface_index_bound(sc2.surfaces, name);
            assert(sc2.surfaces == define_surface(sc.surfaces, name, sf));
        },
        Err(_) => {},
    }
}

/// A triangle statement whose surface is defined and whose coordinates all
/// read adds a triangle with those coordinates when there are 3 (vertices)
/// or 6 (vertices, each followed by its normal), reported at the statement's
/// line; with any other count it fails at that line, naming the count.
pub proof fn lemma_triangle_statement_outcome(
    ls: Seq<Seq<Word>>,
    k: int,
    sc: SceneView,
    sf: SurfaceView,
    first: Seq<Coords>,
    cs: Seq<Coords>,
    last_line: nat,
)
    requires
        0 <= k < ls.len(),
        surface_at(ls[k], line_no(k), sc, "triangle declaration missing surface"@) == Ok::<
            SurfaceView,
            ModelErrorView,
        >(sf),
        coords_chunks(ls[k].skip(2), line_no(k)) == Ok::<Seq<Coords>, ModelErrorView>(first),
        vertex_body(ls, k + 1, block_end(ls, k + 1, false), first, line_no(k)) == Ok::<
            (Seq<Coords>, nat),
            ModelErrorView,
        >((cs, last_line)),
    ensures
        cs.len() == 3 || cs.len() == 6 ==> triangle_statement(ls, k, sc) == Ok::<
            (int, SceneView),
            ModelErrorView,
        >(
            (
                block_end(ls, k + 1, false),
                SceneView {
                    primitives: sc.primitives.push(
                        PrimitiveDeclView::Triangle { line: line_no(k), surface: sf, coords: cs },
                    ),
                    ..sc
                },
            ),
        ),
        !(cs.len() == 3 || cs.len() == 6) ==> triangle_statement(ls, k, sc) == Err::<
            (int, SceneView),
            ModelErrorView,
        >(
            ModelErrorView::FailedToParseInputFile(
                line_no(k),
                "a triangle definition should contain a 3 or 6 3D coordinate values. got "@
                    + decimal_digits(cs.len()),
            ),
        ),
{
}

// ----------------------------------------------------------------------------
// Reading a scene file.
// ----------------------------------------------------------------------------

pub proof fn lemma_map_push<A, B>(s: Seq<A>, x: A, f: spec_fn(A) -> B)
    ensures
        s.push(x).map_values(f) == s.map_values(f).push(f(x)),
{
    assert(s.push(x).map_values(f) =~= s.map_values(f).push(f(x)));
}

fn parse_error(n: usize, m: String) -> (r: ModelError)
    ensures
        r@ == perr(n as nat, m@),
{
    ModelError::FailedToParseInputFile(n, m)
}

/// The up to `count` words of `ws` from index `i` on.
fn word_range(ws: &Vec<Word>, i: usize, count: usize) -> (r: &[Word])
    ensures
        r@ == take_words(ws@, i as int, count as int),
{
    let len = ws.len();
    if i >= len {
        let e: &[Word] = &ws.as_slice()[0..0];
        assert(e@ =~= Seq::<Word>::empty());
        e
    } else {
        let end = if len - i >= count {
            i + count
        } else {
            len
        };
        &ws.as_slice()[i..end]
    }
}

fn check_line_end_exec(ws: &Vec<Word>, i: usize, n: usize) -> (r: Result<(), ModelError>)
    ensures
        match r {
            Ok(_) => check_line_end(ws@, i as int, n as nat) is Ok,
            Err(e) => check_line_end(ws@, i as int, n as nat) == Err::<(), ModelErrorView>(e@),
        },
{
    if i < ws.len() {
        Err(
            parse_error(
                n,
                String::from_str("value ").concat(ws[i].text.as_str()).concat(
                    " should be on a new line",
                ),
            ),
        )
    } else {
        Ok(())
    }
}

fn number_at_exec(ws: &Vec<Word>, i: usize, n: usize, missing: &str, invalid: &str) -> (r: Result<
    FloatBits,
    ModelError,
>)
    ensures
        match r {
            Ok(v) => number_at(ws@, i as int, n as nat, missing@, invalid@) == Ok::<
                FloatBits,
                ModelErrorView,
            >(v),
            Err(e) => number_at(ws@, i as int, n as nat, missing@, invalid@) == Err::<
                FloatBits,
                ModelErrorView,
            >(e@),
        },
{
    if i >= ws.len() {
        Err(parse_error(n, String::from_str(missing)))
    } else {
        match ws[i].number {
            Some(v) => Ok(v),
            None => Err(parse_error(n, String::from_str(invalid))),
        }
    }
}

fn coords_at_exec(ws: &Vec<Word>, i: usize, n: usize, prefix: &str) -> (r: Result<
    Coords,
    ModelError,
>)
    ensures
        match r {
            Ok(c) => coords_at(ws@, i as int, n as nat, prefix@) == Ok::<Coords, ModelErrorView>(c),
            Err(e) => coords_at(ws@, i as int, n as nat, prefix@) == Err::<Coords, ModelErrorView>(
                e@,
            ),
        },
{
    match Coords::new_from_str_vec(word_range(ws, i, 3)) {
        Ok(c) => Ok(c),
        Err(d) => Err(parse_error(n, String::from_str(prefix).concat(d.message().as_str()))),
    }
}

/// The position of the definition of surface `name` among `surfaces`.
fn find_surface(surfaces: &Vec<(String, Surface)>, name: &str) -> (r: Option<usize>)
    ensures
        match r {
            Some(i) => i < surfaces@.len() && surface_index(
                surfaces@.map_values(|e: (String, Surface)| (e.0@, e.1@)),
                name@,
            ) == Some(i as int),
            None => surface_index(
                surfaces@.map_values(|e: (String, Surface)| (e.0@, e.1@)),
                name@,
            ) is None,
        },
{
    let ghost ss = surfaces@.map_values(|e: (String, Surface)| (e.0@, e.1@));
    proof {
        lemma_surface_index_bound(ss, name@);
    }
    let mut i: usize = surfaces.len();
    assert(ss.take(i as int) =~= ss);
    while i > 0
        invariant
            i <= surfaces@.len(),
            ss == surfaces@.map_values(|e: (String, Surface)| (e.0@, e.1@)),
            surface_index(ss, name@) == surface_index(ss.take(i as int), name@),
        decreases i,
    {
        let ghost t = ss.take(i as int);
        assert(t.drop_last() =~= ss.take(i - 1));
        assert(t.last() == ss[i - 1]);
        if str_eq(surfaces[i - 1].0.as_str(), name) {
            return Some(i - 1);
        }
        i = i - 1;
    }
    assert(ss.take(0) =~= Seq::<(Seq<char>, SurfaceView)>::empty());
    None
}

fn surface_at_exec(ws: &Vec<Word>, n: usize, sc: &SceneDescription, missing: &str) -> (r: Result<
    Surface,
    ModelError,
>)
    ensures
        match r {
            Ok(s) => surface_at(ws@, n as nat, sc@, missing@) == Ok::<SurfaceView, ModelErrorView>(s@),
            Err(e) => surface_at(ws@, n as nat, sc@, missing@) == Err::<SurfaceView, ModelErrorView>(
                e@,
            ),
        },
{
    if ws.len() < 2 {
        return Err(parse_error(n, String::from_str(missing)));
    }
    match find_surface(&sc.surfaces, ws[1].text.as_str()) {
        Some(i) => {
            assert(sc@.surfaces[i as int] == (sc.surfaces@[i as int].0@, sc.surfaces@[i as int].1@));
            assert(surface_index(sc@.surfaces, ws@[1].text@) == Some(i as int));
            let sf = sc.surfaces[i].1.clone_surface();
            assert(sf@ == sc@.surfaces[i as int].1);
            Ok(sf)
        },
        None => Err(
            parse_error(
                n,
                String::from_str("surface ").concat(ws[1].text.as_str()).concat(
                    " referenced before definition",
                ),
            ),
        ),
    }
}

/// `r` is what the statement is to give (`expected`), and the scene moved from
/// `before` to `after` accordingly: to the new scene on success, not at all on error.
pub open spec fn statement_done(
    expected: Result<SceneView, ModelErrorView>,
    r: Result<(), ModelError>,
    before: SceneView,
    after: SceneView,
) -> bool {
    match expected {
        Ok(s2) => r is Ok && after == s2,
        Err(e) => r matches Err(e2) && e2@ == e && after == before,
    }
}

pub open spec fn decl_done(
    expected: Result<PrimitiveDeclView, ModelErrorView>,
    r: Result<PrimitiveDecl, ModelError>,
) -> bool {
    match expected {
        Ok(p) => r matches Ok(p2) && p2@ == p,
        Err(e) => r matches Err(e2) && e2@ == e,
    }
}

fn background_line_exec(ws: &Vec<Word>, n: usize, sc: &mut SceneDescription) -> (r: Result<
    (),
    ModelError,
>)
    ensures
        statement_done(background_line(ws@, n as nat, old(sc)@), r, old(sc)@, final(sc)@),
{
    let c = match Color::new_from_str_vec(word_range(ws, 1, 4)) {
        Ok(c) => c,
        Err(d) => {
            return Err(parse_error(n, d.message()));
        },
    };
    match check_line_end_exec(ws, 5, n) {
        Err(e) => {
            return Err(e);
        },
        Ok(_) => {},
    }
    sc.background = c;
    Ok(())
}

fn light_place_exec(ws: &Vec<Word>, n: usize, t: LightSourceType) -> (r: Result<
    (Coords, FloatBits, usize),
    ModelError,
>)
    ensures
        match light_place(ws@, n as nat, t) {
            Ok((c, rad, end)) => r matches Ok((c2, rad2, end2)) && c2 == c && rad2 == rad && end2
                == end,
            Err(e) => r matches Err(e2) && e2@ == e,
        },
{
    proof {
        reveal_strlit("");
        assert(""@ =~= Seq::<char>::empty());
    }
    match t {
        LightSourceType::Ambient => Ok((Coords::new(), FloatBits(0), 3)),
        LightSourceType::Point | LightSourceType::Directional => match coords_at_exec(ws, 3, n, "") {
            Err(e) => Err(e),
            Ok(c) => Ok((c, FloatBits(0), 6)),
        },
        LightSourceType::Extended => match number_at_exec(
            ws,
            3,
            n,
            "missing radius for extended light",
            "light radius must be a valid decimal value",
        ) {
            Err(e) => Err(e),
            Ok(radius) => match coords_at_exec(ws, 4, n, "") {
                Err(e) => Err(e),
                Ok(c) => Ok((c, radius, 7)),
            },
        },
    }
}

fn light_line_exec(ws: &Vec<Word>, n: usize, sc: &mut SceneDescription) -> (r: Result<
    (),
    ModelError,
>)
    ensures
        statement_done(light_line(ws@, n as nat, old(sc)@), r, old(sc)@, final(sc)@),
{
    proof {
        reveal_strlit("");
        assert(""@ =~= Seq::<char>::empty());
    }
    let intensity = match number_at_exec(
        ws,
        1,
        n,
        "missing light source intensity value",
        "light intensity must be a valid decimal value",
    ) {
        Err(e) => {
            return Err(e);
        },
        Ok(v) => v,
    };
    if ws.len() < 3 {
        return Err(parse_error(n, String::from_str("missing light source type")));
    }
    let t = match LightSourceType::from_str(ws[2].text.as_str()) {
        Err(m) => {
            return Err(parse_error(n, m));
        },
        Ok(t) => t,
    };
    let (position, radius, end) = match light_place_exec(ws, n, t) {
        Err(e) => {
            return Err(e);
        },
        Ok(p) => p,
    };
    match check_line_end_exec(ws, end, n) {
        Err(e) => {
            return Err(e);
        },
        Ok(_) => {},
    }
    sc.light_sources.push(Light { position, intensity, source_type: t, radius });
    Ok(())
}

fn point_line_exec(ws: &Vec<Word>, n: usize) -> (r: Result<Coords, ModelError>)
    ensures
        match point_line(ws@, n as nat) {
            Ok(c) => r == Ok::<Coords, ModelError>(c),
            Err(e) => r matches Err(e2) && e2@ == e,
        },
{
    proof {
        reveal_strlit("");
        assert(""@ =~= Seq::<char>::empty());
    }
    let c = match coords_at_exec(ws, 1, n, "") {
        Err(e) => {
            return Err(e);
        },
        Ok(c) => c,
    };
    match check_line_end_exec(ws, 4, n) {
        Err(e) => Err(e),
        Ok(_) => Ok(c),
    }
}

fn fov_line_exec(ws: &Vec<Word>, n: usize) -> (r: Result<Fov, ModelError>)
    ensures
        match fov_line(ws@, n as nat) {
            Ok(f) => r == Ok::<Fov, ModelError>(f),
            Err(e) => r matches Err(e2) && e2@ == e,
        },
{
    if ws.len() < 2 {
        return Err(parse_error(n, String::from_str("missing horizontal fov value")));
    }
    let horz = match ws[1].number {
        Some(v) => v,
        None => {
            return Err(
                parse_error(
                    n,
                    String::from_str("invalid horizontal fov value: ").concat(ws[1].text.as_str()),
                ),
            );
        },
    };
    if ws.len() < 3 {
        return Err(parse_error(n, String::from_str("missing vertical fov value")));
    }
    let vert = match ws[2].number {
        Some(v) => v,
        None => {
            return Err(
                parse_error(
                    n,
                    String::from_str("invalid vertical fov value: ").concat(ws[2].text.as_str()),
                ),
            );
        },
    };
    match check_line_end_exec(ws, 3, n) {
        Err(e) => Err(e),
        Ok(_) => Ok(Fov { horz, vert }),
    }
}

fn screen_line_exec(ws: &Vec<Word>, n: usize) -> (r: Result<Screen, ModelError>)
    ensures
        match screen_line(ws@, n as nat) {
            Ok(s) => r == Ok::<Screen, ModelError>(s),
            Err(e) => r matches Err(e2) && e2@ == e,
        },
{
    if ws.len() < 2 {
        return Err(parse_error(n, String::from_str("missing horizontal screen size value")));
    }
    let width = match parse_usize(ws[1].text.as_str()) {
        Some(v) => v,
        None => {
            return Err(
                parse_error(
                    n,
                    String::from_str("invalid horizontal screen size: ").concat(
                        ws[1].text.as_str(),
                    ),
                ),
            );
        },
    };
    if ws.len() < 3 {
        return Err(parse_error(n, String::from_str("missing horizontal screen size value")));
    }
    let height = match parse_usize(ws[2].text.as_str()) {
        Some(v) => v,
        None => {
            return Err(
                parse_error(
                    n,
                    String::from_str("invalid vertical screen size: ").concat(ws[2].text.as_str()),
                ),
            );
        },
    };
    match check_line_end_exec(ws, 3, n) {
        Err(e) => Err(e),
        Ok(_) => Ok(Screen { width, height }),
    }
}

fn sphere_line_exec(ws: &Vec<Word>, n: usize, sc: &SceneDescription) -> (r: Result<
    PrimitiveDecl,
    ModelError,
>)
    ensures
        decl_done(sphere_line(ws@, n as nat, sc@), r),
{
    proof {
        reveal_strlit("");
        assert(""@ =~= Seq::<char>::empty());
    }
    let surface = match surface_at_exec(ws, n, sc, "sphere declaration missing surface") {
        Err(e) => {
            return Err(e);
        },
        Ok(s) => s,
    };
    let radius = match number_at_exec(ws, 2, n, "sphere missing radius", "invalid radius value") {
        Err(e) => {
            return Err(e);
        },
        Ok(v) => v,
    };
    let position = match coords_at_exec(ws, 3, n, "") {
        Err(e) => {
            return Err(e);
        },
        Ok(c) => c,
    };
    match check_line_end_exec(ws, 6, n) {
        Err(e) => Err(e),
        Ok(_) => Ok(PrimitiveDecl::Sphere { line: n, surface, radius, position }),
    }
}

fn cone_line_exec(ws: &Vec<Word>, n: usize, sc: &SceneDescription) -> (r: Result<
    PrimitiveDecl,
    ModelError,
>)
    ensures
        decl_done(cone_line(ws@, n as nat, sc@), r),
{
    let surface = match surface_at_exec(ws, n, sc, "cone declaration missing surface") {
        Err(e) => {
            return Err(e);
        },
        Ok(s) => s,
    };
    let base_radius = match number_at_exec(
        ws,
        2,
        n,
        "cone missing base radius",
        "invalid base radius value",
    ) {
        Err(e) => {
            return Err(e);
        },
        Ok(v) => v,
    };
    let base = match coords_at_exec(ws, 3, n, "error parsing cone base: ") {
        Err(e) => {
            return Err(e);
        },
        Ok(c) => c,
    };
    let apex_radius = match number_at_exec(
        ws,
        6,
        n,
        "cone missing apex radius",
        "invalid apex radius value",
    ) {
        Err(e) => {
            return Err(e);
        },
        Ok(v) => v,
    };
    let apex = match coords_at_exec(ws, 7, n, "error parsing cone apex: ") {
        Err(e) => {
            return Err(e);
        },
        Ok(c) => c,
    };
    match check_line_end_exec(ws, 10, n) {
        Err(e) => Err(e),
        Ok(_) => Ok(PrimitiveDecl::Cone { line: n, surface, base_radius, base, apex_radius, apex }),
    }
}

fn cylinder_line_exec(ws: &Vec<Word>, n: usize, sc: &SceneDescription) -> (r: Result<
    PrimitiveDecl,
    ModelError,
>)
    ensures
        decl_done(cylinder_line(ws@, n as nat, sc@), r),
{
    let surface = match surface_at_exec(ws, n, sc, "cylinder declaration missing surface") {
        Err(e) => {
            return Err(e);
        },
        Ok(s) => s,
    };
    let radius = match number_at_exec(ws, 2, n, "cylinder missing radius", "invalid radius value") {
        Err(e) => {
            return Err(e);
        },
        Ok(v) => v,
    };
    let base = match coords_at_exec(ws, 3, n, "error parsing cylinder base: ") {
        Err(e) => {
            return Err(e);
        },
        Ok(c) => c,
    };
    let axis = match coords_at_exec(ws, 6, n, "error parsing cylinder axis: ") {
        Err(e) => {
            return Err(e);
        },
        Ok(c) => c,
    };
    let height = match number_at_exec(ws, 9, n, "cylinder missing height", "invalid height value") {
        Err(e) => {
            return Err(e);
        },
        Ok(v) => v,
    };
    match check_line_end_exec(ws, 10, n) {
        Err(e) => Err(e),
        Ok(_) => Ok(PrimitiveDecl::Cylinder { line: n, surface, radius, base, axis, height }),
    }
}


// ----------------------------------------------------------------------------
// Blocks that span several lines.
// ----------------------------------------------------------------------------

/// The words of each line.
pub open spec fn lines_of(ls: Seq<Vec<Word>>) -> Seq<Seq<Word>> {
    ls.map_values(|l: Vec<Word>| l@)
}

pub proof fn lemma_block_end_bounds(ls: Seq<Seq<Word>>, j: int, surface_block: bool)
    requires
        0 <= j,
    ensures
        j <= block_end(ls, j, surface_block),
        j <= ls.len() ==> block_end(ls, j, surface_block) <= ls.len(),
    decreases ls.len() - j,
{
    if j < ls.len() && continues(ls[j], surface_block) {
        lemma_block_end_bounds(ls, j + 1, surface_block);
    }
}

/// `r` is what the statement is to give (`expected`): the index of the next
/// line and the new scene on success; on error, the scene is left as it was.
pub open spec fn step_done(
    expected: Result<(int, SceneView), ModelErrorView>,
    r: Result<usize, ModelError>,
    before: SceneView,
    after: SceneView,
) -> bool {
    match expected {
        Ok((k2, s2)) => r matches Ok(k3) && k3 == k2 && after == s2,
        Err(e) => r matches Err(e2) && e2@ == e && after == before,
    }
}

fn is_scene_keyword_exec(t: &str) -> (r: bool)
    ensures
        r == is_scene_keyword(t@),
{
    str_eq(t, "background") || str_eq(t, "eyep") || str_eq(t, "lookp") || str_eq(t, "fov")
        || str_eq(t, "screen") || str_eq(t, "sphere") || str_eq(t, "cylinder") || str_eq(t, "cone")
        || str_eq(t, "polygon") || str_eq(t, "triangle") || str_eq(t, "up") || str_eq(t, "surface")
        || str_eq(t, "light")
}

fn is_surface_keyword_exec(t: &str) -> (r: bool)
    ensures
        r == is_surface_keyword(t@),
{
    str_eq(t, "diffuse") || str_eq(t, "ambient") || str_eq(t, "specular") || str_eq(t, "specpow")
        || str_eq(t, "reflect")
}

fn continues_exec(l: &Vec<Word>, surface_block: bool) -> (r: bool)
    ensures
        r == continues(l@, surface_block),
{
    if l.len() == 0 {
        false
    } else if surface_block {
        is_surface_keyword_exec(l[0].text.as_str())
    } else {
        !is_scene_keyword_exec(l[0].text.as_str()) && l[0].number.is_some()
    }
}

fn default_surface_exec() -> (r: Surface)
    ensures
        r@ == default_surface(),
{
    let black = Color {
        r: FloatBits(0),
        g: FloatBits(0),
        b: FloatBits(0),
        a: FloatBits(0x3ff0_0000_0000_0000),
    };
    Surface {
        name: String::from_str("name"),
        ambient: black,
        diffuse: black,
        specular: black,
        specpow: FloatBits(0),
        reflect: FloatBits(0),
    }
}

fn surface_attribute_exec(sf: &mut Surface, l: &Vec<Word>, n: usize) -> (r: Result<(), ModelError>)
    requires
        l@.len() > 0,
    ensures
        match surface_attribute(old(sf)@, l@, n as nat) {
            Ok(s2) => r is Ok && final(sf)@ == s2,
            Err(e) => r matches Err(e2) && e2@ == e,
        },
{
    let kw = l[0].text.as_str();
    if str_eq(kw, "diffuse") || str_eq(kw, "ambient") {
        match Color::new_from_str_vec(word_range(l, 1, 4)) {
            Ok(c) => {
                sf.diffuse = c;
                Ok(())
            },
            Err(d) => Err(parse_error(n, d.message())),
        }
    } else if str_eq(kw, "specular") {
        match Color::new_from_str_vec(word_range(l, 1, 4)) {
            Ok(c) => {
                sf.specular = c;
                Ok(())
            },
            Err(d) => Err(parse_error(n, d.message())),
        }
    } else if str_eq(kw, "specpow") {
        match number_at_exec(
            l,
            1,
            n,
            "missing specpow value",
            "specpow value must be valid decimal value",
        ) {
            Ok(v) => {
                sf.specpow = v;
                Ok(())
            },
            Err(e) => Err(e),
        }
    } else if str_eq(kw, "reflect") {
        match number_at_exec(
            l,
            1,
            n,
            "missing reflect value",
            "reflect value must be valid decimal value",
        ) {
            Ok(v) => {
                sf.reflect = v;
                Ok(())
            },
            Err(e) => Err(e),
        }
    } else {
        Ok(())
    }
}

/// Defines surface `name` among `surfaces`, replacing an earlier definition in place.
fn define_surface_exec(surfaces: &mut Vec<(String, Surface)>, name: String, sf: Surface)
    ensures
        final(surfaces)@.map_values(|e: (String, Surface)| (e.0@, e.1@)) == define_surface(
            old(surfaces)@.map_values(|e: (String, Surface)| (e.0@, e.1@)),
            name@,
            sf@,
        ),
{
    let ghost before = surfaces@;
    match find_surface(surfaces, name.as_str()) {
        Some(i) => {
            let ghost nm = name@;
            let ghost sv = sf@;
            surfaces.set(i, (name, sf));
            assert(surfaces@.map_values(|e: (String, Surface)| (e.0@, e.1@)) =~= before.map_values(
                |e: (String, Surface)| (e.0@, e.1@),
            ).update(i as int, (nm, sv)));
        },
        None => {
            let ghost nm = name@;
            let ghost sv = sf@;
            surfaces.push((name, sf));
            assert(surfaces@.map_values(|e: (String, Surface)| (e.0@, e.1@)) =~= before.map_values(
                |e: (String, Surface)| (e.0@, e.1@),
            ).push((nm, sv)));
        },
    }
}

#[verifier::loop_isolation(false)]
fn surface_statement_exec(ls: &Vec<Vec<Word>>, k: usize, sc: &mut SceneDescription) -> (r: Result<
    usize,
    ModelError,
>)
    requires
        k < ls@.len(),
        ls@.len() + 2 <= usize::MAX,
    ensures
        step_done(surface_statement(lines_of(ls@), k as int, old(sc)@), r, old(sc)@, final(sc)@),
        r matches Ok(k2) ==> k < k2 <= ls@.len(),
{
    let ghost lsv = lines_of(ls@);
    let ws = &ls[k];
    assert(ws@ == lsv[k as int]);
    let n = k + 2;
    if ws.len() < 2 {
        return Err(parse_error(n, String::from_str("dangling \"surface\" keyword")));
    }
    match check_line_end_exec(ws, 2, n) {
        Err(e) => {
            return Err(e);
        },
        Ok(_) => {},
    }
    let mut sf = default_surface_exec();
    let mut j: usize = k + 1;
    let ghost end = block_end(lsv, k + 1, true);
    proof {
        lemma_block_end_bounds(lsv, k + 1, true);
    }
    while j < ls.len() && continues_exec(&ls[j], true)
        invariant
            lsv == lines_of(ls@),
            k < j <= ls@.len(),
            ls@.len() + 2 <= usize::MAX,
            end == block_end(lsv, k + 1, true),
            block_end(lsv, j as int, true) == end,
            j <= end <= ls@.len(),
            surface_body(lsv, k + 1, end, default_surface()) == surface_body(
                lsv,
                j as int,
                end,
                sf@,
            ),
        decreases ls@.len() - j,
    {
        assert(ls@[j as int]@ == lsv[j as int]);
        proof {
            lemma_block_end_bounds(lsv, j + 1, true);
        }
        assert(block_end(lsv, j as int, true) == block_end(lsv, j + 1, true));
        let ghost sf0 = sf@;
        assert(surface_body(lsv, j as int, end, sf0) == match surface_attribute(
            sf0,
            lsv[j as int],
            line_no(j as int),
        ) {
            Err(e) => Err(e),
            Ok(sf2) => surface_body(lsv, j + 1, end, sf2),
        });
        match surface_attribute_exec(&mut sf, &ls[j], j + 2) {
            Err(e) => {
                return Err(e);
            },
            Ok(_) => {},
        }
        j = j + 1;
    }
    assert(j < ls@.len() ==> ls@[j as int]@ == lsv[j as int]);
    assert(end == j);
    let name = ws[1].text.clone();
    define_surface_exec(&mut sc.surfaces, name, sf);
    Ok(j)
}

pub open spec fn prepend(acc: Seq<Coords>, r: Result<Seq<Coords>, ModelErrorView>) -> Result<
    Seq<Coords>,
    ModelErrorView,
> {
    match r {
        Ok(cs) => Ok(acc + cs),
        Err(e) => Err(e),
    }
}

proof fn lemma_prepend_step(acc: Seq<Coords>, c: Coords, rest: Result<Seq<Coords>, ModelErrorView>)
    ensures
        prepend(
            acc,
            match rest {
                Err(e) => Err(e),
                Ok(cs) => Ok(seq![c] + cs),
            },
        ) == prepend(acc.push(c), rest),
{
    match rest {
        Ok(cs) => {
            assert(acc + (seq![c] + cs) =~= acc.push(c) + cs);
        },
        Err(_) => {},
    }
}

/// Reads the words of a line three at a time as coordinates.
fn coords_chunks_exec(ws: &[Word], n: usize) -> (r: Result<Vec<Coords>, ModelError>)
    ensures
        match coords_chunks(ws@, n as nat) {
            Ok(cs) => r matches Ok(v) && v@ == cs,
            Err(e) => r matches Err(e2) && e2@ == e,
        },
{
    let mut out: Vec<Coords> = Vec::new();
    let len = ws.len();
    let mut i: usize = 0;
    assert(ws@.skip(0) =~= ws@);
    assert(Seq::<Coords>::empty() + Seq::<Coords>::empty() =~= Seq::<Coords>::empty());
    assert(forall|cs: Seq<Coords>| Seq::<Coords>::empty() + cs =~= cs);
    while i < len
        invariant
            len == ws@.len(),
            i <= len,
            coords_chunks(ws@, n as nat) == prepend(out@, coords_chunks(ws@.skip(i as int), n as nat)),
        decreases len - i,
    {
        let m: usize = if len - i >= 3 {
            3
        } else {
            len - i
        };
        let ghost s = ws@.skip(i as int);
        assert(s.take(m as int) =~= ws@.subrange(i as int, (i + m) as int));
        assert(s.skip(m as int) =~= ws@.skip((i + m) as int));
        assert(m as int == min_index(3, s.len() as int));
        let chunk = &ws[i..i + m];
        match Coords::new_from_str_vec(chunk) {
            Err(d) => {
                return Err(parse_error(n, d.message()));
            },
            Ok(c) => {
                proof {
                    lemma_prepend_step(out@, c, coords_chunks(s.skip(m as int), n as nat));
                }
                out.push(c);
            },
        }
        i = i + m;
    }
    assert(ws@.skip(len as int) =~= Seq::<Word>::empty());
    assert(out@ + Seq::<Coords>::empty() =~= out@);
    Ok(out)
}

/// Reads the coordinate lines that follow line `k`, appending their
/// coordinates to `acc`: the coordinates, the number of the last line read
/// (`n` when there is none), and the index of the line after the block.
#[verifier::loop_isolation(false)]
fn vertex_lines_exec(ls: &Vec<Vec<Word>>, k: usize, acc: Vec<Coords>, n: usize) -> (r: Result<
    (Vec<Coords>, usize, usize),
    ModelError,
>)
    requires
        k < ls@.len(),
        ls@.len() + 2 <= usize::MAX,
    ensures
        match vertex_body(
            lines_of(ls@),
            k + 1,
            block_end(lines_of(ls@), k + 1, false),
            acc@,
            n as nat,
        ) {
            Ok((cs, line)) => r matches Ok((v, l, e)) && v@ == cs && l == line && e == block_end(
                lines_of(ls@),
                k + 1,
                false,
            ),
            Err(e) => r matches Err(e2) && e2@ == e,
        },
        r matches Ok((_, _, e)) ==> k < e <= ls@.len(),
{
    let ghost lsv = lines_of(ls@);
    let ghost acc0 = acc@;
    let mut acc = acc;
    let mut line: usize = n;
    let mut j: usize = k + 1;
    let ghost end = block_end(lsv, k + 1, false);
    proof {
        lemma_block_end_bounds(lsv, k + 1, false);
    }
    while j < ls.len() && continues_exec(&ls[j], false)
        invariant
            lsv == lines_of(ls@),
            k < j <= ls@.len(),
            ls@.len() + 2 <= usize::MAX,
            end == block_end(lsv, k + 1, false),
            block_end(lsv, j as int, false) == end,
            j <= end <= ls@.len(),
            vertex_body(lsv, k + 1, end, acc0, n as nat) == vertex_body(
                lsv,
                j as int,
                end,
                acc@,
                line as nat,
            ),
        decreases ls@.len() - j,
    {
        assert(ls@[j as int]@ == lsv[j as int]);
        proof {
            lemma_block_end_bounds(lsv, j + 1, false);
        }
        assert(block_end(lsv, j as int, false) == block_end(lsv, j + 1, false));
        assert(vertex_body(lsv, j as int, end, acc@, line as nat) == match coords_chunks(
            lsv[j as int],
            line_no(j as int),
        ) {
            Err(e) => Err(e),
            Ok(cs) => vertex_body(lsv, j + 1, end, acc@ + cs, line_no(j as int)),
        });
        match coords_chunks_exec(ls[j].as_slice(), j + 2) {
            Err(e) => {
                return Err(e);
            },
            Ok(cs) => {
                let mut cs = cs;
                acc.append(&mut cs);
                line = j + 2;
            },
        }
        j = j + 1;
    }
    assert(j < ls@.len() ==> ls@[j as int]@ == lsv[j as int]);
    assert(end == j);
    Ok((acc, line, j))
}

fn polygon_statement_exec(ls: &Vec<Vec<Word>>, k: usize, sc: &mut SceneDescription) -> (r: Result<
    usize,
    ModelError,
>)
    requires
        k < ls@.len(),
        ls@.len() + 2 <= usize::MAX,
    ensures
        step_done(polygon_statement(lines_of(ls@), k as int, old(sc)@), r, old(sc)@, final(sc)@),
        r matches Ok(k2) ==> k < k2 <= ls@.len(),
{
    let ghost lsv = lines_of(ls@);
    let ws = &ls[k];
    assert(ws@ == lsv[k as int]);
    let n = k + 2;
    let surface = match surface_at_exec(ws, n, sc, "polygon declaration missing surface") {
        Err(e) => {
            return Err(e);
        },
        Ok(s) => s,
    };
    match check_line_end_exec(ws, 2, n) {
        Err(e) => {
            return Err(e);
        },
        Ok(_) => {},
    }
    let (vertices, line, end) = match vertex_lines_exec(ls, k, Vec::new(), n) {
        Err(e) => {
            return Err(e);
        },
        Ok(t) => t,
    };
    let p = PrimitiveDecl::Polygon { line, surface, vertices };
    let ghost before = sc.primitives@;
    sc.primitives.push(p);
    proof {
        lemma_map_push(before, sc.primitives@.last(), |q: PrimitiveDecl| q@);
        assert(sc.primitives@ == before.push(sc.primitives@.last()));
    }
    Ok(end)
}

fn triangle_statement_exec(ls: &Vec<Vec<Word>>, k: usize, sc: &mut SceneDescription) -> (r: Result<
    usize,
    ModelError,
>)
    requires
        k < ls@.len(),
        ls@.len() + 2 <= usize::MAX,
    ensures
        step_done(triangle_statement(lines_of(ls@), k as int, old(sc)@), r, old(sc)@, final(sc)@),
        r matches Ok(k2) ==> k < k2 <= ls@.len(),
{
    let ghost lsv = lines_of(ls@);
    let ws = &ls[k];
    assert(ws@ == lsv[k as int]);
    let n = k + 2;
    let surface = match surface_at_exec(ws, n, sc, "triangle declaration missing surface") {
        Err(e) => {
            return Err(e);
        },
        Ok(s) => s,
    };
    let rest = &ws.as_slice()[2..ws.len()];
    assert(rest@ =~= ws@.skip(2));
    let first = match coords_chunks_exec(rest, n) {
        Err(e) => {
            return Err(e);
        },
        Ok(cs) => cs,
    };
    let (coords, _line, end) = match vertex_lines_exec(ls, k, first, n) {
        Err(e) => {
            return Err(e);
        },
        Ok(t) => t,
    };
    let count = coords.len();
    if count != 3 && count != 6 {
        return Err(
            parse_error(
                n,
                String::from_str(
                    "a triangle definition should contain a 3 or 6 3D coordinate values. got ",
                ).concat(decimal_string(count).as_str()),
            ),
        );
    }
    let p = PrimitiveDecl::Triangle { line: n, surface, coords };
    let ghost before = sc.primitives@;
    sc.primitives.push(p);
    proof {
        lemma_map_push(before, sc.primitives@.last(), |q: PrimitiveDecl| q@);
        assert(sc.primitives@ == before.push(sc.primitives@.last()));
    }
    Ok(end)
}


fn one_line_exec(r: Result<(), ModelError>, k: usize) -> (out: Result<usize, ModelError>)
    requires
        k < usize::MAX,
    ensures
        r is Ok ==> out == Ok::<usize, ModelError>((k + 1) as usize),
        r matches Err(e) ==> out matches Err(e2) && e2@ == e@,
{
    match r {
        Ok(_) => Ok(k + 1),
        Err(e) => Err(e),
    }
}

fn push_primitive(sc: &mut SceneDescription, p: PrimitiveDecl)
    ensures
        final(sc)@ == with_primitive(old(sc)@, p@),
{
    let ghost before = sc.primitives@;
    sc.primitives.push(p);
    proof {
        lemma_map_push(before, sc.primitives@.last(), |q: PrimitiveDecl| q@);
        assert(sc.primitives@ == before.push(sc.primitives@.last()));
    }
}

fn one_primitive_exec(r: Result<PrimitiveDecl, ModelError>, k: usize, sc: &mut SceneDescription) -> (out: Result<usize, ModelError>)
    requires
        k < usize::MAX,
    ensures
        r matches Ok(p) ==> out == Ok::<usize, ModelError>((k + 1) as usize) && final(sc)@
            == with_primitive(old(sc)@, p@),
        r matches Err(e) ==> out matches Err(e2) && e2@ == e@ && final(sc)@ == old(sc)@,
{
    match r {
        Ok(p) => {
            push_primitive(sc, p);
            Ok(k + 1)
        },
        Err(e) => Err(e),
    }
}

/// Applies the statement that starts at line `k` to `sc`.
fn statement_exec(ls: &Vec<Vec<Word>>, k: usize, sc: &mut SceneDescription) -> (r: Result<
    usize,
    ModelError,
>)
    requires
        k < ls@.len(),
        ls@.len() + 2 <= usize::MAX,
        ls@[k as int]@.len() > 0,
    ensures
        step_done(statement(lines_of(ls@), k as int, old(sc)@), r, old(sc)@, final(sc)@),
        r matches Ok(k2) ==> k < k2 <= ls@.len(),
{
    let ghost lsv = lines_of(ls@);
    let ws = &ls[k];
    assert(ws@ == lsv[k as int]);
    let n = k + 2;
    let kw = ws[0].text.as_str();
    if str_eq(kw, "background") {
        let r = background_line_exec(ws, n, sc);
        one_line_exec(r, k)
    } else if str_eq(kw, "light") {
        let r = light_line_exec(ws, n, sc);
        one_line_exec(r, k)
    } else if str_eq(kw, "eyep") {
        match point_line_exec(ws, n) {
            Err(e) => Err(e),
            Ok(c) => {
                sc.eyep = c;
                Ok(k + 1)
            },
        }
    } else if str_eq(kw, "lookp") {
        match point_line_exec(ws, n) {
            Err(e) => Err(e),
            Ok(c) => {
                sc.lookp = c;
                Ok(k + 1)
            },
        }
    } else if str_eq(kw, "up") {
        match point_line_exec(ws, n) {
            Err(e) => Err(e),
            Ok(c) => {
                sc.up = c;
                Ok(k + 1)
            },
        }
    } else if str_eq(kw, "fov") {
        match fov_line_exec(ws, n) {
            Err(e) => Err(e),
            Ok(f) => {
                sc.fov = f;
                Ok(k + 1)
            },
        }
    } else if str_eq(kw, "screen") {
        match screen_line_exec(ws, n) {
            Err(e) => Err(e),
            Ok(v) => {
                sc.screen = v;
                Ok(k + 1)
            },
        }
    } else if str_eq(kw, "surface") {
        surface_statement_exec(ls, k, sc)
    } else if str_eq(kw, "sphere") {
        let r = sphere_line_exec(ws, n, sc);
        one_primitive_exec(r, k, sc)
    } else if str_eq(kw, "cylinder") {
        let r = cylinder_line_exec(ws, n, sc);
        one_primitive_exec(r, k, sc)
    } else if str_eq(kw, "cone") {
        let r = cone_line_exec(ws, n, sc);
        one_primitive_exec(r, k, sc)
    } else if str_eq(kw, "polygon") {
        polygon_statement_exec(ls, k, sc)
    } else if str_eq(kw, "triangle") {
        triangle_statement_exec(ls, k, sc)
    } else {
        Ok(k + 1)
    }
}

pub open spec fn error_view(e: Option<ModelError>) -> Option<ModelErrorView> {
    match e {
        Some(m) => Some(m@),
        None => None,
    }
}

fn initial_scene_exec() -> (r: SceneDescription)
    ensures
        r@ == initial_scene(),
{
    let r = SceneDescription {
        background: Color::new(),
        eyep: Coords::new(),
        lookp: Coords::new(),
        up: Coords::new(),
        fov: Fov { horz: FloatBits(0), vert: FloatBits(0) },
        screen: Screen { width: 0, height: 0 },
        light_sources: Vec::new(),
        surfaces: Vec::new(),
        primitives: Vec::new(),
    };
    assert(r@.light_sources =~= Seq::<Light>::empty());
    assert(r@.surfaces =~= Seq::<(Seq<char>, SurfaceView)>::empty());
    assert(r@.primitives =~= Seq::<PrimitiveDeclView>::empty());
    r
}

/// Reads a scene file given as the words of its lines (see
/// `text::split_words`) and the failure, if any, with which reading stopped
/// after them. Gives the scene as it stands when reading stops, and the error
/// that stopped it, if any: the first statement that cannot be parsed, a read
/// failure, or an input without any line.
pub fn iterate_input_data(lines: &Vec<Vec<Word>>, read_error: &Option<String>) -> (r: (
    SceneDescription,
    Option<ModelError>,
))
    requires
        lines@.len() + 2 <= usize::MAX,
    ensures
        (r.0@, error_view(r.1)) == parse_scene(lines_of(lines@), opt_text(*read_error)),
{
    let ghost lsv = lines_of(lines@);
    let ghost re = opt_text(*read_error);
    let mut sc = initial_scene_exec();
    let mut k: usize = 0;
    while k < lines.len()
        invariant
            lsv == lines_of(lines@),
            re == opt_text(*read_error),
            lines@.len() + 2 <= usize::MAX,
            k <= lines@.len(),
            parse_scene(lsv, re) == run(lsv, re, k as int, sc@),
        decreases lines@.len() - k,
    {
        let ws = &lines[k];
        assert(ws@ == lsv[k as int]);
        if ws.len() == 0 || str_eq(ws[0].text.as_str(), "//") {
            k = k + 1;
        } else {
            let ghost before = sc@;
            match statement_exec(lines, k, &mut sc) {
                Err(e) => {
                    return (sc, Some(e));
                },
                Ok(k2) => {
                    k = k2;
                },
            }
        }
    }
    let err = match read_error {
        Some(m) => Some(
            parse_error(
                k + 1,
                String::from_str("failed to read input file from disk. Error: ").concat(m.as_str()),
            ),
        ),
        None => {
            if k == 0 {
                Some(parse_error(1, String::from_str("input file is empty")))
            } else {
                None
            }
        },
    };
    (sc, err)
}

} // verus!
