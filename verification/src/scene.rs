//! The values that a scene description holds. Doubles are held by their
//! IEEE-754 bit patterns (`FloatBits`); text by `String`, viewed as `Seq<char>`.

use crate::numeric::FloatBits;
use vstd::prelude::*;

verus! {

/// One whitespace-separated word of a scene file line, together with its
/// reading as a floating-point literal (`None` when it is not one).
#[derive(Clone, Debug, PartialEq)]
pub struct Word {
    pub text: String,
    pub number: Option<FloatBits>,
}

/// A point or direction in space.
#[derive(Clone, Copy, Debug, PartialEq, Eq, Structural)]
pub struct Coords {
    pub x: FloatBits,
    pub y: FloatBits,
    pub z: FloatBits,
}

impl Coords {
    /// The origin.
    pub fn new() -> (r: Coords)
        ensures
            r == origin(),
    {
        Coords { x: FloatBits(0), y: FloatBits(0), z: FloatBits(0) }
    }
}

/// The origin: all components positive zero.
pub open spec fn origin() -> Coords {
    Coords { x: FloatBits(0), y: FloatBits(0), z: FloatBits(0) }
}

/// An RGBA color, each channel nominally in `[0, 1]`.
#[derive(Clone, Copy, Debug, PartialEq, Eq, Structural)]
pub struct Color {
    pub r: FloatBits,
    pub g: FloatBits,
    pub b: FloatBits,
    pub a: FloatBits,
}

impl Color {
    /// Transparent black: all channels zero.
    pub fn new() -> (r: Color)
        ensures
            r == transparent_black(),
    {
        Color { r: FloatBits(0), g: FloatBits(0), b: FloatBits(0), a: FloatBits(0) }
    }
}

/// All channels zero.
pub open spec fn transparent_black() -> Color {
    Color { r: FloatBits(0), g: FloatBits(0), b: FloatBits(0), a: FloatBits(0) }
}

/// Opaque black: color channels zero, alpha one.
pub open spec fn opaque_black() -> Color {
    Color { r: FloatBits(0), g: FloatBits(0), b: FloatBits(0), a: FloatBits(0x3ff0_0000_0000_0000) }
}

/// Horizontal and vertical field of view, in degrees.
#[derive(Clone, Copy, Debug, PartialEq, Eq, Structural)]
pub struct Fov {
    pub horz: FloatBits,
    pub vert: FloatBits,
}

/// The size of the rendered image, in pixels.
#[derive(Clone, Copy, Debug, PartialEq, Eq, Structural)]
pub struct Screen {
    pub width: usize,
    pub height: usize,
}

impl Screen {
    /// The default screen of 500 by 500 pixels.
    pub fn default_screen() -> (r: Screen)
        ensures
            r.width == 500 && r.height == 500,
    {
        Screen { width: 500, height: 500 }
    }
}

/// The kinds of light source.
#[derive(Clone, Copy, Debug, PartialEq, Eq, Structural)]
pub enum LightSourceType {
    Point,
    Directional,
    Ambient,
    Extended,
}

/// A light source. `position` is the direction for directional lights and the
/// origin for ambient lights; `radius` is zero except for extended lights.
#[derive(Clone, Copy, Debug, PartialEq, Eq, Structural)]
pub struct Light {
    pub position: Coords,
    pub intensity: FloatBits,
    pub source_type: LightSourceType,
    pub radius: FloatBits,
}

/// Shading parameters.
#[derive(Clone, Debug, PartialEq)]
pub struct Surface {
    pub name: String,
    pub ambient: Color,
    pub diffuse: Color,
    pub specular: Color,
    pub specpow: FloatBits,
    pub reflect: FloatBits,
}

pub struct SurfaceView {
    pub name: Seq<char>,
    pub ambient: Color,
    pub diffuse: Color,
    pub specular: Color,
    pub specpow: FloatBits,
    pub reflect: FloatBits,
}

impl View for Surface {
    type V = SurfaceView;

    open spec fn view(&self) -> SurfaceView {
        SurfaceView {
            name: self.name@,
            ambient: self.ambient,
            diffuse: self.diffuse,
            specular: self.specular,
            specpow: self.specpow,
            reflect: self.reflect,
        }
    }
}

impl Surface {
    /// A copy of this surface.
    pub fn clone_surface(&self) -> (r: Surface)
        ensures
            r@ == self@,
    {
        Surface {
            name: self.name.clone(),
            ambient: self.ambient,
            diffuse: self.diffuse,
            specular: self.specular,
            specpow: self.specpow,
            reflect: self.reflect,
        }
    }
}

/// A primitive as a scene file declares it, with the surface it is shaded
/// with and the line number at which a failure to construct its geometry is
/// reported.
#[derive(Clone, Debug, PartialEq)]
pub enum PrimitiveDecl {
    Sphere { line: usize, surface: Surface, radius: FloatBits, position: Coords },
    Cone {
        line: usize,
        surface: Surface,
        base_radius: FloatBits,
        base: Coords,
        apex_radius: FloatBits,
        apex: Coords,
    },
    Cylinder {
        line: usize,
        surface: Surface,
        radius: FloatBits,
        base: Coords,
        axis: Coords,
        height: FloatBits,
    },
    Polygon { line: usize, surface: Surface, vertices: Vec<Coords> },
    Triangle { line: usize, surface: Surface, coords: Vec<Coords> },
}

pub enum PrimitiveDeclView {
    Sphere { line: nat, surface: SurfaceView, radius: FloatBits, position: Coords },
    Cone {
        line: nat,
        surface: SurfaceView,
        base_radius: FloatBits,
        base: Coords,
        apex_radius: FloatBits,
        apex: Coords,
    },
    Cylinder {
        line: nat,
        surface: SurfaceView,
        radius: FloatBits,
        base: Coords,
        axis: Coords,
        height: FloatBits,
    },
    Polygon { line: nat, surface: SurfaceView, vertices: Seq<Coords> },
    Triangle { line: nat, surface: SurfaceView, coords: Seq<Coords> },
}

impl View for PrimitiveDecl {
    type V = PrimitiveDeclView;

    open spec fn view(&self) -> PrimitiveDeclView {
        match self {
            PrimitiveDecl::Sphere { line, surface, radius, position } => PrimitiveDeclView::Sphere {
                line: *line as nat,
                surface: surface@,
                radius: *radius,
                position: *position,
            },
            PrimitiveDecl::Cone { line, surface, base_radius, base, apex_radius, apex } =>
                PrimitiveDeclView::Cone {
                line: *line as nat,
                surface: surface@,
                base_radius: *base_radius,
                base: *base,
                apex_radius: *apex_radius,
                apex: *apex,
            },
            PrimitiveDecl::Cylinder { line, surface, radius, base, axis, height } =>
                PrimitiveDeclView::Cylinder {
                line: *line as nat,
                surface: surface@,
                radius: *radius,
                base: *base,
                axis: *axis,
                height: *height,
            },
            PrimitiveDecl::Polygon { line, surface, vertices } => PrimitiveDeclView::Polygon {
                line: *line as nat,
                surface: surface@,
                vertices: vertices@,
            },
            PrimitiveDecl::Triangle { line, surface, coords } => PrimitiveDeclView::Triangle {
                line: *line as nat,
                surface: surface@,
                coords: coords@,
            },
        }
    }
}

/// Everything a scene file states, in the order in which it states it.
#[derive(Clone, Debug, PartialEq)]
pub struct SceneDescription {
    pub background: Color,
    pub eyep: Coords,
    pub lookp: Coords,
    pub up: Coords,
    pub fov: Fov,
    pub screen: Screen,
    pub light_sources: Vec<Light>,
    /// Surface definitions by name, in order; a later definition of a name
    /// replaces an earlier one.
    pub surfaces: Vec<(String, Surface)>,
    pub primitives: Vec<PrimitiveDecl>,
}

pub struct SceneView {
    pub background: Color,
    pub eyep: Coords,
    pub lookp: Coords,
    pub up: Coords,
    pub fov: Fov,
    pub screen: Screen,
    pub light_sources: Seq<Light>,
    pub surfaces: Seq<(Seq<char>, SurfaceView)>,
    pub primitives: Seq<PrimitiveDeclView>,
}

impl View for SceneDescription {
    type V = SceneView;

    open spec fn view(&self) -> SceneView {
        SceneView {
            background: self.background,
            eyep: self.eyep,
            lookp: self.lookp,
            up: self.up,
            fov: self.fov,
            screen: self.screen,
            light_sources: self.light_sources@,
            surfaces: self.surfaces@.map_values(|e: (String, Surface)| (e.0@, e.1@)),
            primitives: self.primitives@.map_values(|p: PrimitiveDecl| p@),
        }
    }
}

} // verus!
