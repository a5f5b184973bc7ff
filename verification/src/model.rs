//! The scene model: camera, lights and the primitives of a scene, each
//! primitive kept by its identifier in the map of its kind, and all of them in
//! one index of identifiers to kinds that the tracer walks.

use crate::numeric::FloatBits;
use crate::scene::{
    Surface, SurfaceView,
    Color, Coords, Fov, Light, PrimitiveDecl, PrimitiveDeclView, SceneDescription, SceneView, Screen,
};
use std::collections::HashMap;
use vstd::prelude::*;

verus! {

broadcast use vstd::std_specs::hash::group_hash_axioms;

/// A fresh random (version 4) identifier, as the 128-bit number that it is.
///
/// Calls `uuid::Uuid::new_v4` and `Uuid::as_u128`. Nothing is stated of the
/// result: it comes from the random number generator.
#[verifier::external_body]
fn new_uuid() -> (r: u128) {
    uuid::Uuid::new_v4().as_u128()
}

/// The character of a hexadecimal digit value, in lowercase.
pub open spec fn hex_char(v: nat) -> char {
    if v < 10 {
        (('0' as nat) + v) as char
    } else {
        (('a' as nat) + v - 10) as char
    }
}

/// The `k`-th hexadecimal digit of `id`, counted from the most significant.
pub open spec fn hex_digit_of(id: u128, k: int) -> nat {
    ((id >> ((4 * (31 - k)) as u128)) & 0xf) as nat
}

/// The index among the 32 digits of the character at position `i` of a
/// hyphenated identifier.
pub open spec fn digit_position(i: int) -> int {
    if i < 8 {
        i
    } else if i < 13 {
        i - 1
    } else if i < 18 {
        i - 2
    } else if i < 23 {
        i - 3
    } else {
        i - 4
    }
}

/// The hyphenated text of an identifier: its 32 hexadecimal digits in
/// lowercase, most significant first, in groups of 8, 4, 4, 4 and 12.
pub open spec fn uuid_text(id: u128) -> Seq<char> {
    Seq::new(
        36,
        |i: int|
            if i == 8 || i == 13 || i == 18 || i == 23 {
                '-'
            } else {
                hex_char(hex_digit_of(id, digit_position(i)))
            },
    )
}

/// The text of an identifier.
///
/// Calls `Uuid::from_u128` and `to_string`, whose `Display` writes the
/// hyphenated form of the identifier's big-endian bytes in lowercase
/// hexadecimal; the contract states that form.
#[verifier::external_body]
fn uuid_to_string(id: u128) -> (r: String)
    ensures
        r@ == uuid_text(id),
{
    uuid::Uuid::from_u128(id).to_string()
}

/// What a ray at a pixel hits: the primitive's identifier, as text, and its kind's name.
#[derive(Clone, Debug, PartialEq)]
pub struct IntersectedObjectInfo {
    pub uuid: String,
    pub object_type: String,
}

impl IntersectedObjectInfo {
    /// The information on primitive `id` of kind `kind`.
    pub fn new(id: u128, kind: PrimitiveKind) -> (r: IntersectedObjectInfo)
        ensures
            r.uuid@ == uuid_text(id),
            r.object_type@ == kind_name(kind),
    {
        IntersectedObjectInfo { uuid: uuid_to_string(id), object_type: String::from_str(kind.name()) }
    }
}

/// The kinds of primitive.
#[derive(Clone, Copy, Debug, PartialEq, Eq, Structural)]
pub enum PrimitiveKind {
    Sphere,
    Cone,
    Polygon,
    Triangle,
}

impl PrimitiveKind {
    /// The name of the kind, as reported for an intersected primitive.
    pub fn name(&self) -> (r: &'static str)
        ensures
            r@ == kind_name(*self),
    {
        match self {
            PrimitiveKind::Sphere => "sphere",
            PrimitiveKind::Cone => "cone",
            PrimitiveKind::Polygon => "polygon",
            PrimitiveKind::Triangle => "triangle",
        }
    }
}

pub open spec fn kind_name(k: PrimitiveKind) -> Seq<char> {
    match k {
        PrimitiveKind::Sphere => "sphere"@,
        PrimitiveKind::Cone => "cone"@,
        PrimitiveKind::Polygon => "polygon"@,
        PrimitiveKind::Triangle => "triangle"@,
    }
}

#[derive(Clone, Debug, PartialEq)]
pub struct Sphere {
    pub uuid: u128,
    pub surface: Surface,
    pub radius: FloatBits,
    pub position: Coords,
}

pub struct SphereView {
    pub uuid: u128,
    pub surface: SurfaceView,
    pub radius: FloatBits,
    pub position: Coords,
}

impl View for Sphere {
    type V = SphereView;

    open spec fn view(&self) -> SphereView {
        SphereView {
            uuid: self.uuid,
            surface: self.surface@,
            radius: self.radius,
            position: self.position,
        }
    }
}

impl Sphere {
    /// A sphere with a fresh identifier.
    pub fn new(surface: Surface, radius: FloatBits, position: Coords) -> (r: Sphere)
        ensures
            r.surface@ == surface@,
            r.radius == radius,
            r.position == position,
    {
        Sphere { uuid: new_uuid(), surface, radius, position }
    }
}

#[derive(Clone, Debug, PartialEq)]
pub struct Cone {
    pub uuid: u128,
    pub surface: Surface,
    pub base_radius: FloatBits,
    pub base: Coords,
    pub apex_radius: FloatBits,
    pub apex: Coords,
}

pub struct ConeView {
    pub uuid: u128,
    pub surface: SurfaceView,
    pub base_radius: FloatBits,
    pub base: Coords,
    pub apex_radius: FloatBits,
    pub apex: Coords,
}

impl View for Cone {
    type V = ConeView;

    open spec fn view(&self) -> ConeView {
        ConeView {
            uuid: self.uuid,
            surface: self.surface@,
            base_radius: self.base_radius,
            base: self.base,
            apex_radius: self.apex_radius,
            apex: self.apex,
        }
    }
}

impl Cone {
    /// A cone (or, with equal radii, a cylinder) with a fresh identifier.
    pub fn new(
        surface: Surface,
        base_radius: FloatBits,
        base: Coords,
        apex_radius: FloatBits,
        apex: Coords,
    ) -> (r: Cone)
        ensures
            r.surface@ == surface@,
            r.base_radius == base_radius,
            r.base == base,
            r.apex_radius == apex_radius,
            r.apex == apex,
    {
        Cone { uuid: new_uuid(), surface, base_radius, base, apex_radius, apex }
    }
}

#[derive(Clone, Debug, PartialEq)]
pub struct Polygon {
    pub uuid: u128,
    pub surface: Surface,
    pub vertices: Vec<Coords>,
}

pub struct PolygonView {
    pub uuid: u128,
    pub surface: SurfaceView,
    pub vertices: Seq<Coords>,
}

impl View for Polygon {
    type V = PolygonView;

    open spec fn view(&self) -> PolygonView {
        PolygonView { uuid: self.uuid, surface: self.surface@, vertices: self.vertices@ }
    }
}

impl Polygon {
    /// A polygon with a fresh identifier.
    pub fn new(surface: Surface, vertices: Vec<Coords>) -> (r: Polygon)
        ensures
            r.surface@ == surface@,
            r.vertices@ == vertices@,
    {
        Polygon { uuid: new_uuid(), surface, vertices }
    }
}

/// A triangle: three vertices, with a normal at each vertex when the triangle
/// is smoothly shaded, or none (all normals zero) when it is flat shaded.
#[derive(Clone, Debug, PartialEq)]
pub struct Triangle {
    pub uuid: u128,
    pub surface: Surface,
    pub vertex_1: Coords,
    pub vertex_2: Coords,
    pub vertex_3: Coords,
    pub v1_normal: Coords,
    pub v2_normal: Coords,
    pub v3_normal: Coords,
    pub flat_shaded: bool,
}

pub struct TriangleView {
    pub uuid: u128,
    pub surface: SurfaceView,
    pub vertex_1: Coords,
    pub vertex_2: Coords,
    pub vertex_3: Coords,
    pub v1_normal: Coords,
    pub v2_normal: Coords,
    pub v3_normal: Coords,
    pub flat_shaded: bool,
}

impl View for Triangle {
    type V = TriangleView;

    open spec fn view(&self) -> TriangleView {
        TriangleView {
            uuid: self.uuid,
            surface: self.surface@,
            vertex_1: self.vertex_1,
            vertex_2: self.vertex_2,
            vertex_3: self.vertex_3,
            v1_normal: self.v1_normal,
            v2_normal: self.v2_normal,
            v3_normal: self.v3_normal,
            flat_shaded: self.flat_shaded,
        }
    }
}

/// The triangle that a scene file's list of coordinates defines: three
/// vertices (flat shaded), or three vertices each followed by its normal.
pub open spec fn triangle_of_coords(uuid: u128, surface: SurfaceView, cs: Seq<Coords>) -> TriangleView {
    if cs.len() == 6 {
        TriangleView {
            uuid,
            surface,
            vertex_1: cs[0],
            vertex_2: cs[2],
            vertex_3: cs[4],
            v1_normal: cs[1],
            v2_normal: cs[3],
            v3_normal: cs[5],
            flat_shaded: false,
        }
    } else {
        TriangleView {
            uuid,
            surface,
            vertex_1: cs[0],
            vertex_2: cs[1],
            vertex_3: cs[2],
            v1_normal: crate::scene::origin(),
            v2_normal: crate::scene::origin(),
            v3_normal: crate::scene::origin(),
            flat_shaded: true,
        }
    }
}

impl Triangle {
    /// A triangle with a fresh identifier from 3 coordinates (vertices) or 6
    /// (each vertex followed by its normal).
    pub fn from_coords(surface: Surface, coords: &Vec<Coords>) -> (r: Triangle)
        requires
            coords@.len() == 3 || coords@.len() == 6,
        ensures
            r@ == triangle_of_coords(r.uuid, surface@, coords@),
            r.surface@ == surface@,
            coords@.len() == 6 ==> r.vertex_1 == coords@[0] && r.v1_normal == coords@[1]
                && r.vertex_2 == coords@[2] && r.v2_normal == coords@[3] && r.vertex_3 == coords@[4]
                && r.v3_normal == coords@[5] && !r.flat_shaded,
            coords@.len() == 3 ==> r.vertex_1 == coords@[0] && r.vertex_2 == coords@[1]
                && r.vertex_3 == coords@[2] && r.v1_normal == crate::scene::origin() && r.v2_normal
                == crate::scene::origin() && r.v3_normal == crate::scene::origin() && r.flat_shaded,
    {
        let uuid = new_uuid();
        if coords.len() == 6 {
            Triangle {
                uuid,
                surface,
                vertex_1: coords[0],
                vertex_2: coords[2],
                vertex_3: coords[4],
                v1_normal: coords[1],
                v2_normal: coords[3],
                v3_normal: coords[5],
                flat_shaded: false,
            }
        } else {
            Triangle {
                uuid,
                surface,
                vertex_1: coords[0],
                vertex_2: coords[1],
                vertex_3: coords[2],
                v1_normal: Coords::new(),
                v2_normal: Coords::new(),
                v3_normal: Coords::new(),
                flat_shaded: true,
            }
        }
    }
}

/// A model as a value: its scalar fields, its lights, the map of each kind of
/// primitive, and the index of every primitive's kind.
pub struct ModelView {
    pub background: Color,
    pub eyep: Coords,
    pub lookp: Coords,
    pub up: Coords,
    pub fov: Fov,
    pub screen: Screen,
    pub light_sources: Seq<Light>,
    pub surfaces: Seq<(Seq<char>, SurfaceView)>,
    pub spheres: Map<u128, SphereView>,
    pub cones: Map<u128, ConeView>,
    pub polygons: Map<u128, PolygonView>,
    pub triangles: Map<u128, TriangleView>,
    pub kinds: Map<u128, PrimitiveKind>,
}

impl ModelView {
    /// Every identifier in the index names a primitive of its kind, and every
    /// primitive is kept under its own identifier.
    pub open spec fn wf(self) -> bool {
        &&& forall|id: u128|
            #![trigger self.kinds[id]]
            self.kinds.contains_key(id) ==> match self.kinds[id] {
                PrimitiveKind::Sphere => self.spheres.contains_key(id),
                PrimitiveKind::Cone => self.cones.contains_key(id),
                PrimitiveKind::Polygon => self.polygons.contains_key(id),
                PrimitiveKind::Triangle => self.triangles.contains_key(id),
            }
        &&& forall|id: u128| #[trigger] self.spheres.contains_key(id) ==> self.spheres[id].uuid == id
        &&& forall|id: u128| #[trigger] self.cones.contains_key(id) ==> self.cones[id].uuid == id
        &&& forall|id: u128| #[trigger] self.polygons.contains_key(id) ==> self.polygons[id].uuid == id
        &&& forall|id: u128| #[trigger] self.triangles.contains_key(id) ==> self.triangles[id].uuid == id
    }

    pub open spec fn upsert_sphere(self, s: SphereView) -> ModelView {
        ModelView {
            spheres: self.spheres.insert(s.uuid, s),
            kinds: self.kinds.insert(s.uuid, PrimitiveKind::Sphere),
            ..self
        }
    }

    pub open spec fn delete_sphere(self, id: u128) -> ModelView {
        ModelView { spheres: self.spheres.remove(id), kinds: self.kinds.remove(id), ..self }
    }

    pub open spec fn upsert_cone(self, c: ConeView) -> ModelView {
        ModelView {
            cones: self.cones.insert(c.uuid, c),
            kinds: self.kinds.insert(c.uuid, PrimitiveKind::Cone),
            ..self
        }
    }

    pub open spec fn delete_cone(self, id: u128) -> ModelView {
        ModelView { cones: self.cones.remove(id), kinds: self.kinds.remove(id), ..self }
    }

    pub open spec fn upsert_polygon(self, p: PolygonView) -> ModelView {
        ModelView {
            polygons: self.polygons.insert(p.uuid, p),
            kinds: self.kinds.insert(p.uuid, PrimitiveKind::Polygon),
            ..self
        }
    }

    pub open spec fn delete_polygon(self, id: u128) -> ModelView {
        ModelView { polygons: self.polygons.remove(id), kinds: self.kinds.remove(id), ..self }
    }

    pub open spec fn upsert_triangle(self, t: TriangleView) -> ModelView {
        ModelView {
            triangles: self.triangles.insert(t.uuid, t),
            kinds: self.kinds.insert(t.uuid, PrimitiveKind::Triangle),
            ..self
        }
    }

    pub open spec fn delete_triangle(self, id: u128) -> ModelView {
        ModelView { triangles: self.triangles.remove(id), kinds: self.kinds.remove(id), ..self }
    }
}

/// What a lookup in a map of primitives gives back, by view.
pub open spec fn found<V, W>(r: Option<V>, m: Map<u128, W>, id: u128, view: spec_fn(V) -> W) -> bool {
    match r {
        Some(v) => m.contains_key(id) && view(v) == m[id],
        None => !m.contains_key(id),
    }
}

/// A scene ready to render: camera, screen, lights and surfaces, and the
/// primitives, each in the map of its kind under its identifier; the index
/// `all_primitives` gives the kind of every primitive that is rendered.
#[derive(Clone, Debug)]
pub struct Model {
    pub background: Color,
    pub eyep: Coords,
    pub lookp: Coords,
    pub up: Coords,
    pub fov: Fov,
    pub screen: Screen,
    pub light_sources: Vec<Light>,
    pub surfaces: Vec<(String, Surface)>,
    spheres: HashMap<u128, Sphere>,
    cones: HashMap<u128, Cone>,
    polygons: HashMap<u128, Polygon>,
    triangles: HashMap<u128, Triangle>,
    all_primitives: HashMap<u128, PrimitiveKind>,
}

impl View for Model {
    type V = ModelView;

    closed spec fn view(&self) -> ModelView {
        ModelView {
            background: self.background,
            eyep: self.eyep,
            lookp: self.lookp,
            up: self.up,
            fov: self.fov,
            screen: self.screen,
            light_sources: self.light_sources@,
            surfaces: self.surfaces@.map_values(|e: (String, Surface)| (e.0@, e.1@)),
            spheres: self.spheres@.map_values(|s: Sphere| s@),
            cones: self.cones@.map_values(|c: Cone| c@),
            polygons: self.polygons@.map_values(|p: Polygon| p@),
            triangles: self.triangles@.map_values(|t: Triangle| t@),
            kinds: self.all_primitives@,
        }
    }
}


proof fn lemma_insert_view<V, W>(m: Map<u128, V>, k: u128, v: V, f: spec_fn(V) -> W)
    ensures
        m.insert(k, v).map_values(f) == m.map_values(f).insert(k, f(v)),
{
    assert(m.insert(k, v).map_values(f) =~= m.map_values(f).insert(k, f(v)));
}

proof fn lemma_remove_view<V, W>(m: Map<u128, V>, k: u128, f: spec_fn(V) -> W)
    ensures
        m.remove(k).map_values(f) == m.map_values(f).remove(k),
{
    assert(m.remove(k).map_values(f) =~= m.map_values(f).remove(k));
}

impl Model {
    /// A model with nothing in it: transparent black background, camera at the
    /// origin, a field of view of 45 by 45 degrees and a screen of 500 by 500 pixels.
    pub fn new() -> (m: Model)
        ensures
            m@.wf(),
            m@.background == crate::scene::transparent_black(),
            m@.eyep == crate::scene::origin(),
            m@.lookp == crate::scene::origin(),
            m@.up == crate::scene::origin(),
            m@.fov == (Fov { horz: FloatBits(0x4046_8000_0000_0000), vert: FloatBits(0x4046_8000_0000_0000) }),
            m@.screen == (Screen { width: 500, height: 500 }),
            m@.light_sources.len() == 0,
            m@.surfaces.len() == 0,
            m@.spheres.is_empty(),
            m@.cones.is_empty(),
            m@.polygons.is_empty(),
            m@.triangles.is_empty(),
            m@.kinds.is_empty(),
    {
        let m = Model {
            background: Color::new(),
            eyep: Coords::new(),
            lookp: Coords::new(),
            up: Coords::new(),
            fov: Fov { horz: FloatBits(0x4046_8000_0000_0000), vert: FloatBits(0x4046_8000_0000_0000) },
            screen: Screen::default_screen(),
            light_sources: Vec::new(),
            surfaces: Vec::new(),
            spheres: HashMap::new(),
            cones: HashMap::new(),
            polygons: HashMap::new(),
            triangles: HashMap::new(),
            all_primitives: HashMap::new(),
        };
        assert(m@.spheres =~= Map::<u128, SphereView>::empty());
        assert(m@.cones =~= Map::<u128, ConeView>::empty());
        assert(m@.polygons =~= Map::<u128, PolygonView>::empty());
        assert(m@.triangles =~= Map::<u128, TriangleView>::empty());
        m
    }

    /// The spheres, by identifier.
    pub fn get_all_spheres(&self) -> (r: &HashMap<u128, Sphere>)
        ensures
            r@.map_values(|s: Sphere| s@) == self@.spheres,
    {
        &self.spheres
    }

    /// The cones, by identifier.
    pub fn get_all_cones(&self) -> (r: &HashMap<u128, Cone>)
        ensures
            r@.map_values(|c: Cone| c@) == self@.cones,
    {
        &self.cones
    }

    /// The polygons, by identifier.
    pub fn get_all_polygons(&self) -> (r: &HashMap<u128, Polygon>)
        ensures
            r@.map_values(|p: Polygon| p@) == self@.polygons,
    {
        &self.polygons
    }

    /// The triangles, by identifier.
    pub fn get_all_triangles(&self) -> (r: &HashMap<u128, Triangle>)
        ensures
            r@.map_values(|t: Triangle| t@) == self@.triangles,
    {
        &self.triangles
    }

    /// The surface definitions, by name, in the order first defined.
    pub fn get_all_surfaces(&self) -> (r: &Vec<(String, Surface)>)
        ensures
            r@.map_values(|e: (String, Surface)| (e.0@, e.1@)) == self@.surfaces,
    {
        &self.surfaces
    }

    /// The kind of every primitive, by identifier.
    pub fn get_all_primitives(&self) -> (r: &HashMap<u128, PrimitiveKind>)
        ensures
            r@ == self@.kinds,
    {
        &self.all_primitives
    }

    /// Inserts `sphere` under its identifier, replacing any primitive the index
    /// had there; gives back the sphere that it replaces, if any.
    pub fn upsert_sphere(&mut self, sphere: Sphere) -> (r: Option<Sphere>)
        requires
            old(self)@.wf(),
        ensures
            final(self)@ == old(self)@.upsert_sphere(sphere@),
            final(self)@.wf(),
            found(r, old(self)@.spheres, sphere.uuid, |s: Sphere| s@),
    {
        let ghost sv = sphere@;
        let ghost before = self.spheres@;
        let uuid = sphere.uuid;
        self.all_primitives.insert(uuid, PrimitiveKind::Sphere);
        let r = self.spheres.insert(uuid, sphere);
        proof {
            lemma_insert_view(before, uuid, self.spheres@[uuid], |s: Sphere| s@);
            assert(self@ =~= old(self)@.upsert_sphere(sv));
        }
        r
    }

    /// Removes the sphere with identifier `uuid` and that identifier's entry
    /// in the index; gives back the sphere, if there was one.
    pub fn delete_sphere(&mut self, uuid: u128) -> (r: Option<Sphere>)
        requires
            old(self)@.wf(),
        ensures
            final(self)@ == old(self)@.delete_sphere(uuid),
            final(self)@.wf(),
            found(r, old(self)@.spheres, uuid, |s: Sphere| s@),
    {
        let ghost before = self.spheres@;
        self.all_primitives.remove(&uuid);
        let r = self.spheres.remove(&uuid);
        proof {
            lemma_remove_view(before, uuid, |s: Sphere| s@);
            assert(self@ =~= old(self)@.delete_sphere(uuid));
        }
        r
    }

    /// Inserts `cone` under its identifier, replacing any primitive the index
    /// had there; gives back the cone that it replaces, if any.
    pub fn upsert_cone(&mut self, cone: Cone) -> (r: Option<Cone>)
        requires
            old(self)@.wf(),
        ensures
            final(self)@ == old(self)@.upsert_cone(cone@),
            final(self)@.wf(),
            found(r, old(self)@.cones, cone.uuid, |c: Cone| c@),
    {
        let ghost cv = cone@;
        let ghost before = self.cones@;
        let uuid = cone.uuid;
        self.all_primitives.insert(uuid, PrimitiveKind::Cone);
        let r = self.cones.insert(uuid, cone);
        proof {
            lemma_insert_view(before, uuid, self.cones@[uuid], |c: Cone| c@);
            assert(self@ =~= old(self)@.upsert_cone(cv));
        }
        r
    }

    /// Removes the cone with identifier `uuid` and that identifier's entry in
    /// the index; gives back the cone, if there was one.
    pub fn delete_cone(&mut self, uuid: u128) -> (r: Option<Cone>)
        requires
            old(self)@.wf(),
        ensures
            final(self)@ == old(self)@.delete_cone(uuid),
            final(self)@.wf(),
            found(r, old(self)@.cones, uuid, |c: Cone| c@),
    {
        let ghost before = self.cones@;
        self.all_primitives.remove(&uuid);
        let r = self.cones.remove(&uuid);
        proof {
            lemma_remove_view(before, uuid, |c: Cone| c@);
            assert(self@ =~= old(self)@.delete_cone(uuid));
        }
        r
    }

    /// Inserts `polygon` under its identifier, replacing any primitive the
    /// index had there; gives back the polygon that it replaces, if any.
    pub fn upsert_polygon(&mut self, polygon: Polygon) -> (r: Option<Polygon>)
        requires
            old(self)@.wf(),
        ensures
            final(self)@ == old(self)@.upsert_polygon(polygon@),
            final(self)@.wf(),
            found(r, old(self)@.polygons, polygon.uuid, |p: Polygon| p@),
    {
        let ghost pv = polygon@;
        let ghost before = self.polygons@;
        let uuid = polygon.uuid;
        self.all_primitives.insert(uuid, PrimitiveKind::Polygon);
        let r = self.polygons.insert(uuid, polygon);
        proof {
            lemma_insert_view(before, uuid, self.polygons@[uuid], |p: Polygon| p@);
            assert(self@ =~= old(self)@.upsert_polygon(pv));
        }
        r
    }

    /// Removes the polygon with identifier `uuid` and that identifier's entry
    /// in the index; gives back the polygon, if there was one.
    pub fn delete_polygon(&mut self, uuid: u128) -> (r: Option<Polygon>)
        requires
            old(self)@.wf(),
        ensures
            final(self)@ == old(self)@.delete_polygon(uuid),
            final(self)@.wf(),
            found(r, old(self)@.polygons, uuid, |p: Polygon| p@),
    {
        let ghost before = self.polygons@;
        self.all_primitives.remove(&uuid);
        let r = self.polygons.remove(&uuid);
        proof {
            lemma_remove_view(before, uuid, |p: Polygon| p@);
            assert(self@ =~= old(self)@.delete_polygon(uuid));
        }
        r
    }

    /// Inserts `triangle` under its identifier, replacing any primitive the
    /// index had there; gives back the triangle that it replaces, if any.
    pub fn upsert_triangle(&mut self, triangle: Triangle) -> (r: Option<Triangle>)
        requires
            old(self)@.wf(),
        ensures
            final(self)@ == old(self)@.upsert_triangle(triangle@),
            final(self)@.wf(),
            found(r, old(self)@.triangles, triangle.uuid, |t: Triangle| t@),
    {
        let ghost tv = triangle@;
        let ghost before = self.triangles@;
        let uuid = triangle.uuid;
        self.all_primitives.insert(uuid, PrimitiveKind::Triangle);
        let r = self.triangles.insert(uuid, triangle);
        proof {
            lemma_insert_view(before, uuid, self.triangles@[uuid], |t: Triangle| t@);
            assert(self@ =~= old(self)@.upsert_triangle(tv));
        }
        r
    }

    /// Removes the triangle with identifier `uuid` and that identifier's entry
    /// in the index; gives back the triangle, if there was one.
    pub fn delete_triangle(&mut self, uuid: u128) -> (r: Option<Triangle>)
        requires
            old(self)@.wf(),
        ensures
            final(self)@ == old(self)@.delete_triangle(uuid),
            final(self)@.wf(),
            found(r, old(self)@.triangles, uuid, |t: Triangle| t@),
    {
        let ghost before = self.triangles@;
        self.all_primitives.remove(&uuid);
        let r = self.triangles.remove(&uuid);
        proof {
            lemma_remove_view(before, uuid, |t: Triangle| t@);
            assert(self@ =~= old(self)@.delete_triangle(uuid));
        }
        r
    }
}


// ----------------------------------------------------------------------------
// A model from a scene description.
// ----------------------------------------------------------------------------

/// A scene whose primitives can go into a model as they are: no cylinder
/// (a cylinder becomes a cone once its apex is computed), and every triangle
/// defined by 3 or 6 coordinates.
pub open spec fn model_ready(ds: Seq<PrimitiveDeclView>) -> bool {
    forall|i: int|
        0 <= i < ds.len() ==> !(#[trigger] ds[i] is Cylinder) && (ds[i] matches PrimitiveDeclView::Triangle {
            coords,
            ..
        } ==> coords.len() == 3 || coords.len() == 6)
}

/// The model after the primitive that `d` declares is inserted under `id`.
pub open spec fn add_decl(m: ModelView, d: PrimitiveDeclView, id: u128) -> ModelView {
    match d {
        PrimitiveDeclView::Sphere { surface, radius, position, .. } => m.upsert_sphere(
            SphereView { uuid: id, surface, radius, position },
        ),
        PrimitiveDeclView::Cone { surface, base_radius, base, apex_radius, apex, .. } => m.upsert_cone(
            ConeView { uuid: id, surface, base_radius, base, apex_radius, apex },
        ),
        PrimitiveDeclView::Cylinder { .. } => m,
        PrimitiveDeclView::Polygon { surface, vertices, .. } => m.upsert_polygon(
            PolygonView { uuid: id, surface, vertices },
        ),
        PrimitiveDeclView::Triangle { surface, coords, .. } => m.upsert_triangle(
            triangle_of_coords(id, surface, coords),
        ),
    }
}

/// The model after the primitives `ds` are inserted in order, the one at
/// index `i` under `ids[i]`.
pub open spec fn add_decls(m: ModelView, ds: Seq<PrimitiveDeclView>, ids: Seq<u128>) -> ModelView
    decreases ds.len(),
{
    if ds.len() == 0 {
        m
    } else {
        add_decl(add_decls(m, ds.drop_last(), ids), ds.last(), ids[ds.len() - 1])
    }
}

/// The model of a scene whose primitives get the identifiers `ids`.
pub open spec fn scene_model(sc: SceneView, ids: Seq<u128>) -> ModelView {
    add_decls(
        ModelView {
            background: sc.background,
            eyep: sc.eyep,
            lookp: sc.lookp,
            up: sc.up,
            fov: sc.fov,
            screen: sc.screen,
            light_sources: sc.light_sources,
            surfaces: sc.surfaces,
            spheres: Map::empty(),
            cones: Map::empty(),
            polygons: Map::empty(),
            triangles: Map::empty(),
            kinds: Map::empty(),
        },
        sc.primitives,
        ids,
    )
}

fn copy_coords(v: &Vec<Coords>) -> (r: Vec<Coords>)
    ensures
        r@ == v@,
{
    let mut r: Vec<Coords> = Vec::new();
    let mut i: usize = 0;
    while i < v.len()
        invariant
            i <= v@.len(),
            r@ == v@.take(i as int),
        decreases v@.len() - i,
    {
        r.push(v[i]);
        i = i + 1;
        assert(r@ =~= v@.take(i as int));
    }
    assert(v@.take(i as int) =~= v@);
    r
}

proof fn lemma_add_decls_step(m: ModelView, ds: Seq<PrimitiveDeclView>, ids: Seq<u128>, i: int)
    requires
        0 <= i < ds.len(),
    ensures
        add_decls(m, ds.take(i + 1), ids) == add_decl(add_decls(m, ds.take(i), ids), ds[i], ids[i]),
{
    assert(ds.take(i + 1).drop_last() =~= ds.take(i));
}

proof fn lemma_add_decls_ids(m: ModelView, ds: Seq<PrimitiveDeclView>, ids: Seq<u128>, ids2: Seq<u128>)
    requires
        ids.len() >= ds.len(),
        ids2.len() >= ds.len(),
        forall|k: int| 0 <= k < ds.len() ==> ids[k] == ids2[k],
    ensures
        add_decls(m, ds, ids) == add_decls(m, ds, ids2),
    decreases ds.len(),
{
    if ds.len() > 0 {
        lemma_add_decls_ids(m, ds.drop_last(), ids, ids2);
    }
}

impl Model {
    /// The model of a scene description: its camera, screen and lights, and
    /// each declared primitive under a fresh identifier, in the order declared.
    pub fn from_scene(scene: SceneDescription) -> (m: Model)
        requires
            model_ready(scene@.primitives),
        ensures
            m@.wf(),
            exists|ids: Seq<u128>|
                ids.len() == scene@.primitives.len() && m@ == scene_model(scene@, ids) && (
                ids.no_duplicates() ==> forall|i: int|
                    0 <= i < ids.len() ==> #[trigger] decl_stored(m@, scene@.primitives[i], ids[i])),
    {
        let ghost sc = scene@;
        let SceneDescription {
            background,
            eyep,
            lookp,
            up,
            fov,
            screen,
            light_sources,
            surfaces,
            primitives,
        } = scene;
        let mut m = Model {
            background,
            eyep,
            lookp,
            up,
            fov,
            screen,
            light_sources,
            surfaces,
            spheres: HashMap::new(),
            cones: HashMap::new(),
            polygons: HashMap::new(),
            triangles: HashMap::new(),
            all_primitives: HashMap::new(),
        };
        let ghost m0 = m@;
        let ghost ds = sc.primitives;
        proof {
            assert(m@.spheres =~= Map::<u128, SphereView>::empty());
            assert(m@.cones =~= Map::<u128, ConeView>::empty());
            assert(m@.polygons =~= Map::<u128, PolygonView>::empty());
            assert(m@.triangles =~= Map::<u128, TriangleView>::empty());
            assert(ds.take(0) =~= Seq::<PrimitiveDeclView>::empty());
            assert(primitives@.map_values(|p: PrimitiveDecl| p@) == ds);
        }
        let ghost mut ids: Seq<u128> = Seq::empty();
        let mut i: usize = 0;
        while i < primitives.len()
            invariant
                i <= primitives@.len(),
                ds == primitives@.map_values(|p: PrimitiveDecl| p@),
                model_ready(ds),
                ids.len() == i,
                m@.wf(),
                m@ == add_decls(m0, ds.take(i as int), ids),
                m0 == (ModelView {
                    background: sc.background,
                    eyep: sc.eyep,
                    lookp: sc.lookp,
                    up: sc.up,
                    fov: sc.fov,
                    screen: sc.screen,
                    light_sources: sc.light_sources,
            surfaces: sc.surfaces,
                    spheres: Map::empty(),
                    cones: Map::empty(),
                    polygons: Map::empty(),
                    triangles: Map::empty(),
                    kinds: Map::empty(),
                }),
            decreases primitives@.len() - i,
        {
            assert(ds[i as int] == primitives@[i as int]@);
            let ghost before = m@;
            let id: u128;
            match &primitives[i] {
                PrimitiveDecl::Sphere { surface, radius, position, .. } => {
                    let s = Sphere::new(surface.clone_surface(), *radius, *position);
                    id = s.uuid;
                    m.upsert_sphere(s);
                },
                PrimitiveDecl::Cone { surface, base_radius, base, apex_radius, apex, .. } => {
                    let c = Cone::new(surface.clone_surface(), *base_radius, *base, *apex_radius, *apex);
                    id = c.uuid;
                    m.upsert_cone(c);
                },
                PrimitiveDecl::Cylinder { .. } => {
                    assert(false);
                    id = 0;
                },
                PrimitiveDecl::Polygon { surface, vertices, .. } => {
                    let p = Polygon::new(surface.clone_surface(), copy_coords(vertices));
                    id = p.uuid;
                    m.upsert_polygon(p);
                },
                PrimitiveDecl::Triangle { surface, coords, .. } => {
                    let t = Triangle::from_coords(surface.clone_surface(), coords);
                    id = t.uuid;
                    m.upsert_triangle(t);
                },
            }
            proof {
                let ids2 = ids.push(id);
                lemma_add_decls_ids(m0, ds.take(i as int), ids, ids2);
                lemma_add_decls_step(m0, ds, ids2, i as int);
                assert(m@ == add_decl(before, ds[i as int], id));
                ids = ids2;
            }
            i = i + 1;
        }
        assert(ds.take(i as int) =~= ds);
        assert(m@ == scene_model(sc, ids));
        assert(ids.len() == sc.primitives.len());
        proof {
            if ids.no_duplicates() {
                assert forall|k: int| 0 <= k < ids.len() implies #[trigger] decl_stored(
                    m@,
                    sc.primitives[k],
                    ids[k],
                ) by {
                    lemma_scene_model_holds_each_decl(sc, ids, k);
                }
            }
        }
        m
    }
}

// ----------------------------------------------------------------------------
// Laws of the model.
// ----------------------------------------------------------------------------

/// After a primitive is upserted, reading its identifier gives that primitive,
/// the index lists it under its kind, and every other identifier reads as before.
pub proof fn lemma_upsert_then_read(
    m: ModelView,
    s: SphereView,
    c: ConeView,
    p: PolygonView,
    t: TriangleView,
    id: u128,
)
    ensures
        m.upsert_sphere(s).spheres[s.uuid] == s,
        m.upsert_sphere(s).kinds[s.uuid] == PrimitiveKind::Sphere,
        m.upsert_cone(c).cones[c.uuid] == c,
        m.upsert_cone(c).kinds[c.uuid] == PrimitiveKind::Cone,
        m.upsert_polygon(p).polygons[p.uuid] == p,
        m.upsert_polygon(p).kinds[p.uuid] == PrimitiveKind::Polygon,
        m.upsert_triangle(t).triangles[t.uuid] == t,
        m.upsert_triangle(t).kinds[t.uuid] == PrimitiveKind::Triangle,
        id != s.uuid ==> m.upsert_sphere(s).spheres.remove(s.uuid) == m.spheres.remove(s.uuid)
            && m.upsert_sphere(s).kinds.contains_key(id) == m.kinds.contains_key(id)
            && m.upsert_sphere(s).kinds[id] == m.kinds[id],
        id != c.uuid ==> m.upsert_cone(c).cones.remove(c.uuid) == m.cones.remove(c.uuid)
            && m.upsert_cone(c).kinds.contains_key(id) == m.kinds.contains_key(id)
            && m.upsert_cone(c).kinds[id] == m.kinds[id],
        id != p.uuid ==> m.upsert_polygon(p).polygons.remove(p.uuid) == m.polygons.remove(p.uuid)
            && m.upsert_polygon(p).kinds.contains_key(id) == m.kinds.contains_key(id)
            && m.upsert_polygon(p).kinds[id] == m.kinds[id],
        id != t.uuid ==> m.upsert_triangle(t).triangles.remove(t.uuid) == m.triangles.remove(
            t.uuid,
        ) && m.upsert_triangle(t).kinds.contains_key(id) == m.kinds.contains_key(id)
            && m.upsert_triangle(t).kinds[id] == m.kinds[id],
{
    assert(m.upsert_sphere(s).spheres.remove(s.uuid) =~= m.spheres.remove(s.uuid));
    assert(m.upsert_cone(c).cones.remove(c.uuid) =~= m.cones.remove(c.uuid));
    assert(m.upsert_polygon(p).polygons.remove(p.uuid) =~= m.polygons.remove(p.uuid));
    assert(m.upsert_triangle(t).triangles.remove(t.uuid) =~= m.triangles.remove(t.uuid));
}

/// Deleting a sphere that was just upserted under a fresh identifier gives
/// back the model as it was.
pub proof fn lemma_delete_undoes_upsert_sphere(m: ModelView, s: SphereView)
    requires
        !m.spheres.contains_key(s.uuid),
        !m.kinds.contains_key(s.uuid),
    ensures
        m.upsert_sphere(s).delete_sphere(s.uuid) == m,
{
    assert(m.upsert_sphere(s).delete_sphere(s.uuid).spheres =~= m.spheres);
    assert(m.upsert_sphere(s).delete_sphere(s.uuid).kinds =~= m.kinds);
}

/// Deleting a cone that was just upserted under a fresh identifier gives back
/// the model as it was.
pub proof fn lemma_delete_undoes_upsert_cone(m: ModelView, c: ConeView)
    requires
        !m.cones.contains_key(c.uuid),
        !m.kinds.contains_key(c.uuid),
    ensures
        m.upsert_cone(c).delete_cone(c.uuid) == m,
{
    assert(m.upsert_cone(c).delete_cone(c.uuid).cones =~= m.cones);
    assert(m.upsert_cone(c).delete_cone(c.uuid).kinds =~= m.kinds);
}

/// Deleting a polygon that was just upserted under a fresh identifier gives
/// back the model as it was.
pub proof fn lemma_delete_undoes_upsert_polygon(m: ModelView, p: PolygonView)
    requires
        !m.polygons.contains_key(p.uuid),
        !m.kinds.contains_key(p.uuid),
    ensures
        m.upsert_polygon(p).delete_polygon(p.uuid) == m,
{
    assert(m.upsert_polygon(p).delete_polygon(p.uuid).polygons =~= m.polygons);
    assert(m.upsert_polygon(p).delete_polygon(p.uuid).kinds =~= m.kinds);
}

/// Deleting a triangle that was just upserted under a fresh identifier gives
/// back the model as it was.
pub proof fn lemma_delete_undoes_upsert_triangle(m: ModelView, t: TriangleView)
    requires
        !m.triangles.contains_key(t.uuid),
        !m.kinds.contains_key(t.uuid),
    ensures
        m.upsert_triangle(t).delete_triangle(t.uuid) == m,
{
    assert(m.upsert_triangle(t).delete_triangle(t.uuid).triangles =~= m.triangles);
    assert(m.upsert_triangle(t).delete_triangle(t.uuid).kinds =~= m.kinds);
}

/// Upserting the same primitive twice is the same as upserting it once.
pub proof fn lemma_upsert_idempotent(
    m: ModelView,
    s: SphereView,
    c: ConeView,
    p: PolygonView,
    t: TriangleView,
)
    ensures
        m.upsert_sphere(s).upsert_sphere(s) == m.upsert_sphere(s),
        m.upsert_cone(c).upsert_cone(c) == m.upsert_cone(c),
        m.upsert_polygon(p).upsert_polygon(p) == m.upsert_polygon(p),
        m.upsert_triangle(t).upsert_triangle(t) == m.upsert_triangle(t),
{
    assert(m.upsert_sphere(s).upsert_sphere(s).spheres =~= m.upsert_sphere(s).spheres);
    assert(m.upsert_sphere(s).upsert_sphere(s).kinds =~= m.upsert_sphere(s).kinds);
    assert(m.upsert_cone(c).upsert_cone(c).cones =~= m.upsert_cone(c).cones);
    assert(m.upsert_cone(c).upsert_cone(c).kinds =~= m.upsert_cone(c).kinds);
    assert(m.upsert_polygon(p).upsert_polygon(p).polygons =~= m.upsert_polygon(p).polygons);
    assert(m.upsert_polygon(p).upsert_polygon(p).kinds =~= m.upsert_polygon(p).kinds);
    assert(m.upsert_triangle(t).upsert_triangle(t).triangles =~= m.upsert_triangle(t).triangles);
    assert(m.upsert_triangle(t).upsert_triangle(t).kinds =~= m.upsert_triangle(t).kinds);
}

/// Deleting an identifier that no map and not the index holds changes nothing.
pub proof fn lemma_delete_absent(m: ModelView, id: u128)
    requires
        !m.spheres.contains_key(id),
        !m.cones.contains_key(id),
        !m.polygons.contains_key(id),
        !m.triangles.contains_key(id),
        !m.kinds.contains_key(id),
    ensures
        m.delete_sphere(id) == m,
        m.delete_cone(id) == m,
        m.delete_polygon(id) == m,
        m.delete_triangle(id) == m,
{
    assert(m.spheres.remove(id) =~= m.spheres);
    assert(m.cones.remove(id) =~= m.cones);
    assert(m.polygons.remove(id) =~= m.polygons);
    assert(m.triangles.remove(id) =~= m.triangles);
    assert(m.kinds.remove(id) =~= m.kinds);
}

/// Each upsert and each delete keeps a model well formed: every identifier in
/// the index names a primitive of its kind.
pub proof fn lemma_operations_keep_wf(
    m: ModelView,
    s: SphereView,
    c: ConeView,
    p: PolygonView,
    t: TriangleView,
    id: u128,
)
    requires
        m.wf(),
    ensures
        m.upsert_sphere(s).wf(),
        m.upsert_cone(c).wf(),
        m.upsert_polygon(p).wf(),
        m.upsert_triangle(t).wf(),
        m.delete_sphere(id).wf(),
        m.delete_cone(id).wf(),
        m.delete_polygon(id).wf(),
        m.delete_triangle(id).wf(),
{
}


/// The kind of primitive that a declaration puts into a model.
pub open spec fn decl_kind(d: PrimitiveDeclView) -> PrimitiveKind {
    match d {
        PrimitiveDeclView::Sphere { .. } => PrimitiveKind::Sphere,
        PrimitiveDeclView::Cone { .. } => PrimitiveKind::Cone,
        PrimitiveDeclView::Cylinder { .. } => PrimitiveKind::Cone,
        PrimitiveDeclView::Polygon { .. } => PrimitiveKind::Polygon,
        PrimitiveDeclView::Triangle { .. } => PrimitiveKind::Triangle,
    }
}

/// The model `m` holds, under `id`, the primitive that `d` declares, with
/// the declared fields: a triangle of 6 coordinates has its vertices at
/// coordinates 0, 2 and 4 and their normals at 1, 3 and 5; a triangle of 3
/// coordinates has them as its vertices, zero normals and flat shading.
pub open spec fn decl_stored(m: ModelView, d: PrimitiveDeclView, id: u128) -> bool {
    match d {
        PrimitiveDeclView::Sphere { surface, radius, position, .. } => {
            &&& m.spheres.contains_key(id)
            &&& m.spheres[id].uuid == id
            &&& m.spheres[id].surface == surface
            &&& m.spheres[id].radius == radius
            &&& m.spheres[id].position == position
        },
        PrimitiveDeclView::Cone { surface, base_radius, base, apex_radius, apex, .. } => {
            &&& m.cones.contains_key(id)
            &&& m.cones[id].uuid == id
            &&& m.cones[id].surface == surface
            &&& m.cones[id].base_radius == base_radius
            &&& m.cones[id].base == base
            &&& m.cones[id].apex_radius == apex_radius
            &&& m.cones[id].apex == apex
        },
        PrimitiveDeclView::Cylinder { .. } => true,
        PrimitiveDeclView::Polygon { surface, vertices, .. } => {
            &&& m.polygons.contains_key(id)
            &&& m.polygons[id].uuid == id
            &&& m.polygons[id].surface == surface
            &&& m.polygons[id].vertices == vertices
        },
        PrimitiveDeclView::Triangle { surface, coords, .. } => {
            &&& m.triangles.contains_key(id)
            &&& m.triangles[id].uuid == id
            &&& m.triangles[id].surface == surface
            &&& coords.len() == 6 ==> {
                &&& m.triangles[id].vertex_1 == coords[0]
                &&& m.triangles[id].v1_normal == coords[1]
                &&& m.triangles[id].vertex_2 == coords[2]
                &&& m.triangles[id].v2_normal == coords[3]
                &&& m.triangles[id].vertex_3 == coords[4]
                &&& m.triangles[id].v3_normal == coords[5]
                &&& !m.triangles[id].flat_shaded
            }
            &&& coords.len() == 3 ==> {
                &&& m.triangles[id].vertex_1 == coords[0]
                &&& m.triangles[id].vertex_2 == coords[1]
                &&& m.triangles[id].vertex_3 == coords[2]
                &&& m.triangles[id].v1_normal == crate::scene::origin()
                &&& m.triangles[id].v2_normal == crate::scene::origin()
                &&& m.triangles[id].v3_normal == crate::scene::origin()
                &&& m.triangles[id].flat_shaded
            }
        },
    }
}

/// A triangle of 6 coordinates has its vertices at coordinates 0, 2 and 4 and
/// the normals at 1, 3 and 5; one of 3 coordinates has them as its vertices,
/// zero normals, and is flat shaded.
pub proof fn lemma_triangle_coordinate_layout(id: u128, surface: SurfaceView, cs: Seq<Coords>)
    ensures
        triangle_of_coords(id, surface, cs).uuid == id,
        triangle_of_coords(id, surface, cs).surface == surface,
        cs.len() == 6 ==> triangle_of_coords(id, surface, cs).vertex_1 == cs[0]
            && triangle_of_coords(id, surface, cs).v1_normal == cs[1] && triangle_of_coords(
            id,
            surface,
            cs,
        ).vertex_2 == cs[2] && triangle_of_coords(id, surface, cs).v2_normal == cs[3]
            && triangle_of_coords(id, surface, cs).vertex_3 == cs[4] && triangle_of_coords(
            id,
            surface,
            cs,
        ).v3_normal == cs[5] && !triangle_of_coords(id, surface, cs).flat_shaded,
        cs.len() == 3 ==> triangle_of_coords(id, surface, cs).vertex_1 == cs[0]
            && triangle_of_coords(id, surface, cs).vertex_2 == cs[1] && triangle_of_coords(
            id,
            surface,
            cs,
        ).vertex_3 == cs[2] && triangle_of_coords(id, surface, cs).v1_normal
            == crate::scene::origin() && triangle_of_coords(id, surface, cs).v2_normal
            == crate::scene::origin() && triangle_of_coords(id, surface, cs).v3_normal
            == crate::scene::origin() && triangle_of_coords(id, surface, cs).flat_shaded,
{
}

proof fn lemma_add_decls_holds(m: ModelView, ds: Seq<PrimitiveDeclView>, ids: Seq<u128>, i: int)
    requires
        model_ready(ds),
        ids.len() >= ds.len(),
        forall|a: int, b: int| 0 <= a < b < ds.len() ==> ids[a] != ids[b],
        0 <= i < ds.len(),
    ensures
        add_decls(m, ds, ids).kinds.contains_key(ids[i]),
        add_decls(m, ds, ids).kinds[ids[i]] == decl_kind(ds[i]),
        decl_stored(add_decls(m, ds, ids), ds[i], ids[i]),
    decreases ds.len(),
{
    let n = ds.len() - 1;
    assert(!(ds[n] is Cylinder));
    if i < n {
        let inner = ds.drop_last();
        assert forall|k: int| 0 <= k < inner.len() implies !(#[trigger] inner[k] is Cylinder) && (
        inner[k] matches PrimitiveDeclView::Triangle { coords, .. } ==> coords.len() == 3
            || coords.len() == 6) by {
            assert(inner[k] == ds[k]);
        }
        lemma_add_decls_holds(m, inner, ids, i);
        assert(ids[i] != ids[n]);
        assert(inner[i] == ds[i]);
    }
}

/// Every primitive that a scene declares is in its model, under its
/// identifier, of its kind and with the declared fields (see `decl_stored`),
/// when the identifiers are distinct.
pub proof fn lemma_scene_model_holds_each_decl(sc: SceneView, ids: Seq<u128>, i: int)
    requires
        model_ready(sc.primitives),
        ids.len() == sc.primitives.len(),
        ids.no_duplicates(),
        0 <= i < ids.len(),
    ensures
        scene_model(sc, ids).kinds.contains_key(ids[i]),
        scene_model(sc, ids).kinds[ids[i]] == decl_kind(sc.primitives[i]),
        decl_stored(scene_model(sc, ids), sc.primitives[i], ids[i]),
{
    lemma_add_decls_holds(
        ModelView {
            background: sc.background,
            eyep: sc.eyep,
            lookp: sc.lookp,
            up: sc.up,
            fov: sc.fov,
            screen: sc.screen,
            light_sources: sc.light_sources,
            surfaces: sc.surfaces,
            spheres: Map::empty(),
            cones: Map::empty(),
            polygons: Map::empty(),
            triangles: Map::empty(),
            kinds: Map::empty(),
        },
        sc.primitives,
        ids,
        i,
    );
}

proof fn lemma_add_decls_settings(m: ModelView, ds: Seq<PrimitiveDeclView>, ids: Seq<u128>)
    ensures
        add_decls(m, ds, ids).background == m.background,
        add_decls(m, ds, ids).eyep == m.eyep,
        add_decls(m, ds, ids).lookp == m.lookp,
        add_decls(m, ds, ids).up == m.up,
        add_decls(m, ds, ids).fov == m.fov,
        add_decls(m, ds, ids).screen == m.screen,
        add_decls(m, ds, ids).light_sources == m.light_sources,
        add_decls(m, ds, ids).surfaces == m.surfaces,
    decreases ds.len(),
{
    if ds.len() > 0 {
        lemma_add_decls_settings(m, ds.drop_last(), ids);
    }
}

/// The model of a scene has the scene's background, camera, field of view,
/// screen, lights and surfaces, whatever identifiers its primitives get.
pub proof fn lemma_scene_model_settings(sc: SceneView, ids: Seq<u128>)
    ensures
        scene_model(sc, ids).background == sc.background,
        scene_model(sc, ids).eyep == sc.eyep,
        scene_model(sc, ids).lookp == sc.lookp,
        scene_model(sc, ids).up == sc.up,
        scene_model(sc, ids).fov == sc.fov,
        scene_model(sc, ids).screen == sc.screen,
        scene_model(sc, ids).light_sources == sc.light_sources,
        scene_model(sc, ids).surfaces == sc.surfaces,
{
    lemma_add_decls_settings(
        ModelView {
            background: sc.background,
            eyep: sc.eyep,
            lookp: sc.lookp,
            up: sc.up,
            fov: sc.fov,
            screen: sc.screen,
            light_sources: sc.light_sources,
            surfaces: sc.surfaces,
            spheres: Map::empty(),
            cones: Map::empty(),
            polygons: Map::empty(),
            triangles: Map::empty(),
            kinds: Map::empty(),
        },
        sc.primitives,
        ids,
    );
}

} // verus!
