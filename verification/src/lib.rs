//! An interchange-format mesh viewer core: OBJ-subset parsing and fan
//! triangulation into GPU-ready buffers, scene objects with draw state,
//! and an orbit-camera controller over exact fixed-point state.
//!
//! The GPU backend, the event source and process wiring are external
//! collaborators: the core consumes plain input events and hands back
//! plain buffers and frame plans. All state lives in one explicitly
//! owned [`RendererContext`], passed by reference into every entry
//! point.

pub mod camera;
pub mod mesh;
pub mod numtext;
pub mod parse;
pub mod scene;
pub mod triangulate;

use crate::camera::CameraState;
use crate::camera::Key;
use crate::camera::PointerState;
use crate::camera::COORD_LIMIT;
use crate::mesh::MeshView;
use crate::mesh::Vec3View;
use crate::mesh::Vertex;
use crate::mesh::Vec3Text;
use crate::numtext::milli_text;
use crate::numtext::render_milli;
use crate::parse::ParseError;
use crate::parse::spec_doc;
use crate::scene::ColorMilli;
use crate::scene::FramePlan;
use crate::scene::ModelObject;
use crate::scene::SceneRegistry;
use crate::scene::SlotName;
use crate::scene::plan_frame;
use crate::scene::spec_white;
use crate::triangulate::parse_obj;
use crate::triangulate::spec_triangulate;
use vstd::prelude::*;

verus! {

/// Half the line count of the reference grid per direction.
pub const GRID_HALF_COUNT: i32 = 100;

/// Grid line spacing: 1 unit.
pub const GRID_SPACING_MILLI: i64 = 1000;

/// The grid's vertex normal: `(0, 1, 0)`.
pub open spec fn spec_grid_normal() -> Vec3View {
    Vec3View { x: milli_text(0), y: milli_text(1000), z: milli_text(0) }
}

/// The reference grid with `2h + 1` lines per direction, spaced `s`
/// milliunits apart: first the lines parallel to X (varying Z), then
/// those parallel to Z (varying X), each line two vertices on the
/// ground plane, indexed in push order — a line list.
pub open spec fn spec_grid_geometry(m: MeshView, h: int, s: int) -> bool {
    let lines = 2 * h + 1;
    &&& m.vertices.len() == 4 * lines
    &&& m.indices.len() == 4 * lines
    &&& forall|j: int| 0 <= j < 4 * lines ==> (#[trigger] m.indices[j]) as int == j
    &&& forall|j: int|
        0 <= j < lines ==> {
            &&& (#[trigger] m.vertices[2 * j]).position == Vec3View {
                x: milli_text(-h * s),
                y: milli_text(0),
                z: milli_text((j - h) * s),
            }
            &&& m.vertices[2 * j].normal == spec_grid_normal()
            &&& m.vertices[2 * j + 1].position == Vec3View {
                x: milli_text(h * s),
                y: milli_text(0),
                z: milli_text((j - h) * s),
            }
            &&& m.vertices[2 * j + 1].normal == spec_grid_normal()
        }
    &&& forall|j: int|
        0 <= j < lines ==> {
            &&& (#[trigger] m.vertices[2 * lines + 2 * j]).position == Vec3View {
                x: milli_text((j - h) * s),
                y: milli_text(0),
                z: milli_text(-h * s),
            }
            &&& m.vertices[2 * lines + 2 * j].normal == spec_grid_normal()
            &&& m.vertices[2 * lines + 2 * j + 1].position == Vec3View {
                x: milli_text((j - h) * s),
                y: milli_text(0),
                z: milli_text(h * s),
            }
            &&& m.vertices[2 * lines + 2 * j + 1].normal == spec_grid_normal()
        }
}

fn grid_vertex(x_milli: i64, z_milli: i64) -> (v: Vertex)
    requires
        -1_000_000_000_000_000_000 <= x_milli <= 1_000_000_000_000_000_000,
        -1_000_000_000_000_000_000 <= z_milli <= 1_000_000_000_000_000_000,
    ensures
        v@.position == (Vec3View {
            x: milli_text(x_milli as int),
            y: milli_text(0),
            z: milli_text(z_milli as int),
        }),
        v@.normal == spec_grid_normal(),
{
    Vertex {
        position: Vec3Text {
            x: render_milli(x_milli),
            y: render_milli(0),
            z: render_milli(z_milli),
        },
        normal: Vec3Text { x: render_milli(0), y: render_milli(1000), z: render_milli(0) },
    }
}

fn scaled(d: i64, s: i64) -> (r: i64)
    requires
        -16001 <= d <= 16001,
        0 <= s <= 1_000_000_000,
    ensures
        r == d * s,
        -1_000_000_000_000_000_000 <= r <= 1_000_000_000_000_000_000,
{
    proof {
        assert(d * s <= 16001 * 1_000_000_000 && d * s >= -16001 * 1_000_000_000)
            by (nonlinear_arith)
            requires
                -16001 <= d <= 16001,
                0 <= s <= 1_000_000_000,
        ;
    }
    d * s
}

fn x_line_vertices(half_count: i32, spacing_milli: i64) -> (r: Vec<Vertex>)
    requires
        0 <= half_count <= 8000,
        0 <= spacing_milli <= 1_000_000_000,
    ensures
        r@.len() == 2 * (2 * half_count + 1),
        forall|k: int|
            0 <= k < 2 * half_count + 1 ==> {
                &&& (#[trigger] r@[2 * k]@).position == (Vec3View {
                    x: milli_text(-(half_count as int) * (spacing_milli as int)),
                    y: milli_text(0),
                    z: milli_text((k - half_count as int) * (spacing_milli as int)),
                })
                &&& r@[2 * k]@.normal == spec_grid_normal()
                &&& r@[2 * k + 1]@.position == (Vec3View {
                    x: milli_text((half_count as int) * (spacing_milli as int)),
                    y: milli_text(0),
                    z: milli_text((k - half_count as int) * (spacing_milli as int)),
                })
                &&& r@[2 * k + 1]@.normal == spec_grid_normal()
            },
{
    let h: i64 = half_count as i64;
    let s: i64 = spacing_milli;
    let lines: usize = (2 * half_count + 1) as usize;
    let mut vertices: Vec<Vertex> = Vec::new();
    let mut j: usize = 0;
    while j < lines
        invariant
            0 <= j <= lines,
            lines == 2 * half_count + 1,
            0 <= half_count <= 8000,
            h == half_count as i64,
            0 <= s <= 1_000_000_000,
            s == spacing_milli,
            vertices@.len() == 2 * j,
            forall|k: int|
                0 <= k < j ==> {
                    &&& (#[trigger] vertices@[2 * k]@).position == (Vec3View {
                        x: milli_text(-(h as int) * (s as int)),
                        y: milli_text(0),
                        z: milli_text((k - h as int) * (s as int)),
                    })
                    &&& vertices@[2 * k]@.normal == spec_grid_normal()
                    &&& vertices@[2 * k + 1]@.position == (Vec3View {
                        x: milli_text((h as int) * (s as int)),
                        y: milli_text(0),
                        z: milli_text((k - h as int) * (s as int)),
                    })
                    &&& vertices@[2 * k + 1]@.normal == spec_grid_normal()
                },
        decreases lines - j,
    {
        let z: i64 = scaled(j as i64 - h, s);
        vertices.push(grid_vertex(scaled(-h, s), z));
        vertices.push(grid_vertex(scaled(h, s), z));
        proof {
            assert(vertices@[2 * j as int] == vertices@[vertices@.len() - 2]);
            assert(vertices@[2 * j as int + 1] == vertices@[vertices@.len() - 1]);
        }
        j = j + 1;
    }
    vertices
}

fn z_line_vertices(half_count: i32, spacing_milli: i64) -> (r: Vec<Vertex>)
    requires
        0 <= half_count <= 8000,
        0 <= spacing_milli <= 1_000_000_000,
    ensures
        r@.len() == 2 * (2 * half_count + 1),
        forall|k: int|
            0 <= k < 2 * half_count + 1 ==> {
                &&& (#[trigger] r@[2 * k]@).position == (Vec3View {
                    x: milli_text((k - half_count as int) * (spacing_milli as int)),
                    y: milli_text(0),
                    z: milli_text(-(half_count as int) * (spacing_milli as int)),
                })
                &&& r@[2 * k]@.normal == spec_grid_normal()
                &&& r@[2 * k + 1]@.position == (Vec3View {
                    x: milli_text((k - half_count as int) * (spacing_milli as int)),
                    y: milli_text(0),
                    z: milli_text((half_count as int) * (spacing_milli as int)),
                })
                &&& r@[2 * k + 1]@.normal == spec_grid_normal()
            },
{
    let h: i64 = half_count as i64;
    let s: i64 = spacing_milli;
    let lines: usize = (2 * half_count + 1) as usize;
    let mut vertices: Vec<Vertex> = Vec::new();
    let mut j: usize = 0;
    while j < lines
        invariant
            0 <= j <= lines,
            lines == 2 * half_count + 1,
            0 <= half_count <= 8000,
            h == half_count as i64,
            0 <= s <= 1_000_000_000,
            s == spacing_milli,
            vertices@.len() == 2 * j,
            forall|k: int|
                0 <= k < j ==> {
                    &&& (#[trigger] vertices@[2 * k]@).position == (Vec3View {
                        x: milli_text((k - h as int) * (s as int)),
                        y: milli_text(0),
                        z: milli_text(-(h as int) * (s as int)),
                    })
                    &&& vertices@[2 * k]@.normal == spec_grid_normal()
                    &&& vertices@[2 * k + 1]@.position == (Vec3View {
                        x: milli_text((k - h as int) * (s as int)),
                        y: milli_text(0),
                        z: milli_text((h as int) * (s as int)),
                    })
                    &&& vertices@[2 * k + 1]@.normal == spec_grid_normal()
                },
        decreases lines - j,
    {
        let x: i64 = scaled(j as i64 - h, s);
        vertices.push(grid_vertex(x, scaled(-h, s)));
        vertices.push(grid_vertex(x, scaled(h, s)));
        proof {
            assert(vertices@[2 * j as int] == vertices@[vertices@.len() - 2]);
            assert(vertices@[2 * j as int + 1] == vertices@[vertices@.len() - 1]);
        }
        j = j + 1;
    }
    vertices
}

/// The identity index buffer: vertex `k` is drawn as index `k`.
fn identity_indices(n: usize) -> (r: Vec<u32>)
    requires
        n <= 100_000,
    ensures
        r@.len() == n,
        forall|k: int| 0 <= k < n ==> (#[trigger] r@[k]) as int == k,
{
    let mut indices: Vec<u32> = Vec::new();
    let mut j: usize = 0;
    while j < n
        invariant
            0 <= j <= n <= 100_000,
            indices@.len() == j,
            forall|k: int| 0 <= k < j ==> (#[trigger] indices@[k]) as int == k,
        decreases n - j,
    {
        indices.push(j as u32);
        j = j + 1;
    }
    indices
}

/// Builds the reference grid as a line list on the ground plane.
///
/// The bound on `half_count` keeps every vertex index within the
/// 16-bit range the index scheme was sized for; the spacing bound
/// keeps every coordinate exactly renderable.
pub fn generate_grid(half_count: i32, spacing_milli: i64) -> (r: (Vec<Vertex>, Vec<u32>))
    requires
        0 <= half_count <= 8000,
        0 <= spacing_milli <= 1_000_000_000,
    ensures
        spec_grid_geometry(
            MeshView {
                vertices: r.0@.map_values(|v: Vertex| v@),
                indices: r.1@,
            },
            half_count as int,
            spacing_milli as int,
        ),
        r.1@.len() % 2 == 0,
{
    let mut vertices = x_line_vertices(half_count, spacing_milli);
    let ghost xs = vertices@;
    let mut more = z_line_vertices(half_count, spacing_milli);
    let ghost zs = more@;
    vertices.append(&mut more);
    let indices = identity_indices(vertices.len());
    proof {
        let lines = 2 * half_count as int + 1;
        let mv = vertices@.map_values(|v: Vertex| v@);
        assert forall|j: int| 0 <= j < lines implies {
            &&& (#[trigger] mv[2 * j]) == xs[2 * j]@
            &&& mv[2 * j + 1] == xs[2 * j + 1]@
            &&& mv[2 * lines + 2 * j] == zs[2 * j]@
            &&& mv[2 * lines + 2 * j + 1] == zs[2 * j + 1]@
        } by {
            assert(vertices@[2 * j] == xs[2 * j]);
            assert(vertices@[2 * j + 1] == xs[2 * j + 1]);
            assert(vertices@[2 * lines + 2 * j] == zs[2 * j]);
            assert(vertices@[2 * lines + 2 * j + 1] == zs[2 * j + 1]);
        }
    }
    (vertices, indices)
}

/// The single owned state of the viewer: the scene slots, the camera,
/// and the live pointer-drag state. Every entry point takes it by
/// reference; input handling and redraw never overlap.
pub struct RendererContext {
    pub registry: SceneRegistry,
    pub camera: CameraState,
    pub pointer: PointerState,
}

impl RendererContext {
    pub open spec fn wf(self) -> bool {
        self.camera.wf() && self.pointer.wf()
    }

    /// Startup: the grid slot holds the loaded reference grid (drawn
    /// as lines), the model slot a fresh gray object awaiting a load,
    /// the camera sits at the isometric home preset.
    pub fn new() -> (r: RendererContext)
        ensures
            r.wf(),
            r.camera == CameraState::spec_initial(),
            r.pointer == (PointerState { dragging: false, last_x: 0, last_y: 0 }),
            r.registry.spec_grid() is Some,
            r.registry.spec_model() is Some,
            ({
                let g = r.registry.spec_grid()->0;
                &&& g.spec_loaded()
                &&& g.spec_wireframe()
                &&& g.spec_color() == spec_white()
                &&& spec_grid_geometry(
                    g.spec_mesh(),
                    GRID_HALF_COUNT as int,
                    GRID_SPACING_MILLI as int,
                )
            }),
            ({
                let m = r.registry.spec_model()->0;
                &&& !m.spec_loaded()
                &&& m.spec_wireframe()
                &&& m.spec_color() == ColorMilli { r: 750, g: 750, b: 750, a: 1000 }
                &&& m.spec_mesh().vertices.len() == 0
                &&& m.spec_mesh().indices.len() == 0
            }),
    {
        let mut registry = SceneRegistry::new();

        let mut grid = ModelObject::new();
        let (grid_vertices, grid_indices) = generate_grid(GRID_HALF_COUNT, GRID_SPACING_MILLI);
        grid.update_model(grid_vertices, grid_indices);
        registry.replace(SlotName::Grid, grid);

        let mut model = ModelObject::new();
        model.set_color(ColorMilli { r: 750, g: 750, b: 750, a: 1000 });
        registry.replace(SlotName::Model, model);

        RendererContext {
            registry,
            camera: CameraState::initial(),
            pointer: PointerState::initial(),
        }
    }

    /// Parses the document and, on success, replaces the model slot's
    /// mesh; the object's draw state survives the reload. On failure
    /// nothing changes at all: the previous scene keeps displaying.
    /// Succeeds exactly when every geometry line is well formed.
    pub fn load_mesh(&mut self, text: &Vec<u8>) -> (r: Result<(), ParseError>)
        requires
            old(self).wf(),
            old(self).registry.spec_model() is Some,
        ensures
            final(self).wf(),
            r is Ok <==> spec_doc(text@) is Ok,
            match r {
                Ok(_) => {
                    let st = spec_triangulate(spec_doc(text@)->Ok_0);
                    let old_m = old(self).registry.spec_model()->0;
                    let new_m = final(self).registry.spec_model()->0;
                    &&& final(self).registry.spec_model() is Some
                    &&& new_m.spec_mesh().vertices == st.vertices
                    &&& new_m.spec_mesh().indices == st.indices
                    &&& new_m.spec_loaded()
                    &&& new_m.spec_wireframe() == old_m.spec_wireframe()
                    &&& new_m.spec_color() == old_m.spec_color()
                    &&& final(self).registry.spec_grid() == old(self).registry.spec_grid()
                    &&& final(self).camera == old(self).camera
                    &&& final(self).pointer == old(self).pointer
                },
                Err(pe) => {
                    &&& *final(self) == *old(self)
                    &&& pe.line as int == spec_doc(text@)->Err_0.0
                    &&& pe.kind == spec_doc(text@)->Err_0.1
                },
            },
    {
        match parse_obj(text) {
            Ok(m) => {
                match &mut self.registry.model {
                    Some(obj) => {
                        obj.update_model(m.vertices, m.indices);
                    },
                    None => {
                        proof {
                            assert(false);
                        }
                    },
                }
                Ok(())
            },
            Err(e) => Err(e),
        }
    }

    /// A pointer press anchors a drag.
    pub fn on_pointer_down(&mut self, x: i64, y: i64)
        requires
            old(self).wf(),
            -COORD_LIMIT <= x <= COORD_LIMIT,
            -COORD_LIMIT <= y <= COORD_LIMIT,
        ensures
            final(self).wf(),
            final(self).pointer == (PointerState { dragging: true, last_x: x, last_y: y }),
            final(self).camera == old(self).camera,
            final(self).registry == old(self).registry,
    {
        self.pointer.on_pointer_down(x, y);
    }

    /// A pointer move during a drag rotates the orbit by the delta.
    pub fn on_pointer_move(&mut self, x: i64, y: i64)
        requires
            old(self).wf(),
            -COORD_LIMIT <= x <= COORD_LIMIT,
            -COORD_LIMIT <= y <= COORD_LIMIT,
        ensures
            final(self).wf(),
            final(self).registry == old(self).registry,
            old(self).pointer.dragging ==> {
                &&& final(self).camera == crate::camera::spec_drag(
                    old(self).camera,
                    x - old(self).pointer.last_x,
                    y - old(self).pointer.last_y,
                )
                &&& final(self).pointer == (PointerState {
                    dragging: true,
                    last_x: x,
                    last_y: y,
                })
            },
            !old(self).pointer.dragging ==> {
                &&& final(self).camera == old(self).camera
                &&& final(self).pointer == old(self).pointer
            },
    {
        crate::camera::on_pointer_move(&mut self.pointer, &mut self.camera, x, y);
    }

    /// A pointer release ends the drag.
    pub fn on_pointer_up(&mut self)
        requires
            old(self).wf(),
        ensures
            final(self).wf(),
            final(self).pointer == (PointerState { dragging: false, ..old(self).pointer }),
            final(self).camera == old(self).camera,
            final(self).registry == old(self).registry,
    {
        self.pointer.on_pointer_up();
    }

    /// One key input into the camera controller.
    pub fn on_key(&mut self, key: Key, shift: bool)
        requires
            old(self).wf(),
        ensures
            final(self).wf(),
            final(self).camera == crate::camera::spec_on_key(old(self).camera, key, shift),
            final(self).pointer == old(self).pointer,
            final(self).registry == old(self).registry,
    {
        self.camera.on_key(key, shift);
    }

    /// Flips the model's wireframe flag; the mesh, its index count and
    /// everything else stay untouched. Without a model object this is
    /// a no-op.
    pub fn toggle_wireframe(&mut self)
        requires
            old(self).wf(),
        ensures
            final(self).wf(),
            final(self).camera == old(self).camera,
            final(self).pointer == old(self).pointer,
            final(self).registry.spec_grid() == old(self).registry.spec_grid(),
            match old(self).registry.spec_model() {
                Some(m) => {
                    let new_m = final(self).registry.spec_model()->0;
                    &&& final(self).registry.spec_model() is Some
                    &&& new_m.spec_wireframe() == !m.spec_wireframe()
                    &&& new_m.spec_mesh() == m.spec_mesh()
                    &&& new_m.spec_loaded() == m.spec_loaded()
                    &&& new_m.spec_color() == m.spec_color()
                },
                None => final(self).registry.spec_model() is None,
            },
    {
        match &mut self.registry.model {
            Some(obj) => {
                let w = obj.get_draw_wireframe();
                obj.set_draw_wireframe(!w);
            },
            None => {},
        }
    }

    /// Sets the model's draw color. Without a model object this is a
    /// no-op.
    pub fn set_model_color(&mut self, color: ColorMilli)
        requires
            old(self).wf(),
        ensures
            final(self).wf(),
            final(self).camera == old(self).camera,
            final(self).pointer == old(self).pointer,
            final(self).registry.spec_grid() == old(self).registry.spec_grid(),
            match old(self).registry.spec_model() {
                Some(m) => {
                    let new_m = final(self).registry.spec_model()->0;
                    &&& final(self).registry.spec_model() is Some
                    &&& new_m.spec_color() == color
                    &&& new_m.spec_mesh() == m.spec_mesh()
                    &&& new_m.spec_loaded() == m.spec_loaded()
                    &&& new_m.spec_wireframe() == m.spec_wireframe()
                },
                None => final(self).registry.spec_model() is None,
            },
    {
        match &mut self.registry.model {
            Some(obj) => {
                obj.set_color(color);
            },
            None => {},
        }
    }

    /// Plans one redraw from the current state.
    pub fn plan_frame(&self) -> (p: FramePlan)
        ensures
            p.transforms == crate::camera::spec_frame_transforms(self.camera),
            p.draws@ == crate::scene::spec_draws(self.registry),
    {
        plan_frame(&self.registry, &self.camera)
    }
}

} // verus!
