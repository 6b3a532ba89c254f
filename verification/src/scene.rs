//! Scene objects, the named-slot registry, and the frame planner.
//!
//! A scene object owns one mesh and its draw state. Replacing the mesh
//! marks the object loaded — the caller uploads the new buffers to the
//! GPU at that moment, synchronously, recreating the bindings rather
//! than updating in place. Draw mode reuses the same index buffer for
//! both topologies: wireframe reinterprets consecutive index pairs as
//! line segments, which is meaningful exactly for line-authored meshes
//! such as the reference grid. Drawing an unloaded object is a no-op
//! (a zero-length draw), never an error.

use crate::camera::CameraState;
use crate::camera::FrameTransforms;
use crate::camera::frame_transforms;
use crate::camera::spec_frame_transforms;
use crate::mesh::Mesh;
use crate::mesh::Vertex;
use vstd::prelude::*;

verus! {

/// An RGBA color in thousandths of full intensity.
#[derive(Clone, Copy, Debug, PartialEq, Eq, Structural)]
pub struct ColorMilli {
    pub r: u32,
    pub g: u32,
    pub b: u32,
    pub a: u32,
}

/// Opaque white, the draw color an object starts with.
pub open spec fn spec_white() -> ColorMilli {
    ColorMilli { r: 1000, g: 1000, b: 1000, a: 1000 }
}

/// How the GPU interprets the index buffer.
#[derive(Clone, Copy, Debug, PartialEq, Eq, Structural)]
pub enum DrawMode {
    Lines,
    Triangles,
}

/// The registry's named slots, in draw order.
#[derive(Clone, Copy, Debug, PartialEq, Eq, Structural)]
pub enum SlotName {
    Grid,
    Model,
}

/// One drawable object: a mesh and its draw state.
#[derive(Clone, Debug, PartialEq, Eq)]
pub struct ModelObject {
    mesh: Mesh,
    loaded: bool,
    draw_wireframe: bool,
    color: ColorMilli,
}

impl ModelObject {
    pub closed spec fn spec_mesh(&self) -> crate::mesh::MeshView {
        self.mesh@
    }

    pub closed spec fn spec_loaded(&self) -> bool {
        self.loaded
    }

    pub closed spec fn spec_wireframe(&self) -> bool {
        self.draw_wireframe
    }

    pub closed spec fn spec_color(&self) -> ColorMilli {
        self.color
    }

    /// A fresh object: empty mesh, not loaded, wireframe on, white.
    pub fn new() -> (r: ModelObject)
        ensures
            r.spec_mesh().vertices.len() == 0,
            r.spec_mesh().indices.len() == 0,
            !r.spec_loaded(),
            r.spec_wireframe(),
            r.spec_color() == spec_white(),
    {
        ModelObject {
            mesh: Mesh::empty(),
            loaded: false,
            draw_wireframe: true,
            color: ColorMilli { r: 1000, g: 1000, b: 1000, a: 1000 },
        }
    }

    /// Replaces the held mesh wholesale and marks the object loaded —
    /// also for an empty mesh. The caller re-uploads the buffers to the
    /// GPU right after this call.
    pub fn update_model(&mut self, vertices: Vec<Vertex>, indices: Vec<u32>)
        ensures
            final(self).spec_mesh().vertices == vertices@.map_values(|v: Vertex| v@),
            final(self).spec_mesh().indices == indices@,
            final(self).spec_loaded(),
            final(self).spec_wireframe() == old(self).spec_wireframe(),
            final(self).spec_color() == old(self).spec_color(),
    {
        self.mesh = Mesh { vertices, indices };
        self.loaded = true;
    }

    /// Pure state mutation, observable on the next draw.
    pub fn set_color(&mut self, color: ColorMilli)
        ensures
            final(self).spec_color() == color,
            final(self).spec_mesh() == old(self).spec_mesh(),
            final(self).spec_loaded() == old(self).spec_loaded(),
            final(self).spec_wireframe() == old(self).spec_wireframe(),
    {
        self.color = color;
    }

    pub fn get_color(&self) -> (c: ColorMilli)
        ensures
            c == self.spec_color(),
    {
        self.color
    }

    /// Pure state mutation, observable on the next draw.
    pub fn set_draw_wireframe(&mut self, draw_wireframe: bool)
        ensures
            final(self).spec_wireframe() == draw_wireframe,
            final(self).spec_mesh() == old(self).spec_mesh(),
            final(self).spec_loaded() == old(self).spec_loaded(),
            final(self).spec_color() == old(self).spec_color(),
    {
        self.draw_wireframe = draw_wireframe;
    }

    pub fn get_draw_wireframe(&self) -> (w: bool)
        ensures
            w == self.spec_wireframe(),
    {
        self.draw_wireframe
    }

    /// The current index-buffer length; `0` before the first load.
    pub fn get_indices_count(&self) -> (n: usize)
        ensures
            n == self.spec_mesh().indices.len(),
    {
        self.mesh.indices.len()
    }

    pub fn get_loaded(&self) -> (l: bool)
        ensures
            l == self.spec_loaded(),
    {
        self.loaded
    }

    /// Line list when wireframe is set, triangle list otherwise. The
    /// same index buffer serves both modes; only the topology changes.
    pub fn draw_mode(&self) -> (m: DrawMode)
        ensures
            m == if self.spec_wireframe() {
                DrawMode::Lines
            } else {
                DrawMode::Triangles
            },
    {
        if self.draw_wireframe {
            DrawMode::Lines
        } else {
            DrawMode::Triangles
        }
    }

    /// The vertex buffer, for the GPU upload at load time.
    pub fn vertices(&self) -> (v: &Vec<Vertex>)
        ensures
            v@.map_values(|x: Vertex| x@) == self.spec_mesh().vertices,
    {
        &self.mesh.vertices
    }

    /// The index buffer, for the GPU upload at load time.
    pub fn indices(&self) -> (v: &Vec<u32>)
        ensures
            v@ == self.spec_mesh().indices,
    {
        &self.mesh.indices
    }
}

/// The fixed named slots, each optionally holding an object. Created
/// once at startup; a slot's object is replaced wholesale on reload.
pub struct SceneRegistry {
    pub grid: Option<ModelObject>,
    pub model: Option<ModelObject>,
}

impl SceneRegistry {
    pub open spec fn spec_grid(&self) -> Option<ModelObject> {
        self.grid
    }

    pub open spec fn spec_model(&self) -> Option<ModelObject> {
        self.model
    }

    pub open spec fn spec_slot(&self, slot: SlotName) -> Option<ModelObject> {
        match slot {
            SlotName::Grid => self.spec_grid(),
            SlotName::Model => self.spec_model(),
        }
    }

    /// Both slots start empty.
    pub fn new() -> (r: SceneRegistry)
        ensures
            r.spec_grid() is None,
            r.spec_model() is None,
    {
        SceneRegistry { grid: None, model: None }
    }

    /// Named-slot lookup.
    pub fn get(&self, slot: SlotName) -> (r: Option<&ModelObject>)
        ensures
            match r {
                Some(obj) => self.spec_slot(slot) is Some && *obj == self.spec_slot(slot)->0,
                None => self.spec_slot(slot) is None,
            },
    {
        match slot {
            SlotName::Grid => self.grid.as_ref(),
            SlotName::Model => self.model.as_ref(),
        }
    }

    /// Replaces a slot's object wholesale; the previous object, and
    /// with it its GPU resources, is discarded.
    pub fn replace(&mut self, slot: SlotName, obj: ModelObject)
        ensures
            final(self).spec_slot(slot) is Some && final(self).spec_slot(slot)->0 == obj,
            slot is Grid ==> final(self).spec_model() == old(self).spec_model(),
            slot is Model ==> final(self).spec_grid() == old(self).spec_grid(),
    {
        match slot {
            SlotName::Grid => {
                self.grid = Some(obj);
            },
            SlotName::Model => {
                self.model = Some(obj);
            },
        }
    }
}

/// One draw call of a frame: which slot, the topology, the color, and
/// how many indices to draw — zero for an unloaded object, which makes
/// drawing it a no-op rather than an error.
#[derive(Clone, Copy, Debug, PartialEq, Eq, Structural)]
pub struct DrawCall {
    pub slot: SlotName,
    pub mode: DrawMode,
    pub color: ColorMilli,
    pub index_count: usize,
}

pub open spec fn spec_draw_of(slot: SlotName, m: ModelObject) -> DrawCall {
    DrawCall {
        slot: slot,
        mode: if m.spec_wireframe() {
            DrawMode::Lines
        } else {
            DrawMode::Triangles
        },
        color: m.spec_color(),
        index_count: m.spec_mesh().indices.len() as usize,
    }
}

/// The draw calls of one frame, in fixed order: the grid first, then
/// the model on top, each exactly when its slot is occupied.
pub open spec fn spec_draws(reg: SceneRegistry) -> Seq<DrawCall> {
    (match reg.spec_grid() {
        Some(g) => seq![spec_draw_of(SlotName::Grid, g)],
        None => seq![],
    }) + (match reg.spec_model() {
        Some(m) => seq![spec_draw_of(SlotName::Model, m)],
        None => seq![],
    })
}

/// Everything one redraw needs: the exact transform description and
/// the ordered draw calls.
pub struct FramePlan {
    pub transforms: FrameTransforms,
    pub draws: Vec<DrawCall>,
}

/// Plans one frame from the current registry and camera: recomputes
/// the transform description and lists the draw calls in fixed order.
pub fn plan_frame(reg: &SceneRegistry, camera: &CameraState) -> (p: FramePlan)
    ensures
        p.transforms == spec_frame_transforms(*camera),
        p.draws@ == spec_draws(*reg),
{
    let transforms = frame_transforms(camera);
    let mut draws: Vec<DrawCall> = Vec::new();
    match &reg.grid {
        Some(g) => {
            draws.push(
                DrawCall {
                    slot: SlotName::Grid,
                    mode: g.draw_mode(),
                    color: g.get_color(),
                    index_count: g.get_indices_count(),
                },
            );
        },
        None => {},
    }
    match &reg.model {
        Some(m) => {
            draws.push(
                DrawCall {
                    slot: SlotName::Model,
                    mode: m.draw_mode(),
                    color: m.get_color(),
                    index_count: m.get_indices_count(),
                },
            );
        },
        None => {},
    }
    proof {
        assert(draws@ =~= spec_draws(*reg));
    }
    FramePlan { transforms, draws }
}

} // verus!
