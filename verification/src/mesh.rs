//! GPU-ready indexed geometry.
//!
//! Coordinates are carried through the pipeline as the validated numeric
//! text they had in the source document (see `numtext`); the GPU edge is
//! the first place they are turned into machine floating point. The core
//! never interprets a coordinate value, so this representation is exact.

use vstd::prelude::*;

verus! {

/// A coordinate triple, each component a validated numeric token.
#[derive(Clone, Debug, PartialEq, Eq)]
pub struct Vec3Text {
    pub x: Vec<u8>,
    pub y: Vec<u8>,
    pub z: Vec<u8>,
}

/// The mathematical value of a `Vec3Text`: three byte sequences.
pub ghost struct Vec3View {
    pub x: Seq<u8>,
    pub y: Seq<u8>,
    pub z: Seq<u8>,
}

impl View for Vec3Text {
    type V = Vec3View;

    open spec fn view(&self) -> Vec3View {
        Vec3View { x: self.x@, y: self.y@, z: self.z@ }
    }
}

/// The coordinate token `0`, used for every defaulted normal component.
pub open spec fn zero_coord() -> Seq<u8> {
    seq![48u8]
}

/// The defaulted normal `(0, 0, 0)`.
pub open spec fn zero_vec3() -> Vec3View {
    Vec3View { x: zero_coord(), y: zero_coord(), z: zero_coord() }
}

impl Vec3Text {
    /// The triple `(0, 0, 0)`, written as the token `0` three times.
    pub fn zero() -> (r: Vec3Text)
        ensures
            r@ == zero_vec3(),
    {
        let mut x: Vec<u8> = Vec::new();
        x.push(48u8);
        let mut y: Vec<u8> = Vec::new();
        y.push(48u8);
        let mut z: Vec<u8> = Vec::new();
        z.push(48u8);
        proof {
            assert(x@ =~= zero_coord());
            assert(y@ =~= zero_coord());
            assert(z@ =~= zero_coord());
        }
        Vec3Text { x, y, z }
    }
}

/// Copies a coordinate triple.
pub fn copy_vec3(v: &Vec3Text) -> (r: Vec3Text)
    ensures
        r@ == v@,
{
    Vec3Text {
        x: crate::numtext::copy_bytes(&v.x),
        y: crate::numtext::copy_bytes(&v.y),
        z: crate::numtext::copy_bytes(&v.z),
    }
}

/// One vertex of the interleaved vertex buffer: position first, normal
/// second, matching the GPU attribute layout.
#[derive(Clone, Debug, PartialEq, Eq)]
pub struct Vertex {
    pub position: Vec3Text,
    pub normal: Vec3Text,
}

pub ghost struct VertexView {
    pub position: Vec3View,
    pub normal: Vec3View,
}

impl View for Vertex {
    type V = VertexView;

    open spec fn view(&self) -> VertexView {
        VertexView { position: self.position@, normal: self.normal@ }
    }
}

/// An indexed mesh: a flat vertex buffer and a flat index buffer.
///
/// The triangulator emits one vertex per face corner (no sharing), so for
/// well-formed input the two buffers have the same length; a face corner
/// whose position reference does not resolve contributes an index but no
/// vertex (see `triangulate`).
#[derive(Clone, Debug, PartialEq, Eq)]
pub struct Mesh {
    pub vertices: Vec<Vertex>,
    pub indices: Vec<u32>,
}

pub ghost struct MeshView {
    pub vertices: Seq<VertexView>,
    pub indices: Seq<u32>,
}

impl View for Mesh {
    type V = MeshView;

    open spec fn view(&self) -> MeshView {
        MeshView {
            vertices: self.vertices@.map_values(|v: Vertex| v@),
            indices: self.indices@,
        }
    }
}

impl Mesh {
    /// A mesh with no geometry at all.
    pub fn empty() -> (r: Mesh)
        ensures
            r@.vertices.len() == 0,
            r@.indices.len() == 0,
    {
        Mesh { vertices: Vec::new(), indices: Vec::new() }
    }
}

} // verus!
