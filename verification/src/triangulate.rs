//! Fan triangulation of the parsed entity stream into an indexed mesh.
//!
//! Entities are processed in document order. Positions and normals are
//! appended to 1-based tables in encounter order. A face with at least
//! three corners is split into a fan: with corners `c0 .. c(n-1)`, the
//! triangles are `(c0, ci, c(i+1))` for `i` in `1 .. n-1`. For each
//! emitted corner, the position is resolved through its 1-based index —
//! a corner whose index is outside the table contributes no vertex — and
//! the normal is resolved the same way, defaulting to `(0, 0, 0)`; the
//! zero-based index `position - 1` is pushed whether or not the vertex
//! was, so an unresolvable corner leaves the index buffer one longer
//! than the vertex buffer (preserved, documented behavior).

use crate::mesh::Mesh;
use crate::mesh::Vec3Text;
use crate::mesh::Vec3View;
use crate::mesh::Vertex;
use crate::mesh::VertexView;
use crate::mesh::copy_vec3;
use crate::mesh::zero_vec3;
use crate::parse::Corner;
use crate::parse::EntityView;
use crate::parse::LineEntity;
use crate::parse::ParseError;
use crate::parse::corner_wf;
use crate::parse::entities_wf;
use crate::parse::entity_wf;
use crate::parse::parse_document;
use crate::parse::spec_doc;
use vstd::prelude::*;

verus! {

/// The whole triangulation state: the two lookup tables and the two
/// output buffers.
pub ghost struct TriState {
    pub positions: Seq<Vec3View>,
    pub normals: Seq<Vec3View>,
    pub vertices: Seq<VertexView>,
    pub indices: Seq<u32>,
}

pub open spec fn init_state() -> TriState {
    TriState { positions: seq![], normals: seq![], vertices: seq![], indices: seq![] }
}

/// Resolution of a normal reference: 1-based lookup, defaulting to
/// `(0, 0, 0)` when the index is `0` (no reference) or out of table.
pub open spec fn spec_normal_of(ns: Seq<Vec3View>, n: u32) -> Vec3View {
    if 1 <= n <= ns.len() {
        ns[n - 1]
    } else {
        zero_vec3()
    }
}

/// One corner's contribution: a vertex exactly when the position index
/// resolves, and the zero-based index unconditionally.
pub open spec fn spec_emit_corner(st: TriState, c: Corner) -> TriState {
    TriState {
        positions: st.positions,
        normals: st.normals,
        vertices: if 1 <= c.position <= st.positions.len() {
            st.vertices.push(
                VertexView {
                    position: st.positions[c.position - 1],
                    normal: spec_normal_of(st.normals, c.normal),
                },
            )
        } else {
            st.vertices
        },
        indices: st.indices.push((c.position - 1) as u32),
    }
}

pub open spec fn spec_emit_tri(st: TriState, c0: Corner, c1: Corner, c2: Corner) -> TriState {
    spec_emit_corner(spec_emit_corner(spec_emit_corner(st, c0), c1), c2)
}

/// The fan triangles of a face, emitted from triangle `i` on.
pub open spec fn spec_face_fold(st: TriState, cs: Seq<Corner>, i: int) -> TriState
    decreases cs.len() - i,
{
    if 3 <= cs.len() && 1 <= i && i + 1 < cs.len() {
        spec_face_fold(spec_emit_tri(st, cs[0], cs[i], cs[i + 1]), cs, i + 1)
    } else {
        st
    }
}

pub open spec fn spec_entity_step(st: TriState, e: EntityView) -> TriState {
    match e {
        EntityView::Position(p) => TriState {
            positions: st.positions.push(p),
            normals: st.normals,
            vertices: st.vertices,
            indices: st.indices,
        },
        EntityView::Normal(nm) => TriState {
            positions: st.positions,
            normals: st.normals.push(nm),
            vertices: st.vertices,
            indices: st.indices,
        },
        EntityView::Face(cs) => spec_face_fold(st, cs, 1),
        EntityView::Ignored => st,
    }
}

pub open spec fn spec_fold_from(es: Seq<EntityView>, i: int, st: TriState) -> TriState
    decreases es.len() - i,
{
    if 0 <= i < es.len() {
        spec_fold_from(es, i + 1, spec_entity_step(st, es[i]))
    } else {
        st
    }
}

/// The triangulation of a whole entity stream.
pub open spec fn spec_triangulate(es: Seq<EntityView>) -> TriState {
    spec_fold_from(es, 0, init_state())
}

/// The state the executable tables and buffers stand for.
pub open spec fn abs_state(
    positions: Seq<Vec3Text>,
    normals: Seq<Vec3Text>,
    vertices: Seq<Vertex>,
    indices: Seq<u32>,
) -> TriState {
    TriState {
        positions: positions.map_values(|p: Vec3Text| p@),
        normals: normals.map_values(|p: Vec3Text| p@),
        vertices: vertices.map_values(|v: Vertex| v@),
        indices: indices,
    }
}

/// Emits one corner into the output buffers.
fn emit_corner(
    positions: &Vec<Vec3Text>,
    normals: &Vec<Vec3Text>,
    vertices: &mut Vec<Vertex>,
    indices: &mut Vec<u32>,
    c: Corner,
)
    requires
        corner_wf(c),
    ensures
        abs_state(positions@, normals@, final(vertices)@, final(indices)@) == spec_emit_corner(
            abs_state(positions@, normals@, old(vertices)@, old(indices)@),
            c,
        ),
{
    let ghost st0 = abs_state(positions@, normals@, vertices@, indices@);
    let k = c.position as usize;
    if k <= positions.len() {
        let pos = copy_vec3(&positions[k - 1]);
        let nrm: Vec3Text;
        let nk = c.normal as usize;
        if nk >= 1 && nk <= normals.len() {
            nrm = copy_vec3(&normals[nk - 1]);
        } else {
            nrm = Vec3Text::zero();
        }
        vertices.push(Vertex { position: pos, normal: nrm });
        proof {
            assert(vertices@.map_values(|v: Vertex| v@) =~= st0.vertices.push(
                vertices@[vertices@.len() - 1]@,
            ));
        }
    }
    indices.push(c.position - 1);
    proof {
        let st1 = spec_emit_corner(st0, c);
        assert(abs_state(positions@, normals@, vertices@, indices@).vertices =~= st1.vertices);
        assert(abs_state(positions@, normals@, vertices@, indices@).indices =~= st1.indices);
    }
}

/// Triangulates a parsed entity stream into an indexed mesh.
pub fn triangulate(entities: &Vec<LineEntity>) -> (m: Mesh)
    requires
        entities_wf(entities@.map_values(|e: LineEntity| e@)),
    ensures
        ({
            let st = spec_triangulate(entities@.map_values(|e: LineEntity| e@));
            m@.vertices == st.vertices && m@.indices == st.indices
        }),
{
    let ghost ev = entities@.map_values(|e: LineEntity| e@);
    let ghost target = spec_triangulate(ev);

    let mut positions: Vec<Vec3Text> = Vec::new();
    let mut normals: Vec<Vec3Text> = Vec::new();
    let mut vertices: Vec<Vertex> = Vec::new();
    let mut indices: Vec<u32> = Vec::new();

    let n = entities.len();
    let mut i: usize = 0;
    proof {
        assert(abs_state(positions@, normals@, vertices@, indices@).positions =~= init_state()
            .positions);
        assert(abs_state(positions@, normals@, vertices@, indices@).normals =~= init_state()
            .normals);
        assert(abs_state(positions@, normals@, vertices@, indices@).vertices =~= init_state()
            .vertices);
        assert(abs_state(positions@, normals@, vertices@, indices@).indices =~= init_state()
            .indices);
        assert(abs_state(positions@, normals@, vertices@, indices@) == init_state());
    }
    while i < n
        invariant
            0 <= i <= n,
            n == entities@.len(),
            ev == entities@.map_values(|e: LineEntity| e@),
            entities_wf(ev),
            target == spec_triangulate(ev),
            spec_fold_from(ev, i as int, abs_state(positions@, normals@, vertices@, indices@))
                == target,
        decreases n - i,
    {
        let ghost st_entry = abs_state(positions@, normals@, vertices@, indices@);
        proof {
            assert(entities@[i as int]@ == ev[i as int]);
            assert(entity_wf(ev[i as int]));
        }
        match &entities[i] {
            LineEntity::Position(p) => {
                positions.push(copy_vec3(p));
                proof {
                    assert(positions@.map_values(|q: Vec3Text| q@) =~= st_entry.positions.push(
                        positions@[positions@.len() - 1]@,
                    ));
                    assert(abs_state(positions@, normals@, vertices@, indices@)
                        == spec_entity_step(st_entry, ev[i as int]));
                }
            },
            LineEntity::Normal(nm) => {
                normals.push(copy_vec3(nm));
                proof {
                    assert(normals@.map_values(|q: Vec3Text| q@) =~= st_entry.normals.push(
                        normals@[normals@.len() - 1]@,
                    ));
                    assert(abs_state(positions@, normals@, vertices@, indices@)
                        == spec_entity_step(st_entry, ev[i as int]));
                }
            },
            LineEntity::Face(cs) => {
                let cl = cs.len();
                if cl >= 3 {
                    let mut fi: usize = 1;
                    while fi + 1 < cl
                        invariant
                            1 <= fi,
                            fi + 1 <= cl,
                            cl == cs@.len(),
                            cl >= 3,
                            forall|j: int| 0 <= j < cs@.len() ==> corner_wf(#[trigger] cs@[j]),
                            positions@.map_values(|q: Vec3Text| q@) == st_entry.positions,
                            normals@.map_values(|q: Vec3Text| q@) == st_entry.normals,
                            spec_face_fold(
                                abs_state(positions@, normals@, vertices@, indices@),
                                cs@,
                                fi as int,
                            ) == spec_face_fold(st_entry, cs@, 1),
                        decreases cl - fi,
                    {
                        let c0 = cs[0];
                        let ca = cs[fi];
                        let cb = cs[fi + 1];
                        let ghost st_tri = abs_state(positions@, normals@, vertices@, indices@);
                        emit_corner(&positions, &normals, &mut vertices, &mut indices, c0);
                        emit_corner(&positions, &normals, &mut vertices, &mut indices, ca);
                        emit_corner(&positions, &normals, &mut vertices, &mut indices, cb);
                        proof {
                            assert(abs_state(positions@, normals@, vertices@, indices@)
                                == spec_emit_tri(st_tri, c0, ca, cb));
                        }
                        fi = fi + 1;
                    }
                    proof {
                        assert(spec_face_fold(
                            abs_state(positions@, normals@, vertices@, indices@),
                            cs@,
                            fi as int,
                        ) == abs_state(positions@, normals@, vertices@, indices@));
                        assert(abs_state(positions@, normals@, vertices@, indices@)
                            == spec_entity_step(st_entry, ev[i as int]));
                    }
                } else {
                    proof {
                        assert(spec_face_fold(st_entry, cs@, 1) == st_entry);
                        assert(abs_state(positions@, normals@, vertices@, indices@)
                            == spec_entity_step(st_entry, ev[i as int]));
                    }
                }
            },
            LineEntity::Ignored => {
                proof {
                    assert(abs_state(positions@, normals@, vertices@, indices@)
                        == spec_entity_step(st_entry, ev[i as int]));
                }
            },
        }
        i = i + 1;
    }
    Mesh { vertices, indices }
}

/// The corners a face emits from fan position `i` on, in emission
/// order: triangle `i` is `(cs[0], cs[i], cs[i + 1])`.
pub open spec fn fan_corners(cs: Seq<Corner>, i: int) -> Seq<Corner>
    decreases cs.len() - i,
{
    if 3 <= cs.len() && 1 <= i && i + 1 < cs.len() {
        seq![cs[0], cs[i], cs[i + 1]] + fan_corners(cs, i + 1)
    } else {
        seq![]
    }
}

/// The zero-based indices a face emits from fan position `i` on.
pub open spec fn fan_indices(cs: Seq<Corner>, i: int) -> Seq<u32>
    decreases cs.len() - i,
{
    if 3 <= cs.len() && 1 <= i && i + 1 < cs.len() {
        seq![
            (cs[0].position - 1) as u32,
            (cs[i].position - 1) as u32,
            (cs[i + 1].position - 1) as u32,
        ] + fan_indices(cs, i + 1)
    } else {
        seq![]
    }
}

/// Processing a face leaves the tables unchanged and appends exactly
/// the fan's zero-based indices to the index buffer.
pub proof fn lemma_face_fold_shape(st: TriState, cs: Seq<Corner>, i: int)
    ensures
        spec_face_fold(st, cs, i).positions == st.positions,
        spec_face_fold(st, cs, i).normals == st.normals,
        spec_face_fold(st, cs, i).indices == st.indices + fan_indices(cs, i),
    decreases cs.len() - i,
{
    if 3 <= cs.len() && 1 <= i && i + 1 < cs.len() {
        let st1 = spec_emit_tri(st, cs[0], cs[i], cs[i + 1]);
        lemma_face_fold_shape(st1, cs, i + 1);
        assert(st1.indices =~= st.indices + seq![
            (cs[0].position - 1) as u32,
            (cs[i].position - 1) as u32,
            (cs[i + 1].position - 1) as u32,
        ]);
        assert(st1.indices + fan_indices(cs, i + 1) =~= st.indices + fan_indices(cs, i));
    } else {
        assert(st.indices + fan_indices(cs, i) =~= st.indices);
    }
}

pub proof fn lemma_fan_shape(cs: Seq<Corner>, i: int)
    requires
        cs.len() >= 3,
        1 <= i <= cs.len() - 1,
    ensures
        fan_indices(cs, i).len() == 3 * (cs.len() - 1 - i),
        fan_corners(cs, i).len() == 3 * (cs.len() - 1 - i),
        forall|t: int|
            0 <= t < cs.len() - 1 - i ==> {
                &&& #[trigger] fan_corners(cs, i)[3 * t] == cs[0]
                &&& fan_corners(cs, i)[3 * t + 1] == cs[i + t]
                &&& fan_corners(cs, i)[3 * t + 2] == cs[i + t + 1]
            },
        forall|j: int|
            0 <= j < fan_indices(cs, i).len() ==> #[trigger] fan_indices(cs, i)[j] == (
            fan_corners(cs, i)[j].position - 1) as u32,
    decreases cs.len() - i,
{
    if i + 1 < cs.len() {
        lemma_fan_shape(cs, i + 1);
        assert forall|t: int| 0 <= t < cs.len() - 1 - i implies {
            &&& #[trigger] fan_corners(cs, i)[3 * t] == cs[0]
            &&& fan_corners(cs, i)[3 * t + 1] == cs[i + t]
            &&& fan_corners(cs, i)[3 * t + 2] == cs[i + t + 1]
        } by {
            if t > 0 {
                assert(fan_corners(cs, i)[3 * t] == fan_corners(cs, i + 1)[3 * (t - 1)]);
                assert(fan_corners(cs, i)[3 * t + 1] == fan_corners(cs, i + 1)[3 * (t - 1) + 1]);
                assert(fan_corners(cs, i)[3 * t + 2] == fan_corners(cs, i + 1)[3 * (t - 1) + 2]);
            }
        }
    }
}

/// Triangulation fan law: a face with `n >= 3` corners emits exactly
/// `n - 2` triangles, each sharing the face's first corner, and the
/// `t`-th triangle reads corners `t + 1` and `t + 2`.
pub proof fn lemma_fan_triangulation(st: TriState, cs: Seq<Corner>)
    requires
        cs.len() >= 3,
    ensures
        ({
            let emitted = spec_face_fold(st, cs, 1).indices.skip(st.indices.len() as int);
            &&& spec_face_fold(st, cs, 1).indices.len() >= st.indices.len()
            &&& emitted.len() == 3 * (cs.len() - 2)
            &&& forall|t: int|
                0 <= t < cs.len() - 2 ==> {
                    &&& #[trigger] emitted[3 * t] == (cs[0].position - 1) as u32
                    &&& emitted[3 * t + 1] == (cs[t + 1].position - 1) as u32
                    &&& emitted[3 * t + 2] == (cs[t + 2].position - 1) as u32
                }
        }),
{
    lemma_face_fold_shape(st, cs, 1);
    lemma_fan_shape(cs, 1);
    let emitted = spec_face_fold(st, cs, 1).indices.skip(st.indices.len() as int);
    assert(emitted =~= fan_indices(cs, 1));
    assert forall|t: int| 0 <= t < cs.len() - 2 implies {
        &&& #[trigger] emitted[3 * t] == (cs[0].position - 1) as u32
        &&& emitted[3 * t + 1] == (cs[t + 1].position - 1) as u32
        &&& emitted[3 * t + 2] == (cs[t + 2].position - 1) as u32
    } by {
        assert(fan_corners(cs, 1)[3 * t] == cs[0]);
        assert(fan_corners(cs, 1)[3 * t + 1] == cs[1 + t]);
        assert(fan_corners(cs, 1)[3 * t + 2] == cs[1 + t + 1]);
        assert(fan_indices(cs, 1)[3 * t] == (fan_corners(cs, 1)[3 * t].position - 1) as u32);
        assert(fan_indices(cs, 1)[3 * t + 1] == (fan_corners(cs, 1)[3 * t + 1].position
            - 1) as u32);
        assert(fan_indices(cs, 1)[3 * t + 2] == (fan_corners(cs, 1)[3 * t + 2].position
            - 1) as u32);
    }
}

/// Index zero-basing law: every index a face emits is the 1-based
/// source position index of the corresponding fan corner, minus one.
pub proof fn lemma_index_zero_basing(cs: Seq<Corner>)
    ensures
        fan_indices(cs, 1).len() == fan_corners(cs, 1).len(),
        forall|j: int|
            0 <= j < fan_indices(cs, 1).len() ==> #[trigger] fan_indices(cs, 1)[j] == (
            fan_corners(cs, 1)[j].position - 1) as u32,
{
    if cs.len() >= 3 {
        lemma_fan_shape(cs, 1);
    }
}

/// Normal default law: a corner with no normal reference (index `0`)
/// or an unresolvable one yields the vertex normal `(0, 0, 0)`.
pub proof fn lemma_normal_default(st: TriState, c: Corner)
    requires
        c.normal == 0 || c.normal > st.normals.len(),
        1 <= c.position <= st.positions.len(),
    ensures
        spec_emit_corner(st, c).vertices == st.vertices.push(
            VertexView { position: st.positions[c.position - 1], normal: zero_vec3() },
        ),
{
}

proof fn lemma_fan_indices_mod3(cs: Seq<Corner>, i: int)
    ensures
        fan_indices(cs, i).len() % 3 == 0,
    decreases cs.len() - i,
{
    if 3 <= cs.len() && 1 <= i && i + 1 < cs.len() {
        lemma_fan_indices_mod3(cs, i + 1);
    }
}

proof fn lemma_fold_mod3(es: Seq<EntityView>, i: int, st: TriState)
    requires
        st.indices.len() % 3 == 0,
    ensures
        spec_fold_from(es, i, st).indices.len() % 3 == 0,
    decreases es.len() - i,
{
    if 0 <= i < es.len() {
        let st1 = spec_entity_step(st, es[i]);
        match es[i] {
            EntityView::Face(cs) => {
                lemma_face_fold_shape(st, cs, 1);
                lemma_fan_indices_mod3(cs, 1);
            },
            _ => {},
        }
        lemma_fold_mod3(es, i + 1, st1);
    }
}

/// Triangle-list law: a triangulated index buffer is always a whole
/// number of triangles long.
pub proof fn lemma_triangle_list_length(es: Seq<EntityView>)
    ensures
        spec_triangulate(es).indices.len() % 3 == 0,
{
    lemma_fold_mod3(es, 0, init_state());
}

/// A face entity resolves when every corner's position index is within
/// the table it will be looked up in (faces under three corners emit
/// nothing, so they resolve trivially).
pub open spec fn entity_resolves(pcount: int, e: EntityView) -> bool {
    match e {
        EntityView::Face(cs) => cs.len() < 3 || forall|j: int|
            0 <= j < cs.len() ==> 1 <= (#[trigger] cs[j]).position <= pcount,
        _ => true,
    }
}

/// Every face of the stream resolves against the positions defined
/// before it; `pcount` positions were defined by the prefix.
pub open spec fn all_resolve_from(es: Seq<EntityView>, i: int, pcount: int) -> bool
    decreases es.len() - i,
{
    if 0 <= i < es.len() {
        entity_resolves(pcount, es[i]) && all_resolve_from(
            es,
            i + 1,
            match es[i] {
                EntityView::Position(_) => pcount + 1,
                _ => pcount,
            },
        )
    } else {
        true
    }
}

pub open spec fn all_resolve(es: Seq<EntityView>) -> bool {
    all_resolve_from(es, 0, 0)
}

/// A resolving face adds one vertex per index.
proof fn lemma_face_fold_balanced(st: TriState, cs: Seq<Corner>, i: int)
    requires
        forall|j: int| 0 <= j < cs.len() ==> 1 <= (#[trigger] cs[j]).position <= st.positions.len(),
    ensures
        spec_face_fold(st, cs, i).vertices.len() - st.vertices.len() == spec_face_fold(
            st,
            cs,
            i,
        ).indices.len() - st.indices.len(),
    decreases cs.len() - i,
{
    if 3 <= cs.len() && 1 <= i && i + 1 < cs.len() {
        let st1 = spec_emit_tri(st, cs[0], cs[i], cs[i + 1]);
        assert(st1.positions == st.positions);
        lemma_face_fold_balanced(st1, cs, i + 1);
    }
}

/// Any face adds at most one vertex per index.
proof fn lemma_face_fold_bounded(st: TriState, cs: Seq<Corner>, i: int)
    ensures
        spec_face_fold(st, cs, i).vertices.len() - st.vertices.len() <= spec_face_fold(
            st,
            cs,
            i,
        ).indices.len() - st.indices.len(),
    decreases cs.len() - i,
{
    if 3 <= cs.len() && 1 <= i && i + 1 < cs.len() {
        let st1 = spec_emit_tri(st, cs[0], cs[i], cs[i + 1]);
        lemma_face_fold_bounded(st1, cs, i + 1);
    }
}

proof fn lemma_fold_balanced(es: Seq<EntityView>, i: int, st: TriState)
    requires
        st.vertices.len() == st.indices.len(),
        all_resolve_from(es, i, st.positions.len() as int),
    ensures
        spec_fold_from(es, i, st).vertices.len() == spec_fold_from(es, i, st).indices.len(),
    decreases es.len() - i,
{
    if 0 <= i < es.len() {
        let st1 = spec_entity_step(st, es[i]);
        match es[i] {
            EntityView::Face(cs) => {
                if cs.len() >= 3 {
                    lemma_face_fold_balanced(st, cs, 1);
                    lemma_face_fold_shape(st, cs, 1);
                }
            },
            _ => {},
        }
        lemma_fold_balanced(es, i + 1, st1);
    }
}

proof fn lemma_fold_bounded(es: Seq<EntityView>, i: int, st: TriState)
    requires
        st.vertices.len() <= st.indices.len(),
    ensures
        spec_fold_from(es, i, st).vertices.len() <= spec_fold_from(es, i, st).indices.len(),
    decreases es.len() - i,
{
    if 0 <= i < es.len() {
        let st1 = spec_entity_step(st, es[i]);
        match es[i] {
            EntityView::Face(cs) => {
                lemma_face_fold_bounded(st, cs, 1);
            },
            _ => {},
        }
        lemma_fold_bounded(es, i + 1, st1);
    }
}

/// `1` when the corner's position index misses a table of `pcount`
/// entries, else `0`.
pub open spec fn corner_miss(pcount: int, c: Corner) -> int {
    if 1 <= c.position <= pcount {
        0
    } else {
        1
    }
}

/// How many of the corners a face emits, from fan position `i` on,
/// miss a position table of `pcount` entries.
pub open spec fn fan_unresolved(pcount: int, cs: Seq<Corner>, i: int) -> int
    decreases cs.len() - i,
{
    if 3 <= cs.len() && 1 <= i && i + 1 < cs.len() {
        corner_miss(pcount, cs[0]) + corner_miss(pcount, cs[i]) + corner_miss(pcount, cs[i + 1])
            + fan_unresolved(pcount, cs, i + 1)
    } else {
        0
    }
}

/// How many corner emissions of the whole stream miss their table,
/// with `pcount` positions defined before entity `i`.
pub open spec fn stream_unresolved(es: Seq<EntityView>, i: int, pcount: int) -> int
    decreases es.len() - i,
{
    if 0 <= i < es.len() {
        (match es[i] {
            EntityView::Face(cs) => fan_unresolved(pcount, cs, 1),
            _ => 0,
        }) + stream_unresolved(
            es,
            i + 1,
            match es[i] {
                EntityView::Position(_) => pcount + 1,
                _ => pcount,
            },
        )
    } else {
        0
    }
}

proof fn lemma_face_fold_divergence(st: TriState, cs: Seq<Corner>, i: int)
    ensures
        spec_face_fold(st, cs, i).indices.len() - spec_face_fold(st, cs, i).vertices.len() == (
        st.indices.len() - st.vertices.len()) + fan_unresolved(st.positions.len() as int, cs, i),
    decreases cs.len() - i,
{
    if 3 <= cs.len() && 1 <= i && i + 1 < cs.len() {
        let st1 = spec_emit_tri(st, cs[0], cs[i], cs[i + 1]);
        assert(st1.positions == st.positions);
        lemma_face_fold_divergence(st1, cs, i + 1);
    }
}

proof fn lemma_fold_divergence(es: Seq<EntityView>, i: int, st: TriState)
    ensures
        spec_fold_from(es, i, st).indices.len() - spec_fold_from(es, i, st).vertices.len() == (
        st.indices.len() - st.vertices.len()) + stream_unresolved(
            es,
            i,
            st.positions.len() as int,
        ),
    decreases es.len() - i,
{
    if 0 <= i < es.len() {
        let st1 = spec_entity_step(st, es[i]);
        match es[i] {
            EntityView::Face(cs) => {
                lemma_face_fold_divergence(st, cs, 1);
                lemma_face_fold_shape(st, cs, 1);
            },
            _ => {},
        }
        lemma_fold_divergence(es, i + 1, st1);
    }
}

/// The exact divergence: the index buffer exceeds the vertex buffer by
/// precisely the number of emitted corners whose position reference
/// missed its table at the moment the face was processed.
pub proof fn lemma_divergence_counts_misses(es: Seq<EntityView>)
    ensures
        spec_triangulate(es).indices.len() - spec_triangulate(es).vertices.len()
            == stream_unresolved(es, 0, 0),
{
    lemma_fold_divergence(es, 0, init_state());
}

/// Buffer length law: when every face corner resolves, the vertex and
/// index buffers come out equally long.
pub proof fn lemma_buffer_length_equality(es: Seq<EntityView>)
    requires
        all_resolve(es),
    ensures
        spec_triangulate(es).vertices.len() == spec_triangulate(es).indices.len(),
{
    lemma_fold_balanced(es, 0, init_state());
}

/// In every case — resolving or not — the vertex buffer is never the
/// longer one: an unresolvable corner omits only its vertex.
pub proof fn lemma_vertices_at_most_indices(es: Seq<EntityView>)
    ensures
        spec_triangulate(es).vertices.len() <= spec_triangulate(es).indices.len(),
{
    lemma_fold_bounded(es, 0, init_state());
}

/// Parses a whole document and triangulates it: the externally visible
/// load path. Succeeds exactly when every geometry line is well formed;
/// on failure the error names the first malformed line.
pub fn parse_obj(text: &Vec<u8>) -> (r: Result<Mesh, ParseError>)
    ensures
        match r {
            Ok(m) => {
                &&& spec_doc(text@) is Ok
                &&& m@.vertices == spec_triangulate(spec_doc(text@)->Ok_0).vertices
                &&& m@.indices == spec_triangulate(spec_doc(text@)->Ok_0).indices
            },
            Err(pe) => {
                &&& spec_doc(text@) is Err
                &&& pe.line as int == spec_doc(text@)->Err_0.0
                &&& pe.kind == spec_doc(text@)->Err_0.1
            },
        },
{
    match parse_document(text) {
        Ok(es) => Ok(triangulate(&es)),
        Err(e) => Err(e),
    }
}

} // verus!
