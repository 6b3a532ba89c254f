//! Checks the library's parse-and-triangulate path against the same
//! algorithm driven by the `wavefront_rs` entity parser: table building,
//! fan triangulation, per-corner resolution with a zero default, and
//! zero-based index emission must agree on well-formed documents.

use std::collections::HashMap;
use std::io::BufReader;
use wavefront_rs::obj::entity::Entity;
use wavefront_rs::obj::read_lexer::ReadLexer;

use rust_renderer::triangulate::parse_obj;

type Triple = [f32; 3];

fn reference_pipeline(content: &str) -> (Vec<(Triple, Triple)>, Vec<u32>) {
    let mut positions: HashMap<usize, Triple> = HashMap::new();
    let mut normals: HashMap<usize, Triple> = HashMap::new();
    let mut vertices: Vec<(Triple, Triple)> = Vec::new();
    let mut indices: Vec<u32> = Vec::new();

    ReadLexer::read_to_end(&mut BufReader::new(content.as_bytes()), |x| match x {
        Entity::Vertex { x, y, z, w: _ } => {
            let index = positions.len() + 1;
            positions.insert(index, [x as f32, y as f32, z as f32]);
        }
        Entity::VertexNormal { x, y, z } => {
            let index = normals.len() + 1;
            normals.insert(index, [x as f32, y as f32, z as f32]);
        }
        Entity::Face { vertices: face_vertices } => {
            if face_vertices.len() >= 3 {
                let v0 = &face_vertices[0];
                for i in 1..face_vertices.len() - 1 {
                    let v1 = &face_vertices[i];
                    let v2 = &face_vertices[i + 1];
                    for v in &[v0, v1, v2] {
                        let pos_index = v.vertex as usize;
                        let norm_index = v.normal.unwrap_or(0) as usize;
                        if let Some(pos) = positions.get(&pos_index) {
                            let norm = normals.get(&norm_index).unwrap_or(&[0.0, 0.0, 0.0]);
                            vertices.push((*pos, *norm));
                        }
                        indices.push((v.vertex - 1) as u32);
                    }
                }
            }
        }
        _ => {}
    })
    .expect("reference parser accepts the document");

    (vertices, indices)
}

fn parse_coord(token: &[u8]) -> f32 {
    String::from_utf8(token.to_vec()).unwrap().parse().unwrap()
}

fn check_agreement(content: &str) {
    let (ref_vertices, ref_indices) = reference_pipeline(content);
    let mesh = parse_obj(&content.as_bytes().to_vec()).expect("library accepts the document");

    assert_eq!(mesh.indices, ref_indices);
    assert_eq!(mesh.vertices.len(), ref_vertices.len());
    for (ours, (pos, norm)) in mesh.vertices.iter().zip(ref_vertices.iter()) {
        assert_eq!(parse_coord(&ours.position.x), pos[0]);
        assert_eq!(parse_coord(&ours.position.y), pos[1]);
        assert_eq!(parse_coord(&ours.position.z), pos[2]);
        assert_eq!(parse_coord(&ours.normal.x), norm[0]);
        assert_eq!(parse_coord(&ours.normal.y), norm[1]);
        assert_eq!(parse_coord(&ours.normal.z), norm[2]);
    }
}

#[test]
fn agrees_on_a_cube_face_with_normals() {
    check_agreement(
        "# unit square\no square\nv 0 0 0\nv 1 0 0\nv 1 1 0\nv 0 1 0\nvn 0 0 1\nf 1//1 2//1 3//1 4//1\n",
    );
}

#[test]
fn agrees_on_mixed_fans_and_defaults() {
    check_agreement(
        "v -0.5 0.25 1e-2\nv 1.5 0 0\nv 1 2.25 0\nv 0 1 3.5\nv 2 2 2\nvn 0.5 0.5 0\nvn 0 1 0\nf 1/1/1 2 3//2 4 5\nf 3 2 1//9\n",
    );
}

#[test]
fn agrees_on_unresolved_position_references() {
    check_agreement("v 0 0 0\nv 1 0 0\nf 1 2 5\n");
}

#[test]
fn agrees_on_a_document_without_faces() {
    check_agreement("v 0 0 0\nvn 1 0 0\n# nothing drawn\n");
}
