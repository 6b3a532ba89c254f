use rust_renderer::mesh::Mesh;
use rust_renderer::parse::ParseErrorKind;
use rust_renderer::triangulate::parse_obj;

fn load(text: &str) -> Mesh {
    parse_obj(&text.as_bytes().to_vec()).expect("well-formed document")
}

fn tok(s: &str) -> Vec<u8> {
    s.as_bytes().to_vec()
}

#[test]
fn unit_square_fan_triangulates_to_two_triangles() {
    // Four positions forming a unit square, one face over all corners.
    let m = load("v 0 0 0\nv 1 0 0\nv 1 1 0\nv 0 1 0\nf 1 2 3 4\n");
    assert_eq!(m.vertices.len(), 6);
    assert_eq!(m.indices, vec![0, 1, 2, 0, 2, 3]);
    for v in &m.vertices {
        assert_eq!(v.normal.x, tok("0"));
        assert_eq!(v.normal.y, tok("0"));
        assert_eq!(v.normal.z, tok("0"));
    }
    // Corner order: triangle 1 reads positions 1, 2, 3; triangle 2 reads 1, 3, 4.
    assert_eq!(m.vertices[0].position.x, tok("0"));
    assert_eq!(m.vertices[1].position.x, tok("1"));
    assert_eq!(m.vertices[3].position.x, tok("0"));
    assert_eq!(m.vertices[5].position.y, tok("1"));
}

#[test]
fn hexagon_fan_shares_first_corner() {
    let m = load(
        "v 2 0 0\nv 1 2 0\nv -1 2 0\nv -2 0 0\nv -1 -2 0\nv 1 -2 0\nf 1 2 3 4 5 6\n",
    );
    // Six corners emit 6 - 2 = 4 triangles.
    assert_eq!(m.indices.len(), 12);
    assert_eq!(m.vertices.len(), 12);
    assert_eq!(m.indices, vec![0, 1, 2, 0, 2, 3, 0, 3, 4, 0, 4, 5]);
    for t in 0..4 {
        assert_eq!(m.indices[3 * t], 0);
    }
}

#[test]
fn triangle_face_passes_through() {
    let m = load("v 0 0 0\nv 1 0 0\nv 0 1 0\nf 1 2 3\n");
    assert_eq!(m.vertices.len(), 3);
    assert_eq!(m.indices, vec![0, 1, 2]);
}

#[test]
fn emitted_index_is_one_based_source_index_minus_one() {
    let m = load("v 0 0 0\nv 1 0 0\nv 0 1 0\nf 3 1 2\n");
    assert_eq!(m.indices, vec![2, 0, 1]);
}

#[test]
fn faces_under_three_corners_are_ignored() {
    let m = load("v 0 0 0\nv 1 0 0\nf 1 2\nf 1\nf\n");
    assert_eq!(m.vertices.len(), 0);
    assert_eq!(m.indices.len(), 0);
}

#[test]
fn normal_defaults_to_zero_when_absent_or_unresolved() {
    let m = load(
        "v 0 0 0\nv 1 0 0\nv 0 1 0\nvn 0.5 0.5 0\nf 1//1 2 3//9\n",
    );
    assert_eq!(m.vertices.len(), 3);
    // Corner 1 resolves its normal.
    assert_eq!(m.vertices[0].normal.x, tok("0.5"));
    // Corner 2 has no normal reference.
    assert_eq!(m.vertices[1].normal, m.vertices[2].normal);
    assert_eq!(m.vertices[1].normal.x, tok("0"));
    // Corner 3 references normal 9, which is absent from the table.
    assert_eq!(m.vertices[2].normal.y, tok("0"));
}

#[test]
fn explicit_normal_index_zero_defaults_too() {
    let m = load("v 0 0 0\nv 1 0 0\nv 0 1 0\nf 1//0 2 3\n");
    assert_eq!(m.vertices[0].normal.x, tok("0"));
}

#[test]
fn buffers_equally_long_for_well_formed_input() {
    let m = load(
        "v 0 0 0\nv 1 0 0\nv 1 1 0\nv 0 1 0\nvn 0 0 1\nf 1//1 2 3\nf 1 3 4//1\n",
    );
    assert_eq!(m.vertices.len(), m.indices.len());
    assert_eq!(m.indices.len(), 6);
}

#[test]
fn unresolved_position_omits_vertex_but_not_index() {
    // Corners 2 and 3 reference positions that were never defined: each
    // still pushes its zero-based index, but no vertex.
    let m = load("v 0 0 0\nf 1 2 3\n");
    assert_eq!(m.vertices.len(), 1);
    assert_eq!(m.indices, vec![0, 1, 2]);
}

#[test]
fn position_defined_after_face_does_not_resolve() {
    // Tables grow in document order: a face sees only what came before.
    let m = load("v 0 0 0\nv 1 0 0\nf 1 2 3\nv 0 1 0\n");
    assert_eq!(m.vertices.len(), 2);
    assert_eq!(m.indices.len(), 3);
}

#[test]
fn empty_document_yields_empty_mesh() {
    let m = load("");
    assert_eq!(m.vertices.len(), 0);
    assert_eq!(m.indices.len(), 0);
}

#[test]
fn non_geometry_lines_are_ignored() {
    let m = load(
        "# comment\no cube\ng part\ns 1\nmtllib file.mtl\nusemtl steel\nvt 0 0\nunknownkeyword 1 2\n\nv 0 0 0\nv 1 0 0\nv 0 1 0\nf 1 2 3\n",
    );
    assert_eq!(m.vertices.len(), 3);
    assert_eq!(m.indices.len(), 3);
}

#[test]
fn malformed_position_line_reports_line_and_kind() {
    let e = parse_obj(&tok("v 1 2\n")).unwrap_err();
    assert_eq!(e.line, 1);
    assert_eq!(e.kind, ParseErrorKind::MalformedPosition);

    let e = parse_obj(&tok("v a b c\n")).unwrap_err();
    assert_eq!(e.kind, ParseErrorKind::MalformedPosition);
}

#[test]
fn malformed_normal_line_reports_line_and_kind() {
    let e = parse_obj(&tok("v 0 0 0\nvn 1 2\n")).unwrap_err();
    assert_eq!(e.line, 2);
    assert_eq!(e.kind, ParseErrorKind::MalformedNormal);
}

#[test]
fn malformed_face_corner_reports_line_and_kind() {
    let e = parse_obj(&tok("v 0 0 0\nv 1 0 0\nv 0 1 0\nf 1/x/2 2 3\n")).unwrap_err();
    assert_eq!(e.line, 4);
    assert_eq!(e.kind, ParseErrorKind::MalformedFace);
}

#[test]
fn face_position_index_zero_is_malformed() {
    let e = parse_obj(&tok("v 0 0 0\nf 0 1 1\n")).unwrap_err();
    assert_eq!(e.line, 2);
    assert_eq!(e.kind, ParseErrorKind::MalformedFace);
}

#[test]
fn face_index_beyond_u32_is_malformed() {
    let e = parse_obj(&tok("v 0 0 0\nf 99999999999 1 1\n")).unwrap_err();
    assert_eq!(e.kind, ParseErrorKind::MalformedFace);
}

#[test]
fn first_malformed_line_wins() {
    let e = parse_obj(&tok("v 0 0 0\nv bad\nvn also bad\n")).unwrap_err();
    assert_eq!(e.line, 2);
    assert_eq!(e.kind, ParseErrorKind::MalformedPosition);
}
