use rust_renderer::generate_grid;
use rust_renderer::RendererContext;
use rust_renderer::scene::SlotName;

fn text(v: &[u8]) -> String {
    String::from_utf8(v.to_vec()).unwrap()
}

#[test]
fn small_grid_has_expected_layout() {
    let (vertices, indices) = generate_grid(1, 1000);
    // Three lines per direction, two vertices per line.
    assert_eq!(vertices.len(), 12);
    assert_eq!(indices.len(), 12);
    for (j, ix) in indices.iter().enumerate() {
        assert_eq!(*ix as usize, j);
    }
    // First line parallel to X at z = -1.
    assert_eq!(text(&vertices[0].position.x), "-1.000");
    assert_eq!(text(&vertices[0].position.y), "0.000");
    assert_eq!(text(&vertices[0].position.z), "-1.000");
    assert_eq!(text(&vertices[1].position.x), "1.000");
    assert_eq!(text(&vertices[1].position.z), "-1.000");
    // Second line at z = 0.
    assert_eq!(text(&vertices[2].position.z), "0.000");
    // First line parallel to Z at x = -1.
    assert_eq!(text(&vertices[6].position.x), "-1.000");
    assert_eq!(text(&vertices[6].position.z), "-1.000");
    assert_eq!(text(&vertices[7].position.x), "-1.000");
    assert_eq!(text(&vertices[7].position.z), "1.000");
    // Every grid vertex points up.
    for v in &vertices {
        assert_eq!(text(&v.normal.x), "0.000");
        assert_eq!(text(&v.normal.y), "1.000");
        assert_eq!(text(&v.normal.z), "0.000");
    }
}

#[test]
fn grid_spacing_scales_coordinates() {
    let (vertices, _) = generate_grid(2, 500);
    // Lines run from -2 * 0.5 to 2 * 0.5.
    assert_eq!(text(&vertices[0].position.x), "-1.000");
    assert_eq!(text(&vertices[1].position.x), "1.000");
    assert_eq!(text(&vertices[0].position.z), "-1.000");
    assert_eq!(text(&vertices[2].position.z), "-0.500");
}

#[test]
fn zero_half_count_gives_the_two_axes() {
    let (vertices, indices) = generate_grid(0, 1000);
    assert_eq!(vertices.len(), 4);
    assert_eq!(indices.len(), 4);
    assert_eq!(text(&vertices[0].position.x), "0.000");
    assert_eq!(text(&vertices[0].position.z), "0.000");
}

#[test]
fn startup_grid_is_a_loaded_line_list() {
    let ctx = RendererContext::new();
    let grid = ctx.registry.get(SlotName::Grid).unwrap();
    assert!(grid.get_loaded());
    assert!(grid.get_draw_wireframe());
    // 201 lines per direction, two vertices each, indexed 1:1 — an
    // even count, as a line list needs.
    assert_eq!(grid.get_indices_count(), 804);
    assert_eq!(grid.get_indices_count() % 2, 0);
    assert_eq!(grid.vertices().len(), 804);
    // Grid coordinates reparse as whole units.
    let v0 = &grid.vertices()[0];
    let x: f32 = text(&v0.position.x).parse().unwrap();
    assert_eq!(x, -100.0);
}
