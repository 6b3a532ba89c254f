use rust_renderer::scene::ColorMilli;
use rust_renderer::scene::DrawMode;
use rust_renderer::scene::ModelObject;
use rust_renderer::scene::SceneRegistry;
use rust_renderer::scene::SlotName;
use rust_renderer::RendererContext;

#[test]
fn fresh_object_is_unloaded_wireframe_white() {
    let obj = ModelObject::new();
    assert!(!obj.get_loaded());
    assert!(obj.get_draw_wireframe());
    assert_eq!(obj.get_indices_count(), 0);
    assert_eq!(obj.get_color(), ColorMilli { r: 1000, g: 1000, b: 1000, a: 1000 });
    assert_eq!(obj.draw_mode(), DrawMode::Lines);
}

#[test]
fn update_model_marks_loaded_even_for_empty_mesh() {
    let mut obj = ModelObject::new();
    obj.update_model(Vec::new(), Vec::new());
    assert!(obj.get_loaded());
    assert_eq!(obj.get_indices_count(), 0);
}

#[test]
fn draw_mode_follows_wireframe_flag() {
    let mut obj = ModelObject::new();
    obj.set_draw_wireframe(false);
    assert_eq!(obj.draw_mode(), DrawMode::Triangles);
    obj.set_draw_wireframe(true);
    assert_eq!(obj.draw_mode(), DrawMode::Lines);
}

#[test]
fn registry_slots_start_empty_and_replace_wholesale() {
    let mut reg = SceneRegistry::new();
    assert!(reg.get(SlotName::Grid).is_none());
    assert!(reg.get(SlotName::Model).is_none());
    reg.replace(SlotName::Model, ModelObject::new());
    assert!(reg.get(SlotName::Model).is_some());
    assert!(reg.get(SlotName::Grid).is_none());
    let mut replacement = ModelObject::new();
    replacement.set_color(ColorMilli { r: 1, g: 2, b: 3, a: 4 });
    reg.replace(SlotName::Model, replacement);
    assert_eq!(
        reg.get(SlotName::Model).unwrap().get_color(),
        ColorMilli { r: 1, g: 2, b: 3, a: 4 }
    );
}

#[test]
fn loading_empty_document_gives_loaded_object_and_zero_length_draw() {
    let mut ctx = RendererContext::new();
    ctx.load_mesh(&Vec::new()).expect("empty document parses");
    let model = ctx.registry.get(SlotName::Model).unwrap();
    assert!(model.get_loaded());
    assert_eq!(model.get_indices_count(), 0);
    let plan = ctx.plan_frame();
    assert_eq!(plan.draws.len(), 2);
    assert_eq!(plan.draws[1].slot, SlotName::Model);
    assert_eq!(plan.draws[1].index_count, 0);
}

#[test]
fn wireframe_toggle_leaves_index_count_alone() {
    let mut ctx = RendererContext::new();
    let text = "v 0 0 0\nv 1 0 0\nv 1 1 0\nv 0 1 0\nf 1 2 3 4\n";
    ctx.load_mesh(&text.as_bytes().to_vec()).expect("square parses");
    let count0 = ctx.registry.get(SlotName::Model).unwrap().get_indices_count();
    assert_eq!(count0, 6);
    let mode0 = ctx.registry.get(SlotName::Model).unwrap().draw_mode();

    ctx.toggle_wireframe();
    let m1 = ctx.registry.get(SlotName::Model).unwrap();
    assert_eq!(m1.get_indices_count(), count0);
    assert_ne!(m1.draw_mode(), mode0);

    ctx.toggle_wireframe();
    let m2 = ctx.registry.get(SlotName::Model).unwrap();
    assert_eq!(m2.get_indices_count(), count0);
    assert_eq!(m2.draw_mode(), mode0);

    ctx.toggle_wireframe();
    let m3 = ctx.registry.get(SlotName::Model).unwrap();
    assert_eq!(m3.get_indices_count(), count0);
    assert_ne!(m3.draw_mode(), mode0);
}

#[test]
fn set_model_color_is_observable_in_the_next_plan() {
    let mut ctx = RendererContext::new();
    ctx.set_model_color(ColorMilli { r: 100, g: 200, b: 300, a: 1000 });
    let plan = ctx.plan_frame();
    assert_eq!(plan.draws[1].color, ColorMilli { r: 100, g: 200, b: 300, a: 1000 });
}

#[test]
fn parse_failure_leaves_previous_scene_untouched() {
    let mut ctx = RendererContext::new();
    let good = "v 0 0 0\nv 1 0 0\nv 0 1 0\nf 1 2 3\n";
    ctx.load_mesh(&good.as_bytes().to_vec()).expect("good document");
    assert_eq!(ctx.registry.get(SlotName::Model).unwrap().get_indices_count(), 3);

    let bad = "v 0 0 0\nv broken line\n";
    let err = ctx.load_mesh(&bad.as_bytes().to_vec()).unwrap_err();
    assert_eq!(err.line, 2);
    // The previous mesh remains displayed.
    assert_eq!(ctx.registry.get(SlotName::Model).unwrap().get_indices_count(), 3);
}

#[test]
fn frame_plan_draws_grid_before_model() {
    let ctx = RendererContext::new();
    let plan = ctx.plan_frame();
    assert_eq!(plan.draws.len(), 2);
    assert_eq!(plan.draws[0].slot, SlotName::Grid);
    assert_eq!(plan.draws[1].slot, SlotName::Model);
    // The grid is line-authored and drawn as lines.
    assert_eq!(plan.draws[0].mode, DrawMode::Lines);
    assert_eq!(plan.draws[0].index_count, 804);
    // The model starts gray.
    assert_eq!(plan.draws[1].color, ColorMilli { r: 750, g: 750, b: 750, a: 1000 });
}
