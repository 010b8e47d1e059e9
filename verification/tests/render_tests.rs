use scene_editor::components::CustomTexture;
use scene_editor::components::Position;
use scene_editor::components::TransformBundle;
use scene_editor::pipeline::FrameCursor;
use scene_editor::pipeline::FramePhase;
use scene_editor::pipeline::plan_frame;
use scene_editor::render_state::RenderState;
use scene_editor::scene::Scene;
use scene_editor::shader::Shader;
use scene_editor::vao::VertexArrayObject;

fn test_render_state() -> RenderState {
    RenderState::new(
        100,
        101,
        102,
        103,
        (4096, 4096),
        Shader::new(110),
        104,
        105,
        106,
        107,
        108,
        Shader::new(111),
        VertexArrayObject::new(109, 6, vec![120, 121, 122, 123]),
        Shader::new(112),
        (800, 600),
    )
}

#[test]
fn resize_updates_dimensions_and_is_idempotent() {
    let mut rs = test_render_state();
    assert!(rs.resize(1024, 768));
    assert_eq!(rs.size, (1024, 768));
    // The same size again: identical dimensions both times.
    assert!(rs.resize(1024, 768));
    assert_eq!(rs.size, (1024, 768));
}

#[test]
fn resize_to_zero_is_a_no_op() {
    let mut rs = test_render_state();
    assert!(!rs.resize(0, 0));
    assert_eq!(rs.size, (800, 600));
    assert!(!rs.resize(0, 600));
    assert!(!rs.resize(800, 0));
    assert_eq!(rs.size, (800, 600));
}

#[test]
fn render_state_teardown_releases_programs_and_quad() {
    let mut rs = test_render_state();
    let (programs, vao_handles) = rs.destroy();
    assert_eq!(programs, vec![110, 111, 112]);
    assert_eq!(vao_handles, vec![120, 121, 122, 123, 109]);
}

#[test]
fn vao_destroy_returns_buffers_then_vao() {
    let mut vao = VertexArrayObject::new(9, 36, vec![1, 2, 3, 4]);
    assert_eq!(vao.vao_id(), 9);
    assert_eq!(vao.indices_len(), 36);
    let m = vao.mesh();
    assert_eq!(m.vao_id, 9);
    assert_eq!(m.indices_len, 36);
    assert_eq!(vao.destroy(), vec![1, 2, 3, 4, 9]);
}

#[test]
fn frame_cursor_walks_the_three_passes_in_order() {
    let mut cursor = FrameCursor::new();
    assert_eq!(cursor.current_phase(), FramePhase::Idle);
    cursor.begin_shadow_pass();
    assert_eq!(cursor.current_phase(), FramePhase::ShadowPass);
    cursor.begin_geometry_pass();
    assert_eq!(cursor.current_phase(), FramePhase::GeometryPass);
    cursor.begin_deferred_pass();
    assert_eq!(cursor.current_phase(), FramePhase::DeferredLightingPass);
    cursor.finish_frame();
    assert_eq!(cursor.current_phase(), FramePhase::Idle);
}

#[test]
fn one_mesh_entity_and_one_light_make_a_one_draw_frame() {
    // One mesh entity at the origin with the default shader; the directional
    // light is built into the lighting pass. After one planned frame the
    // entity is drawn (so its footprint reaches the G-buffer) with pick
    // identifier one.
    let mut scene = Scene::new();
    let id = scene.spawn(
        TransformBundle::at_origin(),
        Some(scene_editor::components::Mesh::new(50, 36)),
        None,
    );
    let rs = test_render_state();
    let plan = plan_frame(&mut scene, &rs);

    assert_eq!(plan.shadow.len(), 1);
    assert_eq!(plan.shadow[0].vao, 50);
    assert_eq!(plan.shadow[0].entity, id);

    assert_eq!(plan.geometry.len(), 1);
    let draw = &plan.geometry[0];
    assert_eq!(draw.entity, id);
    assert_eq!(draw.vao, 50);
    assert_eq!(draw.index_count, 36);
    assert_eq!(draw.stencil_ref, 1);
    assert_eq!(draw.program, 111);
    assert_eq!(draw.diffuse, 100);
    assert_eq!(draw.specular, 101);
    assert!(!draw.draw_outline);

    assert_eq!(plan.light_count, 0);
    assert_eq!(plan.viewport, (800, 600));
    assert_eq!(plan.shadow_viewport, (4096, 4096));
    assert_eq!(plan.depth_program, 110);
    assert_eq!(plan.deferred_program, 112);
    assert_eq!(plan.quad_vao, 109);
    assert_eq!(plan.quad_index_count, 6);

    // The pick identifier was written back onto the entity.
    assert_eq!(scene.get(id).unwrap().stencil_id.unwrap().0, 1);
}

#[test]
fn plan_uses_overrides_outline_and_counts_lights() {
    let mut scene = Scene::new();
    let lit = scene.spawn(
        TransformBundle::at(Position::new(-5000, 0, 0)),
        Some(scene_editor::components::Mesh::new(51, 12)),
        Some(scene_editor::components::PointLight::new(
            scene_editor::components::Color::grey(200),
            scene_editor::components::Color::grey(1000),
            scene_editor::components::Color::grey(1000),
            1000,
            90,
            32,
        )),
    );
    let plain = scene.spawn(
        TransformBundle::at_origin(),
        Some(scene_editor::components::Mesh::new(52, 24)),
        None,
    );
    scene.add_custom_shader(lit);
    scene.install_build_result(lit, Ok(77));
    scene.set_custom_texture(lit, CustomTexture { diffuse: Some(88), specular: None });
    scene.select_only(Some(plain));

    let rs = test_render_state();
    let plan = plan_frame(&mut scene, &rs);

    assert_eq!(plan.geometry.len(), 2);
    assert_eq!(plan.light_count, 1);

    let first = &plan.geometry[0];
    assert_eq!(first.entity, lit);
    assert_eq!(first.program, 77);
    assert_eq!(first.diffuse, 88);
    assert_eq!(first.specular, 101);
    assert!(!first.draw_outline);

    let second = &plan.geometry[1];
    assert_eq!(second.entity, plain);
    assert_eq!(second.program, 111);
    assert!(second.draw_outline);
    assert_eq!(second.stencil_ref, 2);
}

#[test]
fn plan_never_uses_a_failed_or_pending_override() {
    let mut scene = Scene::new();
    let id = scene.spawn(
        TransformBundle::at_origin(),
        Some(scene_editor::components::Mesh::new(53, 6)),
        None,
    );
    scene.add_custom_shader(id);
    let rs = test_render_state();

    // Pending override (never compiled): the shared program is used.
    let plan = plan_frame(&mut scene, &rs);
    assert_eq!(plan.geometry[0].program, 111);

    // Compiled override: its program is used.
    scene.install_build_result(id, Ok(61));
    let plan = plan_frame(&mut scene, &rs);
    assert_eq!(plan.geometry[0].program, 61);

    // A failed rebuild leaves the last successfully linked program active.
    let err = scene_editor::shader::ShaderError::Compile {
        stage: scene_editor::shader::ShaderType::Vertex,
        log: "broken".to_owned(),
    };
    scene.install_build_result(id, Err(err));
    let plan = plan_frame(&mut scene, &rs);
    assert_eq!(plan.geometry[0].program, 61);
}

#[test]
fn an_empty_scene_plans_an_empty_frame() {
    let mut scene = Scene::new();
    let rs = test_render_state();
    let plan = plan_frame(&mut scene, &rs);
    assert!(plan.shadow.is_empty());
    assert!(plan.geometry.is_empty());
    assert_eq!(plan.light_count, 0);
    assert_eq!(plan.viewport, (800, 600));
}
