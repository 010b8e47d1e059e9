use scene_editor::components::CustomShader;
use scene_editor::components::TransformBundle;
use scene_editor::scene::InstallOutcome;
use scene_editor::scene::Scene;
use scene_editor::shader::LinkOutcome;
use scene_editor::shader::Shader;
use scene_editor::shader::ShaderBuilder;
use scene_editor::shader::ShaderError;
use scene_editor::shader::ShaderType;
use scene_editor::shader::StageOutcome;
use scene_editor::shader::default_fragment_source;
use scene_editor::shader::default_vertex_source;

#[test]
fn stage_labels() {
    assert_eq!(ShaderType::Vertex.label(), "Vertex");
    assert_eq!(ShaderType::Fragment.label(), "Fragment");
}

#[test]
fn shader_lifecycle_returns_its_handle_once() {
    let mut s = Shader::new(17);
    assert_eq!(s.activate(), 17);
    assert_eq!(s.destroy(), 17);
}

#[test]
fn builder_collects_stages_and_link_success_releases_them() {
    let b = ShaderBuilder::new();
    let b = b.add_stage(ShaderType::Vertex, StageOutcome::Compiled { handle: 3 }).unwrap();
    let b = b.add_stage(ShaderType::Fragment, StageOutcome::Compiled { handle: 4 }).unwrap();
    let (shader, to_delete) = b.link(LinkOutcome::Linked { program: 9 });
    assert_eq!(shader.unwrap().activate(), 9);
    assert_eq!(to_delete, vec![3, 4]);
}

#[test]
fn builder_link_failure_releases_stages_and_the_program() {
    let b = ShaderBuilder::new();
    let b = b.add_stage(ShaderType::Vertex, StageOutcome::Compiled { handle: 3 }).unwrap();
    let (shader, to_delete) = b.link(LinkOutcome::Failed { program: 9, log: "bad link".to_owned() });
    match shader {
        Err(ShaderError::Link { log }) => assert_eq!(log, "bad link"),
        _ => panic!("expected a link error"),
    }
    assert_eq!(to_delete, vec![3, 9]);
}

#[test]
fn builder_compile_failure_is_stage_tagged() {
    let b = ShaderBuilder::new();
    let err = b.add_stage(ShaderType::Fragment, StageOutcome::Failed { log: "syntax error".to_owned() });
    match err {
        Err((returned, ShaderError::Compile { stage, log })) => {
            assert!(matches!(stage, ShaderType::Fragment));
            assert_eq!(log, "syntax error");
            // The builder comes back so its stages can still be released.
            let (_, to_delete) = returned.link(LinkOutcome::Failed { program: 1, log: String::new() });
            assert_eq!(to_delete, vec![1]);
        },
        _ => panic!("expected a compile error"),
    }
}

#[test]
fn diagnostic_is_the_driver_log_and_never_empty() {
    let e = ShaderError::Compile { stage: ShaderType::Vertex, log: "0:1 oops".to_owned() };
    assert_eq!(e.diagnostic(), "0:1 oops");
    let empty = ShaderError::Link { log: String::new() };
    assert!(!empty.diagnostic().is_empty());
}

#[test]
fn fresh_override_is_seeded_with_the_default_sources() {
    let cs = CustomShader::new();
    assert_eq!(cs.vert_source, default_vertex_source());
    assert_eq!(cs.frag_source, default_fragment_source());
    assert!(cs.compiled.is_none());
    assert!(cs.last_error.is_none());
}

#[test]
fn successful_build_installs_and_replaces_the_old_program() {
    let mut cs = CustomShader::new();
    assert_eq!(cs.install_build_result(Ok(5)), None);
    assert_eq!(cs.compiled.as_ref().unwrap().activate(), 5);
    assert!(cs.last_error.is_none());
    // A later successful rebuild swaps the program and hands back the old one.
    assert_eq!(cs.install_build_result(Ok(8)), Some(5));
    assert_eq!(cs.compiled.as_ref().unwrap().activate(), 8);
}

#[test]
fn failed_build_keeps_the_previous_program_and_records_a_diagnostic() {
    let mut cs = CustomShader::new();
    cs.install_build_result(Ok(5)).map(|_| ());
    let err = ShaderError::Compile { stage: ShaderType::Fragment, log: "bad fragment".to_owned() };
    assert_eq!(cs.install_build_result(Err(err)), None);
    // The previously linked program is untouched and still the active one.
    assert_eq!(cs.compiled.as_ref().unwrap().activate(), 5);
    assert_eq!(cs.last_error.as_deref(), Some("bad fragment"));
}

#[test]
fn scene_install_routes_to_the_entity_and_reports_unused_programs() {
    let mut scene = Scene::new();
    let id = scene.spawn(TransformBundle::at_origin(), None, None);
    assert!(scene.add_custom_shader(id));
    // Adding twice changes nothing.
    assert!(!scene.add_custom_shader(id));
    match scene.install_build_result(id, Ok(11)) {
        InstallOutcome::Installed { replaced } => assert_eq!(replaced, None),
        _ => panic!("expected installation"),
    }
    // A build for an entity that no longer exists hands the program back.
    match scene.install_build_result(99, Ok(12)) {
        InstallOutcome::NoTarget { unused } => assert_eq!(unused, Some(12)),
        _ => panic!("expected no target"),
    }
    // Removing the override yields its program for deletion.
    assert_eq!(scene.remove_custom_shader(id), Some(11));
    assert!(scene.get(id).unwrap().custom_shader.is_none());
}

#[test]
fn editing_a_stage_changes_only_that_source() {
    let mut scene = Scene::new();
    let id = scene.spawn(TransformBundle::at_origin(), None, None);
    scene.add_custom_shader(id);
    assert!(scene.set_shader_source(id, ShaderType::Fragment, "void main() {}".to_owned()));
    let cs = scene.get(id).unwrap().custom_shader.as_ref().unwrap();
    assert_eq!(cs.frag_source, "void main() {}");
    assert_eq!(cs.vert_source, default_vertex_source());
}

#[test]
fn despawn_yields_the_compiled_override_program() {
    let mut scene = Scene::new();
    let id = scene.spawn(TransformBundle::at_origin(), None, None);
    scene.add_custom_shader(id);
    scene.install_build_result(id, Ok(21));
    let freed = scene.despawn(id).unwrap();
    assert_eq!(freed.program, Some(21));
}

#[test]
fn teardown_destroys_every_compiled_override() {
    let mut scene = Scene::new();
    let a = scene.spawn(TransformBundle::at_origin(), None, None);
    let b = scene.spawn(TransformBundle::at_origin(), None, None);
    let c = scene.spawn(TransformBundle::at_origin(), None, None);
    scene.add_custom_shader(a);
    scene.install_build_result(a, Ok(31));
    scene.add_custom_shader(b);
    // b's override never compiled; c has none.
    let _ = c;
    let programs = scene.destroy_all_shader_overrides();
    assert_eq!(programs, vec![31]);
}

#[test]
fn a_failed_build_for_a_missing_override_installs_nothing() {
    let mut scene = Scene::new();
    let id = scene.spawn(TransformBundle::at_origin(), None, None);
    // No override was ever added, so there is nothing to install into.
    let err = ShaderError::Link { log: "no target".to_owned() };
    match scene.install_build_result(id, Err(err)) {
        InstallOutcome::NoTarget { unused } => assert_eq!(unused, None),
        _ => panic!("expected no target"),
    }
    assert!(scene.get(id).unwrap().custom_shader.is_none());
}
