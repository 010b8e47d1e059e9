use scene_editor::components::Mesh;
use scene_editor::components::Position;
use scene_editor::components::Scale;
use scene_editor::components::TransformBundle;
use scene_editor::picking::handle_pick;
use scene_editor::picking::pick_index_of_pixel;
use scene_editor::picking::pick_readback_coords;
use scene_editor::picking::resolve_pick;
use scene_editor::scene::Scene;

fn mesh(vao: u32) -> Mesh {
    Mesh::new(vao, 36)
}

fn spawn_mesh_entity(scene: &mut Scene) -> u64 {
    scene.spawn(TransformBundle::at_origin(), Some(mesh(7)), None)
}

#[test]
fn spawned_entities_get_distinct_sequential_ids() {
    let mut scene = Scene::new();
    let a = spawn_mesh_entity(&mut scene);
    let b = spawn_mesh_entity(&mut scene);
    let c = scene.spawn(TransformBundle::at(Position::new(1000, 0, 0)), None, None);
    assert_eq!(a, 0);
    assert_eq!(b, 1);
    assert_eq!(c, 2);
    assert_eq!(scene.len(), 3);
}

#[test]
fn stencil_ids_are_one_based_in_iteration_order_and_skip_meshless() {
    let mut scene = Scene::new();
    let a = spawn_mesh_entity(&mut scene);
    let empty = scene.spawn(TransformBundle::at_origin(), None, None);
    let b = spawn_mesh_entity(&mut scene);
    let c = spawn_mesh_entity(&mut scene);
    let n = scene.assign_stencil_ids();
    assert_eq!(n, 3);
    assert_eq!(scene.get(a).unwrap().stencil_id.unwrap().0, 1);
    assert!(scene.get(empty).unwrap().stencil_id.is_none());
    assert_eq!(scene.get(b).unwrap().stencil_id.unwrap().0, 2);
    assert_eq!(scene.get(c).unwrap().stencil_id.unwrap().0, 3);
}

#[test]
fn stencil_ids_are_reassigned_fresh_every_frame() {
    let mut scene = Scene::new();
    let a = spawn_mesh_entity(&mut scene);
    let b = spawn_mesh_entity(&mut scene);
    scene.assign_stencil_ids();
    assert_eq!(scene.get(a).unwrap().stencil_id.unwrap().0, 1);
    assert_eq!(scene.get(b).unwrap().stencil_id.unwrap().0, 2);
    scene.despawn(a);
    let n = scene.assign_stencil_ids();
    assert_eq!(n, 1);
    assert_eq!(scene.get(b).unwrap().stencil_id.unwrap().0, 1);
}

#[test]
fn picking_background_returns_no_entity() {
    let mut scene = Scene::new();
    spawn_mesh_entity(&mut scene);
    scene.assign_stencil_ids();
    assert_eq!(resolve_pick(&scene, 0), None);
    // An identifier nothing holds also finds nothing.
    assert_eq!(resolve_pick(&scene, 200), None);
}

#[test]
fn picking_an_entitys_stencil_id_returns_that_entity() {
    let mut scene = Scene::new();
    let a = spawn_mesh_entity(&mut scene);
    let b = spawn_mesh_entity(&mut scene);
    let c = spawn_mesh_entity(&mut scene);
    scene.assign_stencil_ids();
    assert_eq!(resolve_pick(&scene, 1), Some(a));
    assert_eq!(resolve_pick(&scene, 2), Some(b));
    assert_eq!(resolve_pick(&scene, 3), Some(c));
}

#[test]
fn selecting_b_after_a_leaves_only_b_selected() {
    let mut scene = Scene::new();
    let a = spawn_mesh_entity(&mut scene);
    let b = spawn_mesh_entity(&mut scene);
    scene.select_only(Some(a));
    assert!(scene.get(a).unwrap().selected);
    assert!(!scene.get(b).unwrap().selected);
    scene.select_only(Some(b));
    assert!(!scene.get(a).unwrap().selected);
    assert!(scene.get(b).unwrap().selected);
    scene.select_only(None);
    assert!(!scene.get(a).unwrap().selected);
    assert!(!scene.get(b).unwrap().selected);
}

#[test]
fn handle_pick_selects_the_hit_entity_and_clears_on_background() {
    let mut scene = Scene::new();
    let a = spawn_mesh_entity(&mut scene);
    let b = spawn_mesh_entity(&mut scene);
    scene.assign_stencil_ids();
    assert_eq!(handle_pick(&mut scene, 2), Some(b));
    assert!(!scene.get(a).unwrap().selected);
    assert!(scene.get(b).unwrap().selected);
    assert_eq!(handle_pick(&mut scene, 0), None);
    assert!(!scene.get(a).unwrap().selected);
    assert!(!scene.get(b).unwrap().selected);
}

#[test]
fn readback_coordinates_are_y_flipped() {
    assert_eq!(pick_readback_coords(3, 0, 800, 600), Some((3, 599)));
    assert_eq!(pick_readback_coords(0, 599, 800, 600), Some((0, 0)));
    assert_eq!(pick_readback_coords(800, 10, 800, 600), None);
    assert_eq!(pick_readback_coords(10, 600, 800, 600), None);
}

#[test]
fn pick_index_is_the_low_byte_of_the_readback_pixel() {
    assert_eq!(pick_index_of_pixel(0x1234_5601), 1);
    assert_eq!(pick_index_of_pixel(0xFFFF_FF00), 0);
    assert_eq!(pick_index_of_pixel(0x0000_00FF), 255);
}

#[test]
fn despawn_removes_the_entity_and_keeps_the_rest() {
    let mut scene = Scene::new();
    let a = spawn_mesh_entity(&mut scene);
    let b = spawn_mesh_entity(&mut scene);
    let freed = scene.despawn(a);
    assert!(freed.is_some());
    assert_eq!(freed.unwrap().program, None);
    assert!(scene.get(a).is_none());
    assert!(scene.get(b).is_some());
    assert_eq!(scene.len(), 1);
    assert!(scene.despawn(a).is_none());
}

#[test]
fn set_transform_and_mesh_update_only_that_entity() {
    let mut scene = Scene::new();
    let a = spawn_mesh_entity(&mut scene);
    let b = spawn_mesh_entity(&mut scene);
    let t = TransformBundle {
        position: Position::new(5000, 0, 0),
        rotation: scene_editor::components::Rotation { x: 0, y: 90_000, z: 0 },
        scale: Scale::new(2000, 2000, 2000),
    };
    assert!(scene.set_transform(a, t));
    assert!(scene.set_mesh(b, mesh(42)));
    assert_eq!(scene.get(a).unwrap().position, Position::new(5000, 0, 0));
    assert_eq!(scene.get(a).unwrap().scale, Scale::new(2000, 2000, 2000));
    assert_eq!(scene.get(a).unwrap().mesh.unwrap().vao_id, 7);
    assert_eq!(scene.get(b).unwrap().mesh.unwrap().vao_id, 42);
    assert!(!scene.set_transform(99, t));
}

#[test]
fn mesh_entity_ids_lists_only_mesh_entities_in_order() {
    let mut scene = Scene::new();
    let a = spawn_mesh_entity(&mut scene);
    let _empty = scene.spawn(TransformBundle::at_origin(), None, None);
    let b = spawn_mesh_entity(&mut scene);
    let ids = scene.mesh_entity_ids();
    assert_eq!(ids, vec![a, b]);
}

#[test]
fn empty_scene_assigns_no_stencil_ids_and_plans_nothing() {
    let mut scene = Scene::new();
    assert_eq!(scene.assign_stencil_ids(), 0);
    assert_eq!(scene.mesh_entity_ids(), Vec::<u64>::new());
    assert_eq!(resolve_pick(&scene, 1), None);
}

#[test]
fn selecting_a_missing_id_clears_the_selection() {
    let mut scene = Scene::new();
    let a = spawn_mesh_entity(&mut scene);
    scene.select_only(Some(a));
    assert_eq!(scene.selected_entity(), Some(a));
    scene.select_only(Some(999));
    assert_eq!(scene.selected_entity(), None);
}

#[test]
fn despawning_the_middle_entity_keeps_the_order() {
    let mut scene = Scene::new();
    let a = spawn_mesh_entity(&mut scene);
    let b = spawn_mesh_entity(&mut scene);
    let c = spawn_mesh_entity(&mut scene);
    scene.despawn(b);
    assert_eq!(scene.mesh_entity_ids(), vec![a, c]);
    // Identifiers are never reused: the next spawn gets a fresh one.
    let d = spawn_mesh_entity(&mut scene);
    assert_eq!(d, 3);
}

#[test]
fn readback_coordinates_cover_the_far_corner() {
    assert_eq!(pick_readback_coords(799, 599, 800, 600), Some((799, 0)));
}
