use scene_editor::assets::AssetError;
use scene_editor::assets::GL_RGB;
use scene_editor::assets::GL_RGBA;
use scene_editor::assets::GL_UNSIGNED_BYTE;
use scene_editor::assets::GL_UNSIGNED_SHORT;
use scene_editor::assets::PngBitDepth;
use scene_editor::assets::PngColorSpace;
use scene_editor::assets::texture_format_for;
use scene_editor::assets::validate_model_count;
use scene_editor::editor::Editor;
use scene_editor::editor::EditorAction;
use scene_editor::editor::EditorEvent;
use scene_editor::input::Input;
use scene_editor::registry::ModelLoader;
use scene_editor::registry::TextureLoader;
use scene_editor::render_state::RenderState;
use scene_editor::shader::Shader;
use scene_editor::shader::ShaderType;
use scene_editor::state::Renderer;
use scene_editor::state::State;
use scene_editor::ui_state::UiState;
use scene_editor::vao::VertexArrayObject;

const KEY_E: u32 = 14;
const BUTTON_LEFT: u32 = 0;

fn test_render_state() -> RenderState {
    RenderState::new(
        1,
        2,
        3,
        4,
        (4096, 4096),
        Shader::new(5),
        6,
        7,
        8,
        9,
        10,
        Shader::new(11),
        VertexArrayObject::new(12, 6, vec![13, 14]),
        Shader::new(15),
        (640, 480),
    )
}

#[test]
fn key_press_fires_once_then_reads_as_held() {
    let mut input = Input::new();
    input.handle_keyboard_input(KEY_E, true);
    assert!(input.get_key_press(KEY_E));
    assert!(input.get_key_press_continuous(KEY_E));
    input.update_after_frame();
    assert!(!input.get_key_press(KEY_E));
    assert!(input.get_key_press_continuous(KEY_E));
    input.handle_keyboard_input(KEY_E, false);
    assert!(!input.get_key_press(KEY_E));
    assert!(!input.get_key_press_continuous(KEY_E));
}

#[test]
fn mouse_buttons_follow_the_same_pressed_held_rules() {
    let mut input = Input::new();
    input.handle_mouse_button_input(BUTTON_LEFT, true);
    assert!(input.get_mouse_button_press(BUTTON_LEFT));
    assert!(input.get_mouse_button_press_continuous(BUTTON_LEFT));
    input.update_after_frame();
    assert!(!input.get_mouse_button_press(BUTTON_LEFT));
    assert!(input.get_mouse_button_press_continuous(BUTTON_LEFT));
    input.handle_mouse_button_input(BUTTON_LEFT, false);
    assert!(!input.get_mouse_button_press_continuous(BUTTON_LEFT));
}

#[test]
fn a_repeated_press_refreshes_the_key() {
    let mut input = Input::new();
    input.handle_keyboard_input(KEY_E, true);
    input.update_after_frame();
    assert!(!input.get_key_press(KEY_E));
    input.handle_keyboard_input(KEY_E, true);
    assert!(input.get_key_press(KEY_E));
}

#[test]
fn right_mouse_button_toggles_camera_focus_and_cursor_grab() {
    let mut ed = Editor::new(test_render_state());
    let action = ed.handle_event(EditorEvent::RightMouseButton { pressed: true });
    assert_eq!(action, EditorAction::GrabCursor);
    assert!(ed.ui.camera_focused);
    let action = ed.handle_event(EditorEvent::RightMouseButton { pressed: false });
    assert_eq!(action, EditorAction::ReleaseCursor);
    assert!(!ed.ui.camera_focused);
}

#[test]
fn resize_events_demand_reallocation_except_when_minimized() {
    let mut ed = Editor::new(test_render_state());
    let action = ed.handle_event(EditorEvent::Resized { width: 1920, height: 1080 });
    assert_eq!(action, EditorAction::ResizeViewport { width: 1920, height: 1080 });
    assert_eq!(ed.render_state.size, (1920, 1080));
    let action = ed.handle_event(EditorEvent::Resized { width: 0, height: 0 });
    assert_eq!(action, EditorAction::Nothing);
    assert_eq!(ed.render_state.size, (1920, 1080));
}

#[test]
fn cursor_and_key_events_reach_the_input_tracker() {
    let mut ed = Editor::new(test_render_state());
    ed.handle_event(EditorEvent::CursorMoved { x: 10, y: 20 });
    assert_eq!(ed.input.cursor(), (10, 20));
    ed.handle_event(EditorEvent::Key { code: KEY_E, pressed: true });
    assert!(ed.input.get_key_press(KEY_E));
    ed.handle_event(EditorEvent::MouseButton { button: BUTTON_LEFT, pressed: true });
    assert!(ed.input.get_mouse_button_press(BUTTON_LEFT));
    ed.end_frame();
    assert!(!ed.input.get_key_press(KEY_E));
    assert!(!ed.input.get_mouse_button_press(BUTTON_LEFT));
}

#[test]
fn ui_state_editing_transitions() {
    let mut ui = UiState::new();
    assert!(ui.editing_mode.is_none());
    ui.begin_editing(ShaderType::Fragment);
    assert!(matches!(ui.editing_mode, Some(ShaderType::Fragment)));
    ui.finish_editing();
    assert!(ui.editing_mode.is_none());
    let d = UiState::default();
    assert!(!d.utilities_open && !d.performance_open && !d.camera_focused);
}

#[test]
fn model_registry_stores_replaces_and_tears_down() {
    let mut models = ModelLoader::new();
    assert!(models.insert("Cube".to_owned(), VertexArrayObject::new(1, 36, vec![2, 3])).is_none());
    assert!(models.insert("Plane".to_owned(), VertexArrayObject::new(4, 6, vec![5, 6])).is_none());
    assert_eq!(models.len(), 2);
    assert_eq!(models.get(&"Cube".to_owned()).unwrap().vao_id(), 1);
    assert!(models.get(&"Sphere".to_owned()).is_none());
    assert_eq!(models.keys(), vec!["Cube".to_owned(), "Plane".to_owned()]);

    // Re-registering a name hands the displaced vertex array back.
    let displaced = models.insert("Cube".to_owned(), VertexArrayObject::new(7, 36, vec![8, 9]));
    assert_eq!(displaced.unwrap().vao_id(), 1);
    assert_eq!(models.get(&"Cube".to_owned()).unwrap().vao_id(), 7);

    let handles = models.destroy_all();
    assert_eq!(handles, vec![8, 9, 7, 5, 6, 4]);
}

#[test]
fn texture_registry_stores_and_replaces() {
    let mut textures = TextureLoader::new();
    assert!(textures.insert("bricks".to_owned(), 31).is_none());
    assert_eq!(textures.get(&"bricks".to_owned()), Some(31));
    assert_eq!(textures.insert("bricks".to_owned(), 32), Some(31));
    assert_eq!(textures.get(&"bricks".to_owned()), Some(32));
    assert_eq!(textures.keys(), vec!["bricks".to_owned()]);
    assert_eq!(textures.get(&"wood".to_owned()), None);
}

#[test]
fn texture_formats_map_exactly_and_reject_the_rest() {
    assert_eq!(
        texture_format_for(PngColorSpace::Rgb, PngBitDepth::Eight).unwrap().source_format,
        GL_RGB
    );
    assert_eq!(
        texture_format_for(PngColorSpace::Rgb, PngBitDepth::Eight).unwrap().source_type,
        GL_UNSIGNED_BYTE
    );
    assert_eq!(
        texture_format_for(PngColorSpace::Rgba, PngBitDepth::Sixteen).unwrap().source_type,
        GL_UNSIGNED_SHORT
    );
    assert_eq!(
        texture_format_for(PngColorSpace::Rgba, PngBitDepth::Eight).unwrap().source_format,
        GL_RGBA
    );
    assert_eq!(
        texture_format_for(PngColorSpace::Other, PngBitDepth::Eight),
        Err(AssetError::UnsupportedPixelFormat)
    );
    assert_eq!(
        texture_format_for(PngColorSpace::Rgb, PngBitDepth::Other),
        Err(AssetError::UnsupportedPixelFormat)
    );
}

#[test]
fn asset_errors_have_messages_and_model_files_need_models() {
    assert_eq!(validate_model_count(0), Err(AssetError::NoModels));
    assert!(validate_model_count(3).is_ok());
    assert!(!AssetError::NoModels.message().is_empty());
    assert!(!AssetError::UnsupportedPixelFormat.message().is_empty());
}

struct CountingRenderer {
    rendered: std::cell::Cell<u32>,
}

impl Renderer for CountingRenderer {
    fn render(&self, state: &State) {
        assert_eq!(state.window_size(), (320, 200));
        self.rendered.set(self.rendered.get() + 1);
    }
}

#[test]
fn state_tracks_window_size_and_drives_a_renderer() {
    let mut state = State::new((100, 100));
    state.resize((320, 200));
    assert_eq!(state.window_size(), (320, 200));
    let renderer = CountingRenderer { rendered: std::cell::Cell::new(0) };
    state.render(&renderer);
    assert_eq!(renderer.rendered.get(), 1);
}
