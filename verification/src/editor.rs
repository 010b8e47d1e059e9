//! The editor's event handling: what each window event does to the state,
//! and which action the backend must carry out in response.
//!
//! The application's loop receives window events, forwards each one here as
//! plain values, performs the returned [`EditorAction`] with the windowing
//! and graphics layers, runs the frame (UI, camera, spawning, picking,
//! rendering), and finally calls [`Editor::end_frame`].

use vstd::prelude::*;

use crate::input::Input;
use crate::render_state::RenderState;
use crate::render_state::spec_resize;
use crate::scene::Scene;
use crate::ui_state::UiState;

verus! {

/// A window event, reduced to plain values.
pub enum EditorEvent {
    /// The right mouse button toggles camera fly mode (and cursor capture).
    RightMouseButton { pressed: bool },
    /// Any other mouse button.
    MouseButton { button: u32, pressed: bool },
    /// The cursor moved to `(x, y)`, window coordinates, top-left origin.
    CursorMoved { x: u32, y: u32 },
    /// A key went down or up.
    Key { code: u32, pressed: bool },
    /// The window was resized.
    Resized { width: u32, height: u32 },
}

/// What the backend must do after an event was applied.
#[derive(Clone, Copy, PartialEq, Eq, Structural, Debug)]
pub enum EditorAction {
    /// Nothing beyond the state change.
    Nothing,
    /// Confine and hide the cursor (camera fly mode begins).
    GrabCursor,
    /// Release and show the cursor (camera fly mode ends).
    ReleaseCursor,
    /// Reallocate the G-buffer attachments and surface to this size and
    /// update the camera projection.
    ResizeViewport { width: u32, height: u32 },
}

/// The editor's complete state: the scene, the input tracker, the UI state
/// and the renderer's long-lived GPU state.
pub struct Editor {
    /// The entity store.
    pub scene: Scene,
    /// Keyboard, mouse and cursor state.
    pub input: Input,
    /// Inspector and shader-editor state.
    pub ui: UiState,
    /// The renderer's framebuffers, programs and dimensions.
    pub render_state: RenderState,
}

impl Editor {
    /// Scene, input and render state are each well-formed.
    pub open spec fn wf(&self) -> bool {
        &&& self.scene.wf()
        &&& self.input.wf()
        &&& self.render_state.wf()
    }

    /// A fresh editor around the render state the backend created at
    /// startup: empty scene, no input, closed UI.
    pub fn new(render_state: RenderState) -> (ed: Self)
        requires
            render_state.wf(),
        ensures
            ed.wf(),
            ed.scene.entities().len() == 0,
            ed.render_state == render_state,
            !ed.ui.camera_focused,
            ed.ui.editing_mode is None,
    {
        Self { scene: Scene::new(), input: Input::new(), ui: UiState::new(), render_state }
    }

    /// Apply one window event and say what the backend must do.
    ///
    /// Right mouse presses enter camera fly mode (grab the cursor) and
    /// releases leave it; other buttons and keys go to the input tracker;
    /// cursor positions are recorded for picking; a resize updates the
    /// tracked G-buffer dimensions and demands a reallocation, except that a
    /// zero dimension (minimized window) changes nothing at all.
    pub fn handle_event(&mut self, event: EditorEvent) -> (action: EditorAction)
        requires
            old(self).wf(),
        ensures
            final(self).wf(),
            final(self).scene == old(self).scene,
            (match event {
                EditorEvent::RightMouseButton { pressed } => {
                    &&& final(self).ui == (UiState { camera_focused: pressed, ..old(self).ui })
                    &&& final(self).input == old(self).input
                    &&& final(self).render_state == old(self).render_state
                    &&& action == (if pressed {
                        EditorAction::GrabCursor
                    } else {
                        EditorAction::ReleaseCursor
                    })
                },
                EditorEvent::MouseButton { button, pressed } => {
                    &&& final(self).ui == old(self).ui
                    &&& final(self).render_state == old(self).render_state
                    &&& (forall|c: u32|
                        final(self).input.fresh_buttons().contains(c) <==> (if pressed {
                            old(self).input.fresh_buttons().contains(c) || c == button
                        } else {
                            old(self).input.fresh_buttons().contains(c) && c != button
                        }))
                    &&& (forall|c: u32|
                        final(self).input.down_buttons().contains(c) <==> (if pressed {
                            old(self).input.down_buttons().contains(c) || c == button
                        } else {
                            old(self).input.down_buttons().contains(c) && c != button
                        }))
                    &&& final(self).input.down_keys() == old(self).input.down_keys()
                    &&& final(self).input.fresh_keys() == old(self).input.fresh_keys()
                    &&& final(self).input.spec_cursor() == old(self).input.spec_cursor()
                    &&& action == EditorAction::Nothing
                },
                EditorEvent::CursorMoved { x, y } => {
                    &&& final(self).ui == old(self).ui
                    &&& final(self).render_state == old(self).render_state
                    &&& final(self).input.spec_cursor() == (x, y)
                    &&& final(self).input.down_keys() == old(self).input.down_keys()
                    &&& final(self).input.fresh_keys() == old(self).input.fresh_keys()
                    &&& final(self).input.down_buttons() == old(self).input.down_buttons()
                    &&& final(self).input.fresh_buttons() == old(self).input.fresh_buttons()
                    &&& action == EditorAction::Nothing
                },
                EditorEvent::Key { code, pressed } => {
                    &&& final(self).ui == old(self).ui
                    &&& final(self).render_state == old(self).render_state
                    &&& (forall|c: u32|
                        final(self).input.fresh_keys().contains(c) <==> (if pressed {
                            old(self).input.fresh_keys().contains(c) || c == code
                        } else {
                            old(self).input.fresh_keys().contains(c) && c != code
                        }))
                    &&& (forall|c: u32|
                        final(self).input.down_keys().contains(c) <==> (if pressed {
                            old(self).input.down_keys().contains(c) || c == code
                        } else {
                            old(self).input.down_keys().contains(c) && c != code
                        }))
                    &&& final(self).input.down_buttons() == old(self).input.down_buttons()
                    &&& final(self).input.fresh_buttons() == old(self).input.fresh_buttons()
                    &&& final(self).input.spec_cursor() == old(self).input.spec_cursor()
                    &&& action == EditorAction::Nothing
                },
                EditorEvent::Resized { width, height } => {
                    &&& final(self).ui == old(self).ui
                    &&& final(self).input == old(self).input
                    &&& final(self).render_state == spec_resize(
                        old(self).render_state,
                        width,
                        height,
                    )
                    &&& action == (if width != 0 && height != 0 {
                        EditorAction::ResizeViewport { width, height }
                    } else {
                        EditorAction::Nothing
                    })
                },
            }),
    {
        match event {
            EditorEvent::RightMouseButton { pressed } => {
                self.ui.camera_focused = pressed;
                if pressed {
                    EditorAction::GrabCursor
                } else {
                    EditorAction::ReleaseCursor
                }
            },
            EditorEvent::MouseButton { button, pressed } => {
                self.input.handle_mouse_button_input(button, pressed);
                EditorAction::Nothing
            },
            EditorEvent::CursorMoved { x, y } => {
                self.input.set_cursor(x, y);
                EditorAction::Nothing
            },
            EditorEvent::Key { code, pressed } => {
                self.input.handle_keyboard_input(code, pressed);
                EditorAction::Nothing
            },
            EditorEvent::Resized { width, height } => {
                let realloc = self.render_state.resize(width, height);
                if realloc {
                    EditorAction::ResizeViewport { width, height }
                } else {
                    EditorAction::Nothing
                }
            },
        }
    }

    /// End-of-frame bookkeeping: pressed keys and buttons become held, so
    /// edge-triggered actions fire once per press.
    pub fn end_frame(&mut self)
        requires
            old(self).wf(),
        ensures
            final(self).wf(),
            final(self).scene == old(self).scene,
            final(self).ui == old(self).ui,
            final(self).render_state == old(self).render_state,
            final(self).input.down_keys() == old(self).input.down_keys(),
            final(self).input.down_buttons() == old(self).input.down_buttons(),
            final(self).input.spec_cursor() == old(self).input.spec_cursor(),
            final(self).input.fresh_keys().len() == 0,
            final(self).input.fresh_buttons().len() == 0,
    {
        self.input.update_after_frame();
    }
}

} // verus!
