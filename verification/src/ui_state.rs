//! State of the inspector UI, including the shader hot-reload editor.
//!
//! `editing_mode` is the hot-reload controller's state: which stage of the
//! selected entity's shader override is open in the live editor. Entering
//! and leaving the editor are the verified transitions; drawing the widgets
//! is the UI toolkit's business.

use vstd::prelude::*;

use crate::shader::ShaderType;

verus! {

/// What the inspector currently shows and which names are picked in its
/// drop-downs.
pub struct UiState {
    /// Whether the camera is in fly mode (right mouse button held).
    pub camera_focused: bool,
    /// Whether the utilities panel is open.
    pub utilities_open: bool,
    /// Whether the performance window is open.
    pub performance_open: bool,
    /// Which shader stage of the selected entity is open in the live
    /// editor, if any.
    pub editing_mode: Option<ShaderType>,
    /// Model name picked in the "change model" drop-down.
    pub selected_model: Option<String>,
    /// Texture name picked for the diffuse override.
    pub selected_diffuse: Option<String>,
    /// Texture name picked for the specular override.
    pub selected_specular: Option<String>,
}

impl UiState {
    /// Everything closed, nothing being edited, nothing picked.
    pub fn new() -> (s: Self)
        ensures
            !s.camera_focused,
            !s.utilities_open,
            !s.performance_open,
            s.editing_mode is None,
            s.selected_model is None,
            s.selected_diffuse is None,
            s.selected_specular is None,
    {
        Self {
            camera_focused: false,
            utilities_open: false,
            performance_open: false,
            editing_mode: None,
            selected_model: None,
            selected_diffuse: None,
            selected_specular: None,
        }
    }

    /// Open the live editor on one stage of the selected entity's override.
    pub fn begin_editing(&mut self, stage: ShaderType)
        ensures
            final(self).editing_mode == Some(stage),
            final(self).camera_focused == old(self).camera_focused,
            final(self).utilities_open == old(self).utilities_open,
            final(self).performance_open == old(self).performance_open,
            final(self).selected_model == old(self).selected_model,
            final(self).selected_diffuse == old(self).selected_diffuse,
            final(self).selected_specular == old(self).selected_specular,
    {
        self.editing_mode = Some(stage);
    }

    /// Close the live editor (on "save and close"; the caller then rebuilds
    /// the override from its current sources).
    pub fn finish_editing(&mut self)
        ensures
            final(self).editing_mode is None,
            final(self).camera_focused == old(self).camera_focused,
            final(self).utilities_open == old(self).utilities_open,
            final(self).performance_open == old(self).performance_open,
            final(self).selected_model == old(self).selected_model,
            final(self).selected_diffuse == old(self).selected_diffuse,
            final(self).selected_specular == old(self).selected_specular,
    {
        self.editing_mode = None;
    }
}

impl Default for UiState {
    /// Same as [`UiState::new`].
    fn default() -> (s: Self)
        ensures
            !s.camera_focused,
            !s.utilities_open,
            !s.performance_open,
            s.editing_mode is None,
            s.selected_model is None,
            s.selected_diffuse is None,
            s.selected_specular is None,
    {
        UiState::new()
    }
}

} // verus!
