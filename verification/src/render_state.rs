//! The renderer's long-lived GPU state and the resize rules.
//!
//! [`RenderState`] owns the G-buffer attachments, the shadow map, the three
//! shared programs and the fullscreen quad, all as plain handles, plus the
//! dimensions the G-buffer is currently allocated at. It is created once at
//! startup, sized to the window; a window resize only updates the tracked
//! dimensions (the backend reallocates the texture storage, it does not
//! recreate the objects), and a resize to a zero dimension — a minimized
//! window — is a complete no-op.

use vstd::prelude::*;

use crate::shader::Shader;
use crate::vao::VertexArrayObject;

verus! {

/// Handles and dimensions of everything the renderer keeps across frames.
pub struct RenderState {
    /// Placeholder diffuse texture bound when an entity has no override.
    pub default_diffuse: u32,
    /// Placeholder specular texture bound when an entity has no override.
    pub default_specular: u32,
    /// Framebuffer of the shadow-map pass.
    pub shadow_map_fbo: u32,
    /// Depth texture the shadow pass renders into.
    pub shadow_map: u32,
    /// Fixed allocation size of the shadow map.
    pub shadow_map_size: (u32, u32),
    /// Depth-only program of the shadow pass.
    pub depth_shader: Shader,
    /// The G-buffer framebuffer.
    pub g_buffer: u32,
    /// G-buffer position attachment.
    pub g_position: u32,
    /// G-buffer normal attachment.
    pub g_normal: u32,
    /// G-buffer albedo + specular attachment.
    pub g_albedo_spec: u32,
    /// Depth/stencil renderbuffer of the G-buffer (read back for picking).
    pub g_rbo: u32,
    /// Default program of the geometry pass.
    pub geometry_pass_shader: Shader,
    /// Fullscreen quad drawn by the deferred lighting pass.
    pub quad_vao: VertexArrayObject,
    /// Program of the deferred lighting pass.
    pub deferred_pass_shader: Shader,
    /// Dimensions the G-buffer attachments are currently allocated at.
    pub size: (u32, u32),
}

impl RenderState {
    /// The three shared programs and the quad are alive, and the G-buffer
    /// has a non-degenerate allocation.
    pub open spec fn wf(&self) -> bool {
        &&& !self.depth_shader.is_destroyed()
        &&& !self.geometry_pass_shader.is_destroyed()
        &&& !self.deferred_pass_shader.is_destroyed()
        &&& !self.quad_vao.is_destroyed()
        &&& self.size.0 > 0
        &&& self.size.1 > 0
    }

    /// Assemble the renderer state from the objects the backend created at
    /// startup, sized to the window. The backend must already have verified
    /// that the G-buffer framebuffer is complete (an incomplete one is fatal
    /// at startup).
    pub fn new(
        default_diffuse: u32,
        default_specular: u32,
        shadow_map_fbo: u32,
        shadow_map: u32,
        shadow_map_size: (u32, u32),
        depth_shader: Shader,
        g_buffer: u32,
        g_position: u32,
        g_normal: u32,
        g_albedo_spec: u32,
        g_rbo: u32,
        geometry_pass_shader: Shader,
        quad_vao: VertexArrayObject,
        deferred_pass_shader: Shader,
        window_size: (u32, u32),
    ) -> (rs: Self)
        requires
            !depth_shader.is_destroyed(),
            !geometry_pass_shader.is_destroyed(),
            !deferred_pass_shader.is_destroyed(),
            !quad_vao.is_destroyed(),
            window_size.0 > 0,
            window_size.1 > 0,
        ensures
            rs.wf(),
            rs.default_diffuse == default_diffuse,
            rs.default_specular == default_specular,
            rs.shadow_map_fbo == shadow_map_fbo,
            rs.shadow_map == shadow_map,
            rs.shadow_map_size == shadow_map_size,
            rs.depth_shader == depth_shader,
            rs.g_buffer == g_buffer,
            rs.g_position == g_position,
            rs.g_normal == g_normal,
            rs.g_albedo_spec == g_albedo_spec,
            rs.g_rbo == g_rbo,
            rs.geometry_pass_shader == geometry_pass_shader,
            rs.quad_vao == quad_vao,
            rs.deferred_pass_shader == deferred_pass_shader,
            rs.size == window_size,
    {
        RenderState {
            default_diffuse,
            default_specular,
            shadow_map_fbo,
            shadow_map,
            shadow_map_size,
            depth_shader,
            g_buffer,
            g_position,
            g_normal,
            g_albedo_spec,
            g_rbo,
            geometry_pass_shader,
            quad_vao,
            deferred_pass_shader,
            size: window_size,
        }
    }

    /// Track a window resize. Returns whether the backend must reallocate
    /// the G-buffer attachments: it must exactly when both dimensions are
    /// non-zero; a minimized window (either dimension zero) changes nothing.
    pub fn resize(&mut self, new_width: u32, new_height: u32) -> (realloc: bool)
        ensures
            *final(self) == spec_resize(*old(self), new_width, new_height),
            realloc <==> (new_width != 0 && new_height != 0),
    {
        if new_width == 0 || new_height == 0 {
            return false;
        }
        self.size = (new_width, new_height);
        true
    }

    /// Tear the state down: destroy the quad and the three shared programs,
    /// and return what the backend must delete — the program handles, and
    /// the quad's buffer and vertex-array handles.
    pub fn destroy(&mut self) -> (r: (Vec<u32>, Vec<u32>))
        requires
            old(self).wf(),
        ensures
            final(self).depth_shader.is_destroyed(),
            final(self).geometry_pass_shader.is_destroyed(),
            final(self).deferred_pass_shader.is_destroyed(),
            final(self).quad_vao.is_destroyed(),
            r.0@ == seq![
                old(self).depth_shader.spec_program(),
                old(self).geometry_pass_shader.spec_program(),
                old(self).deferred_pass_shader.spec_program(),
            ],
            r.1@ == old(self).quad_vao.spec_buffers().push(old(self).quad_vao.spec_vao_id()),
    {
        let vao_handles = self.quad_vao.destroy();
        let mut programs = Vec::new();
        programs.push(self.depth_shader.destroy());
        programs.push(self.geometry_pass_shader.destroy());
        programs.push(self.deferred_pass_shader.destroy());
        proof {
            assert(programs@ =~= seq![
                old(self).depth_shader.spec_program(),
                old(self).geometry_pass_shader.spec_program(),
                old(self).deferred_pass_shader.spec_program(),
            ]);
        }
        (programs, vao_handles)
    }
}

/// What a resize request does to the tracked state: updates the G-buffer
/// dimensions when both are non-zero, otherwise leaves everything untouched.
pub open spec fn spec_resize(rs: RenderState, w: u32, h: u32) -> RenderState {
    if w == 0 || h == 0 {
        rs
    } else {
        RenderState { size: (w, h), ..rs }
    }
}

/// Resizing is idempotent: repeating a resize with the same dimensions
/// changes nothing beyond the first call (the G-buffer dimensions are
/// identical both times), and a resize with a zero dimension is a no-op.
pub proof fn lemma_resize_idempotent(rs: RenderState, w: u32, h: u32)
    ensures
        spec_resize(spec_resize(rs, w, h), w, h) == spec_resize(rs, w, h),
        w == 0 || h == 0 ==> spec_resize(rs, w, h) == rs,
{
}

} // verus!
