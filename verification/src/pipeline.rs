//! The per-frame render pipeline: shadow pass, geometry pass, deferred
//! lighting pass.
//!
//! Each frame runs the three passes in that strict order ([`FrameCursor`]
//! enforces it). [`plan_frame`] computes everything the passes will do as
//! plain data: it assigns this frame's pick identifiers to the scene and
//! produces one draw command per mesh entity for the shadow and geometry
//! passes plus the parameters of the fullscreen lighting draw. The backend
//! executes the plan with the graphics driver, command by command, in order.

use vstd::prelude::*;

use crate::render_state::RenderState;
use crate::scene::Entity;
use crate::scene::Scene;
use crate::scene::lemma_light_count_step;
use crate::scene::lemma_mesh_count_step;
use crate::scene::light_count;
use crate::scene::mesh_count;
use crate::scene::stencils_assigned;

verus! {

/// One depth-only draw of the shadow pass: the light's view needs only the
/// mesh and its model transform, no material.
#[derive(Clone, Copy, PartialEq, Eq, Structural, Debug)]
pub struct ShadowDraw {
    /// Entity whose transform the backend uploads as the model matrix.
    pub entity: u64,
    /// Vertex array to draw.
    pub vao: u32,
    /// Number of indices to draw.
    pub index_count: usize,
}

/// One geometry-pass draw: mesh, program, textures and the stencil
/// reference to write, plus whether the selection outline follows.
#[derive(Clone, Copy, PartialEq, Eq, Structural, Debug)]
pub struct DrawCall {
    /// Entity whose transform the backend uploads.
    pub entity: u64,
    /// Vertex array to draw.
    pub vao: u32,
    /// Number of indices to draw.
    pub index_count: usize,
    /// Program to draw with: the entity's last successfully linked override
    /// if it has one, otherwise the shared geometry-pass program. A stale or
    /// failed override is never used.
    pub program: u32,
    /// The pick identifier written into the stencil buffer by this draw.
    pub stencil_ref: usize,
    /// Diffuse texture to bind (the entity's override or the default).
    pub diffuse: u32,
    /// Specular texture to bind (the entity's override or the default).
    pub specular: u32,
    /// Whether the entity is selected: the backend then redraws it slightly
    /// scaled up with the shared program, the `selected` uniform set and the
    /// stencil test inverted, to get an outline.
    pub draw_outline: bool,
}

/// Everything one frame's three passes will do, as plain data.
pub struct FramePlan {
    /// Shadow-pass draws, one per mesh entity, in iteration order.
    pub shadow: Vec<ShadowDraw>,
    /// Geometry-pass draws, one per mesh entity, in iteration order.
    pub geometry: Vec<DrawCall>,
    /// Program of the shadow pass.
    pub depth_program: u32,
    /// Resolution of the shadow map (the shadow pass viewport).
    pub shadow_viewport: (u32, u32),
    /// Viewport of the geometry and lighting passes: the G-buffer size.
    pub viewport: (u32, u32),
    /// Program of the deferred lighting pass.
    pub deferred_program: u32,
    /// Number of point lights the lighting pass uploads this frame.
    pub light_count: usize,
    /// Fullscreen quad of the lighting pass.
    pub quad_vao: u32,
    /// Index count of the fullscreen quad.
    pub quad_index_count: usize,
}

/// The shadow-pass draw for a mesh entity.
pub open spec fn shadow_draw_of(e: Entity) -> ShadowDraw {
    ShadowDraw { entity: e.id, vao: e.mesh->Some_0.vao_id, index_count: e.mesh->Some_0.indices_len }
}

/// The program a mesh entity is drawn with in the geometry pass: its last
/// successfully linked override when one exists, else the shared program.
pub open spec fn program_of(e: Entity, rs: RenderState) -> u32 {
    match e.custom_shader {
        Some(cs) => match cs.compiled {
            Some(s) => s.spec_program(),
            None => rs.geometry_pass_shader.spec_program(),
        },
        None => rs.geometry_pass_shader.spec_program(),
    }
}

/// The geometry-pass draw for a mesh entity (after this frame's pick
/// identifier was assigned to it).
pub open spec fn draw_call_of(e: Entity, rs: RenderState) -> DrawCall {
    DrawCall {
        entity: e.id,
        vao: e.mesh->Some_0.vao_id,
        index_count: e.mesh->Some_0.indices_len,
        program: program_of(e, rs),
        stencil_ref: e.stencil_id->Some_0.0,
        diffuse: match e.custom_texture {
            Some(t) => match t.diffuse {
                Some(d) => d,
                None => rs.default_diffuse,
            },
            None => rs.default_diffuse,
        },
        specular: match e.custom_texture {
            Some(t) => match t.specular {
                Some(sp) => sp,
                None => rs.default_specular,
            },
            None => rs.default_specular,
        },
        draw_outline: e.selected,
    }
}

/// The plan `plan_frame` owes for a scene in state `s` (after stencil
/// assignment): one shadow and one geometry draw per mesh entity, placed at
/// the entity's rank among mesh entities, and the lighting-pass parameters
/// taken from the render state.
pub open spec fn frame_plan_matches(plan: FramePlan, s: Seq<Entity>, rs: RenderState) -> bool {
    &&& plan.shadow@.len() == mesh_count(s)
    &&& plan.geometry@.len() == mesh_count(s)
    &&& (forall|i: int|
        0 <= i < s.len() && (#[trigger] s[i]).mesh is Some ==> plan.shadow@[mesh_count(s.take(i))]
            == shadow_draw_of(s[i]) && plan.geometry@[mesh_count(s.take(i))] == draw_call_of(
            s[i],
            rs,
        ))
    &&& plan.depth_program == rs.depth_shader.spec_program()
    &&& plan.shadow_viewport == rs.shadow_map_size
    &&& plan.viewport == rs.size
    &&& plan.deferred_program == rs.deferred_pass_shader.spec_program()
    &&& plan.light_count as int == light_count(s)
    &&& plan.quad_vao == rs.quad_vao.spec_vao_id()
    &&& plan.quad_index_count == rs.quad_vao.spec_indices_len()
}

/// Plan one frame: assign this frame's pick identifiers (1-based, in
/// iteration order) and lay out the three passes.
///
/// The returned plan draws exactly the mesh entities, in iteration order,
/// each with the stencil reference that was just written back to it, the
/// last successfully linked program that applies to it and its texture
/// overrides or the defaults; the lighting pass sees every point light.
pub fn plan_frame(scene: &mut Scene, rs: &RenderState) -> (plan: FramePlan)
    requires
        old(scene).wf(),
        rs.wf(),
    ensures
        final(scene).wf(),
        final(scene).spec_next_id() == old(scene).spec_next_id(),
        stencils_assigned(old(scene).entities(), final(scene).entities()),
        frame_plan_matches(plan, final(scene).entities(), *rs),
{
    scene.assign_stencil_ids();
    let n = scene.len();
    let mut shadow: Vec<ShadowDraw> = Vec::new();
    let mut geometry: Vec<DrawCall> = Vec::new();
    let mut lights: usize = 0;
    let mut k: usize = 0;
    let ghost s = scene.entities();
    while k < n
        invariant
            n == s.len(),
            s == scene.entities(),
            scene.wf(),
            rs.wf(),
            scene.spec_next_id() == old(scene).spec_next_id(),
            stencils_assigned(old(scene).entities(), scene.entities()),
            k <= n,
            lights <= k,
            shadow@.len() == mesh_count(s.take(k as int)),
            geometry@.len() == mesh_count(s.take(k as int)),
            lights as int == light_count(s.take(k as int)),
            forall|i: int|
                0 <= i < k && (#[trigger] s[i]).mesh is Some ==> 0 <= mesh_count(s.take(i))
                    < shadow@.len() && shadow@[mesh_count(s.take(i))] == shadow_draw_of(s[i])
                    && geometry@[mesh_count(s.take(i))] == draw_call_of(s[i], *rs),
        decreases n - k,
    {
        let ghost shadow0 = shadow@;
        let ghost geometry0 = geometry@;
        proof {
            lemma_mesh_count_step(s, k as int);
            lemma_light_count_step(s, k as int);
        }
        let e = scene.entity_at(k);
        match e.mesh {
            Some(mesh) => {
                let stencil_ref = match e.stencil_id {
                    Some(sid) => sid.0,
                    None => 0,
                };
                let program = match &e.custom_shader {
                    Some(cs) => match &cs.compiled {
                        Some(sh) => sh.activate(),
                        None => rs.geometry_pass_shader.activate(),
                    },
                    None => rs.geometry_pass_shader.activate(),
                };
                let (diffuse, specular) = match e.custom_texture {
                    Some(t) => {
                        let d = match t.diffuse {
                            Some(d) => d,
                            None => rs.default_diffuse,
                        };
                        let sp = match t.specular {
                            Some(sp) => sp,
                            None => rs.default_specular,
                        };
                        (d, sp)
                    },
                    None => (rs.default_diffuse, rs.default_specular),
                };
                shadow.push(
                    ShadowDraw { entity: e.id, vao: mesh.vao_id, index_count: mesh.indices_len },
                );
                geometry.push(
                    DrawCall {
                        entity: e.id,
                        vao: mesh.vao_id,
                        index_count: mesh.indices_len,
                        program,
                        stencil_ref,
                        diffuse,
                        specular,
                        draw_outline: e.selected,
                    },
                );
                proof {
                    assert(shadow@.last() == shadow_draw_of(s[k as int]));
                    assert(geometry@.last() == draw_call_of(s[k as int], *rs));
                }
            },
            None => {},
        }
        if e.point_light.is_some() {
            lights += 1;
        }
        proof {
            assert forall|i: int| 0 <= i <= k as int && (#[trigger] s[i]).mesh is Some implies 0
                <= mesh_count(s.take(i)) < shadow@.len() && shadow@[mesh_count(s.take(i))]
                == shadow_draw_of(s[i]) && geometry@[mesh_count(s.take(i))] == draw_call_of(
                s[i],
                *rs,
            ) by {
                crate::scene::lemma_mesh_count_monotonic(s, 0, i);
                assert(s.take(0) =~= Seq::<Entity>::empty());
                lemma_mesh_count_step(s, i);
                if i < k as int {
                    crate::scene::lemma_mesh_count_monotonic(s, i + 1, k as int);
                    assert(shadow@[mesh_count(s.take(i))] == shadow0[mesh_count(s.take(i))]);
                    assert(geometry@[mesh_count(s.take(i))] == geometry0[mesh_count(s.take(i))]);
                } else {
                    assert(mesh_count(s.take(i)) == shadow0.len());
                }
            }
        }
        k += 1;
    }
    proof {
        assert(s.take(n as int) =~= s);
    }
    FramePlan {
        shadow,
        geometry,
        depth_program: rs.depth_shader.activate(),
        shadow_viewport: rs.shadow_map_size,
        viewport: rs.size,
        deferred_program: rs.deferred_pass_shader.activate(),
        light_count: lights,
        quad_vao: rs.quad_vao.vao_id(),
        quad_index_count: rs.quad_vao.indices_len(),
    }
}

/// A geometry-pass plan never draws with the program of a failed or pending
/// rebuild: each command's program is the entity's last successfully linked
/// override, or the shared geometry program when there is none.
pub proof fn lemma_plan_uses_linked_programs(plan: FramePlan, s: Seq<Entity>, rs: RenderState)
    requires
        frame_plan_matches(plan, s, rs),
    ensures
        forall|i: int|
            0 <= i < s.len() && (#[trigger] s[i]).mesh is Some ==> plan.geometry@[mesh_count(
                s.take(i),
            )].program == program_of(s[i], rs),
{
}

/// The three passes of one frame, in their fixed order.
#[derive(Clone, Copy, PartialEq, Eq, Structural, Debug)]
pub enum FramePhase {
    /// Between frames.
    Idle,
    /// Depth-only render from the light's view.
    ShadowPass,
    /// Scene render into the G-buffer, writing pick identifiers.
    GeometryPass,
    /// Fullscreen lighting draw from the G-buffer and shadow map.
    DeferredLightingPass,
}

/// Enforces the strict pass order within a frame: shadow, then geometry,
/// then deferred lighting, with no way back or around.
pub struct FrameCursor {
    phase: FramePhase,
}

impl FrameCursor {
    /// The current phase.
    pub closed spec fn phase(&self) -> FramePhase {
        self.phase
    }

    /// A cursor between frames.
    pub fn new() -> (c: Self)
        ensures
            c.phase() == FramePhase::Idle,
    {
        Self { phase: FramePhase::Idle }
    }

    /// The current phase.
    pub fn current_phase(&self) -> (p: FramePhase)
        ensures
            p == self.phase(),
    {
        self.phase
    }

    /// Enter the shadow pass; a frame always starts here.
    pub fn begin_shadow_pass(&mut self)
        requires
            old(self).phase() == FramePhase::Idle,
        ensures
            final(self).phase() == FramePhase::ShadowPass,
    {
        self.phase = FramePhase::ShadowPass;
    }

    /// Enter the geometry pass, only from the shadow pass.
    pub fn begin_geometry_pass(&mut self)
        requires
            old(self).phase() == FramePhase::ShadowPass,
        ensures
            final(self).phase() == FramePhase::GeometryPass,
    {
        self.phase = FramePhase::GeometryPass;
    }

    /// Enter the deferred lighting pass, only from the geometry pass.
    pub fn begin_deferred_pass(&mut self)
        requires
            old(self).phase() == FramePhase::GeometryPass,
        ensures
            final(self).phase() == FramePhase::DeferredLightingPass,
    {
        self.phase = FramePhase::DeferredLightingPass;
    }

    /// Finish the frame after the lighting pass; once begun, a frame runs
    /// to completion.
    pub fn finish_frame(&mut self)
        requires
            old(self).phase() == FramePhase::DeferredLightingPass,
        ensures
            final(self).phase() == FramePhase::Idle,
    {
        self.phase = FramePhase::Idle;
    }
}

} // verus!
