//! Core logic of a small real-time 3D scene editor.
//!
//! The crate models the decision-making heart of an OpenGL-backed editor: an
//! entity store with transforms, meshes, lights and per-entity shader
//! overrides; a three-pass deferred render pipeline that assigns fresh
//! stencil pick identifiers every frame; a picking subsystem that resolves a
//! stencil readback to an entity and maintains a single-selection invariant;
//! a shader hot-reload controller that never discards the last successfully
//! linked program; and the resize rules for the G-buffer.
//!
//! GPU handles (programs, textures, framebuffers, vertex arrays) are carried
//! as plain integers. The code that talks to the graphics driver lives in the
//! accompanying application; it executes the plans and outcomes computed
//! here and reports results (compile status, stencil readbacks) back as plain
//! values.

pub mod assets;
pub mod components;
pub mod editor;
pub mod input;
pub mod picking;
pub mod pipeline;
pub mod registry;
pub mod render_state;
pub mod scene;
pub mod shader;
pub mod state;
pub mod ui_state;
pub mod vao;
