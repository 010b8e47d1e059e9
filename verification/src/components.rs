//! Components an entity may carry.
//!
//! Transform and light parameters are fixed-point numbers: an `i32` counts
//! thousandths of a unit (so `1000` is a scale factor of one, and rotations
//! are thousandths of a degree). The rendering backend converts to floating
//! point when it uploads uniforms; the scene logic itself never needs real
//! arithmetic on them, only storage, comparison and the zero-scale check.

use vstd::prelude::*;

use crate::shader::Shader;
use crate::shader::ShaderError;

verus! {

/// Number of fixed-point steps per unit (one thousandth resolution).
pub const UNIT: i32 = 1000;

/// Translation of an entity, in thousandths of a world unit.
#[derive(Clone, Copy, PartialEq, Eq, Structural, Debug)]
pub struct Position {
    pub x: i32,
    pub y: i32,
    pub z: i32,
}

impl Position {
    /// A position from its three coordinates.
    pub fn new(x: i32, y: i32, z: i32) -> (p: Self)
        ensures
            p == (Position { x, y, z }),
    {
        Self { x, y, z }
    }

    /// The origin.
    pub fn origin() -> (p: Self)
        ensures
            p == (Position { x: 0, y: 0, z: 0 }),
    {
        Self { x: 0, y: 0, z: 0 }
    }
}

/// Rotation of an entity, in thousandths of a degree per axis.
#[derive(Clone, Copy, PartialEq, Eq, Structural, Debug)]
pub struct Rotation {
    pub x: i32,
    pub y: i32,
    pub z: i32,
}

impl Rotation {
    /// No rotation.
    pub fn none() -> (r: Self)
        ensures
            r == (Rotation { x: 0, y: 0, z: 0 }),
    {
        Self { x: 0, y: 0, z: 0 }
    }
}

/// Scale of an entity, in thousandths per axis.
///
/// A model matrix built from a scale with a zero axis is not invertible, and
/// the geometry pass needs the inverse for its normal matrix. Keeping every
/// axis non-zero is therefore an invariant of the scene: see
/// [`Scale::is_valid`].
#[derive(Clone, Copy, PartialEq, Eq, Structural, Debug)]
pub struct Scale {
    pub x: i32,
    pub y: i32,
    pub z: i32,
}

impl Scale {
    /// No axis may be exactly zero, so that the model matrix stays invertible.
    pub open spec fn is_valid(&self) -> bool {
        self.x != 0 && self.y != 0 && self.z != 0
    }

    /// A scale from its three factors, each in thousandths.
    pub fn new(x: i32, y: i32, z: i32) -> (s: Self)
        requires
            x != 0,
            y != 0,
            z != 0,
        ensures
            s == (Scale { x, y, z }),
            s.is_valid(),
    {
        Self { x, y, z }
    }

    /// The identity scale (one on every axis).
    pub fn identity() -> (s: Self)
        ensures
            s == (Scale { x: UNIT, y: UNIT, z: UNIT }),
            s.is_valid(),
    {
        Self { x: UNIT, y: UNIT, z: UNIT }
    }
}

/// Position, rotation and scale together, as entities are usually spawned.
#[derive(Clone, Copy, PartialEq, Eq, Structural, Debug)]
pub struct TransformBundle {
    pub position: Position,
    pub rotation: Rotation,
    pub scale: Scale,
}

impl TransformBundle {
    /// Whether the bundled scale keeps the model matrix invertible.
    pub open spec fn is_valid(&self) -> bool {
        self.scale.is_valid()
    }

    /// Identity transform at the origin.
    pub fn at_origin() -> (t: Self)
        ensures
            t.position == (Position { x: 0, y: 0, z: 0 }),
            t.rotation == (Rotation { x: 0, y: 0, z: 0 }),
            t.scale == (Scale { x: UNIT, y: UNIT, z: UNIT }),
            t.is_valid(),
    {
        Self { position: Position::origin(), rotation: Rotation::none(), scale: Scale::identity() }
    }

    /// A transform at `position` with no rotation and identity scale.
    pub fn at(position: Position) -> (t: Self)
        ensures
            t.position == position,
            t.rotation == (Rotation { x: 0, y: 0, z: 0 }),
            t.scale == (Scale { x: UNIT, y: UNIT, z: UNIT }),
            t.is_valid(),
    {
        Self { position, rotation: Rotation::none(), scale: Scale::identity() }
    }
}

/// GPU-resident mesh: a vertex array handle plus its index count.
#[derive(Clone, Copy, PartialEq, Eq, Structural, Debug)]
pub struct Mesh {
    pub vao_id: u32,
    pub indices_len: usize,
}

impl Mesh {
    /// A mesh from its vertex array handle and index count.
    pub fn new(vao_id: u32, indices_len: usize) -> (m: Self)
        ensures
            m == (Mesh { vao_id, indices_len }),
    {
        Self { vao_id, indices_len }
    }
}

/// The pick identifier written into the stencil buffer for one entity during
/// the most recent geometry pass.
///
/// Identifiers start at one (zero means background) and are reassigned every
/// frame in iteration order, so a stored value is only meaningful against the
/// same frame's stencil contents.
#[derive(Clone, Copy, PartialEq, Eq, Structural, Debug)]
pub struct StencilId(pub usize);

/// Diffuse/specular texture overrides for one entity; `None` falls back to
/// the renderer's default placeholder texture.
#[derive(Clone, Copy, PartialEq, Eq, Structural, Debug)]
pub struct CustomTexture {
    pub diffuse: Option<u32>,
    pub specular: Option<u32>,
}

impl CustomTexture {
    /// No overrides: both samplers fall back to the defaults.
    pub fn none() -> (t: Self)
        ensures
            t == (CustomTexture { diffuse: None::<u32>, specular: None::<u32> }),
    {
        Self { diffuse: None, specular: None }
    }
}

/// An RGB colour, each channel in thousandths (so `1000` is full intensity).
#[derive(Clone, Copy, PartialEq, Eq, Structural, Debug)]
pub struct Color {
    pub r: i32,
    pub g: i32,
    pub b: i32,
}

impl Color {
    /// A grey colour with all three channels equal.
    pub fn grey(v: i32) -> (c: Self)
        ensures
            c == (Color { r: v, g: v, b: v }),
    {
        Self { r: v, g: v, b: v }
    }
}

/// A point light's colour and attenuation parameters, in thousandths.
#[derive(Clone, Copy, PartialEq, Eq, Structural, Debug)]
pub struct PointLight {
    pub ambient: Color,
    pub diffuse: Color,
    pub specular: Color,
    pub constant: i32,
    pub linear: i32,
    pub quadratic: i32,
}

impl PointLight {
    /// A point light from its colours and attenuation curve.
    pub fn new(
        ambient: Color,
        diffuse: Color,
        specular: Color,
        constant: i32,
        linear: i32,
        quadratic: i32,
    ) -> (l: Self)
        ensures
            l == (PointLight { ambient, diffuse, specular, constant, linear, quadratic }),
    {
        Self { ambient, diffuse, specular, constant, linear, quadratic }
    }
}

/// A per-entity shader override.
///
/// The source strings may be edited freely and can therefore diverge from
/// `compiled`, which always holds the last *successfully linked* program (if
/// any). `last_error` holds the diagnostic of the most recent failed build,
/// and is cleared by a successful one.
#[derive(Debug)]
pub struct CustomShader {
    /// Vertex stage source, as currently edited.
    pub vert_source: String,
    /// Fragment stage source, as currently edited.
    pub frag_source: String,
    /// The last successfully linked program, if any.
    pub compiled: Option<Shader>,
    /// Diagnostic of the most recent failed build, if it was not followed by
    /// a successful one.
    pub last_error: Option<String>,
}

/// How a shader override changes when the result of a rebuild attempt is
/// installed: the sources are untouched; a successful build (`Ok`, carrying
/// the fresh program handle) becomes the active program, clears the
/// diagnostic and yields the handle it replaced; a failed build leaves the
/// active program exactly as it was, records a non-empty diagnostic (the
/// driver's log when it gave one) and replaces nothing.
pub open spec fn build_result_installed(
    pre: CustomShader,
    post: CustomShader,
    result: Result<u32, ShaderError>,
    replaced: Option<u32>,
) -> bool {
    &&& post.vert_source == pre.vert_source
    &&& post.frag_source == pre.frag_source
    &&& (match result {
        Ok(program) => {
            &&& (post.compiled matches Some(s) && s.spec_program() == program
                && !s.is_destroyed())
            &&& post.last_error is None
            &&& replaced == (match pre.compiled {
                Some(s) => Some(s.spec_program()),
                None => None::<u32>,
            })
        },
        Err(e) => {
            &&& post.compiled == pre.compiled
            &&& (post.last_error matches Some(d) && d@.len() > 0 && (e.spec_log().len() > 0
                ==> d@ == e.spec_log()))
            &&& replaced is None
        },
    })
}

impl CustomShader {
    /// The compiled program, if any, is alive: it is installed only by a
    /// successful build and destroyed only when it is replaced or removed.
    pub open spec fn wf(&self) -> bool {
        match self.compiled {
            Some(s) => !s.is_destroyed(),
            None => true,
        }
    }

    /// A fresh override, seeded with the default geometry-pass sources and
    /// nothing compiled yet.
    pub fn new() -> (cs: Self)
        ensures
            cs.vert_source@ == crate::shader::default_vertex_source_spec(),
            cs.frag_source@ == crate::shader::default_fragment_source_spec(),
            cs.compiled is None,
            cs.last_error is None,
            cs.wf(),
    {
        Self {
            vert_source: crate::shader::default_vertex_source(),
            frag_source: crate::shader::default_fragment_source(),
            compiled: None,
            last_error: None,
        }
    }

    /// Install the result of a rebuild attempt from the current sources.
    ///
    /// On success the new program becomes the active one and the handle of
    /// the program it replaces (if any) is returned so the backend can delete
    /// it. On failure the previously linked program stays active and
    /// untouched, and a non-empty diagnostic is recorded: the driver's log
    /// when it gave one.
    pub fn install_build_result(&mut self, result: Result<u32, ShaderError>) -> (replaced: Option<
        u32,
    >)
        requires
            old(self).wf(),
        ensures
            final(self).wf(),
            build_result_installed(*old(self), *final(self), result, replaced),
    {
        match result {
            Ok(program) => {
                let replaced = match &mut self.compiled {
                    Some(s) => Some(s.destroy()),
                    None => None,
                };
                self.compiled = Some(Shader::new(program));
                self.last_error = None;
                replaced
            },
            Err(e) => {
                self.last_error = Some(e.diagnostic());
                None
            },
        }
    }
}

} // verus!
