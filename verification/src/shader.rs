//! Shader programs and the compile/link bookkeeping.
//!
//! A [`Shader`] owns a linked GPU program handle together with a `destroyed`
//! flag. The contracts enforce the resource discipline: a program may only be
//! activated while it is alive, and it is destroyed at most once. The actual
//! driver calls (compile, link, delete) are made by the application, which
//! reports their results back as plain values; the [`ShaderBuilder`] decides
//! from those results which intermediate objects must be deleted so that no
//! handle leaks either way.

use vstd::prelude::*;

verus! {

/// The two programmable stages a program is linked from.
#[derive(Clone, Copy, PartialEq, Eq, Structural, Debug)]
pub enum ShaderType {
    Vertex,
    Fragment,
}

impl ShaderType {
    /// Human-readable stage name, used to tag compiler diagnostics.
    pub fn label(&self) -> (r: String)
        ensures
            self is Vertex ==> r@ == "Vertex"@,
            self is Fragment ==> r@ == "Fragment"@,
    {
        match self {
            ShaderType::Vertex => "Vertex".to_owned(),
            ShaderType::Fragment => "Fragment".to_owned(),
        }
    }
}

/// A linked GPU shader program.
///
/// The program handle is only meaningful to the graphics backend; here it is
/// an opaque integer. `destroyed` tracks whether the backend has been told to
/// delete the program: activation requires a live program, and destruction is
/// permitted exactly once.
#[derive(Debug)]
pub struct Shader {
    program: u32,
    destroyed: bool,
}

impl Shader {
    /// The underlying program handle.
    pub closed spec fn spec_program(&self) -> u32 {
        self.program
    }

    /// Whether the program has been destroyed.
    pub closed spec fn is_destroyed(&self) -> bool {
        self.destroyed
    }

    /// Wrap a freshly linked program handle.
    pub fn new(program: u32) -> (s: Self)
        ensures
            s.spec_program() == program,
            !s.is_destroyed(),
    {
        Self { program, destroyed: false }
    }

    /// Handle to bind for drawing. Only a live program may be activated.
    pub fn activate(&self) -> (p: u32)
        requires
            !self.is_destroyed(),
        ensures
            p == self.spec_program(),
    {
        self.program
    }

    /// Give up the program. Returns the handle the backend must delete.
    /// A program can be destroyed only once.
    pub fn destroy(&mut self) -> (p: u32)
        requires
            !old(self).is_destroyed(),
        ensures
            final(self).is_destroyed(),
            final(self).spec_program() == old(self).spec_program(),
            p == old(self).spec_program(),
    {
        self.destroyed = true;
        self.program
    }
}

/// A shader build error, tagged with the failing phase.
///
/// The `log` is the driver's diagnostic text, verbatim.
#[derive(Debug)]
pub enum ShaderError {
    /// A stage failed to compile.
    Compile { stage: ShaderType, log: String },
    /// The program failed to link.
    Link { log: String },
}

impl ShaderError {
    /// The driver's log text carried by this error.
    pub open spec fn spec_log(&self) -> Seq<char> {
        match self {
            ShaderError::Compile { log, .. } => log@,
            ShaderError::Link { log } => log@,
        }
    }

    /// The diagnostic to surface to the user: the driver log when the driver
    /// produced one, otherwise a fixed fallback, so the result is never empty.
    pub fn diagnostic(&self) -> (r: String)
        ensures
            r@.len() > 0,
            self.spec_log().len() > 0 ==> r@ == self.spec_log(),
            self.spec_log().len() == 0 ==> r@ == "shader build failed with no driver diagnostic"@,
    {
        let log = match self {
            ShaderError::Compile { log, .. } => log,
            ShaderError::Link { log } => log,
        };
        if !log.as_str().is_empty() {
            log.clone()
        } else {
            proof {
                reveal_strlit("shader build failed with no driver diagnostic");
            }
            "shader build failed with no driver diagnostic".to_owned()
        }
    }
}

/// What the backend reports for one stage compilation.
#[derive(Debug)]
pub enum StageOutcome {
    /// The stage compiled; the backend holds shader object `handle`.
    Compiled { handle: u32 },
    /// Compilation failed with the driver's log.
    Failed { log: String },
}

/// What the backend reports for a program link.
#[derive(Debug)]
pub enum LinkOutcome {
    /// The program linked; `program` is its handle.
    Linked { program: u32 },
    /// Linking failed with the driver's log; `program` is the handle of the
    /// failed program object, which must be deleted.
    Failed { program: u32, log: String },
}

/// Accumulates compiled stage objects on the way to a linked program.
///
/// The builder records which intermediate shader objects exist so that
/// [`ShaderBuilder::link`] can hand every one of them back for deletion,
/// whether the link succeeds or fails: no handle is leaked either way.
#[derive(Debug)]
pub struct ShaderBuilder {
    stages: Vec<u32>,
}

impl ShaderBuilder {
    /// The shader objects accumulated so far.
    pub closed spec fn stage_handles(&self) -> Seq<u32> {
        self.stages@
    }

    /// Start with no stages.
    pub fn new() -> (b: Self)
        ensures
            b.stage_handles() == Seq::<u32>::empty(),
    {
        Self { stages: Vec::new() }
    }

    /// Record the backend's report for one stage compilation.
    ///
    /// On success the stage object joins the pending list. On failure the
    /// builder is returned unchanged together with a stage-tagged error; the
    /// caller still holds the builder and must delete its stages.
    pub fn add_stage(self, stage: ShaderType, outcome: StageOutcome) -> (r: Result<
        Self,
        (Self, ShaderError),
    >)
        ensures
            (match outcome {
                StageOutcome::Compiled { handle } => {
                    &&& r is Ok
                    &&& r->Ok_0.stage_handles() == self.stage_handles().push(handle)
                },
                StageOutcome::Failed { log } => {
                    &&& r is Err
                    &&& r->Err_0.0.stage_handles() == self.stage_handles()
                    &&& (r->Err_0.1 matches ShaderError::Compile {
                        stage: s,
                        log: l,
                    } && s == stage && l == log)
                },
            }),
    {
        match outcome {
            StageOutcome::Compiled { handle } => {
                let mut b = self;
                b.stages.push(handle);
                Ok(b)
            },
            StageOutcome::Failed { log } => Err((self, ShaderError::Compile { stage, log })),
        }
    }

    /// Record the backend's report for the program link.
    ///
    /// Returns the built [`Shader`] or a link error, together with the exact
    /// list of handles the backend must now delete: every intermediate stage
    /// object, plus the failed program object when linking failed.
    pub fn link(self, outcome: LinkOutcome) -> (r: (Result<Shader, ShaderError>, Vec<u32>))
        ensures
            (match outcome {
                LinkOutcome::Linked { program } => {
                    &&& r.0 is Ok
                    &&& r.0->Ok_0.spec_program() == program
                    &&& !r.0->Ok_0.is_destroyed()
                    &&& r.1@ == self.stage_handles()
                },
                LinkOutcome::Failed { program, log } => {
                    &&& r.0 is Err
                    &&& (r.0->Err_0 matches ShaderError::Link { log: l } && l == log)
                    &&& r.1@ == self.stage_handles().push(program)
                },
            }),
    {
        match outcome {
            LinkOutcome::Linked { program } => (Ok(Shader::new(program)), self.stages),
            LinkOutcome::Failed { program, log } => {
                let mut to_delete = self.stages;
                to_delete.push(program);
                (Err(ShaderError::Link { log }), to_delete)
            },
        }
    }
}

/// The default geometry-pass vertex source, as a sequence of characters.
pub open spec fn default_vertex_source_spec() -> Seq<char> {
    "#version 410 core\nlayout(location = 0) in vec3 position;\nlayout(location = 1) in vec3 normal;\nlayout(location = 2) in vec2 texcoord;\nuniform mat4 mvp;\nuniform mat4 model;\nuniform mat3 normal_mat;\nout vec3 frag_pos;\nout vec3 frag_normal;\nout vec2 frag_texcoord;\nvoid main() {\n    frag_pos = vec3(model * vec4(position, 1.0));\n    frag_normal = normal_mat * normal;\n    frag_texcoord = texcoord;\n    gl_Position = mvp * vec4(position, 1.0);\n}\n"@
}

/// The default geometry-pass fragment source, as a sequence of characters.
pub open spec fn default_fragment_source_spec() -> Seq<char> {
    "#version 410 core\nlayout(location = 0) out vec4 g_position;\nlayout(location = 1) out vec4 g_normal;\nlayout(location = 2) out vec4 g_albedo_spec;\nin vec3 frag_pos;\nin vec3 frag_normal;\nin vec2 frag_texcoord;\nuniform sampler2D diffuse_tx;\nuniform sampler2D specular_tx;\nuniform float selected;\nvoid main() {\n    g_position = vec4(frag_pos, 1.0);\n    g_normal = vec4(normalize(frag_normal), selected);\n    g_albedo_spec.rgb = texture(diffuse_tx, frag_texcoord).rgb + vec3(selected, selected, 0.0);\n    g_albedo_spec.a = texture(specular_tx, frag_texcoord).r;\n}\n"@
}

/// The vertex source a fresh shader override is seeded with.
pub fn default_vertex_source() -> (s: String)
    ensures
        s@ == default_vertex_source_spec(),
{
    "#version 410 core\nlayout(location = 0) in vec3 position;\nlayout(location = 1) in vec3 normal;\nlayout(location = 2) in vec2 texcoord;\nuniform mat4 mvp;\nuniform mat4 model;\nuniform mat3 normal_mat;\nout vec3 frag_pos;\nout vec3 frag_normal;\nout vec2 frag_texcoord;\nvoid main() {\n    frag_pos = vec3(model * vec4(position, 1.0));\n    frag_normal = normal_mat * normal;\n    frag_texcoord = texcoord;\n    gl_Position = mvp * vec4(position, 1.0);\n}\n".to_owned()
}

/// The fragment source a fresh shader override is seeded with.
pub fn default_fragment_source() -> (s: String)
    ensures
        s@ == default_fragment_source_spec(),
{
    "#version 410 core\nlayout(location = 0) out vec4 g_position;\nlayout(location = 1) out vec4 g_normal;\nlayout(location = 2) out vec4 g_albedo_spec;\nin vec3 frag_pos;\nin vec3 frag_normal;\nin vec2 frag_texcoord;\nuniform sampler2D diffuse_tx;\nuniform sampler2D specular_tx;\nuniform float selected;\nvoid main() {\n    g_position = vec4(frag_pos, 1.0);\n    g_normal = vec4(normalize(frag_normal), selected);\n    g_albedo_spec.rgb = texture(diffuse_tx, frag_texcoord).rgb + vec3(selected, selected, 0.0);\n    g_albedo_spec.a = texture(specular_tx, frag_texcoord).r;\n}\n".to_owned()
}

} // verus!
