//! A minimal 2D rendering support layer: typed GPU texture descriptors with an
//! explicit create/upload/download/bind/destroy lifecycle, a shader pipeline
//! that surfaces compile and link diagnostics as data, and a quad renderer
//! that maps pixel-space rectangles into the normalized coordinate spaces the
//! graphics pipeline consumes. All decisions and coordinate arithmetic are
//! verified here; the raw graphics-driver calls themselves are issued by an
//! unverified shell that feeds their plain results back into this crate.

use vstd::prelude::*;

pub mod render_text;
pub mod render_texture;
pub mod texture;

verus! {

use vstd::string::StringExecFns;

/// The error taxonomy of the library. Shader compilation and link failures are
/// deliberately absent: they are carried as data in [`CompileResult`], never
/// raised as errors.
#[derive(Clone, Copy, PartialEq, Eq, Structural, Debug)]
pub enum RenderError {
    /// The graphics driver reported this nonzero error code after a call.
    ApiError(u32),
    /// Allocation or release of a GPU object failed.
    ResourceError,
    /// A caller-supplied buffer's dimensions disagree with a texture's.
    SizeMismatch,
    /// A required shader uniform is missing after linking.
    UniformNotFound,
    /// No font file exists at any of the known locations.
    FontNotFound,
    /// A character has no cached glyph entry.
    GlyphMissing,
}

/// The driver's "no pending error" code.
pub const GL_NO_ERROR: u32 = 0;

/// Classifies one error code drained from the driver's error queue.
pub fn check_gl(code: u32) -> (r: Result<(), RenderError>)
    ensures
        r is Ok <==> code == GL_NO_ERROR,
        code != GL_NO_ERROR ==> r == Result::<(), RenderError>::Err(RenderError::ApiError(code)),
{
    if code == GL_NO_ERROR {
        Ok(())
    } else {
        Err(RenderError::ApiError(code))
    }
}

/// Classifies a fully drained error queue: every code must be "no error";
/// otherwise the first offending code is reported.
pub fn check_gl_drained(codes: &Vec<u32>) -> (r: Result<(), RenderError>)
    ensures
        r is Ok <==> forall|i: int| 0 <= i < codes@.len() ==> codes@[i] == GL_NO_ERROR,
        r is Err ==> exists|i: int|
            {
                &&& 0 <= i < codes@.len()
                &&& codes@[i] != GL_NO_ERROR
                &&& r == Result::<(), RenderError>::Err(RenderError::ApiError(codes@[i]))
                &&& forall|j: int| 0 <= j < i ==> codes@[j] == GL_NO_ERROR
            },
{
    let mut k: usize = 0;
    while k < codes.len()
        invariant
            0 <= k <= codes@.len(),
            forall|j: int| 0 <= j < k ==> codes@[j] == GL_NO_ERROR,
        decreases codes@.len() - k,
    {
        if codes[k] != GL_NO_ERROR {
            return Err(RenderError::ApiError(codes[k]));
        }
        k += 1;
    }
    Ok(())
}

/// An axis-aligned rectangle given by its top-left corner and its extent.
#[derive(Clone, Debug)]
pub struct Rect<T> {
    pub x: T,
    pub y: T,
    pub width: T,
    pub height: T,
}

impl<T> Rect<T> {
    pub fn new(x: T, y: T, width: T, height: T) -> (r: Self)
        ensures
            r.x == x,
            r.y == y,
            r.width == width,
            r.height == height,
    {
        Self { x, y, width, height }
    }
}

impl Rect<usize> {
    pub fn right(&self) -> (r: usize)
        requires
            self.x + self.width <= usize::MAX,
        ensures
            r == self.x + self.width,
    {
        self.x + self.width
    }

    pub fn bottom(&self) -> (r: usize)
        requires
            self.y + self.height <= usize::MAX,
        ensures
            r == self.y + self.height,
    {
        self.y + self.height
    }
}

impl Rect<i64> {
    pub fn right(&self) -> (r: i64)
        requires
            i64::MIN <= self.x + self.width <= i64::MAX,
        ensures
            r == self.x + self.width,
    {
        self.x + self.width
    }

    pub fn bottom(&self) -> (r: i64)
        requires
            i64::MIN <= self.y + self.height <= i64::MAX,
        ensures
            r == self.y + self.height,
    {
        self.y + self.height
    }
}

/// The driver's boolean "true", as reported in compile and link status queries.
pub const GL_TRUE: i32 = 1;

/// The driver-side id of each shader stage, handed to the shader-object
/// creation call.
pub const GL_VERTEX_SHADER: u32 = 0x8B31;

pub const GL_FRAGMENT_SHADER: u32 = 0x8B30;

pub const GL_COMPUTE_SHADER: u32 = 0x91B9;

/// A shader stage of the pipeline.
#[derive(Clone, Copy, PartialEq, Eq, Structural, Debug)]
pub enum ShaderStage {
    Vertex,
    Fragment,
    Compute,
}

impl ShaderStage {
    /// The driver-side id of this stage.
    pub fn stage_id(&self) -> (r: u32)
        ensures
            self is Vertex ==> r == GL_VERTEX_SHADER,
            self is Fragment ==> r == GL_FRAGMENT_SHADER,
            self is Compute ==> r == GL_COMPUTE_SHADER,
    {
        match self {
            ShaderStage::Vertex => GL_VERTEX_SHADER,
            ShaderStage::Fragment => GL_FRAGMENT_SHADER,
            ShaderStage::Compute => GL_COMPUTE_SHADER,
        }
    }
}

/// The structured outcome of compiling one shader object or linking one
/// program: the object handle, the status flag, and the full diagnostic log
/// (empty when the driver emitted none). A failure is data for the caller to
/// branch on, never an error: malformed shader source is an expected,
/// recoverable condition.
#[derive(Clone, Debug)]
pub struct CompileResult {
    pub shader: u32,
    pub success: bool,
    pub log: String,
}

/// Assembles a [`CompileResult`] from the raw values a status-and-log query
/// reports: success means the status flag equals the driver's "true".
pub fn make_compile_result(shader: u32, status: i32, log: String) -> (r: CompileResult)
    ensures
        r.shader == shader,
        r.success == (status == GL_TRUE),
        r.log == log,
{
    CompileResult { shader, success: status == GL_TRUE, log }
}

/// The short-circuit result for a pipeline whose stage failed: the handle is
/// null (non-functional, must not be attached, linked or bound) and the
/// failing stage's diagnostic is carried through unchanged.
pub fn stage_failure(stage: CompileResult) -> (r: CompileResult)
    requires
        !stage.success,
    ensures
        r.shader == 0,
        r.success == false,
        r.log == stage.log,
{
    CompileResult { shader: 0, success: false, log: stage.log }
}

/// Combines the outcomes of a linked vertex+fragment pipeline. On link success
/// the three diagnostics are concatenated (some drivers warn at every stage);
/// on link failure the link diagnostic stands alone.
pub fn merge_vert_frag(vertex: CompileResult, fragment: CompileResult, link: CompileResult) -> (r:
    CompileResult)
    requires
        vertex.success,
        fragment.success,
    ensures
        r.shader == link.shader,
        r.success == link.success,
        link.success ==> r.log@ == vertex.log@ + fragment.log@ + link.log@,
        !link.success ==> r.log == link.log,
{
    if link.success {
        let mut log = vertex.log;
        log.append(fragment.log.as_str());
        log.append(link.log.as_str());
        CompileResult { shader: link.shader, success: link.success, log }
    } else {
        link
    }
}

/// What the driver shell is asked to do next while running a pipeline.
pub enum PipelineAction {
    /// Compile the given stage's source and report its [`CompileResult`].
    Compile(ShaderStage),
    /// Create a program, attach these compiled shader objects, link, report
    /// the [`CompileResult`], and on link success release the now-redundant
    /// shader objects (link copies their compiled state into the program).
    /// On link failure they must remain valid for inspection or retry.
    Link { shaders: Vec<u32> },
    /// The pipeline is done; no further driver work.
    Stop,
}

/// Which shader objects the driver shell releases after a link: on success
/// the now-redundant stage objects, whose compiled state the link copied
/// into the program; on failure none, so they remain valid for inspection
/// or retry.
pub fn shaders_to_release(link_success: bool, shaders: Vec<u32>) -> (r: Vec<u32>)
    ensures
        link_success ==> r@ == shaders@,
        !link_success ==> r@.len() == 0,
{
    if link_success {
        shaders
    } else {
        Vec::new()
    }
}

/// The state machine of the two-stage compile-and-link pipeline: each stage is
/// compiled in turn, a failing stage short-circuits the rest, and only after
/// both stages succeed is the program linked.
pub enum VertFragPipeline {
    NeedVertex,
    NeedFragment { vertex: CompileResult },
    NeedLink { vertex: CompileResult, fragment: CompileResult },
    Done { result: CompileResult },
}

impl VertFragPipeline {
    /// Begins a pipeline: the first work is compiling the vertex stage.
    pub fn start() -> (r: (Self, PipelineAction))
        ensures
            r.0 is NeedVertex,
            r.1 matches PipelineAction::Compile(s) && s is Vertex,
    {
        (VertFragPipeline::NeedVertex, PipelineAction::Compile(ShaderStage::Vertex))
    }

    /// Advances the pipeline on the outcome of the step it last asked for.
    /// A failed stage ends the pipeline at once with a null handle and that
    /// stage's diagnostic, skipping every later stage; the link outcome is
    /// merged with the stage diagnostics on success.
    pub fn step(self, outcome: CompileResult) -> (r: (Self, PipelineAction))
        requires
            !(self is Done),
            self matches VertFragPipeline::NeedFragment { vertex } ==> vertex.success,
            self matches VertFragPipeline::NeedLink { vertex, fragment } ==> vertex.success
                && fragment.success,
        ensures
            self is NeedVertex && !outcome.success ==> {
                &&& r.0 matches VertFragPipeline::Done { result }
                &&& result.shader == 0
                &&& result.success == false
                &&& result.log == outcome.log
                &&& r.1 is Stop
            },
            self is NeedVertex && outcome.success ==> {
                &&& r.0 matches VertFragPipeline::NeedFragment { vertex } && vertex == outcome
                &&& r.1 matches PipelineAction::Compile(s) && s is Fragment
            },
            self is NeedFragment && !outcome.success ==> {
                &&& r.0 matches VertFragPipeline::Done { result }
                &&& result.shader == 0
                &&& result.success == false
                &&& result.log == outcome.log
                &&& r.1 is Stop
            },
            self matches VertFragPipeline::NeedFragment { vertex } ==> (outcome.success ==> {
                &&& r.0 matches VertFragPipeline::NeedLink { vertex: v, fragment } && v == vertex
                    && fragment == outcome
                &&& r.1 matches PipelineAction::Link { shaders } && shaders@ == seq![
                    vertex.shader,
                    outcome.shader,
                ]
            }),
            self matches VertFragPipeline::NeedLink { vertex, fragment } ==> {
                &&& r.0 matches VertFragPipeline::Done { result }
                &&& result.shader == outcome.shader
                &&& result.success == outcome.success
                &&& outcome.success ==> result.log@ == vertex.log@ + fragment.log@ + outcome.log@
                &&& !outcome.success ==> result.log == outcome.log
                &&& r.1 is Stop
            },
    {
        match self {
            VertFragPipeline::NeedVertex => {
                if !outcome.success {
                    (
                        VertFragPipeline::Done { result: stage_failure(outcome) },
                        PipelineAction::Stop,
                    )
                } else {
                    (
                        VertFragPipeline::NeedFragment { vertex: outcome },
                        PipelineAction::Compile(ShaderStage::Fragment),
                    )
                }
            },
            VertFragPipeline::NeedFragment { vertex } => {
                if !outcome.success {
                    (
                        VertFragPipeline::Done { result: stage_failure(outcome) },
                        PipelineAction::Stop,
                    )
                } else {
                    let shaders = vec![vertex.shader, outcome.shader];
                    (
                        VertFragPipeline::NeedLink { vertex, fragment: outcome },
                        PipelineAction::Link { shaders },
                    )
                }
            },
            VertFragPipeline::NeedLink { vertex, fragment } => {
                (
                    VertFragPipeline::Done { result: merge_vert_frag(vertex, fragment, outcome) },
                    PipelineAction::Stop,
                )
            },
            VertFragPipeline::Done { result } => {
                (VertFragPipeline::Done { result }, PipelineAction::Stop)
            },
        }
    }

    /// The final result, once the pipeline has stopped.
    pub fn finish(self) -> (r: CompileResult)
        requires
            self matches VertFragPipeline::Done { result },
        ensures
            self matches VertFragPipeline::Done { result } && r == result,
    {
        match self {
            VertFragPipeline::Done { result } => result,
            _ => unreached(),
        }
    }
}

/// The state machine of the single-stage compute pipeline: one compile, then,
/// only on success, one link; the link outcome is handed through unchanged.
pub enum ComputePipeline {
    NeedCompute,
    NeedLink { compute: CompileResult },
    Done { result: CompileResult },
}

impl ComputePipeline {
    /// Begins a pipeline: the first work is compiling the compute stage.
    pub fn start() -> (r: (Self, PipelineAction))
        ensures
            r.0 is NeedCompute,
            r.1 matches PipelineAction::Compile(s) && s is Compute,
    {
        (ComputePipeline::NeedCompute, PipelineAction::Compile(ShaderStage::Compute))
    }

    /// Advances the pipeline on the outcome of the step it last asked for.
    pub fn step(self, outcome: CompileResult) -> (r: (Self, PipelineAction))
        requires
            !(self is Done),
        ensures
            self is NeedCompute && !outcome.success ==> {
                &&& r.0 matches ComputePipeline::Done { result }
                &&& result.shader == 0
                &&& result.success == false
                &&& result.log == outcome.log
                &&& r.1 is Stop
            },
            self is NeedCompute && outcome.success ==> {
                &&& r.0 matches ComputePipeline::NeedLink { compute } && compute == outcome
                &&& r.1 matches PipelineAction::Link { shaders } && shaders@ == seq![
                    outcome.shader,
                ]
            },
            self is NeedLink ==> {
                &&& r.0 matches ComputePipeline::Done { result } && result == outcome
                &&& r.1 is Stop
            },
    {
        match self {
            ComputePipeline::NeedCompute => {
                if !outcome.success {
                    (ComputePipeline::Done { result: stage_failure(outcome) }, PipelineAction::Stop)
                } else {
                    let shaders = vec![outcome.shader];
                    (
                        ComputePipeline::NeedLink { compute: outcome },
                        PipelineAction::Link { shaders },
                    )
                }
            },
            ComputePipeline::NeedLink { compute: _ } => {
                (ComputePipeline::Done { result: outcome }, PipelineAction::Stop)
            },
            ComputePipeline::Done { result } => {
                (ComputePipeline::Done { result }, PipelineAction::Stop)
            },
        }
    }

    /// The final result, once the pipeline has stopped.
    pub fn finish(self) -> (r: CompileResult)
        requires
            self matches ComputePipeline::Done { result },
        ensures
            self matches ComputePipeline::Done { result } && r == result,
    {
        match self {
            ComputePipeline::Done { result } => result,
            _ => unreached(),
        }
    }
}

} // verus!
