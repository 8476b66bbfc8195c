use vstd::prelude::*;
use crate::variant::{ShaderDialect, ShaderOptimizationError, ShaderOptimizationInput};

verus! {

#[verifier::external_type_specification]
#[verifier::external_body]
pub struct ExContext(glslopt::Context);

/// The language version that the optimizer is asked to emit.
#[derive(Clone, Copy, Debug, PartialEq, Eq, Structural)]
pub enum OptimizerTarget {
    OpenGl,
    OpenGles30,
}

/// The pipeline stage of a shader source.
#[derive(Clone, Copy, Debug, PartialEq, Eq, Structural)]
pub enum ShaderStage {
    Vertex,
    Fragment,
}

/// Whether glsl-optimizer accepts a source of a stage for a target.
pub uninterp spec fn optimizer_accepts(target: OptimizerTarget, stage: ShaderStage, source: Seq<
    char,
>) -> bool;

/// The source that glsl-optimizer emits for a source of a stage and a target, where it emits one.
pub uninterp spec fn optimizer_output(target: OptimizerTarget, stage: ShaderStage, source: Seq<
    char,
>) -> Option<Seq<char>>;

/// The diagnostics that glsl-optimizer reports for a source of a stage and a target.
pub uninterp spec fn optimizer_log(target: OptimizerTarget, stage: ShaderStage, source: Seq<
    char,
>) -> Seq<char>;

/// An optimizer context together with the target it was made for. Only
/// `new_context` builds one, so the two always agree.
pub struct Optimizer {
    target: OptimizerTarget,
    ctx: glslopt::Context,
}

impl Optimizer {
    /// The target that the context was made for.
    pub closed spec fn target(&self) -> OptimizerTarget {
        self.target
    }
}

/// Relies on `glslopt::Context::new`: an optimizer for one target.
#[verifier::external_body]
fn new_context(target: OptimizerTarget) -> (r: Optimizer)
    ensures
        r.target() == target,
{
    let ctx = glslopt::Context::new(
        match target {
            OptimizerTarget::OpenGl => glslopt::Target::OpenGl,
            OptimizerTarget::OpenGles30 => glslopt::Target::OpenGles30,
        },
    );
    Optimizer { target, ctx }
}

/// Relies on `glslopt::Context::optimize`, which panics on a source that holds
/// a NUL character, and reads the resulting shader's status, output and log
/// (`get_status`, `get_output`, `get_log`). These depend on the target, the
/// stage and the source alone. `get_output` and `get_log` panic where the C
/// library hands back text that is not UTF-8.
#[verifier::external_body]
fn run_optimizer(opt: &Optimizer, stage: ShaderStage, source: String) -> (r: (
    bool,
    Option<String>,
    String,
))
    requires
        !source@.contains('\0'),
    ensures
        r.0 == optimizer_accepts(opt.target(), stage, source@),
        r.1 is Some <==> optimizer_output(opt.target(), stage, source@) is Some,
        r.1 matches Some(o) ==> optimizer_output(opt.target(), stage, source@) == Some(o@),
        r.2@ == optimizer_log(opt.target(), stage, source@),
{
    let shader = opt.ctx.optimize(
        match stage {
            ShaderStage::Vertex => glslopt::ShaderType::Vertex,
            ShaderStage::Fragment => glslopt::ShaderType::Fragment,
        },
        source,
    );
    (shader.get_status(), shader.get_output().ok().map(|o| o.to_string()), shader.get_log().to_string())
}

/// Whether the optimizer accepts a source and emits a result for it.
pub open spec fn stage_succeeds(target: OptimizerTarget, stage: ShaderStage, source: Seq<char>) -> bool {
    optimizer_accepts(target, stage, source) && optimizer_output(target, stage, source) is Some
}

/// The optimizer target of a dialect.
pub open spec fn target_of(d: ShaderDialect) -> OptimizerTarget {
    match d {
        ShaderDialect::Gl => OptimizerTarget::OpenGl,
        ShaderDialect::Gles => OptimizerTarget::OpenGles30,
    }
}

/// The optimizer target of a dialect: OpenGL for desktop, OpenGL ES 3.0 for embedded.
pub fn optimizer_target(d: ShaderDialect) -> (r: OptimizerTarget)
    ensures
        r == target_of(d),
{
    match d {
        ShaderDialect::Gl => OptimizerTarget::OpenGl,
        ShaderDialect::Gles => OptimizerTarget::OpenGles30,
    }
}

/// What one optimizer run means for a task: its output where the optimizer
/// accepted the source and gave one, else a failure of the task that carries
/// the optimizer's log.
pub fn stage_result(
    item: &ShaderOptimizationInput,
    status: bool,
    output: Option<String>,
    log: String,
) -> (r: Result<String, ShaderOptimizationError>)
    ensures
        status && output is Some ==> (r matches Ok(s) && s@ == output->0@),
        !(status && output is Some) ==> (r matches Err(e) && e.shader@ == item@ && e.message@
            == log@),
{
    match output {
        Some(s) if status => Ok(s),
        _ => Err(ShaderOptimizationError { shader: item.duplicate(), message: log }),
    }
}

/// Runs one stage of a task through the optimizer: its output where the
/// optimizer accepts the source and emits a result, else a failure of the task
/// with the optimizer's log.
pub fn optimize_stage(
    opt: &Optimizer,
    item: &ShaderOptimizationInput,
    stage: ShaderStage,
    source: String,
) -> (r: Result<String, ShaderOptimizationError>)
    requires
        !source@.contains('\0'),
    ensures
        r is Ok <==> stage_succeeds(opt.target(), stage, source@),
        r matches Ok(s) ==> optimizer_output(opt.target(), stage, source@) == Some(s@),
        r matches Err(e) ==> (e.shader@ == item@ && e.message@ == optimizer_log(
            opt.target(),
            stage,
            source@,
        )),
{
    let (status, output, log) = run_optimizer(opt, stage, source);
    stage_result(item, status, output, log)
}

/// Optimizes a task's vertex source, then its fragment source, with the
/// optimizer for its dialect's target. The first stage that fails makes the
/// task fail, with that stage's log; the fragment stage runs only where the
/// vertex stage succeeded.
pub fn optimize_shader(item: &ShaderOptimizationInput, vert_src: String, frag_src: String) -> (r:
    Result<(String, String), ShaderOptimizationError>)
    requires
        !vert_src@.contains('\0'),
        !frag_src@.contains('\0'),
    ensures
        r is Ok <==> stage_succeeds(target_of(item@.dialect), ShaderStage::Vertex, vert_src@)
            && stage_succeeds(target_of(item@.dialect), ShaderStage::Fragment, frag_src@),
        r matches Ok(p) ==> (optimizer_output(
            target_of(item@.dialect),
            ShaderStage::Vertex,
            vert_src@,
        ) == Some(p.0@) && optimizer_output(
            target_of(item@.dialect),
            ShaderStage::Fragment,
            frag_src@,
        ) == Some(p.1@)),
        r matches Err(e) ==> (e.shader@ == item@ && e.message@ == if !stage_succeeds(
            target_of(item@.dialect),
            ShaderStage::Vertex,
            vert_src@,
        ) {
            optimizer_log(target_of(item@.dialect), ShaderStage::Vertex, vert_src@)
        } else {
            optimizer_log(target_of(item@.dialect), ShaderStage::Fragment, frag_src@)
        }),
{
    let opt = new_context(optimizer_target(item.gl_version));
    let vert = optimize_stage(&opt, item, ShaderStage::Vertex, vert_src);
    match vert {
        Err(e) => Err(e),
        Ok(v) => {
            let frag = optimize_stage(&opt, item, ShaderStage::Fragment, frag_src);
            match frag {
                Err(e) => Err(e),
                Ok(f) => Ok((v, f)),
            }
        },
    }
}

} // verus!
