use vstd::prelude::*;

verus! {

/// The shading-language dialect that a variant is built for.
#[derive(Clone, Copy, Debug, PartialEq, Eq, Structural)]
pub enum ShaderDialect {
    /// Desktop OpenGL.
    Gl,
    /// OpenGL ES (embedded and mobile).
    Gles,
}

/// What a build task is, as mathematical values.
pub ghost struct VariantView {
    pub name: Seq<char>,
    pub config: Seq<char>,
    pub dialect: ShaderDialect,
}

/// One shader build task: a shader, its feature configuration (tokens joined
/// by commas, empty for the base variant) and the dialect to target.
#[derive(Clone, Debug)]
pub struct ShaderOptimizationInput {
    pub shader_name: String,
    pub config: String,
    pub gl_version: ShaderDialect,
}

impl View for ShaderOptimizationInput {
    type V = VariantView;

    open spec fn view(&self) -> VariantView {
        VariantView { name: self.shader_name@, config: self.config@, dialect: self.gl_version }
    }
}

impl ShaderOptimizationInput {
    /// Builds the task for `shader_name` with `config` on `gl_version`.
    pub fn new(shader_name: String, config: String, gl_version: ShaderDialect) -> (r: Self)
        ensures
            r@ == (VariantView { name: shader_name@, config: config@, dialect: gl_version }),
    {
        ShaderOptimizationInput { shader_name, config, gl_version }
    }

    /// A copy of the task with the same fields.
    pub fn duplicate(&self) -> (r: Self)
        ensures
            r@ == self@,
    {
        ShaderOptimizationInput {
            shader_name: self.shader_name.clone(),
            config: self.config.clone(),
            gl_version: self.gl_version,
        }
    }
}

/// A failed task, as mathematical values.
pub ghost struct FailureView {
    pub shader: VariantView,
    pub message: Seq<char>,
}

/// A task that the optimizer rejected, with the optimizer's log.
#[derive(Clone, Debug)]
pub struct ShaderOptimizationError {
    pub shader: ShaderOptimizationInput,
    pub message: String,
}

impl View for ShaderOptimizationError {
    type V = FailureView;

    open spec fn view(&self) -> FailureView {
        FailureView { shader: self.shader@, message: self.message@ }
    }
}

impl ShaderOptimizationError {
    /// A copy of the failure with the same task and message.
    pub fn duplicate(&self) -> (r: Self)
        ensures
            r@ == self@,
    {
        ShaderOptimizationError { shader: self.shader.duplicate(), message: self.message.clone() }
    }
}

} // verus!
