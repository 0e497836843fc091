//! Why the viewer could not start, and what the process exits with.

use vstd::prelude::*;

verus! {

/// The steps of setting up the graphics context, in the order they are taken.
#[derive(Clone, Copy, Debug, PartialEq, Eq, Structural)]
pub enum SetupStep {
    /// Acquire a rendering surface bound to the window.
    CreateSurface,
    /// Request an adapter that can present to the surface.
    RequestAdapter,
    /// Request a logical device and its queue from the adapter.
    RequestDevice,
    /// Configure the surface with format, size and presentation mode.
    ConfigureSurface,
    /// Compile the bundled vertex shader and the user's fragment shader.
    CompileShaders,
    /// Upload the quad's vertices and indices.
    UploadGeometry,
    /// Create the uniform buffer.
    CreateUniformBuffer,
    /// Create the binding layout and the binding group of the uniform buffer.
    CreateBindings,
    /// Build the render pipeline.
    CreatePipeline,
}

/// The kinds of failure that a diagnostic tells apart.
#[derive(Clone, Copy, Debug, PartialEq, Eq, Structural)]
pub enum ErrorClass {
    /// The shader file could not be read.
    Io,
    /// The environment gave no adapter or device, or the device refused a step.
    Gpu,
    /// The user's shader did not compile.
    Compilation,
}

/// Why the viewer could not start. Every such error is fatal.
#[derive(Clone, Debug, PartialEq, Eq)]
pub enum StartupError {
    /// The shader file could not be read.
    ShaderRead { message: String },
    /// A setup step other than shader compilation failed.
    Gpu { step: SetupStep, message: String },
    /// The user's fragment shader did not compile.
    ShaderCompilation { message: String },
}

impl SetupStep {
    /// The class of a failure of this step: compilation for the shaders, the
    /// environment for everything else.
    pub open spec fn failure_class(self) -> ErrorClass {
        if self == SetupStep::CompileShaders {
            ErrorClass::Compilation
        } else {
            ErrorClass::Gpu
        }
    }

    /// The error that a failure of this step with the given diagnostic is.
    pub open spec fn failure(self, message: String) -> StartupError {
        if self == SetupStep::CompileShaders {
            StartupError::ShaderCompilation { message }
        } else {
            StartupError::Gpu { step: self, message }
        }
    }

    /// Turns a failure of this step into the error to report, keeping the
    /// diagnostic.
    pub fn fail(self, message: String) -> (error: StartupError)
        ensures
            error == self.failure(message),
            error.class_of() == self.failure_class(),
            error.diagnostic() == message,
    {
        match self {
            SetupStep::CompileShaders => StartupError::ShaderCompilation { message },
            _ => StartupError::Gpu { step: self, message },
        }
    }
}

impl StartupError {
    /// The class of the error.
    pub open spec fn class_of(self) -> ErrorClass {
        match self {
            StartupError::ShaderRead { .. } => ErrorClass::Io,
            StartupError::Gpu { .. } => ErrorClass::Gpu,
            StartupError::ShaderCompilation { .. } => ErrorClass::Compilation,
        }
    }

    /// The class of the error.
    pub fn class(&self) -> (class: ErrorClass)
        ensures
            class == self.class_of(),
    {
        match self {
            StartupError::ShaderRead { .. } => ErrorClass::Io,
            StartupError::Gpu { .. } => ErrorClass::Gpu,
            StartupError::ShaderCompilation { .. } => ErrorClass::Compilation,
        }
    }

    /// The diagnostic that came with the error.
    pub open spec fn diagnostic(self) -> String {
        match self {
            StartupError::ShaderRead { message } => message,
            StartupError::Gpu { message, .. } => message,
            StartupError::ShaderCompilation { message } => message,
        }
    }

    /// The diagnostic that came with the error.
    pub fn message(&self) -> (message: &String)
        ensures
            *message == self.diagnostic(),
    {
        match self {
            StartupError::ShaderRead { message } => message,
            StartupError::Gpu { message, .. } => message,
            StartupError::ShaderCompilation { message } => message,
        }
    }
}

/// The source of the fragment shader, given how reading its file went.
///
/// A file that was read is passed on as it is. One that could not be read is a
/// startup error of the I/O class that keeps the diagnostic, and nothing of the
/// viewer is to be started.
pub fn shader_source(read: Result<String, String>) -> (source: Result<String, StartupError>)
    ensures
        read matches Ok(text) ==> source == Ok::<String, StartupError>(text),
        read matches Err(message) ==> source == Err::<String, StartupError>(
            StartupError::ShaderRead { message },
        ),
{
    match read {
        Ok(text) => Ok(text),
        Err(message) => Err(StartupError::ShaderRead { message }),
    }
}

/// The exit status of the process for a run that ended as `outcome` says.
pub open spec fn status_of(outcome: Result<(), StartupError>) -> u8 {
    match outcome {
        Ok(_) => 0,
        Err(_) => 1,
    }
}

/// The exit status of the process: 0 after a run that the event loop ended,
/// 1 after a startup error.
pub fn exit_status(outcome: &Result<(), StartupError>) -> (status: u8)
    ensures
        status == status_of(*outcome),
        status == 0 <==> outcome is Ok,
{
    match outcome {
        Ok(_) => 0,
        Err(_) => 1,
    }
}

/// A shader that does not compile fails in a class of its own: no failure of
/// another step, and no unreadable file, is reported in the compilation class.
pub proof fn lemma_compilation_class_is_distinct(step: SetupStep, message: String)
    ensures
        step.failure(message).class_of() == step.failure_class(),
        step.failure_class() == ErrorClass::Compilation <==> step == SetupStep::CompileShaders,
        SetupStep::RequestAdapter.failure_class() == ErrorClass::Gpu,
        SetupStep::RequestDevice.failure_class() == ErrorClass::Gpu,
        (StartupError::ShaderRead { message }).class_of() == ErrorClass::Io,
{
}

} // verus!
