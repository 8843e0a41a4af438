//! Shader stages and pipeline assembly.
//!
//! A shader stage is a device shader object of a known kind. Compiling its
//! source is device work; what the library decides is which stages a
//! pipeline needs, in which order they are attached, and what each failure
//! means.

use vstd::prelude::*;
use crate::command::DeviceCommand;
use crate::shader::program::{RawProgram};

pub mod program;

verus! {

/// The kind of a shader stage.
#[derive(Copy, Clone, Debug, PartialEq, Eq, Structural)]
pub enum ShaderType {
    /// The vertex stage.
    Vertex,
    /// The fragment stage.
    Fragment,
    /// The optional geometry stage.
    Geometry,
    /// The tessellation control stage (always paired with evaluation).
    TessControl,
    /// The tessellation evaluation stage (always paired with control).
    TessEvaluation,
}

impl ShaderType {
    /// The device's enumeration value for this stage kind.
    pub open spec fn code_spec(self) -> u32 {
        match self {
            ShaderType::Vertex => 0x8B31,
            ShaderType::Fragment => 0x8B30,
            ShaderType::Geometry => 0x8DD9,
            ShaderType::TessControl => 0x8E88,
            ShaderType::TessEvaluation => 0x8E87,
        }
    }

    /// Returns the device's enumeration value for this stage kind.
    pub fn code(self) -> (r: u32)
        ensures
            r == self.code_spec(),
    {
        match self {
            ShaderType::Vertex => 0x8B31,
            ShaderType::Fragment => 0x8B30,
            ShaderType::Geometry => 0x8DD9,
            ShaderType::TessControl => 0x8E88,
            ShaderType::TessEvaluation => 0x8E87,
        }
    }
}

/// A device shader object of a known kind, with its source attached.
#[derive(Copy, Clone, Debug, PartialEq, Eq, Structural)]
pub struct Shader {
    /// The device shader handle.
    pub id: u32,
    /// The kind of stage this shader object is.
    pub shader_type: ShaderType,
}

impl Shader {
    /// Wraps a device shader handle of the given kind.
    pub fn new(id: u32, shader_type: ShaderType) -> (r: Self)
        ensures
            r == (Shader { id, shader_type }),
    {
        Shader { id, shader_type }
    }
}

/// Why a shader stage failed to compile: the device's diagnostic log.
#[derive(Clone, Debug, PartialEq, Eq)]
pub enum ShaderError {
    /// Compilation failed; the payload is the device's diagnostic log.
    Compile(String),
}

/// Why a whole pipeline could not be assembled.
#[derive(Debug)]
pub enum PipelineError {
    /// A stage failed to compile.
    Shader(ShaderError),
    /// Shader source could not be read; the payload describes the failure.
    Io(String),
    /// The device refused to allocate a program object.
    ProgramCreation,
}

impl From<ShaderError> for PipelineError {
    /// Wraps a stage compilation failure.
    fn from(err: ShaderError) -> (r: Self) {
        PipelineError::Shader(err)
    }
}

impl vstd::std_specs::convert::FromSpecImpl<ShaderError> for PipelineError {
    open spec fn obeys_from_spec() -> bool {
        true
    }

    open spec fn from_spec(err: ShaderError) -> Self {
        PipelineError::Shader(err)
    }
}

/// Plans a minimal two-stage pipeline over an already allocated program
/// object and two compiled shaders: fails exactly when the device refused
/// the program allocation (a zero handle), and otherwise returns the
/// program and the calls that attach both stages and link, in order. The
/// link and validation statuses are read by the executor afterwards and
/// judged by [`RawProgram::link`].
pub fn simple_pipeline(program_id: u32, vert_id: u32, frag_id: u32) -> (r: Result<
    (RawProgram, Vec<DeviceCommand>),
    PipelineError,
>)
    ensures
        program_id == 0 <==> r is Err,
        r is Err ==> r->Err_0 is ProgramCreation,
        r is Ok ==> {
            &&& r->Ok_0.0.spec_id() == program_id
            &&& r->Ok_0.1@.len() == 6
            &&& r->Ok_0.1@[0] == (DeviceCommand::UseProgram { program: program_id })
            &&& r->Ok_0.1@[1] == (DeviceCommand::AttachShader {
                program: program_id,
                shader: vert_id,
            })
            &&& r->Ok_0.1@[2] == (DeviceCommand::UseProgram { program: program_id })
            &&& r->Ok_0.1@[3] == (DeviceCommand::AttachShader {
                program: program_id,
                shader: frag_id,
            })
            &&& r->Ok_0.1@[4] == (DeviceCommand::UseProgram { program: program_id })
            &&& r->Ok_0.1@[5] == (DeviceCommand::LinkProgram { program: program_id })
        },
{
    let program = match RawProgram::new(program_id) {
        Some(p) => p,
        None => {
            return Err(PipelineError::ProgramCreation);
        },
    };
    let mut cmds: Vec<DeviceCommand> = Vec::new();
    let mut a = program.attach_shader(vert_id);
    cmds.append(&mut a);
    let mut b = program.attach_shader(frag_id);
    cmds.append(&mut b);
    cmds.push(program.bind());
    cmds.push(DeviceCommand::LinkProgram { program: program_id });
    Ok((program, cmds))
}

} // verus!
