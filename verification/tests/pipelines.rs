use birblike::command::{DeviceCommand, UniformShape};
use birblike::buffer::ShaderStorageBuffer;
use birblike::error::GlError;
use birblike::shader::program::{
    check_program_status, ProgramBuilder, ProgramError, RawProgram, StorageBindPoint,
    UniformBlockBuilder, UniformError, INVALID_INDEX,
};
use birblike::shader::{simple_pipeline, PipelineError, Shader, ShaderError, ShaderType};
use birblike::uniform::Uniform;

fn linked() -> birblike::shader::program::RawLinkedProgram {
    RawProgram::new(9)
        .expect("a nonzero handle is a program")
        .link(1, None, 1, None)
        .expect("both statuses pass")
}

#[test]
fn missing_uniform_name_comes_back_in_the_error() {
    let program = linked();
    let builder = UniformBlockBuilder::new(&program);
    let r: Result<Uniform<i32>, UniformError> = builder.uniform("no_such_uniform", -1);
    assert_eq!(
        r.unwrap_err(),
        UniformError::NameError(String::from("no_such_uniform"))
    );
}

#[test]
fn present_uniform_keeps_its_location() {
    let program = linked();
    let builder = UniformBlockBuilder::new(&program);
    let u: Uniform<(i32, i32)> = builder.uniform("tile_amounts", 3).unwrap();
    assert_eq!(
        u.set((40, 40)),
        DeviceCommand::SetUniform {
            location: 3,
            shape: UniformShape::Vector { components: 2, base_code: 0x1404 },
        }
    );
}

#[test]
fn storage_blocks_get_binding_points_in_sequence() {
    let program = linked();
    let mut builder = UniformBlockBuilder::new(&program);
    let (a, cmds_a) = builder.shader_storage::<i32>("positions", 0, 21);
    let a = a.unwrap();
    let (b, cmds_b) = builder.shader_storage::<i32>("uvs", 1, 22);
    let b = b.unwrap();
    assert_eq!(a.bind(), DeviceCommand::BindBufferBase { target: 0x90D2, slot: 0, buffer: 21 });
    assert_eq!(b.bind(), DeviceCommand::BindBufferBase { target: 0x90D2, slot: 1, buffer: 22 });
    assert_eq!(
        cmds_a[1],
        DeviceCommand::ShaderStorageBlockBinding { program: 9, block_index: 0, slot: 0 }
    );
    assert_eq!(
        cmds_b[1],
        DeviceCommand::ShaderStorageBlockBinding { program: 9, block_index: 1, slot: 1 }
    );
}

#[test]
fn missing_storage_block_fails_without_consuming_a_point() {
    let program = linked();
    let mut builder = UniformBlockBuilder::new(&program);
    let (r, cmds) = builder.shader_storage::<i32>("ghost_block", INVALID_INDEX, 30);
    assert_eq!(
        r.unwrap_err(),
        UniformError::NameError(String::from("ghost_block"))
    );
    assert!(cmds.is_empty());
    let (next, _) = builder.shader_storage::<i32>("real_block", 0, 31);
    assert_eq!(
        next.unwrap().bind(),
        DeviceCommand::BindBufferBase { target: 0x90D2, slot: 0, buffer: 31 }
    );
}

#[test]
fn zero_status_surfaces_the_log() {
    match check_program_status(0, Some(String::from("bad link"))) {
        Err(ProgramError::Other(log)) => assert_eq!(log, "bad link"),
        _ => panic!("a zero status must fail with the log"),
    }
    match check_program_status(0, None) {
        Err(ProgramError::Other(log)) => assert_eq!(log, ""),
        _ => panic!("a zero status must fail even without a log"),
    }
    assert!(check_program_status(1, None).is_ok());
}

#[test]
fn link_checks_both_statuses() {
    let p = RawProgram::new(4).unwrap();
    match p.link(0, Some(String::from("link log")), 1, None) {
        Err(ProgramError::Other(log)) => assert_eq!(log, "link log"),
        _ => panic!("a zero link status must fail"),
    }
    let p = RawProgram::new(4).unwrap();
    match p.link(1, None, 0, Some(String::from("validate log"))) {
        Err(ProgramError::Other(log)) => assert_eq!(log, "validate log"),
        _ => panic!("a zero validation status must fail"),
    }
}

#[test]
fn refused_program_allocation_fails_the_pipeline() {
    match simple_pipeline(0, 1, 2) {
        Err(PipelineError::ProgramCreation) => {}
        _ => panic!("a zero program handle must fail"),
    }
    let (program, cmds) = simple_pipeline(5, 1, 2).unwrap();
    assert_eq!(cmds.len(), 6);
    assert_eq!(cmds[0], DeviceCommand::UseProgram { program: 5 });
    assert_eq!(cmds[1], DeviceCommand::AttachShader { program: 5, shader: 1 });
    assert_eq!(cmds[5], DeviceCommand::LinkProgram { program: 5 });
    assert_eq!(program.bind(), DeviceCommand::UseProgram { program: 5 });
}

#[test]
fn stages_attach_in_pipeline_order() {
    let vertex = Shader::new(1, ShaderType::Vertex);
    let fragment = Shader::new(2, ShaderType::Fragment);
    let geometry = Shader::new(3, ShaderType::Geometry);
    let tc = Shader::new(4, ShaderType::TessControl);
    let te = Shader::new(5, ShaderType::TessEvaluation);
    assert!(ProgramBuilder::new(0, vertex, fragment).is_none());
    let builder = ProgramBuilder::new(7, vertex, fragment)
        .unwrap()
        .with_tesselation(tc, te)
        .with_geometry(geometry);
    let (program, stages) = builder.into_stages();
    assert_eq!(stages, vec![vertex, tc, te, geometry, fragment]);
    assert_eq!(program.bind(), DeviceCommand::UseProgram { program: 7 });
}

#[test]
fn error_wrappers_keep_their_payloads() {
    let shader_err = ShaderError::Compile(String::from("syntax"));
    match PipelineError::from(shader_err.clone()) {
        PipelineError::Shader(e) => assert_eq!(e, shader_err),
        _ => panic!("a shader failure must stay a shader failure"),
    }
    match ProgramError::from(shader_err.clone()) {
        ProgramError::Shader(e) => assert_eq!(e, shader_err),
        _ => panic!("a shader failure must stay a shader failure"),
    }
    match ProgramError::from(GlError { code: 0x0500 }) {
        ProgramError::Gl(e) => assert_eq!(e, GlError { code: 0x0500 }),
        _ => panic!("a device failure must stay a device failure"),
    }
    match ProgramError::from(UniformError::NameError(String::from("u"))) {
        ProgramError::Uniform(UniformError::NameError(n)) => assert_eq!(n, "u"),
        _ => panic!("a name failure must stay a name failure"),
    }
}

#[test]
fn storage_bind_points_pair_buffer_and_slot() {
    let buffer: ShaderStorageBuffer<u32> = ShaderStorageBuffer::new(17, 4);
    let mut point = StorageBindPoint::new(buffer, 4);
    assert_eq!(point.bind_point(), 4);
    assert_eq!(point.buffer().len(), 0);
    point.buffer_mut().upload(&[1, 2], birblike::buffer::UsageType::DynamicDraw);
    assert_eq!(point.buffer().len(), 2);
}
