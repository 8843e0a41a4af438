//! Program objects, linking, and typed uniform resolution.
//!
//! A program is built in stages: shaders are attached to a raw program,
//! the program is linked and validated (either failure surfaces the
//! device's diagnostic log), and only a linked program resolves uniform
//! and shader-storage-block names into typed handles. Each shader storage
//! block resolved gets the next free numbered binding point, starting at
//! zero, so no two blocks of one program ever share a point.

use vstd::prelude::*;
use core::marker::PhantomData;
use crate::buffer::ShaderStorageBuffer;
use crate::command::DeviceCommand;
use crate::error::GlError;
use crate::shader::{Shader, ShaderError, ShaderType};
use crate::target::{BufferTarget, ShaderStorage};
use crate::uniform::{BoundUniform, Uniform};

verus! {

/// The device's value for "no such resource index".
pub const INVALID_INDEX: u32 = 0xFFFF_FFFF;

/// A program object that is not linked yet.
#[derive(Debug)]
pub struct RawProgram {
    id: u32,
}

/// A successfully linked and validated program object.
#[derive(Debug)]
pub struct RawLinkedProgram(RawProgram);

impl RawLinkedProgram {
    /// The device handle of the linked program.
    pub closed spec fn spec_id(self) -> u32 {
        self.0.spec_id()
    }

    /// Returns the device handle of the linked program.
    pub fn id(&self) -> (r: u32)
        ensures
            r == self.spec_id(),
    {
        self.0.id
    }

    /// The call that makes the linked program current.
    pub fn bind(&self) -> (c: DeviceCommand)
        ensures
            c == (DeviceCommand::UseProgram { program: self.spec_id() }),
    {
        self.0.bind()
    }
}

impl RawProgram {
    /// The device handle of the program object.
    pub closed spec fn spec_id(self) -> u32 {
        self.id
    }

    /// Wraps the handle the device returned for a new program object. The
    /// device signals refusal with a zero handle, so exactly that value
    /// yields no program.
    pub fn new(id: u32) -> (r: Option<Self>)
        ensures
            id == 0 <==> r is None,
            r is Some ==> r->0.spec_id() == id,
    {
        match id {
            0 => None,
            id => Some(RawProgram { id }),
        }
    }

    /// The call that makes this program current.
    pub fn bind(&self) -> (c: DeviceCommand)
        ensures
            c == (DeviceCommand::UseProgram { program: self.spec_id() }),
    {
        DeviceCommand::UseProgram { program: self.id }
    }

    /// The calls that attach one compiled shader: the program is made
    /// current first, then the shader is attached.
    pub fn attach_shader(&self, shader_id: u32) -> (cmds: Vec<DeviceCommand>)
        ensures
            cmds@.len() == 2,
            cmds@[0] == (DeviceCommand::UseProgram { program: self.spec_id() }),
            cmds@[1] == (DeviceCommand::AttachShader { program: self.spec_id(), shader: shader_id }),
    {
        let mut cmds: Vec<DeviceCommand> = Vec::new();
        cmds.push(self.bind());
        cmds.push(DeviceCommand::AttachShader { program: self.id, shader: shader_id });
        cmds
    }

    /// Judges the link and validation statuses the device reported after
    /// the link calls: a zero link status fails with the link log, an
    /// otherwise zero validation status fails with the validation log, and
    /// only a program that passed both becomes linked.
    pub fn link(
        self,
        link_status: i32,
        link_log: Option<String>,
        validate_status: i32,
        validate_log: Option<String>,
    ) -> (r: Result<RawLinkedProgram, ProgramError>)
        ensures
            link_status != 0 && validate_status != 0 ==> r is Ok && r->Ok_0.spec_id()
                == self.spec_id(),
            link_status == 0 ==> r is Err && is_status_error(r->Err_0, link_log),
            link_status != 0 && validate_status == 0 ==> r is Err && is_status_error(
                r->Err_0,
                validate_log,
            ),
    {
        check_program_status(link_status, link_log)?;
        check_program_status(validate_status, validate_log)?;
        Ok(RawLinkedProgram(self))
    }
}

/// Why a uniform or shader-storage-block resolution failed.
#[derive(Clone, Debug, PartialEq, Eq)]
pub enum UniformError {
    /// The linked program has no active uniform or block of this name.
    NameError(String),
}

/// Why a program could not be assembled or resolved.
#[derive(Debug)]
pub enum ProgramError {
    /// A name failed to resolve.
    Uniform(UniformError),
    /// Linking or validation failed; the payload is the device's
    /// diagnostic log.
    Other(String),
    /// A stage failed to compile.
    Shader(ShaderError),
    /// The device reported an error.
    Gl(GlError),
}

impl From<GlError> for ProgramError {
    /// Wraps a device error.
    fn from(err: GlError) -> (r: Self) {
        ProgramError::Gl(err)
    }
}

impl vstd::std_specs::convert::FromSpecImpl<GlError> for ProgramError {
    open spec fn obeys_from_spec() -> bool {
        true
    }

    open spec fn from_spec(err: GlError) -> Self {
        ProgramError::Gl(err)
    }
}

impl From<ShaderError> for ProgramError {
    /// Wraps a stage compilation failure.
    fn from(err: ShaderError) -> (r: Self) {
        ProgramError::Shader(err)
    }
}

impl vstd::std_specs::convert::FromSpecImpl<ShaderError> for ProgramError {
    open spec fn obeys_from_spec() -> bool {
        true
    }

    open spec fn from_spec(err: ShaderError) -> Self {
        ProgramError::Shader(err)
    }
}

impl From<UniformError> for ProgramError {
    /// Wraps a name resolution failure.
    fn from(err: UniformError) -> (r: Self) {
        ProgramError::Uniform(err)
    }
}

impl vstd::std_specs::convert::FromSpecImpl<UniformError> for ProgramError {
    open spec fn obeys_from_spec() -> bool {
        true
    }

    open spec fn from_spec(err: UniformError) -> Self {
        ProgramError::Uniform(err)
    }
}

/// Whether `e` is the name-resolution failure carrying exactly `name`.
pub open spec fn is_name_error(e: UniformError, name: Seq<char>) -> bool {
    match e {
        UniformError::NameError(s) => s@ == name,
    }
}

/// The characters a status failure reports: the device's log, or nothing
/// when the device produced no log.
pub open spec fn spec_log_chars(log: Option<String>) -> Seq<char> {
    match log {
        Option::Some(l) => l@,
        Option::None => Seq::empty(),
    }
}

/// Whether `e` is the diagnostic-log failure built from `log`.
pub open spec fn is_status_error(e: ProgramError, log: Option<String>) -> bool {
    match e {
        ProgramError::Other(s) => s@ == spec_log_chars(log),
        _ => false,
    }
}

/// Judges one status the device reported for a program: zero is failure,
/// carrying the device's diagnostic log (or an empty one), and anything
/// else is success.
pub fn check_program_status(status: i32, log: Option<String>) -> (r: Result<(), ProgramError>)
    ensures
        status != 0 <==> r is Ok,
        status == 0 ==> is_status_error(r->Err_0, log),
{
    if status == 0 {
        let text = match log {
            Option::Some(l) => l,
            Option::None => String::new(),
        };
        Err(ProgramError::Other(text))
    } else {
        Ok(())
    }
}

/// A shader storage buffer bound to the numbered point a program resolved
/// for it.
pub struct StorageBindPoint<A> {
    buffer: ShaderStorageBuffer<A>,
    bind_point: u32,
}

impl<A> StorageBindPoint<A> {
    /// The numbered binding point the block was resolved to.
    pub closed spec fn spec_bind_point(self) -> u32 {
        self.bind_point
    }

    /// Pairs a resolved storage buffer with its binding point.
    pub fn new(buffer: ShaderStorageBuffer<A>, bind_point: u32) -> (r: Self)
        ensures
            r.spec_bind_point() == bind_point,
    {
        StorageBindPoint { buffer, bind_point }
    }

    /// The buffer bound at this point.
    pub fn buffer(&self) -> &ShaderStorageBuffer<A> {
        &self.buffer
    }

    /// The buffer bound at this point, for uploading.
    pub fn buffer_mut(&mut self) -> (r: &mut ShaderStorageBuffer<A>)
        ensures
            final(self).spec_bind_point() == old(self).spec_bind_point(),
    {
        &mut self.buffer
    }

    /// Returns the numbered binding point.
    pub fn bind_point(&self) -> (r: u32)
        ensures
            r == self.spec_bind_point(),
    {
        self.bind_point
    }
}

/// Resolves uniform and shader-storage-block names against one linked
/// program, allocating numbered binding points to storage blocks as it
/// goes.
pub struct UniformBlockBuilder {
    program_id: u32,
    buffer_bind_point: u32,
}

impl UniformBlockBuilder {
    /// The linked program this builder resolves against.
    pub closed spec fn spec_program_id(self) -> u32 {
        self.program_id
    }

    /// The next free numbered binding point for storage blocks.
    pub closed spec fn spec_next_bind_point(self) -> u32 {
        self.buffer_bind_point
    }

    /// How one successful storage-block resolution moves the builder: the
    /// block receives exactly the next free point, and the next free point
    /// moves up by one, so a point is never handed out twice within one
    /// program.
    pub open spec fn resolve_post(pre: Self, post: Self, point: u32) -> bool {
        &&& point == pre.spec_next_bind_point()
        &&& post.spec_next_bind_point() == pre.spec_next_bind_point() + 1
        &&& post.spec_program_id() == pre.spec_program_id()
    }

    /// Starts resolving against a linked program, with binding points
    /// allocated from zero.
    pub fn new(program: &RawLinkedProgram) -> (r: Self)
        ensures
            r.spec_program_id() == program.spec_id(),
            r.spec_next_bind_point() == 0,
    {
        UniformBlockBuilder { program_id: program.id(), buffer_bind_point: 0 }
    }

    /// Judges the location the device reported for a named uniform: the
    /// sentinel location (-1) means the program has no such active
    /// uniform and fails with exactly that name; any other location
    /// becomes a typed handle for it.
    pub fn uniform<U: BoundUniform>(&self, name: &str, location: i32) -> (r: Result<
        Uniform<U>,
        UniformError,
    >)
        ensures
            location == -1 <==> r is Err,
            r is Err ==> is_name_error(r->Err_0, name@),
            r is Ok ==> r->Ok_0.spec_location() == location,
    {
        if location == -1 {
            Err(UniformError::NameError(name.to_owned()))
        } else {
            Ok(Uniform::new(location))
        }
    }

    /// Judges the block index the device reported for a named shader
    /// storage block. The invalid-index sentinel means the program has no
    /// such block: that fails with exactly the name, and the builder is
    /// unchanged. Otherwise the block is allocated the next free binding
    /// point, a fresh buffer (whose handle the device allocated as
    /// `buffer_id`) is bound there, and the block is associated with the
    /// point; the next resolution will use the following point.
    pub fn shader_storage<A>(
        &mut self,
        name: &str,
        block_index: u32,
        buffer_id: u32,
    ) -> (r: (Result<ShaderStorageBuffer<A>, UniformError>, Vec<DeviceCommand>))
        requires
            old(self).spec_next_bind_point() < u32::MAX,
        ensures
            block_index == INVALID_INDEX <==> r.0 is Err,
            r.0 is Err ==> is_name_error(r.0->Err_0, name@) && *final(self) == *old(self)
                && r.1@.len() == 0,
            r.0 is Ok ==> {
                &&& Self::resolve_post(*old(self), *final(self), r.0->Ok_0.spec_bind_point())
                &&& r.0->Ok_0.spec_id() == buffer_id
                &&& r.0->Ok_0.spec_len() == 0
                &&& r.0->Ok_0@ == Seq::<A>::empty()
                &&& !r.0->Ok_0.is_mapped()
                &&& r.0->Ok_0.wf()
                &&& r.1@.len() == 2
                &&& r.1@[0] == (DeviceCommand::BindBufferBase {
                    target: <ShaderStorage as BufferTarget>::target_spec(),
                    slot: old(self).spec_next_bind_point(),
                    buffer: buffer_id,
                })
                &&& r.1@[1] == (DeviceCommand::ShaderStorageBlockBinding {
                    program: old(self).spec_program_id(),
                    block_index,
                    slot: old(self).spec_next_bind_point(),
                })
            },
    {
        if block_index == INVALID_INDEX {
            (Err(UniformError::NameError(name.to_owned())), Vec::new())
        } else {
            let bind_point = self.buffer_bind_point;
            let ssbo: ShaderStorageBuffer<A> = ShaderStorageBuffer::new(buffer_id, bind_point);
            let mut cmds: Vec<DeviceCommand> = Vec::new();
            cmds.push(ssbo.bind());
            cmds.push(
                DeviceCommand::ShaderStorageBlockBinding {
                    program: self.program_id,
                    block_index,
                    slot: bind_point,
                },
            );
            self.buffer_bind_point = self.buffer_bind_point + 1;
            (Ok(ssbo), cmds)
        }
    }
}

/// Binding-point allocation never reuses a point: two storage blocks
/// resolved in sequence within one program receive distinct points, and
/// from a fresh builder the first two resolutions receive points 0 and 1.
pub proof fn lemma_binding_points_distinct(
    b0: UniformBlockBuilder,
    b1: UniformBlockBuilder,
    b2: UniformBlockBuilder,
    p1: u32,
    p2: u32,
)
    requires
        UniformBlockBuilder::resolve_post(b0, b1, p1),
        UniformBlockBuilder::resolve_post(b1, b2, p2),
    ensures
        p1 != p2,
        b0.spec_next_bind_point() == 0 ==> p1 == 0 && p2 == 1,
{
}

/// Collects the stages of a pipeline before linking: vertex and fragment
/// are mandatory, geometry and the tessellation pair optional.
pub struct ProgramBuilder {
    program: RawProgram,
    vertex: Shader,
    fragment: Shader,
    geometry: Option<Shader>,
    tess: Option<(Shader, Shader)>,
}

impl ProgramBuilder {
    /// The program object the stages will be attached to.
    pub closed spec fn spec_program_id(self) -> u32 {
        self.program.spec_id()
    }

    /// The vertex stage.
    pub closed spec fn spec_vertex(self) -> Shader {
        self.vertex
    }

    /// The fragment stage.
    pub closed spec fn spec_fragment(self) -> Shader {
        self.fragment
    }

    /// The optional geometry stage.
    pub closed spec fn spec_geometry(self) -> Option<Shader> {
        self.geometry
    }

    /// The optional tessellation control and evaluation pair.
    pub closed spec fn spec_tess(self) -> Option<(Shader, Shader)> {
        self.tess
    }

    /// The order in which the collected stages are attached: vertex first,
    /// then the tessellation pair if present, then geometry if present,
    /// then fragment.
    pub open spec fn attach_order_spec(self) -> Seq<Shader> {
        seq![self.spec_vertex()] + (match self.spec_tess() {
            Option::Some(pair) => seq![pair.0, pair.1],
            Option::None => Seq::<Shader>::empty(),
        }) + (match self.spec_geometry() {
            Option::Some(g) => seq![g],
            Option::None => Seq::<Shader>::empty(),
        }) + seq![self.spec_fragment()]
    }

    /// Starts collecting a pipeline over a freshly allocated program
    /// object (a zero handle means the device refused one) and the two
    /// mandatory stages.
    pub fn new(program_id: u32, vertex: Shader, fragment: Shader) -> (r: Option<Self>)
        ensures
            program_id == 0 <==> r is None,
            r is Some ==> {
                &&& r->0.spec_program_id() == program_id
                &&& r->0.spec_vertex() == vertex
                &&& r->0.spec_fragment() == fragment
                &&& r->0.spec_geometry() is None
                &&& r->0.spec_tess() is None
            },
    {
        match RawProgram::new(program_id) {
            Option::Some(program) => Some(
                ProgramBuilder { program, vertex, fragment, geometry: None, tess: None },
            ),
            Option::None => None,
        }
    }

    /// Adds the optional geometry stage; the shader must be of the
    /// geometry kind.
    pub fn with_geometry(self, shader: Shader) -> (r: Self)
        requires
            shader.shader_type == ShaderType::Geometry,
        ensures
            r.spec_program_id() == self.spec_program_id(),
            r.spec_vertex() == self.spec_vertex(),
            r.spec_fragment() == self.spec_fragment(),
            r.spec_geometry() == Some(shader),
            r.spec_tess() == self.spec_tess(),
    {
        ProgramBuilder { geometry: Some(shader), ..self }
    }

    /// Adds the optional tessellation pair; the shaders must be the
    /// control and evaluation kinds, in that order.
    pub fn with_tesselation(self, tess_control: Shader, tess_eval: Shader) -> (r: Self)
        requires
            tess_control.shader_type == ShaderType::TessControl,
            tess_eval.shader_type == ShaderType::TessEvaluation,
        ensures
            r.spec_program_id() == self.spec_program_id(),
            r.spec_vertex() == self.spec_vertex(),
            r.spec_fragment() == self.spec_fragment(),
            r.spec_geometry() == self.spec_geometry(),
            r.spec_tess() == Some((tess_control, tess_eval)),
    {
        ProgramBuilder { tess: Some((tess_control, tess_eval)), ..self }
    }

    /// Hands out the collected stages in attach order, and the program
    /// object they are attached to. The executor compiles each stage,
    /// attaches it in exactly this order, links, and feeds the statuses to
    /// [`RawProgram::link`].
    pub fn into_stages(self) -> (r: (RawProgram, Vec<Shader>))
        ensures
            r.0.spec_id() == self.spec_program_id(),
            r.1@ == self.attach_order_spec(),
    {
        let ProgramBuilder { program, vertex, fragment, geometry, tess } = self;
        let mut stages: Vec<Shader> = Vec::new();
        stages.push(vertex);
        match tess {
            Option::Some(pair) => {
                stages.push(pair.0);
                stages.push(pair.1);
            },
            Option::None => {},
        }
        match geometry {
            Option::Some(g) => {
                stages.push(g);
            },
            Option::None => {},
        }
        stages.push(fragment);
        proof {
            assert(stages@ =~= self.attach_order_spec());
        }
        (program, stages)
    }
}

/// A linked program together with its permanent typed environment: the
/// uniform and storage handles its resolution produced. The phantom
/// parameter records the vertex input type the program was written for.
pub struct Program<I, E> {
    raw: RawLinkedProgram,
    environment: E,
    _marker: PhantomData<I>,
}

impl<I, E> Program<I, E> {
    /// The device handle of the linked program.
    pub closed spec fn spec_id(self) -> u32 {
        self.raw.spec_id()
    }

    /// The typed environment of resolved handles.
    pub closed spec fn spec_env(self) -> E {
        self.environment
    }

    /// Pairs a linked program with the environment its resolution
    /// produced; from here on, the environment is the only way to reach
    /// the program's uniforms.
    pub fn from_parts(raw: RawLinkedProgram, environment: E) -> (r: Self)
        ensures
            r.spec_id() == raw.spec_id(),
            r.spec_env() == environment,
    {
        Program { raw, environment, _marker: PhantomData }
    }

    /// Borrows the typed environment for setting uniforms and uploading
    /// storage buffers.
    /// Whether `post` is `pre` with its environment replaced by `e` and
    /// everything else untouched.
    pub closed spec fn env_replaced(pre: Self, post: Self, e: E) -> bool {
        post == (Program { environment: e, ..pre })
    }

    /// Replacing the environment with its own value changes nothing.
    pub proof fn lemma_env_replaced_id(pre: Self, post: Self)
        requires
            Self::env_replaced(pre, post, pre.spec_env()),
        ensures
            post == pre,
    {
    }

    /// Borrows the typed environment for setting uniforms and uploading
    /// storage buffers.
    pub fn env_mut(&mut self) -> (r: &mut E)
        ensures
            *r == old(self).spec_env(),
            Self::env_replaced(*old(self), *final(self), *final(r)),
            final(self).spec_env() == *final(r),
            final(self).spec_id() == old(self).spec_id(),
    {
        &mut self.environment
    }

    /// The call that makes the linked program current.
    pub fn bind(&self) -> (c: DeviceCommand)
        ensures
            c == (DeviceCommand::UseProgram { program: self.spec_id() }),
    {
        self.raw.bind()
    }
}

} // verus!
