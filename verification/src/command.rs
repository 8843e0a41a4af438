//! Device calls as data.
//!
//! The device's binding state is one global mutable resource, so the order
//! of calls is part of an operation's meaning: a buffer must be bound before
//! its data store is replaced, a vertex array before the buffers feeding it,
//! a program before its uniforms are resolved. The verified operations in
//! this crate therefore do not perform device calls; they return the exact
//! call sequence to issue, as values of [`DeviceCommand`], and their
//! contracts pin both the calls and their order. The unverified executor
//! walks the sequence and issues one real device call per command, reading
//! the device error flag after each.
//!
//! Counts and lengths are in elements of the buffer's element type; the
//! executor multiplies by the element's byte size, which only it knows.

use vstd::prelude::*;

verus! {

/// The shape of a uniform value: how many components it has and which
/// device set-call family it dispatches to.
#[derive(Copy, Clone, Debug, PartialEq, Eq, Structural)]
pub enum UniformShape {
    /// A scalar or vector value of 1 to 4 components of the base type with
    /// the given device code.
    Vector { components: u32, base_code: u32 },
    /// A square matrix of the given dimension over the base type with the
    /// given device code.
    Matrix { dim: u32, base_code: u32 },
}

/// One device call, with every argument the library decides. Buffer lengths
/// are element counts.
#[derive(Copy, Clone, Debug, PartialEq, Eq, Structural)]
pub enum DeviceCommand {
    /// Bind a buffer to its target's global slot.
    BindBuffer { target: u32, buffer: u32 },
    /// Bind a buffer to a numbered slot of an indexed target.
    BindBufferBase { target: u32, slot: u32, buffer: u32 },
    /// Replace the data store of the buffer bound to `target` with the
    /// caller-side array of `len` elements, under a usage hint.
    BufferData { target: u32, len: usize, usage: u32 },
    /// Release a buffer handle.
    DeleteBuffer { buffer: u32 },
    /// Map the full extent (`len` elements) of the buffer bound to `target`
    /// for reading and writing.
    MapBufferRange { target: u32, len: usize },
    /// Unmap the buffer bound to `target`, committing the mapped store.
    UnmapBuffer { target: u32 },
    /// Enable the numbered vertex attribute slot.
    EnableVertexAttribArray { slot: u32 },
    /// Describe the numbered vertex attribute slot: component count, device
    /// base-type code, integer versus float interpretation, record stride
    /// and byte offset within the record.
    VertexAttribPointer {
        slot: u32,
        components: u32,
        base_code: u32,
        integer: bool,
        stride: u32,
        offset: u32,
    },
    /// Bind a vertex array object.
    BindVertexArray { array: u32 },
    /// Make a program current.
    UseProgram { program: u32 },
    /// Attach a compiled shader to a program.
    AttachShader { program: u32, shader: u32 },
    /// Link a program.
    LinkProgram { program: u32 },
    /// Validate a linked program.
    ValidateProgram { program: u32 },
    /// Associate a shader storage block of a program with a numbered
    /// binding slot.
    ShaderStorageBlockBinding { program: u32, block_index: u32, slot: u32 },
    /// Set the uniform at `location` to the caller-side value of the given
    /// shape.
    SetUniform { location: i32, shape: UniformShape },
    /// Clear the buffers selected by `mask`.
    Clear { mask: u32 },
    /// Draw `instances` instances of `count` vertices starting at `first`,
    /// in the primitive mode `mode`.
    DrawArraysInstanced { mode: u32, first: i32, count: i32, instances: i32 },
}

} // verus!
