//! Vertex array objects.
//!
//! A [`VertexArray`] owns a device vertex array handle and the running
//! count of attribute slots already consumed, so that several vertex
//! buffers can be stacked into one array: each added buffer describes its
//! record starting at the first free slot, and moves the count past the
//! slots it consumed.

use vstd::prelude::*;
use crate::buffer::VertexBuffer;
use crate::command::DeviceCommand;
use crate::layout::{attrib_command, define_attribs, VertexAttribute};
use crate::target::{Array, BufferTarget};

verus! {

/// A device vertex array object and the attribute slots consumed so far.
pub struct VertexArray {
    id: u32,
    index: u32,
}

impl VertexArray {
    /// The device handle this vertex array owns.
    pub closed spec fn spec_id(self) -> u32 {
        self.id
    }

    /// How many attribute slots the added buffers have consumed.
    pub closed spec fn spec_index(self) -> u32 {
        self.index
    }

    /// Wraps a device vertex array handle with no attributes defined yet.
    pub fn new(id: u32) -> (r: Self)
        ensures
            r.spec_id() == id,
            r.spec_index() == 0,
    {
        VertexArray { id, index: 0 }
    }

    /// The call that makes this vertex array current.
    pub fn bind(&self) -> (c: DeviceCommand)
        ensures
            c == (DeviceCommand::BindVertexArray { array: self.spec_id() }),
    {
        DeviceCommand::BindVertexArray { array: self.id }
    }

    /// Describes `buffer`'s vertex record on this array: binds the array,
    /// binds the buffer, then enables and describes one attribute slot per
    /// leaf field, consecutively from the first free slot. The free-slot
    /// count moves past the consumed slots, so the next buffer continues
    /// where this one left off.
    pub fn add_buffer<T: VertexAttribute>(&mut self, buffer: &VertexBuffer<T>) -> (cmds: Vec<
        DeviceCommand,
    >)
        requires
            !buffer.is_mapped(),
            T::fields_spec().len() <= 0x0010_0000,
            old(self).spec_index() + T::fields_spec().len() <= u32::MAX,
        ensures
            final(self).spec_id() == old(self).spec_id(),
            final(self).spec_index() == old(self).spec_index() + T::fields_spec().len(),
            cmds@.len() == 2 + 2 * T::fields_spec().len(),
            cmds@[0] == (DeviceCommand::BindVertexArray { array: old(self).spec_id() }),
            cmds@[1] == (DeviceCommand::BindBuffer {
                target: <Array as BufferTarget>::target_spec(),
                buffer: buffer.spec_id(),
            }),
            forall|j: int|
                2 <= j < cmds@.len() ==> #[trigger] cmds@[j] == attrib_command(
                    T::fields_spec(),
                    old(self).spec_index(),
                    0,
                    j - 2,
                ),
    {
        let mut cmds: Vec<DeviceCommand> = Vec::new();
        cmds.push(self.bind());
        cmds.push(buffer.bind());
        let fields = T::fields();
        let (mut attribs, next) = define_attribs(&fields, self.index, 0);
        cmds.append(&mut attribs);
        self.index = next;
        cmds
    }
}

} // verus!
