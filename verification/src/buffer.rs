//! Typed device buffers and scoped mapped views.
//!
//! A [`Buffer`] owns exactly one device buffer handle and mirrors, element
//! for element, the data store the device holds for it: `upload` replaces
//! the mirror and returns the bind-then-replace call sequence, and a
//! [`BufferMapMut`] checks the store out of the buffer as a CPU-visible
//! window, to be written back by `unmap`. Because a view takes the store
//! with it, and every operation that touches the device store demands an
//! unmapped buffer, the store can never be replaced or mapped twice while
//! a view is live. Ownership of the handle is exclusive: releasing it
//! consumes the buffer, so a double release cannot be written.

use vstd::prelude::*;
use core::marker::PhantomData;
use crate::command::DeviceCommand;
use crate::error::GlError;
use crate::target::{Array, BufferTarget, Element, IndexedTarget, ShaderStorage};

verus! {

/// A usage hint attached to an upload: how often the store will be
/// respecified and how it will be sourced. It never affects what the
/// buffer holds, only where the device places it.
#[derive(Copy, Clone, Debug, PartialEq, Eq, Structural, Hash)]
pub enum UsageType {
    /// Specified once by the application, sourced at most a few times.
    StreamDraw,
    /// Specified once by reading from the device, queried at most a few times.
    StreamRead,
    /// Specified once by reading from the device, sourced at most a few times.
    StreamCopy,
    /// Specified once by the application, sourced many times.
    StaticDraw,
    /// Specified once by reading from the device, queried many times.
    StaticRead,
    /// Specified once by reading from the device, sourced many times.
    StaticCopy,
    /// Respecified repeatedly by the application, sourced many times.
    DynamicDraw,
    /// Respecified repeatedly by reading from the device, queried many times.
    DynamicRead,
    /// Respecified repeatedly by reading from the device, sourced many times.
    DynamicCopy,
}

impl UsageType {
    /// The device's enumeration value for this hint.
    pub open spec fn code_spec(self) -> u32 {
        match self {
            UsageType::StreamDraw => 0x88E0,
            UsageType::StreamRead => 0x88E1,
            UsageType::StreamCopy => 0x88E2,
            UsageType::StaticDraw => 0x88E4,
            UsageType::StaticRead => 0x88E5,
            UsageType::StaticCopy => 0x88E6,
            UsageType::DynamicDraw => 0x88E8,
            UsageType::DynamicRead => 0x88E9,
            UsageType::DynamicCopy => 0x88EA,
        }
    }

    /// Returns the device's enumeration value for this hint.
    pub fn code(self) -> (r: u32)
        ensures
            r == self.code_spec(),
    {
        match self {
            UsageType::StreamDraw => 0x88E0,
            UsageType::StreamRead => 0x88E1,
            UsageType::StreamCopy => 0x88E2,
            UsageType::StaticDraw => 0x88E4,
            UsageType::StaticRead => 0x88E5,
            UsageType::StaticCopy => 0x88E6,
            UsageType::DynamicDraw => 0x88E8,
            UsageType::DynamicRead => 0x88E9,
            UsageType::DynamicCopy => 0x88EA,
        }
    }
}

/// A device buffer of elements of type `T`, bound (by its type alone) to
/// the target kind `B`. It owns its device handle and mirrors the data
/// store the device holds.
#[derive(Debug)]
pub struct Buffer<T, B: BufferTarget> {
    id: u32,
    length: usize,
    contents: Vec<T>,
    mapped: bool,
    _phantom: PhantomData<B>,
}

/// A buffer of per-vertex data.
pub type VertexBuffer<T> = Buffer<T, Array>;

/// A buffer of element (index) data.
pub type ElementBuffer<T> = Buffer<T, Element>;

/// An indexed buffer backing a shader storage block.
pub type ShaderStorageBuffer<T> = IndexedBuffer<T, ShaderStorage>;

impl<T, B: BufferTarget> View for Buffer<T, B> {
    type V = Seq<T>;

    /// The elements of the device-resident data store.
    closed spec fn view(&self) -> Seq<T> {
        self.contents@
    }
}

impl<T, B: BufferTarget> Buffer<T, B> {
    /// The device handle this buffer owns.
    pub closed spec fn spec_id(self) -> u32 {
        self.id
    }

    /// The element count of the last upload.
    pub closed spec fn spec_len(self) -> usize {
        self.length
    }

    /// Whether a mapped view of this buffer is currently checked out.
    pub closed spec fn is_mapped(self) -> bool {
        self.mapped
    }

    /// While unmapped, the mirror holds exactly the uploaded elements;
    /// while a view is checked out, it holds none of them.
    pub open spec fn wf(self) -> bool {
        if self.is_mapped() {
            self@.len() == 0
        } else {
            self@.len() == self.spec_len()
        }
    }

    /// How an upload changes a buffer: the store and count become the
    /// uploaded data, under the same device handle, with no view open.
    pub open spec fn upload_post(pre: Self, post: Self, data: Seq<T>) -> bool {
        &&& post.spec_id() == pre.spec_id()
        &&& post@ == data
        &&& post.spec_len() == data.len()
        &&& !post.is_mapped()
        &&& post.wf()
    }

    /// Wraps a device buffer handle, freshly allocated by the device with
    /// an empty data store.
    pub fn new(id: u32) -> (r: Self)
        ensures
            r.spec_id() == id,
            r@ == Seq::<T>::empty(),
            r.spec_len() == 0,
            !r.is_mapped(),
            r.wf(),
    {
        Buffer { id, length: 0, contents: Vec::new(), mapped: false, _phantom: PhantomData }
    }

    /// The call that binds this buffer to its target's global slot.
    pub fn bind(&self) -> (c: DeviceCommand)
        ensures
            c == (DeviceCommand::BindBuffer { target: B::target_spec(), buffer: self.spec_id() }),
    {
        DeviceCommand::BindBuffer { target: B::target_code(), buffer: self.id }
    }

    /// Replaces the entire data store with `data`, recording the new
    /// element count; the returned calls bind the buffer first and then
    /// replace the store, in that order. The handle is unchanged, so
    /// repeating an upload can never leak or change it.
    pub fn upload(&mut self, data: &[T], usage_type: UsageType) -> (cmds: Vec<DeviceCommand>) where
        T: Copy,

        requires
            old(self).wf(),
            !old(self).is_mapped(),
        ensures
            Self::upload_post(*old(self), *final(self), data@),
            cmds@.len() == 2,
            cmds@[0] == (DeviceCommand::BindBuffer {
                target: B::target_spec(),
                buffer: old(self).spec_id(),
            }),
            cmds@[1] == (DeviceCommand::BufferData {
                target: B::target_spec(),
                len: data@.len() as usize,
                usage: usage_type.code_spec(),
            }),
    {
        let mut cmds: Vec<DeviceCommand> = Vec::new();
        cmds.push(self.bind());
        let mut store: Vec<T> = Vec::new();
        let n = data.len();
        for i in 0..n
            invariant
                n == data@.len(),
                store@.len() == i,
                forall|j: int| 0 <= j < i ==> store@[j] == data@[j],
        {
            store.push(data[i]);
        }
        proof {
            assert(store@ =~= data@);
        }
        self.length = n;
        self.contents = store;
        cmds.push(
            DeviceCommand::BufferData { target: B::target_code(), len: n, usage: usage_type.code() },
        );
        cmds
    }

    /// Returns the element count of the last upload.
    pub fn len(&self) -> (r: usize)
        ensures
            r == self.spec_len(),
    {
        self.length
    }

    /// Releases the device handle. Taking the buffer by value, this can be
    /// reached at most once per buffer, so the handle is released exactly
    /// once.
    pub fn delete(self) -> (c: DeviceCommand)
        ensures
            c == (DeviceCommand::DeleteBuffer { buffer: self.spec_id() }),
    {
        DeviceCommand::DeleteBuffer { buffer: self.id }
    }
}

/// An indexed buffer: a [`Buffer`] whose target kind is bindable to a
/// numbered slot, together with the slot it owns.
#[derive(Debug)]
pub struct IndexedBuffer<T, B: IndexedTarget> {
    buf: Buffer<T, B>,
    bind_point: u32,
}

impl<T, B: IndexedTarget> View for IndexedBuffer<T, B> {
    type V = Seq<T>;

    /// The elements of the device-resident data store.
    closed spec fn view(&self) -> Seq<T> {
        self.buf@
    }
}

impl<T, B: IndexedTarget> IndexedBuffer<T, B> {
    /// The device handle of the underlying buffer.
    pub closed spec fn spec_id(self) -> u32 {
        self.buf.spec_id()
    }

    /// The element count of the last upload.
    pub closed spec fn spec_len(self) -> usize {
        self.buf.spec_len()
    }

    /// The numbered binding slot this buffer owns.
    pub closed spec fn spec_bind_point(self) -> u32 {
        self.bind_point
    }

    /// Whether a mapped view of this buffer is currently checked out.
    pub closed spec fn is_mapped(self) -> bool {
        self.buf.is_mapped()
    }

    /// While unmapped, the mirror holds exactly the uploaded elements;
    /// while a view is checked out, it holds none of them.
    pub open spec fn wf(self) -> bool {
        if self.is_mapped() {
            self@.len() == 0
        } else {
            self@.len() == self.spec_len()
        }
    }

    /// How an upload changes an indexed buffer; the binding slot is kept.
    pub open spec fn upload_post(pre: Self, post: Self, data: Seq<T>) -> bool {
        &&& post.spec_id() == pre.spec_id()
        &&& post.spec_bind_point() == pre.spec_bind_point()
        &&& post@ == data
        &&& post.spec_len() == data.len()
        &&& !post.is_mapped()
        &&& post.wf()
    }

    /// Wraps a device buffer handle together with the numbered binding
    /// slot the buffer will own.
    pub fn new(id: u32, bind_point: u32) -> (r: Self)
        ensures
            r.spec_id() == id,
            r.spec_bind_point() == bind_point,
            r@ == Seq::<T>::empty(),
            r.spec_len() == 0,
            !r.is_mapped(),
            r.wf(),
    {
        IndexedBuffer { buf: Buffer::new(id), bind_point }
    }

    /// The call that binds this buffer to its numbered slot of the
    /// indexed target.
    pub fn bind(&self) -> (c: DeviceCommand)
        ensures
            c == (DeviceCommand::BindBufferBase {
                target: B::target_spec(),
                slot: self.spec_bind_point(),
                buffer: self.spec_id(),
            }),
    {
        DeviceCommand::BindBufferBase {
            target: B::target_code(),
            slot: self.bind_point,
            buffer: self.buf.bind_id(),
        }
    }

    /// Uploads through the numbered slot: binds the indexed slot first,
    /// then delegates to the plain upload (which binds the global slot and
    /// replaces the store).
    pub fn upload(&mut self, data: &[T], usage_type: UsageType) -> (cmds: Vec<DeviceCommand>) where
        T: Copy,

        requires
            old(self).wf(),
            !old(self).is_mapped(),
        ensures
            Self::upload_post(*old(self), *final(self), data@),
            cmds@.len() == 3,
            cmds@[0] == (DeviceCommand::BindBufferBase {
                target: B::target_spec(),
                slot: old(self).spec_bind_point(),
                buffer: old(self).spec_id(),
            }),
            cmds@[1] == (DeviceCommand::BindBuffer {
                target: B::target_spec(),
                buffer: old(self).spec_id(),
            }),
            cmds@[2] == (DeviceCommand::BufferData {
                target: B::target_spec(),
                len: data@.len() as usize,
                usage: usage_type.code_spec(),
            }),
    {
        let mut cmds: Vec<DeviceCommand> = Vec::new();
        cmds.push(self.bind());
        let mut rest = self.buf.upload(data, usage_type);
        let c1 = rest.remove(0);
        let c2 = rest.remove(0);
        cmds.push(c1);
        cmds.push(c2);
        cmds
    }

    /// Returns the element count of the last upload.
    pub fn len(&self) -> (r: usize)
        ensures
            r == self.spec_len(),
    {
        self.buf.len()
    }

    /// Checks the data store out as a mapped view; see
    /// [`BufferMapMut::new`]. A zero-length buffer yields no view.
    pub fn map_mut(&mut self) -> (r: (Option<BufferMapMut<T>>, Vec<DeviceCommand>))
        requires
            old(self).wf(),
            !old(self).is_mapped(),
        ensures
            final(self).spec_id() == old(self).spec_id(),
            final(self).spec_bind_point() == old(self).spec_bind_point(),
            final(self).spec_len() == old(self).spec_len(),
            final(self).wf(),
            old(self).spec_len() == 0 ==> r.0 is None && *final(self) == *old(self) && r.1@.len()
                == 0,
            old(self).spec_len() > 0 ==> {
                &&& r.0 is Some
                &&& r.0->0@ == old(self)@
                &&& r.0->0.spec_buffer_id() == old(self).spec_id()
                &&& r.0->0.spec_target() == B::target_spec()
                &&& final(self).is_mapped()
                &&& r.1@.len() == 2
                &&& r.1@[0] == (DeviceCommand::BindBuffer {
                    target: B::target_spec(),
                    buffer: old(self).spec_id(),
                })
                &&& r.1@[1] == (DeviceCommand::MapBufferRange {
                    target: B::target_spec(),
                    len: old(self).spec_len(),
                })
            },
    {
        BufferMapMut::new(&mut self.buf)
    }

    /// Writes a view's data store back; see [`BufferMapMut::unmap`].
    pub fn unmap(&mut self, view: BufferMapMut<T>) -> (cmds: Vec<DeviceCommand>)
        requires
            old(self).wf(),
            old(self).is_mapped(),
            view.spec_buffer_id() == old(self).spec_id(),
            view.spec_target() == B::target_spec(),
            view@.len() == old(self).spec_len(),
        ensures
            final(self).spec_id() == old(self).spec_id(),
            final(self).spec_bind_point() == old(self).spec_bind_point(),
            final(self).spec_len() == old(self).spec_len(),
            final(self)@ == view@,
            !final(self).is_mapped(),
            final(self).wf(),
            cmds@.len() == 2,
            cmds@[0] == (DeviceCommand::BindBuffer {
                target: B::target_spec(),
                buffer: old(self).spec_id(),
            }),
            cmds@[1] == (DeviceCommand::UnmapBuffer { target: B::target_spec() }),
    {
        view.unmap(&mut self.buf)
    }
}

impl<T, B: BufferTarget> Buffer<T, B> {
    /// Returns the device handle, for building bind calls.
    fn bind_id(&self) -> (r: u32)
        ensures
            r == self.spec_id(),
    {
        self.id
    }
}

/// The reason a mapping request failed on the executor's side: a device
/// error, or a zero-length buffer for which mapping is meaningless.
#[derive(Copy, Clone, Debug, PartialEq, Eq)]
pub enum BufferMapError {
    /// The device reported an error while mapping.
    Gl(GlError),
    /// The buffer has no extent to map.
    ZeroLength,
}

impl From<GlError> for BufferMapError {
    /// Wraps a device error.
    fn from(err: GlError) -> (r: Self) {
        BufferMapError::Gl(err)
    }
}

impl vstd::std_specs::convert::FromSpecImpl<GlError> for BufferMapError {
    open spec fn obeys_from_spec() -> bool {
        true
    }

    open spec fn from_spec(err: GlError) -> Self {
        BufferMapError::Gl(err)
    }
}

/// A scoped, CPU-visible window into a buffer's device data store. The
/// view holds the store itself: it is checked out of the buffer when the
/// view is created and written back when the view is unmapped, so the
/// buffer cannot be re-uploaded or mapped again while the view lives.
pub struct BufferMapMut<T> {
    data: Vec<T>,
    target: u32,
    buffer_id: u32,
}

impl<T> View for BufferMapMut<T> {
    type V = Seq<T>;

    /// The elements of the mapped window.
    closed spec fn view(&self) -> Seq<T> {
        self.data@
    }
}

impl<T> BufferMapMut<T> {
    /// The handle of the buffer this view was checked out of.
    pub closed spec fn spec_buffer_id(self) -> u32 {
        self.buffer_id
    }

    /// The target code of the buffer this view was checked out of.
    pub closed spec fn spec_target(self) -> u32 {
        self.target
    }

    /// Checks the data store out of `buf` as a mapped view over its full
    /// extent. A zero-length buffer has nothing to map and yields no view
    /// and no device call: callers must treat that case as "skip the
    /// update". Otherwise the returned calls bind the buffer and then map
    /// its store, and the view holds exactly the uploaded elements.
    pub fn new<B: BufferTarget>(buf: &mut Buffer<T, B>) -> (r: (
        Option<BufferMapMut<T>>,
        Vec<DeviceCommand>,
    ))
        requires
            old(buf).wf(),
            !old(buf).is_mapped(),
        ensures
            final(buf).spec_id() == old(buf).spec_id(),
            final(buf).spec_len() == old(buf).spec_len(),
            final(buf).wf(),
            old(buf).spec_len() == 0 ==> r.0 is None && *final(buf) == *old(buf) && r.1@.len()
                == 0,
            old(buf).spec_len() > 0 ==> {
                &&& r.0 is Some
                &&& r.0->0@ == old(buf)@
                &&& r.0->0.spec_buffer_id() == old(buf).spec_id()
                &&& r.0->0.spec_target() == B::target_spec()
                &&& final(buf).is_mapped()
                &&& r.1@.len() == 2
                &&& r.1@[0] == (DeviceCommand::BindBuffer {
                    target: B::target_spec(),
                    buffer: old(buf).spec_id(),
                })
                &&& r.1@[1] == (DeviceCommand::MapBufferRange {
                    target: B::target_spec(),
                    len: old(buf).spec_len(),
                })
            },
    {
        if buf.len() == 0 {
            (None, Vec::new())
        } else {
            let mut cmds: Vec<DeviceCommand> = Vec::new();
            cmds.push(buf.bind());
            cmds.push(
                DeviceCommand::MapBufferRange { target: B::target_code(), len: buf.len() },
            );
            let mut data: Vec<T> = Vec::new();
            core::mem::swap(&mut data, &mut buf.contents);
            buf.mapped = true;
            let view = BufferMapMut { data, target: B::target_code(), buffer_id: buf.bind_id() };
            (Some(view), cmds)
        }
    }

    /// Reads the element at `index` of the mapped window. An out-of-range
    /// index is a caller bug, excluded by contract.
    pub fn index(&self, index: usize) -> (r: &T)
        requires
            index < self@.len(),
        ensures
            *r == self@[index as int],
    {
        &self.data[index]
    }

    /// Borrows the element at `index` of the mapped window for writing.
    /// An out-of-range index is a caller bug, excluded by contract.
    pub fn index_mut(&mut self, index: usize) -> (r: &mut T)
        requires
            index < old(self)@.len(),
        ensures
            *r == old(self)@[index as int],
            final(self)@ == old(self)@.update(index as int, *final(r)),
            final(self).spec_buffer_id() == old(self).spec_buffer_id(),
            final(self).spec_target() == old(self).spec_target(),
    {
        &mut self.data[index]
    }

    /// Writes the data store back into the buffer it was checked out of
    /// and returns the bind-then-unmap call pair. The executor must stop
    /// the program if the device reports the store was invalidated while
    /// mapped: the device state is undefined past that point.
    pub fn unmap<B: BufferTarget>(self, buf: &mut Buffer<T, B>) -> (cmds: Vec<DeviceCommand>)
        requires
            old(buf).wf(),
            old(buf).is_mapped(),
            self.spec_buffer_id() == old(buf).spec_id(),
            self.spec_target() == B::target_spec(),
            self@.len() == old(buf).spec_len(),
        ensures
            final(buf).spec_id() == old(buf).spec_id(),
            final(buf).spec_len() == old(buf).spec_len(),
            final(buf)@ == self@,
            !final(buf).is_mapped(),
            final(buf).wf(),
            cmds@.len() == 2,
            cmds@[0] == (DeviceCommand::BindBuffer {
                target: B::target_spec(),
                buffer: old(buf).spec_id(),
            }),
            cmds@[1] == (DeviceCommand::UnmapBuffer { target: B::target_spec() }),
    {
        let mut cmds: Vec<DeviceCommand> = Vec::new();
        cmds.push(buf.bind());
        cmds.push(DeviceCommand::UnmapBuffer { target: B::target_code() });
        let BufferMapMut { data, target: _, buffer_id: _ } = self;
        buf.contents = data;
        buf.mapped = false;
        cmds
    }
}

/// Round trip: uploading an element array and then mapping the buffer
/// reads back, at every index, exactly the uploaded element. The premises
/// are the postconditions of [`Buffer::upload`] and [`BufferMapMut::new`];
/// the conclusion is what [`BufferMapMut::index`] returns.
pub proof fn lemma_upload_map_round_trip<T, B: BufferTarget>(
    pre: Buffer<T, B>,
    uploaded: Buffer<T, B>,
    view: BufferMapMut<T>,
    e: Seq<T>,
    i: int,
)
    requires
        Buffer::upload_post(pre, uploaded, e),
        view@ == uploaded@,
        0 <= i < e.len(),
    ensures
        view@[i] == e[i],
{
}

/// Idempotence: uploading the same data twice in a row leaves the length
/// unchanged by the second upload, and both uploads keep the one device
/// handle, so no handle is leaked or replaced.
pub proof fn lemma_upload_idempotent<T, B: BufferTarget>(
    b0: Buffer<T, B>,
    b1: Buffer<T, B>,
    b2: Buffer<T, B>,
    data: Seq<T>,
)
    requires
        Buffer::upload_post(b0, b1, data),
        Buffer::upload_post(b1, b2, data),
    ensures
        b2.spec_len() == b1.spec_len(),
        b2@ == b1@,
        b2.spec_id() == b0.spec_id(),
{
}

} // verus!
