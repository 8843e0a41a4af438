//! The closed, compile-time set of buffer target kinds.
//!
//! A buffer is bound to exactly one semantic device slot — vertex data,
//! index data, uniform block, and so on. Each slot is a marker type
//! implementing [`BufferTarget`], and the trait is sealed, so a buffer can
//! never be parameterized by a target the device does not know. Some targets
//! are additionally *indexed*: they can be bound to a numbered slot, not
//! only the shared global one; those markers also implement
//! [`IndexedTarget`].

use vstd::prelude::*;
use crate::sealed::Sealed;

verus! {

/// A buffer target kind: the semantic device binding slot a buffer of this
/// kind attaches to. The associated code is the device's enumeration value
/// for that slot.
pub trait BufferTarget: Sealed {
    /// The device enumeration value selecting this target's binding slot.
    spec fn target_spec() -> u32;

    /// Returns the device enumeration value for this target.
    fn target_code() -> (r: u32)
        ensures
            r == Self::target_spec(),
    ;
}

/// A buffer target kind that is additionally bindable to a numbered slot,
/// allowing several buffers of this kind to be bound at once.
pub trait IndexedTarget: BufferTarget {

}

/// Per-vertex attribute data.
#[derive(Copy, Clone, Debug, PartialEq, Eq, Structural, Hash, Default)]
pub struct Array;

/// Element (index) data for indexed drawing.
#[derive(Copy, Clone, Debug, PartialEq, Eq, Structural, Hash, Default)]
pub struct Element;

/// A uniform block's backing store. Indexed.
#[derive(Copy, Clone, Debug, PartialEq, Eq, Structural, Hash, Default)]
pub struct Uniform;

/// The destination of pixel pack (read-back) transfers.
#[derive(Copy, Clone, Debug, PartialEq, Eq, Structural, Hash, Default)]
pub struct PixelPack;

/// The source of pixel unpack (upload) transfers.
#[derive(Copy, Clone, Debug, PartialEq, Eq, Structural, Hash, Default)]
pub struct PixelUnpack;

/// The destination of query result transfers.
#[derive(Copy, Clone, Debug, PartialEq, Eq, Structural, Hash, Default)]
pub struct Query;

/// A shader storage block's backing store. Indexed.
#[derive(Copy, Clone, Debug, PartialEq, Eq, Structural, Hash, Default)]
pub struct ShaderStorage;

/// A buffer texture's backing store.
#[derive(Copy, Clone, Debug, PartialEq, Eq, Structural, Hash, Default)]
pub struct Texture;

/// The destination of transform feedback captures. Indexed.
#[derive(Copy, Clone, Debug, PartialEq, Eq, Structural, Hash, Default)]
pub struct TransformFeedback;

/// An atomic counter block's backing store. Indexed.
#[derive(Copy, Clone, Debug, PartialEq, Eq, Structural, Hash, Default)]
pub struct AtomicCounter;

impl Sealed for Array {

}

impl BufferTarget for Array {
    open spec fn target_spec() -> u32 {
        0x8892
    }

    fn target_code() -> u32 {
        0x8892
    }
}

impl Sealed for Element {

}

impl BufferTarget for Element {
    open spec fn target_spec() -> u32 {
        0x8893
    }

    fn target_code() -> u32 {
        0x8893
    }
}

impl Sealed for Uniform {

}

impl BufferTarget for Uniform {
    open spec fn target_spec() -> u32 {
        0x8A11
    }

    fn target_code() -> u32 {
        0x8A11
    }
}

impl IndexedTarget for Uniform {

}

impl Sealed for PixelPack {

}

impl BufferTarget for PixelPack {
    open spec fn target_spec() -> u32 {
        0x88EB
    }

    fn target_code() -> u32 {
        0x88EB
    }
}

impl Sealed for PixelUnpack {

}

impl BufferTarget for PixelUnpack {
    open spec fn target_spec() -> u32 {
        0x88EC
    }

    fn target_code() -> u32 {
        0x88EC
    }
}

impl Sealed for Query {

}

impl BufferTarget for Query {
    open spec fn target_spec() -> u32 {
        0x9192
    }

    fn target_code() -> u32 {
        0x9192
    }
}

impl Sealed for ShaderStorage {

}

impl BufferTarget for ShaderStorage {
    open spec fn target_spec() -> u32 {
        0x90D2
    }

    fn target_code() -> u32 {
        0x90D2
    }
}

impl IndexedTarget for ShaderStorage {

}

impl Sealed for Texture {

}

impl BufferTarget for Texture {
    open spec fn target_spec() -> u32 {
        0x8C2A
    }

    fn target_code() -> u32 {
        0x8C2A
    }
}

impl Sealed for TransformFeedback {

}

impl BufferTarget for TransformFeedback {
    open spec fn target_spec() -> u32 {
        0x8C8E
    }

    fn target_code() -> u32 {
        0x8C8E
    }
}

impl IndexedTarget for TransformFeedback {

}

impl Sealed for AtomicCounter {

}

impl BufferTarget for AtomicCounter {
    open spec fn target_spec() -> u32 {
        0x92C0
    }

    fn target_code() -> u32 {
        0x92C0
    }
}

impl IndexedTarget for AtomicCounter {

}

} // verus!
