//! Typed uniform handles.
//!
//! A [`Uniform`] pairs a device uniform location with the static type of
//! the values it accepts. Setting it dispatches purely on that type: each
//! value type knows its own [`UniformShape`], so the location can never be
//! fed a value of the wrong shape, and no runtime type tag exists.

use vstd::prelude::*;
use core::marker::PhantomData;
use crate::command::{DeviceCommand, UniformShape};

verus! {

/// A device uniform location within a linked program.
pub type UniformLocation = i32;

/// A handle to one uniform of a linked program, valid only for values of
/// type `T`.
#[derive(Debug)]
pub struct Uniform<T> {
    location: UniformLocation,
    _marker: PhantomData<T>,
}

impl<T> Uniform<T> {
    /// The device location this handle designates.
    pub closed spec fn spec_location(self) -> i32 {
        self.location
    }

    /// Wraps a device uniform location reported for a linked program.
    pub fn new(location: UniformLocation) -> (r: Self)
        ensures
            r.spec_location() == location,
    {
        Uniform { location, _marker: PhantomData }
    }

    /// Returns the device location this handle designates.
    pub fn location(&self) -> (r: i32)
        ensures
            r == self.spec_location(),
    {
        self.location
    }

    /// The call that sets this uniform to `value`: the dispatch to the
    /// device call family is decided entirely by `T`'s shape. The value
    /// itself travels on the executor's side.
    pub fn set(&self, value: T) -> (c: DeviceCommand) where T: BoundUniform
        ensures
            c == (DeviceCommand::SetUniform {
                location: self.spec_location(),
                shape: T::shape_spec(),
            }),
    {
        value.set(self)
    }
}

/// A value type that can be bound to a uniform location: it knows the
/// device call shape that sets it.
pub trait BoundUniform: Sized {
    /// The shape of this type's device set call.
    spec fn shape_spec() -> UniformShape;

    /// The call that sets `uniform` to this value.
    fn set(&self, uniform: &Uniform<Self>) -> (c: DeviceCommand)
        ensures
            c == (DeviceCommand::SetUniform {
                location: uniform.spec_location(),
                shape: Self::shape_spec(),
            }),
    ;
}

impl BoundUniform for i32 {
    open spec fn shape_spec() -> UniformShape {
        UniformShape::Vector { components: 1, base_code: 0x1404 }
    }

    fn set(&self, uniform: &Uniform<Self>) -> (c: DeviceCommand) {
        DeviceCommand::SetUniform {
            location: uniform.location(),
            shape: UniformShape::Vector { components: 1, base_code: 0x1404 },
        }
    }
}

impl BoundUniform for u32 {
    open spec fn shape_spec() -> UniformShape {
        UniformShape::Vector { components: 1, base_code: 0x1405 }
    }

    fn set(&self, uniform: &Uniform<Self>) -> (c: DeviceCommand) {
        DeviceCommand::SetUniform {
            location: uniform.location(),
            shape: UniformShape::Vector { components: 1, base_code: 0x1405 },
        }
    }
}

impl BoundUniform for (i32, i32) {
    open spec fn shape_spec() -> UniformShape {
        UniformShape::Vector { components: 2, base_code: 0x1404 }
    }

    fn set(&self, uniform: &Uniform<Self>) -> (c: DeviceCommand) {
        DeviceCommand::SetUniform {
            location: uniform.location(),
            shape: UniformShape::Vector { components: 2, base_code: 0x1404 },
        }
    }
}

impl BoundUniform for (i32, i32, i32) {
    open spec fn shape_spec() -> UniformShape {
        UniformShape::Vector { components: 3, base_code: 0x1404 }
    }

    fn set(&self, uniform: &Uniform<Self>) -> (c: DeviceCommand) {
        DeviceCommand::SetUniform {
            location: uniform.location(),
            shape: UniformShape::Vector { components: 3, base_code: 0x1404 },
        }
    }
}

impl BoundUniform for (i32, i32, i32, i32) {
    open spec fn shape_spec() -> UniformShape {
        UniformShape::Vector { components: 4, base_code: 0x1404 }
    }

    fn set(&self, uniform: &Uniform<Self>) -> (c: DeviceCommand) {
        DeviceCommand::SetUniform {
            location: uniform.location(),
            shape: UniformShape::Vector { components: 4, base_code: 0x1404 },
        }
    }
}

impl BoundUniform for (u32, u32) {
    open spec fn shape_spec() -> UniformShape {
        UniformShape::Vector { components: 2, base_code: 0x1405 }
    }

    fn set(&self, uniform: &Uniform<Self>) -> (c: DeviceCommand) {
        DeviceCommand::SetUniform {
            location: uniform.location(),
            shape: UniformShape::Vector { components: 2, base_code: 0x1405 },
        }
    }
}

impl BoundUniform for (u32, u32, u32) {
    open spec fn shape_spec() -> UniformShape {
        UniformShape::Vector { components: 3, base_code: 0x1405 }
    }

    fn set(&self, uniform: &Uniform<Self>) -> (c: DeviceCommand) {
        DeviceCommand::SetUniform {
            location: uniform.location(),
            shape: UniformShape::Vector { components: 3, base_code: 0x1405 },
        }
    }
}

impl BoundUniform for (u32, u32, u32, u32) {
    open spec fn shape_spec() -> UniformShape {
        UniformShape::Vector { components: 4, base_code: 0x1405 }
    }

    fn set(&self, uniform: &Uniform<Self>) -> (c: DeviceCommand) {
        DeviceCommand::SetUniform {
            location: uniform.location(),
            shape: UniformShape::Vector { components: 4, base_code: 0x1405 },
        }
    }
}

} // verus!
