//! A typed binding layer over a hardware graphics device, together with the
//! incremental synchronization engine that keeps device-resident
//! structure-of-arrays buffers in step with a dynamic tile grid.
//!
//! The library is the decision half of the renderer: it owns a verified
//! mirror of the device state (buffers, vertex layouts, programs, binding
//! points, the position-to-slot index) and, for each operation, computes the
//! exact sequence of device calls to issue as plain [`command::DeviceCommand`]
//! data. The unverified half of the program executes those commands against
//! the real device and feeds device-reported values (error codes, link
//! statuses, uniform locations) back into the decision functions here.

pub mod buffer;
pub mod command;
pub mod layout;
pub mod error;
pub mod grid;
pub mod shader;
mod sealed;
pub mod target;
pub mod tiles;
pub mod uniform;
pub mod vertex_array;
pub mod world;
