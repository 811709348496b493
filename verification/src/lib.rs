//! Shared MAVLink command data for the policy VM's `mavlink` FFI module.
//!
//! A [`Handle`] stores the data of the command that is being evaluated and
//! the [`Ffi`] module reads it back while policy code runs.

mod error;
mod ffi;
mod handle;
pub mod slot;

pub use crate::error::{DataMissing, DataPresent};
pub use crate::ffi::Ffi;
pub use crate::handle::Handle;
pub use crate::slot::MavData;
