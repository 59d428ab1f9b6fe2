//! A memory-safe access layer over the opaque, reference-counted handles of a
//! depth-camera SDK, written as verified decision logic: every operation says
//! which foreign call comes next and what follows from its reply.

pub mod base;
pub mod device_list;
pub mod error;
pub mod foreign;
pub mod frame;
pub mod handle;
pub mod kind;
pub mod logging;
pub mod processing_blocks;

pub use crate::kind::{Rs2Exception, Rs2StreamKind};
