//! Processing blocks: asynchronous stages that take one frame and put the
//! transformed frame into a queue.

pub mod align;
pub mod decimation;
pub mod errors;
pub mod options;
pub mod processing_block;
pub mod spatial;
pub mod threshold;
