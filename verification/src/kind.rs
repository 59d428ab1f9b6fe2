//! The enumerations shared with the native runtime.

pub mod distortion_model;
pub mod exception;
pub mod extension;
pub mod option;
pub mod stream_kind;

pub use distortion_model::Rs2DistortionModel;
pub use exception::Rs2Exception;
pub use extension::Extension;
pub use option::{OptionSetError, Rs2Option};
pub use stream_kind::Rs2StreamKind;
