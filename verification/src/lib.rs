//! A safe calling layer for an image-processing engine whose operations take
//! a fixed positional prefix followed by named optional arguments.

pub mod error;
pub mod registry;
pub mod text;
pub mod value;
pub mod descriptor;
pub mod options;
pub mod lifecycle;
pub mod bridge;
pub mod image;
pub mod emitter;
pub mod storage;

pub use crate::bridge::AnchoredBuffer;
pub use crate::descriptor::CallDescriptor;
pub use crate::error::VipsError;
pub use crate::image::VipsImage;
pub use crate::options::{
    VipsArrayDouble, VipsBandFormat, VipsEmbedOptions, VipsExtend, VipsIntent, VipsInteresting,
    VipsSize, VipsThumbnailOptions,
};
