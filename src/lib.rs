//! Lifetime management for image views over a native graphics device.
//!
//! A view shares ownership of its image's internal state and of the device,
//! so neither can vanish while the view is alive. Creation and destruction
//! of the native object are split off as plain requests: the caller performs
//! the native call and hands its outcome back.
pub mod native;
pub mod error;
pub mod device;
pub mod image;
pub mod imageview;

pub use error::Error;
pub use imageview::{ImageView, ImageViewInfo};
