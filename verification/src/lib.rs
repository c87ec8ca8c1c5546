//! Decisions and data handling of a GStreamer based thumbnailer for video
//! and audio files: which plugins it needs, how it configures decoders, how
//! it reacts to a pipeline's messages, which cover picture it takes, where in
//! a video it takes frames, and how it scales the result.

pub mod error;
pub mod frame;
pub mod picture;
pub mod pipeline;
pub mod plugins;
pub mod tags;
pub mod text;

pub use error::{Error, ErrorKind, Result};
pub use pipeline::ThumbnailSource;

use vstd::prelude::*;

verus! {

} // verus!
