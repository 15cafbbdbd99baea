//! Values and status decoding of the NDK media classes.
pub mod image_reader;
pub mod error;
pub mod media_codec;
pub mod media_extractor;
