//! Safe, verified logic of the Android NDK bindings: enumerations and their raw codes, status and
//! error decoding, flag words, camera metadata records and other value types.
//!
//! The calls into the NDK itself live outside this library; everything that decides what a raw
//! value means is here, with its contract.
pub mod font;
pub mod raw;
pub mod aaudio;
pub mod camera;
pub mod choreographer;
pub mod media;
pub mod media_error;
pub mod utils;
pub mod posix;
pub mod surface_texture;
pub mod system_properties;
pub mod thermal;
pub mod trace;
pub mod api_level;
pub mod permission_manager;
pub mod hardware_buffer_format;
pub mod midi;
pub mod bitmap;
pub mod event;
pub mod looper;
pub mod hardware_buffer;
pub mod native_window;
