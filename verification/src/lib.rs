//! Core logic of a stereoscopic dual-presentation renderer.
//!
//! The crate holds the parts of the renderer that decide and compute:
//! the WGSL include preprocessor, the XR session and frame state machine,
//! version packing and compatibility checks, and the two-layer render
//! target model. GPU submission, windowing and the XR runtime calls
//! themselves live outside, driven by the plans these types return.

pub mod texture;
pub mod types;
pub mod version;
pub mod wgsl;
pub mod xr;
