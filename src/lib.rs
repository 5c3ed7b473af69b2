//! Shader program assembly, build decisions, texture-slot sessions and typed
//! uniform upload plans for a GLSL rendering pipeline.
//!
//! Everything here is pure logic: the graphics driver is driven by the caller,
//! which performs each requested action and reports what the driver answered.
pub mod dispatch;
pub mod preprocess;
pub mod program;
pub mod session;
pub mod uniform;
