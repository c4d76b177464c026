//! Verified core of a GPU post-processing bridge: GPU selection, queue and
//! memory-type choice, SPIR-V decoding and the per-frame state of the renderer.
//! The Vulkan and JNI plumbing around it lives in `app/`.

pub mod error;
pub mod vulkan_context;
pub mod interop;
pub mod pipeline;
pub mod renderer;
pub mod bridge;
