//! Frame orchestration for an explicit, low-level graphics API.
//!
//! The library holds every decision of a renderer that draws through a
//! swapchain: how the chain is negotiated with the surface, which resources
//! are built from it and in which order, how frames in flight are bounded by
//! a ring of fences, what is recorded into each command buffer, and how the
//! whole set is torn down and rebuilt when the surface changes. It makes no
//! graphics call itself. Handles are carried as the 64-bit numbers that the
//! driver hands out, and every step that only the driver can perform is
//! returned to the caller as a value that says what to do.

pub mod input;
pub mod device;
pub mod error;
pub mod constants;
pub mod flags;
pub mod swapchain;
pub mod render_pass;
pub mod image;
pub mod color_image;
pub mod depth_image;
pub mod shader;
pub mod pipeline;
pub mod sync_object;
pub mod commandpool;
pub mod resource;
pub mod orchestrator;
pub mod renderer;
pub mod validation;
pub mod buffer;
pub mod descriptorset;
pub mod mesh;
pub mod buffers;
