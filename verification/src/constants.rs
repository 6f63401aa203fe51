//! Numbers of the graphics API that the renderer's decisions turn on. They
//! cross the API boundary unchanged, so each has the value that the API's
//! headers give it.

use vstd::prelude::*;

verus! {

/// Pixel format: 8 bits each of blue, green, red and alpha, sRGB encoded.
pub const FORMAT_B8G8R8A8_SRGB: i32 = 50;

/// Pixel format: 8 bits each of red, green, blue and alpha, sRGB encoded.
pub const FORMAT_R8G8B8A8_SRGB: i32 = 43;

/// Depth format: 32-bit float.
pub const FORMAT_D32_SFLOAT: i32 = 126;

/// Depth format: 32-bit float with 8 bits of stencil.
pub const FORMAT_D32_SFLOAT_S8_UINT: i32 = 130;

/// Depth format: 24 bits normalised with 8 bits of stencil.
pub const FORMAT_D24_UNORM_S8_UINT: i32 = 129;

/// Colour space: sRGB with the non-linear transfer function.
pub const COLOR_SPACE_SRGB_NONLINEAR: i32 = 0;

/// Present mode: a single-entry queue whose waiting image is replaced.
pub const PRESENT_MODE_MAILBOX: i32 = 1;

/// Present mode: first in, first out. Every surface supports it.
pub const PRESENT_MODE_FIFO: i32 = 2;

/// The width that a surface reports when its size is set by the swapchain.
pub const EXTENT_UNDEFINED: u32 = 0xFFFF_FFFF;

/// Image usage: colour attachment.
pub const IMAGE_USAGE_COLOR_ATTACHMENT: u32 = 0x10;

/// Composite alpha: the image is opaque.
pub const COMPOSITE_ALPHA_OPAQUE: u32 = 0x1;

/// Queue capability: graphics.
pub const QUEUE_GRAPHICS: u32 = 0x1;

/// Sample counts, as bits of a mask.
pub const SAMPLE_COUNT_1: u32 = 0x01;

pub const SAMPLE_COUNT_2: u32 = 0x02;

pub const SAMPLE_COUNT_4: u32 = 0x04;

pub const SAMPLE_COUNT_8: u32 = 0x08;

pub const SAMPLE_COUNT_16: u32 = 0x10;

pub const SAMPLE_COUNT_32: u32 = 0x20;

pub const SAMPLE_COUNT_64: u32 = 0x40;

/// Format feature: usable as a depth and stencil attachment.
pub const FORMAT_FEATURE_DEPTH_STENCIL_ATTACHMENT: u32 = 0x200;

/// Format feature: can be sampled with a linear filter.
pub const FORMAT_FEATURE_SAMPLED_IMAGE_FILTER_LINEAR: u32 = 0x1000;

/// Memory property: local to the device.
pub const MEMORY_DEVICE_LOCAL: u32 = 0x1;

/// Memory property: the host can map it.
pub const MEMORY_HOST_VISIBLE: u32 = 0x2;

/// Memory property: host writes need no flush.
pub const MEMORY_HOST_COHERENT: u32 = 0x4;

/// Image usage: source of a transfer.
pub const IMAGE_USAGE_TRANSFER_SRC: u32 = 0x1;

/// Image usage: destination of a transfer.
pub const IMAGE_USAGE_TRANSFER_DST: u32 = 0x2;

/// Image usage: sampled by a shader.
pub const IMAGE_USAGE_SAMPLED: u32 = 0x4;

/// Image usage: depth and stencil attachment.
pub const IMAGE_USAGE_DEPTH_STENCIL_ATTACHMENT: u32 = 0x20;

/// Image usage: attachment whose memory may be allocated lazily.
pub const IMAGE_USAGE_TRANSIENT_ATTACHMENT: u32 = 0x40;

/// Image aspect: colour.
pub const IMAGE_ASPECT_COLOR: u32 = 0x1;

/// Image aspect: depth.
pub const IMAGE_ASPECT_DEPTH: u32 = 0x2;

/// Pipeline stage: before any command.
pub const STAGE_TOP_OF_PIPE: u32 = 0x1;

/// Pipeline stage: fragment shader.
pub const STAGE_FRAGMENT_SHADER: u32 = 0x80;

/// Pipeline stage: output of colour attachments.
pub const STAGE_COLOR_ATTACHMENT_OUTPUT: u32 = 0x400;

/// Pipeline stage: transfers.
pub const STAGE_TRANSFER: u32 = 0x1000;

/// Access: read by a shader.
pub const ACCESS_SHADER_READ: u32 = 0x20;

/// Access: read of a colour attachment.
pub const ACCESS_COLOR_ATTACHMENT_READ: u32 = 0x80;

/// Access: write of a colour attachment.
pub const ACCESS_COLOR_ATTACHMENT_WRITE: u32 = 0x100;

/// Access: read by a transfer.
pub const ACCESS_TRANSFER_READ: u32 = 0x800;

/// Access: write by a transfer.
pub const ACCESS_TRANSFER_WRITE: u32 = 0x1000;

/// Shader stage: vertex.
pub const SHADER_STAGE_VERTEX: u32 = 0x1;

/// Shader stage: fragment.
pub const SHADER_STAGE_FRAGMENT: u32 = 0x10;

/// Colour components: red, green, blue and alpha.
pub const COLOR_COMPONENTS_RGBA: u32 = 0xF;

/// Vertex attribute format: four 32-bit floats.
pub const FORMAT_R32G32B32A32_SFLOAT: i32 = 109;

/// Vertex attribute format: two 32-bit floats.
pub const FORMAT_R32G32_SFLOAT: i32 = 103;

/// Buffer usage: source of a transfer.
pub const BUFFER_USAGE_TRANSFER_SRC: u32 = 0x1;

/// Buffer usage: destination of a transfer.
pub const BUFFER_USAGE_TRANSFER_DST: u32 = 0x2;

/// Buffer usage: uniform buffer.
pub const BUFFER_USAGE_UNIFORM_BUFFER: u32 = 0x10;

/// Buffer usage: storage buffer.
pub const BUFFER_USAGE_STORAGE_BUFFER: u32 = 0x20;

/// Buffer usage: index buffer.
pub const BUFFER_USAGE_INDEX_BUFFER: u32 = 0x40;

/// Buffer usage: vertex buffer.
pub const BUFFER_USAGE_VERTEX_BUFFER: u32 = 0x80;

/// Descriptor type: an image together with its sampler.
pub const DESCRIPTOR_TYPE_COMBINED_IMAGE_SAMPLER: i32 = 1;

/// Descriptor type: uniform buffer.
pub const DESCRIPTOR_TYPE_UNIFORM_BUFFER: i32 = 6;

/// The range that reaches to the end of a buffer.
pub const WHOLE_SIZE: u64 = 0xFFFF_FFFF_FFFF_FFFF;

/// Result: the command succeeded.
pub const RESULT_SUCCESS: i32 = 0;

/// Result: the swapchain still works but no longer matches the surface.
pub const RESULT_SUBOPTIMAL: i32 = 1_000_001_003;

/// Result: the swapchain no longer fits the surface and cannot be used.
pub const RESULT_ERROR_OUT_OF_DATE: i32 = -1_000_001_004;

} // verus!
