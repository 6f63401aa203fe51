//! The render pass: which attachments a frame is drawn into and what happens
//! to them at its start and end.

use vstd::prelude::*;
use crate::commandpool::{ClearValues, Command, clear_values};
use crate::constants::{
    ACCESS_COLOR_ATTACHMENT_READ, ACCESS_COLOR_ATTACHMENT_WRITE, SAMPLE_COUNT_1,
    STAGE_COLOR_ATTACHMENT_OUTPUT,
};
use crate::swapchain::Extent2D;

verus! {

/// What happens to an attachment's contents when the pass begins.
#[derive(Clone, Copy, Debug, PartialEq, Eq, Structural)]
pub enum LoadOp {
    Load,
    Clear,
    DontCare,
}

/// What happens to an attachment's contents when the pass ends.
#[derive(Clone, Copy, Debug, PartialEq, Eq, Structural)]
pub enum StoreOp {
    Store,
    DontCare,
}

/// The arrangement of an image's memory, which decides what it can be used
/// for.
#[derive(Clone, Copy, Debug, PartialEq, Eq, Structural)]
pub enum ImageLayout {
    Undefined,
    ColorAttachmentOptimal,
    DepthStencilAttachmentOptimal,
    ShaderReadOnlyOptimal,
    TransferSrcOptimal,
    TransferDstOptimal,
    PresentSrc,
}

/// One attachment of a render pass.
#[derive(Clone, Copy, Debug, PartialEq, Eq, Structural)]
pub struct AttachmentDescription {
    pub format: i32,
    pub samples: u32,
    pub load_op: LoadOp,
    pub store_op: StoreOp,
    pub stencil_load_op: LoadOp,
    pub stencil_store_op: StoreOp,
    pub initial_layout: ImageLayout,
    pub final_layout: ImageLayout,
}

/// The use that a subpass makes of one attachment of its render pass.
#[derive(Clone, Copy, Debug, PartialEq, Eq, Structural)]
pub struct AttachmentReference {
    pub attachment: u32,
    pub layout: ImageLayout,
}

/// What a subpass waits for before it touches its attachments.
#[derive(Clone, Copy, Debug, PartialEq, Eq, Structural)]
pub struct SubpassDependency {
    /// The subpass waited for, or none for all that came before the pass.
    pub src_subpass: Option<u32>,
    pub dst_subpass: u32,
    pub src_stage_mask: u32,
    pub dst_stage_mask: u32,
    pub src_access_mask: u32,
    pub dst_access_mask: u32,
}

/// Position of the multisampled colour target among a framebuffer's
/// attachments.
pub const ATTACHMENT_COLOR: u32 = 0;

/// Position of the depth target among a framebuffer's attachments.
pub const ATTACHMENT_DEPTH: u32 = 1;

/// Position of the resolve target, a swapchain image, among a framebuffer's
/// attachments.
pub const ATTACHMENT_RESOLVE: u32 = 2;

/// A render pass with one subpass that draws into a multisampled colour
/// target and a depth target and resolves the colour into a swapchain image.
#[derive(Clone, Copy, Debug, PartialEq, Eq, Structural)]
pub struct RenderPass {
    /// The driver's handle, zero until the pass has been created.
    pub pass: u64,
    pub color_attachment: AttachmentDescription,
    pub depth_attachment: AttachmentDescription,
    pub color_attachment_resolve: AttachmentDescription,
    pub color_attachment_ref: AttachmentReference,
    pub depth_attachment_ref: AttachmentReference,
    pub color_attachment_resolve_ref: AttachmentReference,
    pub dependency: SubpassDependency,
}

/// The render pass for a swapchain of the given format, a depth target of
/// the given format and the given number of samples.
pub open spec fn render_pass_for(format: i32, depth_format: i32, msaa_samples: u32) -> RenderPass {
    RenderPass {
        pass: 0,
        color_attachment: AttachmentDescription {
            format,
            samples: msaa_samples,
            load_op: LoadOp::Clear,
            store_op: StoreOp::Store,
            stencil_load_op: LoadOp::DontCare,
            stencil_store_op: StoreOp::DontCare,
            initial_layout: ImageLayout::Undefined,
            final_layout: ImageLayout::ColorAttachmentOptimal,
        },
        depth_attachment: AttachmentDescription {
            format: depth_format,
            samples: msaa_samples,
            load_op: LoadOp::Clear,
            store_op: StoreOp::DontCare,
            stencil_load_op: LoadOp::DontCare,
            stencil_store_op: StoreOp::DontCare,
            initial_layout: ImageLayout::Undefined,
            final_layout: ImageLayout::DepthStencilAttachmentOptimal,
        },
        color_attachment_resolve: AttachmentDescription {
            format,
            samples: SAMPLE_COUNT_1,
            load_op: LoadOp::DontCare,
            store_op: StoreOp::Store,
            stencil_load_op: LoadOp::DontCare,
            stencil_store_op: StoreOp::DontCare,
            initial_layout: ImageLayout::Undefined,
            final_layout: ImageLayout::PresentSrc,
        },
        color_attachment_ref: AttachmentReference {
            attachment: ATTACHMENT_COLOR,
            layout: ImageLayout::ColorAttachmentOptimal,
        },
        depth_attachment_ref: AttachmentReference {
            attachment: ATTACHMENT_DEPTH,
            layout: ImageLayout::DepthStencilAttachmentOptimal,
        },
        color_attachment_resolve_ref: AttachmentReference {
            attachment: ATTACHMENT_RESOLVE,
            layout: ImageLayout::ColorAttachmentOptimal,
        },
        dependency: SubpassDependency {
            src_subpass: None,
            dst_subpass: 0,
            src_stage_mask: STAGE_COLOR_ATTACHMENT_OUTPUT,
            dst_stage_mask: STAGE_COLOR_ATTACHMENT_OUTPUT,
            src_access_mask: 0,
            dst_access_mask: ACCESS_COLOR_ATTACHMENT_READ | ACCESS_COLOR_ATTACHMENT_WRITE,
        },
    }
}

impl RenderPass {
    /// The pass can be used with colour targets of `format` that hold
    /// `msaa_samples` samples: the colour and the depth target have that
    /// many samples, the colour and the resolve target have that format, and
    /// the resolve target has one sample and ends ready to be presented.
    pub open spec fn compatible_with(&self, format: i32, msaa_samples: u32) -> bool {
        &&& self.color_attachment.format == format
        &&& self.color_attachment.samples == msaa_samples
        &&& self.depth_attachment.samples == msaa_samples
        &&& self.color_attachment_resolve.format == format
        &&& self.color_attachment_resolve.samples == SAMPLE_COUNT_1
        &&& self.color_attachment_resolve.final_layout == ImageLayout::PresentSrc
    }

    /// Describes the render pass for a swapchain of `format`, a depth target
    /// of `depth_format` and `msaa_samples` samples. The pass has no handle
    /// yet.
    pub fn new(format: i32, depth_format: i32, msaa_samples: u32) -> (pass: RenderPass)
        ensures
            pass == render_pass_for(format, depth_format, msaa_samples),
            pass.compatible_with(format, msaa_samples),
    {
        RenderPass {
            pass: 0,
            color_attachment: AttachmentDescription {
                format,
                samples: msaa_samples,
                load_op: LoadOp::Clear,
                store_op: StoreOp::Store,
                stencil_load_op: LoadOp::DontCare,
                stencil_store_op: StoreOp::DontCare,
                initial_layout: ImageLayout::Undefined,
                final_layout: ImageLayout::ColorAttachmentOptimal,
            },
            depth_attachment: AttachmentDescription {
                format: depth_format,
                samples: msaa_samples,
                load_op: LoadOp::Clear,
                store_op: StoreOp::DontCare,
                stencil_load_op: LoadOp::DontCare,
                stencil_store_op: StoreOp::DontCare,
                initial_layout: ImageLayout::Undefined,
                final_layout: ImageLayout::DepthStencilAttachmentOptimal,
            },
            color_attachment_resolve: AttachmentDescription {
                format,
                samples: SAMPLE_COUNT_1,
                load_op: LoadOp::DontCare,
                store_op: StoreOp::Store,
                stencil_load_op: LoadOp::DontCare,
                stencil_store_op: StoreOp::DontCare,
                initial_layout: ImageLayout::Undefined,
                final_layout: ImageLayout::PresentSrc,
            },
            color_attachment_ref: AttachmentReference {
                attachment: ATTACHMENT_COLOR,
                layout: ImageLayout::ColorAttachmentOptimal,
            },
            depth_attachment_ref: AttachmentReference {
                attachment: ATTACHMENT_DEPTH,
                layout: ImageLayout::DepthStencilAttachmentOptimal,
            },
            color_attachment_resolve_ref: AttachmentReference {
                attachment: ATTACHMENT_RESOLVE,
                layout: ImageLayout::ColorAttachmentOptimal,
            },
            dependency: SubpassDependency {
                src_subpass: None,
                dst_subpass: 0,
                src_stage_mask: STAGE_COLOR_ATTACHMENT_OUTPUT,
                dst_stage_mask: STAGE_COLOR_ATTACHMENT_OUTPUT,
                src_access_mask: 0,
                dst_access_mask: ACCESS_COLOR_ATTACHMENT_READ | ACCESS_COLOR_ATTACHMENT_WRITE,
            },
        }
    }

    /// The same pass with the handle that the driver made for it.
    pub fn created(self, pass: u64) -> (made: RenderPass)
        ensures
            made == (RenderPass { pass, ..self }),
    {
        RenderPass {
            pass,
            color_attachment: self.color_attachment,
            depth_attachment: self.depth_attachment,
            color_attachment_resolve: self.color_attachment_resolve,
            color_attachment_ref: self.color_attachment_ref,
            depth_attachment_ref: self.depth_attachment_ref,
            color_attachment_resolve_ref: self.color_attachment_resolve_ref,
            dependency: self.dependency,
        }
    }

    /// The command that begins the pass on a framebuffer of the given
    /// extent: the colour is cleared to opaque black and the depth to the
    /// greatest depth.
    pub fn begin(&self, extent: Extent2D, framebuffer: u64) -> (command: Command)
        ensures
            command == (Command::BeginRenderPass {
                render_pass: self.pass,
                framebuffer,
                extent,
                clear: clear_values(),
            }),
    {
        Command::BeginRenderPass {
            render_pass: self.pass,
            framebuffer,
            extent,
            clear: ClearValues { red: 0, green: 0, blue: 0, alpha: 1, depth: 1, stencil: 0 },
        }
    }

    /// The command that ends the pass.
    pub fn end(&self) -> (command: Command)
        ensures
            command == Command::EndRenderPass,
    {
        Command::EndRenderPass
    }
}

} // verus!
