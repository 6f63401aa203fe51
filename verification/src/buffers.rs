//! Buffers for one mesh drawn with one descriptor set for each swapchain
//! image: the uniform buffers, the vertex and the index buffer, and the
//! commands that draw with them.

use vstd::prelude::*;
use crate::buffer::{Buffer, buffer_for};
use crate::commandpool::{ClearValues, Command, CommandPool, clear_values};
use crate::constants::{
    BUFFER_USAGE_INDEX_BUFFER, BUFFER_USAGE_TRANSFER_DST, BUFFER_USAGE_TRANSFER_SRC,
    BUFFER_USAGE_UNIFORM_BUFFER, BUFFER_USAGE_VERTEX_BUFFER, MEMORY_DEVICE_LOCAL,
    MEMORY_HOST_COHERENT, MEMORY_HOST_VISIBLE,
};
use crate::device::QueueFamilyIndices;
use crate::error::RenderError;
use crate::mesh::{INDEX_SIZE, VERTEX_SIZE};
use crate::swapchain::{Extent2D, FramebufferInfo, framebuffer_for};

verus! {

/// The number of bytes of one four-by-four matrix of 32-bit floats.
pub const MATRIX_SIZE: u64 = 64;

/// The number of bytes of the data that is written for each frame: a model,
/// a view and a projection matrix.
pub const UNIFORM_BUFFER_OBJECT_SIZE: u64 = 192;

/// Describes the command pool for the family that draws.
///
/// Fails where no family is known to draw.
pub fn create_command_pool(families: &QueueFamilyIndices) -> (pool: Result<
    CommandPool,
    RenderError,
>)
    ensures
        families.graphics_family is Some ==> pool is Ok && pool->Ok_0.pool == 0
            && pool->Ok_0.queue_family_index == families.graphics_family->0
            && pool->Ok_0.buffers@.len() == 0,
        families.graphics_family is None ==> pool is Err && pool->Err_0
            == RenderError::MissingQueueFamily,
{
    CommandPool::new(families)
}

/// The commands that draw one mesh into one framebuffer.
pub open spec fn mesh_commands(
    render_pass: u64,
    pipeline: u64,
    layout: u64,
    framebuffer: u64,
    extent: Extent2D,
    vertexbuffer: u64,
    indexbuffer: u64,
    descriptor_set: u64,
    index_count: u32,
) -> Seq<Command> {
    seq![
        Command::Begin,
        Command::BeginRenderPass { render_pass, framebuffer, extent, clear: clear_values() },
        Command::BindPipeline { pipeline },
        Command::BindVertexBuffer { buffer: vertexbuffer },
        Command::BindIndexBuffer { buffer: indexbuffer },
        Command::BindDescriptorSet { layout, set: descriptor_set },
        Command::DrawIndexed { index_count, instance_count: 1 },
        Command::EndRenderPass,
        Command::End,
    ]
}

/// Records one command buffer for each framebuffer, in order. Each draws the
/// mesh once, with the descriptor set that belongs to its image.
///
/// Fails where there are fewer descriptor sets than framebuffers.
pub fn create_command_buffers(
    pipeline: u64,
    layout: u64,
    framebuffers: &Vec<u64>,
    render_pass: u64,
    extent: Extent2D,
    vertexbuffer: u64,
    indexbuffer: u64,
    descriptor_sets: &Vec<u64>,
    index_count: u32,
) -> (sequence: Result<Vec<Vec<Command>>, RenderError>)
    ensures
        descriptor_sets@.len() >= framebuffers@.len() ==> sequence is Ok
            && sequence->Ok_0@.len() == framebuffers@.len() && forall|i: int|
            0 <= i < framebuffers@.len() ==> (#[trigger] sequence->Ok_0@[i])@ == mesh_commands(
                render_pass,
                pipeline,
                layout,
                framebuffers@[i],
                extent,
                vertexbuffer,
                indexbuffer,
                descriptor_sets@[i],
                index_count,
            ),
        descriptor_sets@.len() < framebuffers@.len() ==> sequence is Err && sequence->Err_0
            == RenderError::ResourceCountMismatch,
{
    if descriptor_sets.len() < framebuffers.len() {
        return Err(RenderError::ResourceCountMismatch);
    }
    let mut sequence: Vec<Vec<Command>> = Vec::new();
    let mut i: usize = 0;
    while i < framebuffers.len()
        invariant
            i <= framebuffers@.len(),
            descriptor_sets@.len() >= framebuffers@.len(),
            sequence@.len() == i,
            forall|j: int|
                0 <= j < i ==> (#[trigger] sequence@[j])@ == mesh_commands(
                    render_pass,
                    pipeline,
                    layout,
                    framebuffers@[j],
                    extent,
                    vertexbuffer,
                    indexbuffer,
                    descriptor_sets@[j],
                    index_count,
                ),
        decreases framebuffers@.len() - i,
    {
        let mut commands: Vec<Command> = Vec::new();
        commands.push(Command::Begin);
        commands.push(
            Command::BeginRenderPass {
                render_pass,
                framebuffer: framebuffers[i],
                extent,
                clear: ClearValues { red: 0, green: 0, blue: 0, alpha: 1, depth: 1, stencil: 0 },
            },
        );
        commands.push(Command::BindPipeline { pipeline });
        commands.push(Command::BindVertexBuffer { buffer: vertexbuffer });
        commands.push(Command::BindIndexBuffer { buffer: indexbuffer });
        commands.push(Command::BindDescriptorSet { layout, set: descriptor_sets[i] });
        commands.push(Command::DrawIndexed { index_count, instance_count: 1 });
        commands.push(Command::EndRenderPass);
        commands.push(Command::End);
        sequence.push(commands);
        i += 1;
    }
    Ok(sequence)
}

/// The framebuffers to create, one for each image view in order. Each binds
/// the multisampled colour target, the depth target and the view itself, and
/// has the given extent.
pub fn create_framebuffers(
    render_pass: u64,
    depth_image_view: u64,
    color_image_view: u64,
    imageviews: &Vec<u64>,
    extent: Extent2D,
) -> (infos: Vec<FramebufferInfo>)
    ensures
        infos@.len() == imageviews@.len(),
        forall|i: int|
            0 <= i < infos@.len() ==> infos@[i] == framebuffer_for(
                render_pass,
                depth_image_view,
                color_image_view,
                imageviews@[i],
                extent,
            ),
{
    let mut infos: Vec<FramebufferInfo> = Vec::new();
    let mut i: usize = 0;
    while i < imageviews.len()
        invariant
            i <= imageviews@.len(),
            infos@.len() == i,
            forall|j: int|
                0 <= j < i ==> infos@[j] == framebuffer_for(
                    render_pass,
                    depth_image_view,
                    color_image_view,
                    imageviews@[j],
                    extent,
                ),
        decreases imageviews@.len() - i,
    {
        infos.push(
            FramebufferInfo {
                render_pass,
                color_view: color_image_view,
                depth_view: depth_image_view,
                resolve_view: imageviews[i],
                width: extent.width,
                height: extent.height,
                layers: 1,
            },
        );
        i += 1;
    }
    infos
}

/// A buffer in device memory and the staging buffer it is filled through.
#[derive(Clone, Copy, Debug, PartialEq, Eq, Structural)]
pub struct Upload {
    pub staging: Buffer,
    pub target: Buffer,
}

/// The vertex buffer of one mesh.
pub struct VertexBuffer {
    pub buffer: u64,
    pub memory: u64,
}

impl VertexBuffer {
    /// Describes the buffers for `count` vertices: a staging buffer that the
    /// host fills, and the vertex buffer that it is copied into.
    ///
    /// Fails where the size of the vertices cannot be counted.
    pub fn new(count: usize) -> (upload: Result<Upload, RenderError>)
        ensures
            VERTEX_SIZE * count <= u64::MAX ==> upload is Ok && upload->Ok_0.staging
                == buffer_for(
                (VERTEX_SIZE * count) as u64,
                BUFFER_USAGE_TRANSFER_SRC,
                MEMORY_HOST_VISIBLE | MEMORY_HOST_COHERENT,
            ) && upload->Ok_0.target == buffer_for(
                (VERTEX_SIZE * count) as u64,
                BUFFER_USAGE_TRANSFER_DST | BUFFER_USAGE_VERTEX_BUFFER,
                MEMORY_DEVICE_LOCAL,
            ),
            VERTEX_SIZE * count > u64::MAX ==> upload is Err && upload->Err_0
                == RenderError::BadModel,
    {
        if count as u64 > u64::MAX / 32 {
            return Err(RenderError::BadModel);
        }
        let buffer_size: u64 = 32 * (count as u64);
        Ok(Upload { staging: Buffer::staging(buffer_size), target: Buffer::vertex(buffer_size) })
    }
}

/// The index buffer of one mesh.
pub struct IndexBuffer {
    pub buffer: u64,
    pub memory: u64,
}

impl IndexBuffer {
    /// Describes the buffers for `count` indices: a staging buffer that the
    /// host fills, and the index buffer that it is copied into.
    ///
    /// Fails where the size of the indices cannot be counted.
    pub fn new(count: usize) -> (upload: Result<Upload, RenderError>)
        ensures
            INDEX_SIZE * count <= u64::MAX ==> upload is Ok && upload->Ok_0.staging == buffer_for(
                (INDEX_SIZE * count) as u64,
                BUFFER_USAGE_TRANSFER_SRC,
                MEMORY_HOST_VISIBLE | MEMORY_HOST_COHERENT,
            ) && upload->Ok_0.target == buffer_for(
                (INDEX_SIZE * count) as u64,
                BUFFER_USAGE_TRANSFER_DST | BUFFER_USAGE_INDEX_BUFFER,
                MEMORY_DEVICE_LOCAL,
            ),
            INDEX_SIZE * count > u64::MAX ==> upload is Err && upload->Err_0
                == RenderError::BadModel,
    {
        if count as u64 > u64::MAX / 4 {
            return Err(RenderError::BadModel);
        }
        let buffer_size: u64 = 4 * (count as u64);
        Ok(Upload { staging: Buffer::staging(buffer_size), target: Buffer::index(buffer_size) })
    }
}

/// The uniform buffers, one for each swapchain image, so that the data of a
/// frame can be written while an earlier frame is still read.
pub struct UniformBuffer {
    pub buffers: Vec<u64>,
    pub memory: Vec<u64>,
}

impl UniformBuffer {
    /// Describes one uniform buffer for each swapchain image.
    pub fn new(swapchain_image_count: usize) -> (buffers: Vec<Buffer>)
        ensures
            buffers@.len() == swapchain_image_count,
            forall|i: int|
                0 <= i < buffers@.len() ==> buffers@[i] == buffer_for(
                    UNIFORM_BUFFER_OBJECT_SIZE,
                    BUFFER_USAGE_UNIFORM_BUFFER,
                    MEMORY_HOST_VISIBLE | MEMORY_HOST_COHERENT,
                ),
    {
        let mut buffers: Vec<Buffer> = Vec::new();
        let mut i: usize = 0;
        while i < swapchain_image_count
            invariant
                i <= swapchain_image_count,
                buffers@.len() == i,
                forall|j: int|
                    0 <= j < i ==> buffers@[j] == buffer_for(
                        UNIFORM_BUFFER_OBJECT_SIZE,
                        BUFFER_USAGE_UNIFORM_BUFFER,
                        MEMORY_HOST_VISIBLE | MEMORY_HOST_COHERENT,
                    ),
            decreases swapchain_image_count - i,
        {
            buffers.push(Buffer::uniform(UNIFORM_BUFFER_OBJECT_SIZE));
            i += 1;
        }
        buffers
    }

    /// The handles to destroy: each buffer, followed by its memory.
    pub fn destroy(&self) -> (doomed: Vec<u64>)
        requires
            self.buffers@.len() == self.memory@.len(),
        ensures
            doomed@.len() == 2 * self.buffers@.len(),
            forall|i: int|
                0 <= i < self.buffers@.len() ==> doomed@[2 * i] == self.buffers@[i] && doomed@[2
                    * i + 1] == self.memory@[i],
    {
        let mut doomed: Vec<u64> = Vec::new();
        let mut i: usize = 0;
        while i < self.buffers.len()
            invariant
                self.buffers@.len() == self.memory@.len(),
                i <= self.buffers@.len(),
                doomed@.len() == 2 * i,
                forall|j: int|
                    0 <= j < i ==> doomed@[2 * j] == self.buffers@[j] && doomed@[2 * j + 1]
                        == self.memory@[j],
            decreases self.buffers@.len() - i,
        {
            doomed.push(self.buffers[i]);
            doomed.push(self.memory[i]);
            i += 1;
        }
        doomed
    }
}

} // verus!
