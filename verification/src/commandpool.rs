//! Command buffers and what is recorded into them.

use vstd::prelude::*;
use crate::device::QueueFamilyIndices;
use crate::error::RenderError;
use crate::swapchain::Extent2D;

verus! {

/// The values that a render pass's attachments are cleared to, in whole
/// units: the colour's red, green, blue and alpha, the depth and the stencil.
#[derive(Clone, Copy, Debug, PartialEq, Eq, Structural)]
pub struct ClearValues {
    pub red: u32,
    pub green: u32,
    pub blue: u32,
    pub alpha: u32,
    pub depth: u32,
    pub stencil: u32,
}

/// Opaque black, the greatest depth, no stencil.
pub open spec fn clear_values() -> ClearValues {
    ClearValues { red: 0, green: 0, blue: 0, alpha: 1, depth: 1, stencil: 0 }
}

/// One thing to draw: its geometry, the resources its shaders read, and
/// which of the model transforms places it.
#[derive(Clone, Copy, Debug, PartialEq, Eq, Structural)]
pub struct Drawable {
    pub vertex_buffer: u64,
    pub index_buffer: u64,
    pub index_count: u32,
    pub instance_count: u32,
    pub descriptor_set: u64,
    pub transform: u32,
}

/// One command of a command buffer.
#[derive(Clone, Copy, Debug, PartialEq, Eq, Structural)]
pub enum Command {
    /// Starts recording. The buffer may be pending more than once.
    Begin,
    /// Begins the render pass on a framebuffer, clearing its attachments.
    BeginRenderPass { render_pass: u64, framebuffer: u64, extent: Extent2D, clear: ClearValues },
    /// Binds the graphics pipeline.
    BindPipeline { pipeline: u64 },
    /// Binds a vertex buffer at binding zero, from its start.
    BindVertexBuffer { buffer: u64 },
    /// Binds a buffer of 32-bit indices, from its start.
    BindIndexBuffer { buffer: u64 },
    /// Binds a descriptor set as the first set of the pipeline's layout.
    BindDescriptorSet { layout: u64, set: u64 },
    /// Hands the vertex shader the model transform with the given number.
    PushConstants { layout: u64, transform: u32 },
    /// Draws with the bound buffers.
    DrawIndexed { index_count: u32, instance_count: u32 },
    /// Ends the render pass.
    EndRenderPass,
    /// Ends recording.
    End,
}

/// The number of commands that draw one thing.
pub const COMMANDS_PER_DRAWABLE: usize = 5;

/// The commands that draw one thing.
pub open spec fn drawable_commands(drawable: Drawable, layout: u64) -> Seq<Command> {
    seq![
        Command::BindVertexBuffer { buffer: drawable.vertex_buffer },
        Command::BindIndexBuffer { buffer: drawable.index_buffer },
        Command::BindDescriptorSet { layout, set: drawable.descriptor_set },
        Command::PushConstants { layout, transform: drawable.transform },
        Command::DrawIndexed {
            index_count: drawable.index_count,
            instance_count: drawable.instance_count,
        },
    ]
}

/// The commands that draw each thing in turn.
pub open spec fn draw_commands(drawables: Seq<Drawable>, layout: u64) -> Seq<Command>
    decreases drawables.len(),
{
    if drawables.len() == 0 {
        Seq::empty()
    } else {
        draw_commands(drawables.drop_last(), layout) + drawable_commands(drawables.last(), layout)
    }
}

/// The commands that open a frame's command buffer.
pub open spec fn opening_commands(
    render_pass: u64,
    pipeline: u64,
    framebuffer: u64,
    extent: Extent2D,
) -> Seq<Command> {
    seq![
        Command::Begin,
        Command::BeginRenderPass { render_pass, framebuffer, extent, clear: clear_values() },
        Command::BindPipeline { pipeline },
    ]
}

/// The commands that close a frame's command buffer.
pub open spec fn closing_commands() -> Seq<Command> {
    seq![Command::EndRenderPass, Command::End]
}

/// All that is recorded for one framebuffer: the pass is begun and cleared,
/// the pipeline bound, each thing drawn, the pass ended.
pub open spec fn frame_commands(
    render_pass: u64,
    pipeline: u64,
    layout: u64,
    framebuffer: u64,
    extent: Extent2D,
    drawables: Seq<Drawable>,
) -> Seq<Command> {
    opening_commands(render_pass, pipeline, framebuffer, extent) + draw_commands(drawables, layout)
        + closing_commands()
}

/// The number of commands that draw `count` things.
pub proof fn lemma_draw_commands_len(drawables: Seq<Drawable>, layout: u64)
    ensures
        draw_commands(drawables, layout).len() == COMMANDS_PER_DRAWABLE * drawables.len(),
    decreases drawables.len(),
{
    if drawables.len() > 0 {
        lemma_draw_commands_len(drawables.drop_last(), layout);
    }
}

/// Records the commands for one framebuffer.
pub fn record_frame(
    render_pass: u64,
    pipeline: u64,
    layout: u64,
    framebuffer: u64,
    extent: Extent2D,
    drawables: &Vec<Drawable>,
) -> (commands: Vec<Command>)
    ensures
        commands@ == frame_commands(
            render_pass,
            pipeline,
            layout,
            framebuffer,
            extent,
            drawables@,
        ),
{
    let mut commands: Vec<Command> = Vec::new();
    commands.push(Command::Begin);
    commands.push(
        Command::BeginRenderPass {
            render_pass,
            framebuffer,
            extent,
            clear: ClearValues { red: 0, green: 0, blue: 0, alpha: 1, depth: 1, stencil: 0 },
        },
    );
    commands.push(Command::BindPipeline { pipeline });
    let mut d: usize = 0;
    while d < drawables.len()
        invariant
            d <= drawables@.len(),
            commands@ == opening_commands(render_pass, pipeline, framebuffer, extent)
                + draw_commands(drawables@.take(d as int), layout),
        decreases drawables@.len() - d,
    {
        let drawable = drawables[d];
        commands.push(Command::BindVertexBuffer { buffer: drawable.vertex_buffer });
        commands.push(Command::BindIndexBuffer { buffer: drawable.index_buffer });
        commands.push(Command::BindDescriptorSet { layout, set: drawable.descriptor_set });
        commands.push(Command::PushConstants { layout, transform: drawable.transform });
        commands.push(
            Command::DrawIndexed {
                index_count: drawable.index_count,
                instance_count: drawable.instance_count,
            },
        );
        proof {
            let taken = drawables@.take(d as int + 1);
            assert(taken.drop_last() =~= drawables@.take(d as int));
        }
        d += 1;
    }
    assert(drawables@.take(d as int) =~= drawables@);
    commands.push(Command::EndRenderPass);
    commands.push(Command::End);
    commands
}

/// Records one command buffer for each framebuffer, in order. Every buffer
/// holds the same commands but for the framebuffer it draws into.
pub fn record(
    render_pass: u64,
    pipeline: u64,
    layout: u64,
    framebuffers: &Vec<u64>,
    extent: Extent2D,
    drawables: &Vec<Drawable>,
) -> (sequence: Vec<Vec<Command>>)
    ensures
        sequence@.len() == framebuffers@.len(),
        forall|i: int|
            0 <= i < sequence@.len() ==> (#[trigger] sequence@[i])@ == frame_commands(
                render_pass,
                pipeline,
                layout,
                framebuffers@[i],
                extent,
                drawables@,
            ),
{
    let mut sequence: Vec<Vec<Command>> = Vec::new();
    let mut i: usize = 0;
    while i < framebuffers.len()
        invariant
            i <= framebuffers@.len(),
            sequence@.len() == i,
            forall|j: int|
                0 <= j < i ==> (#[trigger] sequence@[j])@ == frame_commands(
                    render_pass,
                    pipeline,
                    layout,
                    framebuffers@[j],
                    extent,
                    drawables@,
                ),
        decreases framebuffers@.len() - i,
    {
        let commands = record_frame(
            render_pass,
            pipeline,
            layout,
            framebuffers[i],
            extent,
            drawables,
        );
        sequence.push(commands);
        i += 1;
    }
    sequence
}

/// Whether a command buffer is submitted to a queue itself or run from
/// another command buffer.
#[derive(Clone, Copy, Debug, PartialEq, Eq, Structural)]
pub enum CommandBufferLevel {
    Primary,
    Secondary,
}

/// What command buffers are allocated with, all of them in one call.
#[derive(Clone, Copy, Debug, PartialEq, Eq, Structural)]
pub struct CommandBufferAllocateInfo {
    pub command_pool: u64,
    pub level: CommandBufferLevel,
    pub command_buffer_count: u32,
}

/// A command pool and the command buffers allocated from it, one for each
/// swapchain image.
pub struct CommandPool {
    /// The driver's handle, zero until the pool has been created.
    pub pool: u64,
    /// The queue family whose queues the buffers are submitted to.
    pub queue_family_index: u32,
    pub buffers: Vec<u64>,
}

impl CommandPool {
    /// Describes the pool for the family that draws. It has no handle and
    /// no buffers yet.
    ///
    /// Fails where no family is known to draw.
    pub fn new(families: &QueueFamilyIndices) -> (pool: Result<CommandPool, RenderError>)
        ensures
            families.graphics_family is Some ==> pool is Ok && pool->Ok_0.pool == 0
                && pool->Ok_0.queue_family_index == families.graphics_family->0
                && pool->Ok_0.buffers@.len() == 0,
            families.graphics_family is None ==> pool is Err && pool->Err_0
                == RenderError::MissingQueueFamily,
    {
        match families.graphics_family {
            Some(queue_family_index) => Ok(
                CommandPool { pool: 0, queue_family_index, buffers: Vec::new() },
            ),
            None => Err(RenderError::MissingQueueFamily),
        }
    }

    /// What to allocate: one primary command buffer from this pool for each
    /// framebuffer, all in one call.
    ///
    /// Fails where there are more framebuffers than the driver can be asked
    /// for in one call.
    pub fn allocate_buffers(&self, framebuffers: &Vec<u64>) -> (info: Result<
        CommandBufferAllocateInfo,
        RenderError,
    >)
        ensures
            framebuffers@.len() <= u32::MAX ==> info == Ok::<
                CommandBufferAllocateInfo,
                RenderError,
            >(
                CommandBufferAllocateInfo {
                    command_pool: self.pool,
                    level: CommandBufferLevel::Primary,
                    command_buffer_count: framebuffers@.len() as u32,
                },
            ),
            framebuffers@.len() > u32::MAX ==> info == Err::<
                CommandBufferAllocateInfo,
                RenderError,
            >(RenderError::ResourceCountMismatch),
    {
        if framebuffers.len() > u32::MAX as usize {
            Err(RenderError::ResourceCountMismatch)
        } else {
            Ok(
                CommandBufferAllocateInfo {
                    command_pool: self.pool,
                    level: CommandBufferLevel::Primary,
                    command_buffer_count: framebuffers.len() as u32,
                },
            )
        }
    }

    /// Takes in the command buffers that the driver allocated, one for each
    /// framebuffer in order. They take the place of the buffers that the
    /// pool held before; the pool itself stays as it is.
    ///
    /// Fails, and changes nothing, where the number of buffers is not the
    /// number of framebuffers.
    pub fn attach_buffers(&mut self, framebuffers: &Vec<u64>, buffers: Vec<u64>) -> (outcome:
        Result<(), RenderError>)
        ensures
            buffers@.len() == framebuffers@.len() ==> ({
                &&& outcome is Ok
                &&& final(self).buffers@ == buffers@
                &&& final(self).buffers@.len() == framebuffers@.len()
                &&& final(self).pool == old(self).pool
                &&& final(self).queue_family_index == old(self).queue_family_index
            }),
            buffers@.len() != framebuffers@.len() ==> ({
                &&& outcome == Err::<(), RenderError>(RenderError::ResourceCountMismatch)
                &&& *final(self) == *old(self)
            }),
    {
        if buffers.len() != framebuffers.len() {
            return Err(RenderError::ResourceCountMismatch);
        }
        self.buffers = buffers;
        Ok(())
    }

    /// The command buffer for the image with the given index, if there is
    /// one.
    pub fn get_buffer(&self, i: usize) -> (buffer: Option<u64>)
        ensures
            buffer == if i < self.buffers@.len() {
                Some(self.buffers@[i as int])
            } else {
                None
            },
    {
        if i < self.buffers.len() {
            Some(self.buffers[i])
        } else {
            None
        }
    }

    /// Hands out the command buffers to free and forgets them.
    pub fn free_buffers(&mut self) -> (buffers: Vec<u64>)
        ensures
            buffers@ == old(self).buffers@,
            final(self).buffers@.len() == 0,
            final(self).pool == old(self).pool,
            final(self).queue_family_index == old(self).queue_family_index,
    {
        let mut buffers: Vec<u64> = Vec::new();
        std::mem::swap(&mut self.buffers, &mut buffers);
        buffers
    }
}

} // verus!
