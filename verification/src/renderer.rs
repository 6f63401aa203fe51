//! The renderer: the frame loop's state, and every decision that drawing a
//! frame or rebuilding the targets takes.

use vstd::prelude::*;
use crate::color_image::ColorImage;
use crate::commandpool::{
    Command, CommandBufferAllocateInfo, CommandBufferLevel, CommandPool, Drawable, frame_commands,
    record,
};
use crate::constants::{
    SAMPLE_COUNT_1, SAMPLE_COUNT_16, SAMPLE_COUNT_2, SAMPLE_COUNT_32, SAMPLE_COUNT_4,
    SAMPLE_COUNT_64, SAMPLE_COUNT_8, STAGE_COLOR_ATTACHMENT_OUTPUT,
};
use crate::depth_image::DepthImage;
use crate::error::RenderError;
use crate::flags::{has_flags, sample_counts_contain};
use crate::orchestrator::{
    Action, Doomed, FrameEvent, ImageHandles, ObjectKind, Phase, Profile, RebuildEvent,
    RendererView, SlotState, Submission, TargetResources, TargetState, doomed_all,
    doomed_image, fresh_slots, rebuild_step, settled, settled_slot,
};
use crate::pipeline::{GraphicPipeline, PipelineInfo, pipeline_info_for, vertex_attributes};
use crate::render_pass::RenderPass;
use crate::resource::{Resource, shutdown_order, shutdown_steps};
use crate::swapchain::{
    Extent2D, FramebufferInfo, SwapChain, SwapChainSupportDetail, framebuffer_for,
};
use crate::sync_object::MAX_FRAMES_IN_FLIGHT;

verus! {

/// The mask that the sample count is picked from: the smaller of the two
/// masks, the masks compared as numbers. This is not the counts that both
/// masks hold: of the masks 5 and 3 it is 3, whose count of two the mask 5
/// lacks.
pub open spec fn usable_sample_counts(color_counts: u32, depth_counts: u32) -> u32 {
    if color_counts <= depth_counts {
        color_counts
    } else {
        depth_counts
    }
}

/// The greatest sample count of a mask, or one where the mask holds none
/// above it.
pub open spec fn max_sample_count(counts: u32) -> u32 {
    if has_flags(counts, SAMPLE_COUNT_64) {
        SAMPLE_COUNT_64
    } else if has_flags(counts, SAMPLE_COUNT_32) {
        SAMPLE_COUNT_32
    } else if has_flags(counts, SAMPLE_COUNT_16) {
        SAMPLE_COUNT_16
    } else if has_flags(counts, SAMPLE_COUNT_8) {
        SAMPLE_COUNT_8
    } else if has_flags(counts, SAMPLE_COUNT_4) {
        SAMPLE_COUNT_4
    } else if has_flags(counts, SAMPLE_COUNT_2) {
        SAMPLE_COUNT_2
    } else {
        SAMPLE_COUNT_1
    }
}

/// A mask that holds all of another mask holds every count of it.
proof fn lemma_flags_of_part(whole: u32, part: u32, flag: u32)
    requires
        has_flags(whole, part),
        has_flags(part, flag),
    ensures
        has_flags(whole, flag),
{
    assert(whole & flag == flag) by (bit_vector)
        requires
            whole & part == part,
            part & flag == flag,
    ;
}

/// Where each of the two masks holds all of the smaller one, and a single
/// sample is supported, the count that is picked is one that both colour and
/// depth targets can have.
pub proof fn lemma_sample_count_is_shared(color_counts: u32, depth_counts: u32)
    requires
        has_flags(color_counts, usable_sample_counts(color_counts, depth_counts)),
        has_flags(depth_counts, usable_sample_counts(color_counts, depth_counts)),
        has_flags(usable_sample_counts(color_counts, depth_counts), SAMPLE_COUNT_1),
    ensures
        has_flags(
            color_counts,
            max_sample_count(usable_sample_counts(color_counts, depth_counts)),
        ),
        has_flags(
            depth_counts,
            max_sample_count(usable_sample_counts(color_counts, depth_counts)),
        ),
{
    let usable = usable_sample_counts(color_counts, depth_counts);
    let picked = max_sample_count(usable);
    assert(has_flags(usable, picked));
    lemma_flags_of_part(color_counts, usable, picked);
    lemma_flags_of_part(depth_counts, usable, picked);
}

/// The number of bytes that the elements of a slice take up.
pub fn size_of_array<T>(data: &[T]) -> (size: usize)
    requires
        vstd::layout::size_of::<T>() * data@.len() <= usize::MAX,
    ensures
        size == vstd::layout::size_of::<T>() * data@.len(),
{
    let element: usize = core::mem::size_of::<T>();
    let count: usize = data.len();
    assert(element * count == vstd::layout::size_of::<T>() * data@.len()) by (nonlinear_arith)
        requires
            element == vstd::layout::size_of::<T>(),
            count == data@.len(),
    ;
    element * count
}

/// The number of bytes that the elements of a slice take up, where it can be
/// counted.
pub fn checked_size_of_array<T>(data: &[T]) -> (size: Option<usize>)
    ensures
        size == if vstd::layout::size_of::<T>() * data@.len() <= usize::MAX {
            Some((vstd::layout::size_of::<T>() * data@.len()) as usize)
        } else {
            None
        },
{
    let element: usize = core::mem::size_of::<T>();
    let count: usize = data.len();
    assert(element * count == vstd::layout::size_of::<T>() * data@.len()) by (nonlinear_arith)
        requires
            element == vstd::layout::size_of::<T>(),
            count == data@.len(),
    ;
    if element == 0 || count <= usize::MAX / element {
        assert(element * count <= usize::MAX) by (nonlinear_arith)
            requires
                element == 0 || count <= usize::MAX / element,
                0 <= element,
                0 <= count,
        ;
        Some(element * count)
    } else {
        assert(element * count > usize::MAX) by (nonlinear_arith)
            requires
                element > 0,
                count > usize::MAX / element,
        ;
        None
    }
}

/// The renderer.
pub struct Renderer {
    phase: Phase,
    profile: Profile,
    set_layouts: Vec<u64>,
    drawables: Vec<Drawable>,
    swapchain: Option<SwapChain>,
    command_pool: CommandPool,
    targets: TargetResources,
    slots: Vec<SlotState>,
    current_frame: usize,
    is_framebuffer_resized: bool,
    generation: u64,
}

impl View for Renderer {
    type V = RendererView;

    closed spec fn view(&self) -> RendererView {
        RendererView {
            phase: self.phase,
            profile: self.profile,
            set_layouts: self.set_layouts@,
            drawables: self.drawables@,
            config: match self.swapchain {
                Some(chain) => Some(chain.config),
                None => None,
            },
            swapchain: match self.swapchain {
                Some(chain) => chain.swapchain,
                None => 0,
            },
            images: match self.swapchain {
                Some(chain) => chain.images@,
                None => Seq::empty(),
            },
            imageviews: match self.swapchain {
                Some(chain) => chain.imageviews@,
                None => Seq::empty(),
            },
            framebuffers: match self.swapchain {
                Some(chain) => chain.framebuffers@,
                None => Seq::empty(),
            },
            command_buffers: self.command_pool.buffers@,
            targets: self.targets,
            slots: self.slots@,
            current_frame: self.current_frame as nat,
            resized: self.is_framebuffer_resized,
            generation: self.generation as nat,
        }
    }
}

impl Renderer {
    #[verifier::type_invariant]
    spec fn inv(&self) -> bool {
        &&& self@.wf()
        &&& self.command_pool.pool == self.profile.command_pool
        &&& self.command_pool.queue_family_index == self.profile.command_queue_family
    }

    /// A renderer that has built nothing yet. Its first need is to know what
    /// the surface supports.
    pub fn new(profile: Profile, set_layouts: Vec<u64>, drawables: Vec<Drawable>) -> (renderer:
        Renderer)
        ensures
            renderer@ == RendererView::initial(profile, set_layouts@, drawables@),
            renderer@.wf(),
    {
        let slots = fresh_ring();
        Renderer {
            phase: Phase::AwaitingSurface,
            profile,
            set_layouts,
            drawables,
            swapchain: None,
            command_pool: CommandPool {
                pool: profile.command_pool,
                queue_family_index: profile.command_queue_family,
                buffers: Vec::new(),
            },
            targets: TargetResources {
                color_image: ImageHandles { image: 0, image_view: 0, memory: 0 },
                depth_image: ImageHandles { image: 0, image_view: 0, memory: 0 },
                render_pass: 0,
                pipeline_layout: 0,
                pipeline: 0,
            },
            slots,
            current_frame: 0,
            is_framebuffer_resized: false,
            generation: 0,
        }
    }

    /// The number of samples to draw with: the greatest count in the smaller
    /// of the two masks, the masks compared as numbers, or one where that
    /// mask holds no count above it.
    ///
    /// Both kinds of target can have that count wherever the greater mask
    /// holds all of the smaller and a single sample is supported, as it is
    /// on a device that supports every count up to some greatest one. On
    /// other masks the count may be one that a kind of target lacks.
    pub fn get_max_usable_sample_count(
        framebuffer_color_sample_counts: u32,
        framebuffer_depth_sample_counts: u32,
    ) -> (samples: u32)
        ensures
            samples == max_sample_count(
                usable_sample_counts(
                    framebuffer_color_sample_counts,
                    framebuffer_depth_sample_counts,
                ),
            ),
    {
        let count = if framebuffer_color_sample_counts <= framebuffer_depth_sample_counts {
            framebuffer_color_sample_counts
        } else {
            framebuffer_depth_sample_counts
        };
        if sample_counts_contain(count, SAMPLE_COUNT_64) {
            return SAMPLE_COUNT_64;
        }
        if sample_counts_contain(count, SAMPLE_COUNT_32) {
            return SAMPLE_COUNT_32;
        }
        if sample_counts_contain(count, SAMPLE_COUNT_16) {
            return SAMPLE_COUNT_16;
        }
        if sample_counts_contain(count, SAMPLE_COUNT_8) {
            return SAMPLE_COUNT_8;
        }
        if sample_counts_contain(count, SAMPLE_COUNT_4) {
            return SAMPLE_COUNT_4;
        }
        if sample_counts_contain(count, SAMPLE_COUNT_2) {
            return SAMPLE_COUNT_2;
        }
        SAMPLE_COUNT_1
    }

    /// The same renderer, failed.
    fn fail(self, error: RenderError) -> (next: Renderer)
        ensures
            next@ == self@.fail(error),
    {
        proof {
            use_type_invariant(&self);
        }
        Renderer { phase: Phase::Failed(error), ..self }
    }

    /// Whether the renderer will do nothing more.
    pub fn is_halted(&self) -> (halted: bool)
        ensures
            halted == self@.halted(),
    {
        match self.phase {
            Phase::Failed(_) => true,
            Phase::Destroyed => true,
            _ => false,
        }
    }

    /// Takes in what was reported while a frame is drawn.
    ///
    /// One frame is: the fence of the slot is waited for; the fence is
    /// reset; an image is acquired; the frame's uniform data is written; the
    /// image's commands are submitted; the image is presented; the slot
    /// moves on. Where no image can be acquired because the swapchain no
    /// longer fits the surface, the frame is skipped and the targets are
    /// rebuilt; the slot's fence stays armed, and the frame that follows
    /// starts by acquiring. Where the swapchain is found out of date later
    /// in the frame, the frame is finished and the rebuild is left to the
    /// start of the next one. A report that the renderer was not waiting for
    /// makes it fail, and so does an image index outside the swapchain's
    /// images.
    pub fn draw(self, event: FrameEvent) -> (next: Renderer)
        ensures
            next@ == self@.draw(event),
            next@.wf(),
    {
        proof {
            use_type_invariant(&self);
        }
        if self.is_halted() {
            return self;
        }
        let slot = self.current_frame;
        match event {
            FrameEvent::FenceSignaled => match self.phase {
                Phase::Ready => {
                    if self.is_framebuffer_resized || self.is_armed() {
                        self.fail(RenderError::UnexpectedEvent)
                    } else {
                        let mut slots = self.slots;
                        slots.set(slot, SlotState::Signaled);
                        Renderer { phase: Phase::ResettingFence, slots, ..self }
                    }
                },
                _ => self.fail(RenderError::UnexpectedEvent),
            },
            FrameEvent::FenceReset => match self.phase {
                Phase::ResettingFence => {
                    let mut slots = self.slots;
                    slots.set(slot, SlotState::Armed);
                    Renderer { phase: Phase::Acquiring, slots, ..self }
                },
                _ => self.fail(RenderError::UnexpectedEvent),
            },
            FrameEvent::ImageAcquired { image, suboptimal } => {
                if !self.is_acquiring() {
                    self.fail(RenderError::UnexpectedEvent)
                } else if (image as usize) < self.image_count() {
                    let resized = self.is_framebuffer_resized || suboptimal;
                    Renderer {
                        phase: Phase::UpdatingUniforms { image },
                        is_framebuffer_resized: resized,
                        ..self
                    }
                } else {
                    self.fail(RenderError::ImageIndexOutOfRange)
                }
            },
            FrameEvent::SwapchainStale => {
                if self.is_acquiring() {
                    Renderer { phase: Phase::Idling, ..self }
                } else {
                    self.fail(RenderError::UnexpectedEvent)
                }
            },
            FrameEvent::UniformsUpdated => match self.phase {
                Phase::UpdatingUniforms { image } => Renderer {
                    phase: Phase::Submitting { image },
                    ..self
                },
                _ => self.fail(RenderError::UnexpectedEvent),
            },
            FrameEvent::Submitted => match self.phase {
                Phase::Submitting { image } => {
                    let mut slots = self.slots;
                    slots.set(slot, SlotState::InFlight);
                    Renderer { phase: Phase::Presenting { image }, slots, ..self }
                },
                _ => self.fail(RenderError::UnexpectedEvent),
            },
            FrameEvent::Presented { stale } => match self.phase {
                Phase::Presenting { image } => {
                    let resized = self.is_framebuffer_resized || stale;
                    let current_frame = (self.current_frame + 1) % MAX_FRAMES_IN_FLIGHT;
                    Renderer {
                        phase: Phase::Ready,
                        is_framebuffer_resized: resized,
                        current_frame,
                        ..self
                    }
                },
                _ => self.fail(RenderError::UnexpectedEvent),
            },
        }
    }

    /// Whether the fence of the current slot has been reset and not used
    /// since.
    fn is_armed(&self) -> (armed: bool)
        ensures
            armed == (self@.fence() == SlotState::Armed),
    {
        proof {
            use_type_invariant(self);
        }
        match self.slots[self.current_frame] {
            SlotState::Armed => true,
            _ => false,
        }
    }

    /// Whether an image may be acquired now.
    fn is_acquiring(&self) -> (acquiring: bool)
        ensures
            acquiring == self@.acquiring(),
    {
        match self.phase {
            Phase::Acquiring => true,
            Phase::Ready => !self.is_framebuffer_resized && self.is_armed(),
            _ => false,
        }
    }

    /// What the caller is to do next.
    pub fn action(&self) -> (action: Action)
        ensures
            action == self@.action(),
    {
        proof {
            use_type_invariant(self);
        }
        match self.phase {
            Phase::AwaitingSurface => Action::QuerySurface,
            Phase::CreatingSwapchain => match &self.swapchain {
                Some(chain) => Action::CreateSwapchain(chain.config),
                None => Action::Abort(RenderError::UnexpectedEvent),
            },
            Phase::CreatingAttachments => match &self.swapchain {
                Some(chain) => Action::CreateAttachments {
                    color_image: ColorImage::new(
                        chain.config.format.format,
                        &chain.config.extent,
                        self.profile.msaa_samples,
                    ),
                    depth_image: DepthImage::new(
                        self.profile.depth_format,
                        &chain.config.extent,
                        self.profile.msaa_samples,
                    ),
                },
                None => Action::Abort(RenderError::UnexpectedEvent),
            },
            Phase::CreatingRenderPass => match &self.swapchain {
                Some(chain) => Action::CreateRenderPass(
                    RenderPass::new(
                        chain.config.format.format,
                        self.profile.depth_format,
                        self.profile.msaa_samples,
                    ),
                ),
                None => Action::Abort(RenderError::UnexpectedEvent),
            },
            Phase::CreatingFramebuffers => Action::CreateFramebuffers,
            Phase::CreatingPipeline => match &self.swapchain {
                Some(chain) => Action::CreatePipeline(
                    PipelineInfo::new(
                        self.targets.render_pass,
                        chain.config.extent,
                        self.profile.push_constant_size,
                        self.profile.msaa_samples,
                    ),
                ),
                None => Action::Abort(RenderError::UnexpectedEvent),
            },
            Phase::AllocatingCommandBuffers => match &self.swapchain {
                Some(chain) => match self.command_pool.allocate_buffers(&chain.framebuffers) {
                    Ok(info) => Action::AllocateCommandBuffers(info),
                    Err(error) => Action::Abort(error),
                },
                None => Action::Abort(RenderError::UnexpectedEvent),
            },
            Phase::Recording => Action::Record,
            Phase::Ready => if self.is_framebuffer_resized {
                Action::WaitDeviceIdle
            } else if self.is_armed() {
                Action::AcquireNextImage { slot: self.current_frame }
            } else {
                Action::WaitForFence { slot: self.current_frame }
            },
            Phase::ResettingFence => Action::ResetFence { slot: self.current_frame },
            Phase::Acquiring => Action::AcquireNextImage { slot: self.current_frame },
            Phase::UpdatingUniforms { image } => Action::UpdateUniforms { image },
            Phase::Submitting { image } => Action::Submit(
                Submission {
                    image,
                    command_buffer: self.command_pool.buffers[image as usize],
                    wait_semaphore: self.current_frame,
                    wait_stage: STAGE_COLOR_ATTACHMENT_OUTPUT,
                    signal_semaphore: self.current_frame,
                    fence: self.current_frame,
                },
            ),
            Phase::Presenting { image } => Action::Present {
                image,
                wait_semaphore: self.current_frame,
            },
            Phase::Idling => Action::WaitDeviceIdle,
            Phase::Closing => Action::WaitDeviceIdle,
            Phase::TearingDown => Action::CleanupSwapchain,
            Phase::Destroying => Action::Destroy,
            Phase::Destroyed => Action::Rest,
            Phase::Failed(error) => Action::Abort(error),
        }
    }

    /// Takes note that the window's size has changed. The targets are
    /// rebuilt before the next frame is begun.
    pub fn resize_framebuffer(self) -> (next: Renderer)
        ensures
            next@ == self@.resize_framebuffer(),
            next@.wf(),
    {
        proof {
            use_type_invariant(&self);
        }
        if self.is_halted() {
            return self;
        }
        Renderer { is_framebuffer_resized: true, ..self }
    }

    /// Takes note that the window is to be closed. This can be said between
    /// two frames only; at any other time it makes the renderer fail.
    pub fn close(self) -> (next: Renderer)
        ensures
            next@ == self@.close(),
            next@.wf(),
    {
        proof {
            use_type_invariant(&self);
        }
        if self.is_halted() {
            return self;
        }
        match self.phase {
            Phase::Ready => Renderer { phase: Phase::Closing, ..self },
            _ => self.fail(RenderError::UnexpectedEvent),
        }
    }

    /// Takes note that everything is destroyed.
    pub fn destroyed(self) -> (next: Renderer)
        ensures
            next@ == self@.destroyed(),
            next@.wf(),
    {
        proof {
            use_type_invariant(&self);
        }
        if self.is_halted() {
            return self;
        }
        match self.phase {
            Phase::Destroying => {
                let mut command_pool = self.command_pool;
                let _ = command_pool.free_buffers();
                assert(command_pool.buffers@ =~= Seq::<u64>::empty());
                Renderer {
                    phase: Phase::Destroyed,
                    swapchain: None,
                    command_pool,
                    targets: no_handles(),
                    ..self
                }
            },
            _ => self.fail(RenderError::UnexpectedEvent),
        }
    }

    /// Takes in what was reported while the targets are destroyed and built.
    ///
    /// A rebuild begins when the device has fallen idle. Then everything
    /// that depends on the swapchain is destroyed, and built again for the
    /// surface as it is now: the swapchain, the colour and the depth target,
    /// the render pass, the framebuffers, the pipeline, the command buffers
    /// and what is recorded into them. A renderer that has built nothing yet
    /// goes through the same steps from the second on. A report that the
    /// renderer was not waiting for makes it fail, and so do a surface that
    /// cannot be drawn to and lists of objects of the wrong length.
    pub fn recreate_swapchain(self, event: RebuildEvent) -> (next: Renderer)
        ensures
            next@ == rebuild_step(self@, event),
            next@.wf(),
    {
        proof {
            use_type_invariant(&self);
        }
        match event {
            RebuildEvent::DeviceIdle => self.device_idle(),
            RebuildEvent::TornDown => self.torn_down(),
            RebuildEvent::SurfaceQueried { support, size } => self.surface_queried(support, size),
            RebuildEvent::SwapchainCreated { swapchain, images, imageviews } =>
                self.swapchain_created(swapchain, images, imageviews),
            RebuildEvent::AttachmentsCreated { color_image, depth_image } =>
                self.attachments_created(color_image, depth_image),
            RebuildEvent::RenderPassCreated { render_pass } => self.render_pass_created(
                render_pass,
            ),
            RebuildEvent::FramebuffersCreated { framebuffers } => self.framebuffers_created(
                framebuffers,
            ),
            RebuildEvent::PipelineCreated { layout, pipeline } => self.pipeline_created(
                layout,
                pipeline,
            ),
            RebuildEvent::CommandBuffersAllocated { buffers } => self.command_buffers_allocated(
                buffers,
            ),
            RebuildEvent::Recorded => self.recorded(),
        }
    }

    /// Takes note that the device has fallen idle.
    fn device_idle(self) -> (next: Renderer)
        ensures
            next@ == self@.device_idle(),
            next@.wf(),
    {
        proof {
            use_type_invariant(&self);
        }
        if self.is_halted() {
            return self;
        }
        match self.phase {
            Phase::Idling => {
                let slots = settle(self.slots);
                Renderer {
                    phase: Phase::TearingDown,
                    slots,
                    is_framebuffer_resized: false,
                    ..self
                }
            },
            Phase::Ready => if self.is_framebuffer_resized {
                let slots = settle(self.slots);
                Renderer {
                    phase: Phase::TearingDown,
                    slots,
                    is_framebuffer_resized: false,
                    ..self
                }
            } else {
                self.fail(RenderError::UnexpectedEvent)
            },
            Phase::Closing => {
                let slots = settle(self.slots);
                Renderer { phase: Phase::Destroying, slots, ..self }
            },
            _ => self.fail(RenderError::UnexpectedEvent),
        }
    }

    /// Takes note that the old targets are destroyed.
    fn torn_down(self) -> (next: Renderer)
        ensures
            next@ == self@.torn_down(),
            next@.wf(),
    {
        proof {
            use_type_invariant(&self);
        }
        if self.is_halted() {
            return self;
        }
        match self.phase {
            Phase::TearingDown => {
                let mut command_pool = self.command_pool;
                let _ = command_pool.free_buffers();
                assert(command_pool.buffers@ =~= Seq::<u64>::empty());
                Renderer {
                    phase: Phase::AwaitingSurface,
                    swapchain: None,
                    command_pool,
                    targets: no_handles(),
                    ..self
                }
            },
            _ => self.fail(RenderError::UnexpectedEvent),
        }
    }

    /// Negotiates the swapchain with what the surface supports.
    fn surface_queried(self, support: SwapChainSupportDetail, size: Extent2D) -> (next: Renderer)
        ensures
            next@ == self@.surface_queried(
                support.capabilities,
                support.formats@,
                support.present_modes@,
                size,
            ),
            next@.wf(),
    {
        proof {
            use_type_invariant(&self);
        }
        if self.is_halted() {
            return self;
        }
        match self.phase {
            Phase::AwaitingSurface => match SwapChain::new(&support, size, &self.profile.families) {
                Ok(chain) => {
                    assert(chain.images@ =~= self@.images);
                    assert(chain.imageviews@ =~= self@.imageviews);
                    assert(chain.framebuffers@ =~= self@.framebuffers);
                    Renderer { phase: Phase::CreatingSwapchain, swapchain: Some(chain), ..self }
                },
                Err(error) => self.fail(error),
            },
            _ => self.fail(RenderError::UnexpectedEvent),
        }
    }

    /// Takes in the swapchain that the driver made.
    fn swapchain_created(self, swapchain: u64, images: Vec<u64>, imageviews: Vec<u64>) -> (next:
        Renderer)
        ensures
            next@ == self@.swapchain_created(swapchain, images@, imageviews@),
            next@.wf(),
    {
        proof {
            use_type_invariant(&self);
        }
        if self.is_halted() {
            return self;
        }
        match self.phase {
            Phase::CreatingSwapchain => match self.swapchain {
                Some(mut chain) => match chain.attach_images(swapchain, images, imageviews) {
                    Ok(()) => {
                        assert(chain.framebuffers@ =~= self@.framebuffers);
                        let generation = if self.generation < u64::MAX {
                            self.generation + 1
                        } else {
                            self.generation
                        };
                        Renderer {
                            phase: Phase::CreatingAttachments,
                            swapchain: Some(chain),
                            generation,
                            ..self
                        }
                    },
                    Err(error) => Renderer {
                        phase: Phase::Failed(error),
                        swapchain: Some(chain),
                        ..self
                    },
                },
                None => Renderer {
                    phase: Phase::Failed(RenderError::UnexpectedEvent),
                    swapchain: None,
                    ..self
                },
            },
            _ => self.fail(RenderError::UnexpectedEvent),
        }
    }

    /// Takes in the colour and the depth target that the driver made.
    fn attachments_created(self, color_image: ImageHandles, depth_image: ImageHandles) -> (next:
        Renderer)
        ensures
            next@ == self@.attachments_created(color_image, depth_image),
            next@.wf(),
    {
        proof {
            use_type_invariant(&self);
        }
        if self.is_halted() {
            return self;
        }
        match self.phase {
            Phase::CreatingAttachments => {
                let targets = TargetResources { color_image, depth_image, ..self.targets };
                Renderer { phase: Phase::CreatingRenderPass, targets, ..self }
            },
            _ => self.fail(RenderError::UnexpectedEvent),
        }
    }

    /// Takes in the render pass that the driver made.
    fn render_pass_created(self, render_pass: u64) -> (next: Renderer)
        ensures
            next@ == self@.render_pass_created(render_pass),
            next@.wf(),
    {
        proof {
            use_type_invariant(&self);
        }
        if self.is_halted() {
            return self;
        }
        match self.phase {
            Phase::CreatingRenderPass => {
                let targets = TargetResources { render_pass, ..self.targets };
                Renderer { phase: Phase::CreatingFramebuffers, targets, ..self }
            },
            _ => self.fail(RenderError::UnexpectedEvent),
        }
    }

    /// Takes in the framebuffers that the driver made.
    fn framebuffers_created(self, framebuffers: Vec<u64>) -> (next: Renderer)
        ensures
            next@ == self@.framebuffers_created(framebuffers@),
            next@.wf(),
    {
        proof {
            use_type_invariant(&self);
        }
        if self.is_halted() {
            return self;
        }
        match self.phase {
            Phase::CreatingFramebuffers => match self.swapchain {
                Some(mut chain) => match chain.attach_framebuffers(framebuffers) {
                    Ok(()) => Renderer {
                        phase: Phase::CreatingPipeline,
                        swapchain: Some(chain),
                        ..self
                    },
                    Err(error) => Renderer {
                        phase: Phase::Failed(error),
                        swapchain: Some(chain),
                        ..self
                    },
                },
                None => Renderer {
                    phase: Phase::Failed(RenderError::UnexpectedEvent),
                    swapchain: None,
                    ..self
                },
            },
            _ => self.fail(RenderError::UnexpectedEvent),
        }
    }

    /// Takes in the pipeline and the layout that the driver made.
    fn pipeline_created(self, layout: u64, pipeline: u64) -> (next: Renderer)
        ensures
            next@ == self@.pipeline_created(layout, pipeline),
            next@.wf(),
    {
        proof {
            use_type_invariant(&self);
        }
        if self.is_halted() {
            return self;
        }
        match self.phase {
            Phase::CreatingPipeline => {
                let targets = TargetResources { pipeline_layout: layout, pipeline, ..self.targets };
                Renderer { phase: Phase::AllocatingCommandBuffers, targets, ..self }
            },
            _ => self.fail(RenderError::UnexpectedEvent),
        }
    }

    /// Takes in the command buffers that the driver made.
    fn command_buffers_allocated(self, buffers: Vec<u64>) -> (next: Renderer)
        ensures
            next@ == self@.command_buffers_allocated(buffers@),
            next@.wf(),
    {
        proof {
            use_type_invariant(&self);
        }
        if self.is_halted() {
            return self;
        }
        match self.phase {
            Phase::AllocatingCommandBuffers => {
                let mut command_pool = self.command_pool;
                let outcome = match &self.swapchain {
                    Some(chain) => command_pool.attach_buffers(&chain.framebuffers, buffers),
                    None => Err(RenderError::UnexpectedEvent),
                };
                match outcome {
                    Ok(()) => Renderer { phase: Phase::Recording, command_pool, ..self },
                    Err(error) => Renderer { phase: Phase::Failed(error), command_pool, ..self },
                }
            },
            _ => self.fail(RenderError::UnexpectedEvent),
        }
    }

    /// Takes note that the commands are recorded.
    fn recorded(self) -> (next: Renderer)
        ensures
            next@ == self@.recorded(),
            next@.wf(),
    {
        proof {
            use_type_invariant(&self);
        }
        if self.is_halted() {
            return self;
        }
        match self.phase {
            Phase::Recording => Renderer { phase: Phase::Ready, ..self },
            _ => self.fail(RenderError::UnexpectedEvent),
        }
    }

    /// The framebuffers to create, one for each image view of the swapchain:
    /// each binds the colour target, the depth target and the view, and has
    /// the swapchain's extent.
    pub fn create_framebuffers(&self) -> (infos: Vec<FramebufferInfo>)
        ensures
            infos@.len() == self@.imageviews.len(),
            forall|i: int|
                0 <= i < infos@.len() ==> infos@[i] == framebuffer_for(
                    self@.targets.render_pass,
                    self@.targets.depth_image.image_view,
                    self@.targets.color_image.image_view,
                    self@.imageviews[i],
                    self@.extent(),
                ),
    {
        match &self.swapchain {
            Some(chain) => chain.create_framebuffer(
                self.targets.render_pass,
                self.targets.depth_image.image_view,
                self.targets.color_image.image_view,
            ),
            None => Vec::new(),
        }
    }

    /// The pipeline to create: drawn through the render pass, baked to the
    /// swapchain's extent, with the set layouts and the push constants that
    /// the renderer was made with. Before a swapchain is negotiated there is
    /// none.
    pub fn create_pipeline(&self) -> (pipeline: Option<GraphicPipeline>)
        ensures
            pipeline is Some <==> self@.config is Some,
            pipeline is Some ==> pipeline->0.layout == 0 && pipeline->0.pipeline == 0
                && pipeline->0.info == pipeline_info_for(
                self@.targets.render_pass,
                self@.extent(),
                self@.profile.push_constant_size,
                self@.profile.msaa_samples,
            ) && pipeline->0.attributes@ == vertex_attributes() && pipeline->0.set_layouts@
                == self@.set_layouts && pipeline->0.baked_to(self@.extent()),
    {
        match &self.swapchain {
            Some(chain) => Some(
                GraphicPipeline::new(
                    self.targets.render_pass,
                    chain.config.extent,
                    &self.set_layouts,
                    self.profile.push_constant_size,
                    self.profile.msaa_samples,
                ),
            ),
            None => None,
        }
    }

    /// What to record: for each framebuffer, in order, the commands of the
    /// command buffer that draws into it.
    pub fn record(&self) -> (sequence: Vec<Vec<Command>>)
        ensures
            sequence@.len() == self@.framebuffers.len(),
            self@.action() == Action::Record ==> sequence@.len() == self@.command_buffers.len()
                && sequence@.len() == self@.images.len(),
            forall|i: int|
                0 <= i < sequence@.len() ==> (#[trigger] sequence@[i])@ == frame_commands(
                    self@.targets.render_pass,
                    self@.targets.pipeline,
                    self@.targets.pipeline_layout,
                    self@.framebuffers[i],
                    self@.extent(),
                    self@.drawables,
                ),
    {
        proof {
            use_type_invariant(self);
        }
        match &self.swapchain {
            Some(chain) => record(
                self.targets.render_pass,
                self.targets.pipeline,
                self.targets.pipeline_layout,
                &chain.framebuffers,
                chain.config.extent,
                &self.drawables,
            ),
            None => Vec::new(),
        }
    }

    /// What to destroy now. While the renderer waits for the targets to be
    /// destroyed, that is every object that depends on the swapchain, in
    /// the order of teardown; at any other time it is nothing.
    pub fn cleanup_swapchain(&self) -> (doomed: Vec<Doomed>)
        ensures
            doomed@ == self@.cleanup_list(),
    {
        let mut doomed: Vec<Doomed> = Vec::new();
        match self.phase {
            Phase::TearingDown | Phase::Destroying => {},
            _ => {
                return doomed;
            },
        }
        match &self.swapchain {
            Some(chain) => {
                push_all(
                    &mut doomed,
                    Resource::CommandBuffers,
                    ObjectKind::CommandBuffer,
                    &self.command_pool.buffers,
                );
                push_all(
                    &mut doomed,
                    Resource::Framebuffers,
                    ObjectKind::Framebuffer,
                    &chain.framebuffers,
                );
                doomed.push(
                    Doomed {
                        owner: Resource::Pipeline,
                        kind: ObjectKind::Pipeline,
                        handle: self.targets.pipeline,
                    },
                );
                doomed.push(
                    Doomed {
                        owner: Resource::Pipeline,
                        kind: ObjectKind::PipelineLayout,
                        handle: self.targets.pipeline_layout,
                    },
                );
                doomed.push(
                    Doomed {
                        owner: Resource::RenderPass,
                        kind: ObjectKind::RenderPass,
                        handle: self.targets.render_pass,
                    },
                );
                push_image(&mut doomed, Resource::Attachments, self.targets.depth_image);
                push_image(&mut doomed, Resource::Attachments, self.targets.color_image);
                push_all(
                    &mut doomed,
                    Resource::Swapchain,
                    ObjectKind::ImageView,
                    &chain.imageviews,
                );
                doomed.push(
                    Doomed {
                        owner: Resource::Swapchain,
                        kind: ObjectKind::Swapchain,
                        handle: chain.swapchain,
                    },
                );
                doomed
            },
            None => {
                proof {
                    use_type_invariant(self);
                }
                doomed
            },
        }
    }

    /// The kinds of resource to destroy at shutdown, in order. While the
    /// renderer waits for everything to be destroyed that is every kind; at
    /// any other time it is none.
    pub fn destroy(&self) -> (order: Vec<Resource>)
        ensures
            order@ == if self@.phase == Phase::Destroying {
                shutdown_order()
            } else {
                Seq::empty()
            },
    {
        match self.phase {
            Phase::Destroying => shutdown_steps(),
            _ => Vec::new(),
        }
    }

    /// What the renderer is waiting for.
    pub fn phase(&self) -> (phase: Phase)
        ensures
            phase == self@.phase,
    {
        self.phase
    }

    /// The slot that the current frame uses.
    pub fn current_frame(&self) -> (slot: usize)
        ensures
            slot == self@.current_frame,
            slot < MAX_FRAMES_IN_FLIGHT,
    {
        proof {
            use_type_invariant(self);
        }
        self.current_frame
    }

    /// Whether the targets are known to be out of date.
    pub fn is_framebuffer_resized(&self) -> (resized: bool)
        ensures
            resized == self@.resized,
    {
        self.is_framebuffer_resized
    }

    /// How many swapchains have been made so far.
    pub fn generation(&self) -> (generation: u64)
        ensures
            generation == self@.generation,
    {
        self.generation
    }

    /// Whether the targets can be drawn to.
    pub fn target_state(&self) -> (state: TargetState)
        ensures
            state == self@.target_state(),
    {
        match self.phase {
            Phase::Ready
            | Phase::ResettingFence
            | Phase::Acquiring
            | Phase::UpdatingUniforms { .. }
            | Phase::Submitting { .. }
            | Phase::Presenting { .. } => if self.is_framebuffer_resized {
                TargetState::Invalidated
            } else {
                TargetState::Valid
            },
            Phase::Idling | Phase::TearingDown => TargetState::Rebuilding,
            Phase::AwaitingSurface
            | Phase::CreatingSwapchain
            | Phase::CreatingAttachments
            | Phase::CreatingRenderPass
            | Phase::CreatingFramebuffers
            | Phase::CreatingPipeline
            | Phase::AllocatingCommandBuffers
            | Phase::Recording => if self.generation == 0 {
                TargetState::Unbuilt
            } else {
                TargetState::Rebuilding
            },
            Phase::Closing | Phase::Destroying | Phase::Destroyed | Phase::Failed(_) =>
                TargetState::Retired,
        }
    }

    /// The extent of the swapchain, once one has been negotiated.
    pub fn extent(&self) -> (extent: Option<Extent2D>)
        ensures
            extent == match self@.config {
                Some(config) => Some(config.extent),
                None => None,
            },
    {
        match &self.swapchain {
            Some(chain) => Some(chain.config.extent),
            None => None,
        }
    }

    /// The swapchain, once one has been negotiated.
    pub fn swapchain(&self) -> (chain: Option<&SwapChain>)
        ensures
            chain is Some <==> self@.config is Some,
            chain is Some ==> chain->0.config == self@.config->0 && chain->0.swapchain
                == self@.swapchain && chain->0.images@ == self@.images && chain->0.imageviews@
                == self@.imageviews && chain->0.framebuffers@ == self@.framebuffers
                && chain->0.wf(),
    {
        proof {
            use_type_invariant(self);
        }
        match &self.swapchain {
            Some(chain) => Some(chain),
            None => None,
        }
    }

    /// The command buffers, one for each swapchain image.
    pub fn command_buffers(&self) -> (buffers: &Vec<u64>)
        ensures
            buffers@ == self@.command_buffers,
    {
        &self.command_pool.buffers
    }

    /// The command pool and the command buffers that were allocated from it.
    pub fn command_pool(&self) -> (pool: &CommandPool)
        ensures
            pool.pool == self@.profile.command_pool,
            pool.queue_family_index == self@.profile.command_queue_family,
            pool.buffers@ == self@.command_buffers,
    {
        proof {
            use_type_invariant(self);
        }
        &self.command_pool
    }

    /// The handles of what is built once for each swapchain.
    pub fn targets(&self) -> (targets: TargetResources)
        ensures
            targets == self@.targets,
    {
        self.targets
    }

    /// What is known of the fence of `slot`, for a slot of the ring.
    pub fn slot_state(&self, slot: usize) -> (state: Option<SlotState>)
        ensures
            state == if slot < MAX_FRAMES_IN_FLIGHT {
                Some(self@.slots[slot as int])
            } else {
                None
            },
    {
        proof {
            use_type_invariant(self);
        }
        if slot < MAX_FRAMES_IN_FLIGHT {
            Some(self.slots[slot])
        } else {
            None
        }
    }

    /// Whether work submitted with the fence of `slot` may still be with the
    /// device.
    pub fn is_in_flight(&self, slot: usize) -> (busy: bool)
        ensures
            busy == (slot < MAX_FRAMES_IN_FLIGHT && self@.in_flight(slot as int)),
    {
        proof {
            use_type_invariant(self);
        }
        if slot < MAX_FRAMES_IN_FLIGHT {
            match self.slots[slot] {
                SlotState::InFlight => true,
                _ => false,
            }
        } else {
            false
        }
    }

    /// The number of framebuffers.
    pub fn framebuffer_count(&self) -> (count: usize)
        ensures
            count == self@.framebuffers.len(),
    {
        match &self.swapchain {
            Some(chain) => chain.framebuffers.len(),
            None => 0,
        }
    }

    /// The number of images of the swapchain.
    pub fn image_count(&self) -> (count: usize)
        ensures
            count == self@.images.len(),
    {
        match &self.swapchain {
            Some(chain) => chain.images.len(),
            None => 0,
        }
    }
}

/// No handles.
fn no_handles() -> (targets: TargetResources)
    ensures
        targets == crate::orchestrator::no_targets(),
{
    TargetResources {
        color_image: ImageHandles { image: 0, image_view: 0, memory: 0 },
        depth_image: ImageHandles { image: 0, image_view: 0, memory: 0 },
        render_pass: 0,
        pipeline_layout: 0,
        pipeline: 0,
    }
}

/// The ring as it is made.
fn fresh_ring() -> (slots: Vec<SlotState>)
    ensures
        slots@ == fresh_slots(),
{
    let mut slots: Vec<SlotState> = Vec::new();
    let mut slot: usize = 0;
    while slot < MAX_FRAMES_IN_FLIGHT
        invariant
            slot <= MAX_FRAMES_IN_FLIGHT,
            slots@.len() == slot,
            forall|i: int| 0 <= i < slot ==> slots@[i] == SlotState::Signaled,
        decreases MAX_FRAMES_IN_FLIGHT - slot,
    {
        slots.push(SlotState::Signaled);
        slot += 1;
    }
    slots
}

/// The ring once the device has finished all work.
fn settle(slots: Vec<SlotState>) -> (calm: Vec<SlotState>)
    ensures
        calm@ == settled(slots@),
{
    let mut calm: Vec<SlotState> = Vec::new();
    let mut slot: usize = 0;
    while slot < slots.len()
        invariant
            slot <= slots@.len(),
            calm@.len() == slot,
            forall|i: int| 0 <= i < slot ==> calm@[i] == settled_slot(slots@[i]),
        decreases slots@.len() - slot,
    {
        match slots[slot] {
            SlotState::InFlight => calm.push(SlotState::Signaled),
            SlotState::Armed => calm.push(SlotState::Armed),
            SlotState::Signaled => calm.push(SlotState::Signaled),
        }
        slot += 1;
    }
    calm
}

/// Lists the objects that the handles name, in order.
fn push_all(doomed: &mut Vec<Doomed>, owner: Resource, kind: ObjectKind, handles: &Vec<u64>)
    ensures
        final(doomed)@ == old(doomed)@ + doomed_all(owner, kind, handles@),
{
    let ghost before = doomed@;
    let mut i: usize = 0;
    while i < handles.len()
        invariant
            i <= handles@.len(),
            doomed@.len() == before.len() + i,
            forall|j: int| 0 <= j < before.len() ==> doomed@[j] == before[j],
            forall|j: int|
                0 <= j < i ==> doomed@[before.len() + j] == (Doomed {
                    owner,
                    kind,
                    handle: handles@[j],
                }),
        decreases handles@.len() - i,
    {
        doomed.push(Doomed { owner, kind, handle: handles[i] });
        i += 1;
    }
}

/// Lists the three objects of an image in the order they are destroyed.
fn push_image(doomed: &mut Vec<Doomed>, owner: Resource, image: ImageHandles)
    ensures
        final(doomed)@ == old(doomed)@ + doomed_image(owner, image),
{
    doomed.push(Doomed { owner, kind: ObjectKind::ImageView, handle: image.image_view });
    doomed.push(Doomed { owner, kind: ObjectKind::Image, handle: image.image });
    doomed.push(Doomed { owner, kind: ObjectKind::Memory, handle: image.memory });
}

} // verus!
