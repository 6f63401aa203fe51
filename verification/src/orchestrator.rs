//! The frame loop as a state machine.
//!
//! The renderer is always waiting for exactly one thing that only the driver
//! or the window can do. `Phase` says what that is, `Action` says what the
//! caller is to do about it, and each completion that the caller reports
//! moves the machine on. This file holds the machine as mathematics: its
//! states, its transitions, the invariant that every transition keeps, and
//! what follows from the invariant.

use vstd::prelude::*;
use crate::color_image::{ColorImage, color_image_for};
use crate::commandpool::{CommandBufferAllocateInfo, CommandBufferLevel, Drawable};
use crate::constants::{
    EXTENT_UNDEFINED, RESULT_ERROR_OUT_OF_DATE, RESULT_SUBOPTIMAL, RESULT_SUCCESS,
    STAGE_COLOR_ATTACHMENT_OUTPUT,
};
use crate::depth_image::{DepthImage, depth_image_for};
use crate::device::QueueFamilyIndices;
use crate::error::RenderError;
use crate::pipeline::{PipelineInfo, pipeline_info_for};
use crate::render_pass::{RenderPass, render_pass_for};
use crate::resource::{Resource, teardown_order};
use crate::swapchain::{
    Extent2D, SurfaceCapabilities, SurfaceFormat, SwapChainSupportDetail, SwapchainConfig,
    negotiated,
};
use crate::sync_object::{MAX_FRAMES_IN_FLIGHT, next_slot};

verus! {

/// The handles of an image, a view of it and the memory behind it.
#[derive(Clone, Copy, Debug, PartialEq, Eq, Structural)]
pub struct ImageHandles {
    pub image: u64,
    pub image_view: u64,
    pub memory: u64,
}

/// The handles of what is built once for each swapchain, beside the chain
/// itself and the lists that have one entry for each of its images.
#[derive(Clone, Copy, Debug, PartialEq, Eq, Structural)]
pub struct TargetResources {
    pub color_image: ImageHandles,
    pub depth_image: ImageHandles,
    pub render_pass: u64,
    pub pipeline_layout: u64,
    pub pipeline: u64,
}

/// What is decided once, when the device is chosen, and holds for every
/// swapchain after that.
#[derive(Clone, Copy, Debug, PartialEq, Eq)]
pub struct Profile {
    pub msaa_samples: u32,
    pub depth_format: i32,
    pub families: QueueFamilyIndices,
    pub push_constant_size: u32,
    /// The command pool that the renderer's command buffers come from.
    pub command_pool: u64,
    /// The queue family that the pool was made for.
    pub command_queue_family: u32,
}

/// What the renderer is waiting for.
#[derive(Clone, Copy, Debug, PartialEq, Eq, Structural)]
pub enum Phase {
    /// For what the surface supports and how large the window is.
    AwaitingSurface,
    /// For the swapchain, its images and their views.
    CreatingSwapchain,
    /// For the colour and the depth target.
    CreatingAttachments,
    /// For the render pass.
    CreatingRenderPass,
    /// For the framebuffers.
    CreatingFramebuffers,
    /// For the pipeline and its layout.
    CreatingPipeline,
    /// For the command buffers.
    AllocatingCommandBuffers,
    /// For the commands to be recorded.
    Recording,
    /// For a frame to begin: for the fence of the current slot, or, where
    /// that fence is armed already, for the next image, or, where the
    /// targets are out of date, for the device to fall idle.
    Ready,
    /// For the fence of the current slot to be reset.
    ResettingFence,
    /// For the next image of the swapchain.
    Acquiring,
    /// For this frame's uniform data to be written.
    UpdatingUniforms { image: u32 },
    /// For the frame's commands to be submitted.
    Submitting { image: u32 },
    /// For the image to be handed to the presentation engine.
    Presenting { image: u32 },
    /// For the device to fall idle before the targets are rebuilt.
    Idling,
    /// For the old targets to be destroyed.
    TearingDown,
    /// For the device to fall idle before everything is destroyed.
    Closing,
    /// For everything to be destroyed.
    Destroying,
    /// For nothing: everything has been destroyed.
    Destroyed,
    /// For nothing: the renderer has failed.
    Failed(RenderError),
}

/// What is known of the fence of a slot.
#[derive(Clone, Copy, Debug, PartialEq, Eq, Structural)]
pub enum SlotState {
    /// The fence is signalled: nothing that was submitted with it is still
    /// with the device.
    Signaled,
    /// The fence has been reset, and nothing has been submitted with it
    /// since.
    Armed,
    /// Work that was submitted with the fence may still be with the device.
    InFlight,
}

/// One submission of a frame's commands. The command buffer belongs to the
/// image; the semaphores and the fence belong to the slot.
#[derive(Clone, Copy, Debug, PartialEq, Eq, Structural)]
pub struct Submission {
    pub image: u32,
    pub command_buffer: u64,
    pub wait_semaphore: usize,
    pub wait_stage: u32,
    pub signal_semaphore: usize,
    pub fence: usize,
}

/// What the caller is to do next.
#[derive(Clone, Copy, Debug, PartialEq, Eq, Structural)]
pub enum Action {
    /// Ask the surface what it supports and the window how large it is.
    QuerySurface,
    /// Create the swapchain, fetch its images and make a view of each.
    CreateSwapchain(SwapchainConfig),
    /// Create the colour and the depth target.
    CreateAttachments { color_image: ColorImage, depth_image: DepthImage },
    /// Create the render pass.
    CreateRenderPass(RenderPass),
    /// Create the framebuffers that `create_framebuffers` lists.
    CreateFramebuffers,
    /// Create the pipeline and its layout.
    CreatePipeline(PipelineInfo),
    /// Allocate the command buffers, all in one call.
    AllocateCommandBuffers(CommandBufferAllocateInfo),
    /// Record into each command buffer what `record` lists for it.
    Record,
    /// Block until the fence of the slot is signalled.
    WaitForFence { slot: usize },
    /// Reset the fence of the slot.
    ResetFence { slot: usize },
    /// Acquire the next image; the device signals the slot's first semaphore
    /// when the image can be drawn to.
    AcquireNextImage { slot: usize },
    /// Write this frame's uniform data.
    UpdateUniforms { image: u32 },
    /// Submit the image's command buffer.
    Submit(Submission),
    /// Present the image once the slot's second semaphore is signalled.
    Present { image: u32, wait_semaphore: usize },
    /// Block until the device has finished all work.
    WaitDeviceIdle,
    /// Destroy what `cleanup_swapchain` lists.
    CleanupSwapchain,
    /// Destroy everything, in the order that `destroy` gives.
    Destroy,
    /// Nothing is left to do.
    Rest,
    /// Give up and report the failure.
    Abort(RenderError),
}

/// A completion that the caller reports while a frame is drawn.
#[derive(Clone, Copy, Debug, PartialEq, Eq, Structural)]
pub enum FrameEvent {
    /// The fence of the current slot is signalled.
    FenceSignaled,
    /// The fence was reset.
    FenceReset,
    /// An image was acquired. `suboptimal` says that the swapchain still
    /// works but no longer matches the surface.
    ImageAcquired { image: u32, suboptimal: bool },
    /// No image was acquired: the swapchain no longer fits the surface.
    SwapchainStale,
    /// The uniform data was written.
    UniformsUpdated,
    /// The commands were submitted.
    Submitted,
    /// The image was queued for presentation. `stale` says that the
    /// swapchain no longer matches the surface.
    Presented { stale: bool },
}

/// What the result of an acquisition means. A swapchain that is out of date
/// hands out no image; one that is merely suboptimal does, and is rebuilt
/// after the frame. Any other failure is fatal.
pub open spec fn acquired(result: i32, image: u32) -> Result<FrameEvent, RenderError> {
    if result == RESULT_SUCCESS {
        Ok(FrameEvent::ImageAcquired { image, suboptimal: false })
    } else if result == RESULT_SUBOPTIMAL {
        Ok(FrameEvent::ImageAcquired { image, suboptimal: true })
    } else if result == RESULT_ERROR_OUT_OF_DATE {
        Ok(FrameEvent::SwapchainStale)
    } else {
        Err(RenderError::AcquireFailed)
    }
}

/// What the result of a presentation means. A swapchain that is out of
/// date and one that is suboptimal are treated alike: the image was handed
/// over, and the targets are rebuilt before the next frame. Any other
/// failure is fatal.
pub open spec fn presented(result: i32) -> Result<FrameEvent, RenderError> {
    if result == RESULT_SUCCESS {
        Ok(FrameEvent::Presented { stale: false })
    } else if result == RESULT_SUBOPTIMAL || result == RESULT_ERROR_OUT_OF_DATE {
        Ok(FrameEvent::Presented { stale: true })
    } else {
        Err(RenderError::PresentFailed)
    }
}

impl FrameEvent {
    /// Reads the result code of an acquisition and the image index that came
    /// with it.
    pub fn from_acquire(result: i32, image: u32) -> (event: Result<FrameEvent, RenderError>)
        ensures
            event == acquired(result, image),
    {
        if result == RESULT_SUCCESS {
            Ok(FrameEvent::ImageAcquired { image, suboptimal: false })
        } else if result == RESULT_SUBOPTIMAL {
            Ok(FrameEvent::ImageAcquired { image, suboptimal: true })
        } else if result == RESULT_ERROR_OUT_OF_DATE {
            Ok(FrameEvent::SwapchainStale)
        } else {
            Err(RenderError::AcquireFailed)
        }
    }

    /// Reads the result code of a presentation.
    pub fn from_present(result: i32) -> (event: Result<FrameEvent, RenderError>)
        ensures
            event == presented(result),
    {
        if result == RESULT_SUCCESS {
            Ok(FrameEvent::Presented { stale: false })
        } else if result == RESULT_SUBOPTIMAL || result == RESULT_ERROR_OUT_OF_DATE {
            Ok(FrameEvent::Presented { stale: true })
        } else {
            Err(RenderError::PresentFailed)
        }
    }
}

/// Whether the targets can be drawn to.
#[derive(Clone, Copy, Debug, PartialEq, Eq, Structural)]
pub enum TargetState {
    /// Not built yet.
    Unbuilt,
    /// Built for the surface as it is.
    Valid,
    /// Built, but the surface has changed since.
    Invalidated,
    /// Being destroyed and built again.
    Rebuilding,
    /// Out of use for good.
    Retired,
}

/// The renderer's state.
pub struct RendererView {
    pub phase: Phase,
    pub profile: Profile,
    pub set_layouts: Seq<u64>,
    pub drawables: Seq<Drawable>,
    pub config: Option<SwapchainConfig>,
    pub swapchain: u64,
    pub images: Seq<u64>,
    pub imageviews: Seq<u64>,
    pub framebuffers: Seq<u64>,
    pub command_buffers: Seq<u64>,
    pub targets: TargetResources,
    /// What is known of the fence of each slot.
    pub slots: Seq<SlotState>,
    pub current_frame: nat,
    pub resized: bool,
    pub generation: nat,
}

/// No handle.
pub open spec fn no_image() -> ImageHandles {
    ImageHandles { image: 0, image_view: 0, memory: 0 }
}

/// No handles.
pub open spec fn no_targets() -> TargetResources {
    TargetResources {
        color_image: no_image(),
        depth_image: no_image(),
        render_pass: 0,
        pipeline_layout: 0,
        pipeline: 0,
    }
}

/// The ring as it is made: every fence is created signalled.
pub open spec fn fresh_slots() -> Seq<SlotState> {
    Seq::new(MAX_FRAMES_IN_FLIGHT as nat, |slot: int| SlotState::Signaled)
}

/// What is known of a fence once the device has finished all work: a fence
/// that work was submitted with is signalled now, any other is as it was.
pub open spec fn settled_slot(slot: SlotState) -> SlotState {
    if slot == SlotState::InFlight {
        SlotState::Signaled
    } else {
        slot
    }
}

/// The ring once the device has finished all work.
pub open spec fn settled(slots: Seq<SlotState>) -> Seq<SlotState> {
    Seq::new(slots.len(), |slot: int| settled_slot(slots[slot]))
}

/// The image that a phase draws into, if it has acquired one.
pub open spec fn acquired_image(phase: Phase) -> Option<u32> {
    match phase {
        Phase::UpdatingUniforms { image } => Some(image),
        Phase::Submitting { image } => Some(image),
        Phase::Presenting { image } => Some(image),
        _ => None,
    }
}

impl RendererView {
    /// The state of a renderer that has built nothing yet.
    pub open spec fn initial(profile: Profile, set_layouts: Seq<u64>, drawables: Seq<Drawable>)
        -> RendererView {
        RendererView {
            phase: Phase::AwaitingSurface,
            profile,
            set_layouts,
            drawables,
            config: None,
            swapchain: 0,
            images: Seq::empty(),
            imageviews: Seq::empty(),
            framebuffers: Seq::empty(),
            command_buffers: Seq::empty(),
            targets: no_targets(),
            slots: fresh_slots(),
            current_frame: 0,
            resized: false,
            generation: 0,
        }
    }

    /// The renderer will do nothing more.
    pub open spec fn halted(self) -> bool {
        self.phase is Failed || self.phase == Phase::Destroyed
    }

    /// The same state, failed.
    pub open spec fn fail(self, error: RenderError) -> RendererView {
        RendererView { phase: Phase::Failed(error), ..self }
    }

    /// The extent of the swapchain.
    pub open spec fn extent(self) -> Extent2D
        recommends
            self.config is Some,
    {
        self.config->0.extent
    }

    /// The pixel format of the swapchain.
    pub open spec fn format(self) -> i32
        recommends
            self.config is Some,
    {
        self.config->0.format.format
    }

    /// Every list that has one entry for each swapchain image is complete.
    pub open spec fn built(self) -> bool {
        &&& self.config is Some
        &&& self.images.len() > 0
        &&& self.imageviews.len() == self.images.len()
        &&& self.framebuffers.len() == self.images.len()
        &&& self.command_buffers.len() == self.images.len()
    }

    /// Nothing that depends on the swapchain exists.
    pub open spec fn unbuilt(self) -> bool {
        &&& self.images.len() == 0
        &&& self.imageviews.len() == 0
        &&& self.framebuffers.len() == 0
        &&& self.command_buffers.len() == 0
    }

    /// Work that was submitted with the fence of `slot` may still be with
    /// the device.
    pub open spec fn in_flight(self, slot: int) -> bool {
        self.slots[slot] == SlotState::InFlight
    }

    /// No slot has work with the device.
    pub open spec fn idle(self) -> bool {
        forall|slot: int|
            0 <= slot < self.slots.len() ==> (#[trigger] self.slots[slot]) != SlotState::InFlight
    }

    /// The fence of the current slot.
    pub open spec fn fence(self) -> SlotState {
        self.slots[self.current_frame as int]
    }

    /// An image may be acquired now: the renderer is about to, or a frame
    /// begins on a slot whose fence is armed already.
    pub open spec fn acquiring(self) -> bool {
        self.phase == Phase::Acquiring || (self.phase == Phase::Ready && !self.resized
            && self.fence() == SlotState::Armed)
    }

    /// What holds of every state that the renderer can be in.
    pub open spec fn wf(self) -> bool {
        &&& self.slots.len() == MAX_FRAMES_IN_FLIGHT
        &&& self.current_frame < MAX_FRAMES_IN_FLIGHT
        &&& self.imageviews.len() == self.images.len()
        &&& self.images.len() <= u32::MAX
        &&& (self.framebuffers.len() == 0 || self.framebuffers.len() == self.images.len())
        &&& (self.command_buffers.len() == 0 || self.command_buffers.len() == self.images.len())
        &&& self.generation <= u64::MAX
        &&& match self.phase {
            Phase::AwaitingSurface => self.config is None && self.unbuilt(),
            Phase::CreatingSwapchain => self.config is Some && self.unbuilt(),
            Phase::CreatingAttachments | Phase::CreatingRenderPass | Phase::CreatingFramebuffers => {
                &&& self.config is Some
                &&& self.images.len() > 0
                &&& self.framebuffers.len() == 0
                &&& self.command_buffers.len() == 0
            },
            Phase::CreatingPipeline | Phase::AllocatingCommandBuffers => {
                &&& self.config is Some
                &&& self.images.len() > 0
                &&& self.framebuffers.len() == self.images.len()
                &&& self.command_buffers.len() == 0
            },
            Phase::Recording | Phase::Ready | Phase::Idling | Phase::Closing => self.built(),
            Phase::ResettingFence => self.built() && self.fence() == SlotState::Signaled,
            Phase::Acquiring => self.built() && self.fence() == SlotState::Armed,
            Phase::UpdatingUniforms { image } | Phase::Submitting { image } => {
                &&& self.built()
                &&& self.fence() == SlotState::Armed
                &&& image < self.images.len()
            },
            Phase::Presenting { image } => {
                &&& self.built()
                &&& self.fence() == SlotState::InFlight
                &&& image < self.images.len()
            },
            Phase::TearingDown | Phase::Destroying => self.built() && self.idle(),
            Phase::Destroyed | Phase::Failed(_) => true,
        }
    }

    /// Whether the targets can be drawn to.
    pub open spec fn target_state(self) -> TargetState {
        match self.phase {
            Phase::Ready
            | Phase::ResettingFence
            | Phase::Acquiring
            | Phase::UpdatingUniforms { .. }
            | Phase::Submitting { .. }
            | Phase::Presenting { .. } => if self.resized {
                TargetState::Invalidated
            } else {
                TargetState::Valid
            },
            Phase::Idling | Phase::TearingDown => TargetState::Rebuilding,
            Phase::AwaitingSurface
            | Phase::CreatingSwapchain
            | Phase::CreatingAttachments
            | Phase::CreatingRenderPass
            | Phase::CreatingFramebuffers
            | Phase::CreatingPipeline
            | Phase::AllocatingCommandBuffers
            | Phase::Recording => if self.generation == 0 {
                TargetState::Unbuilt
            } else {
                TargetState::Rebuilding
            },
            Phase::Closing | Phase::Destroying | Phase::Destroyed | Phase::Failed(_) =>
                TargetState::Retired,
        }
    }

    /// What the caller is to do next.
    pub open spec fn action(self) -> Action {
        match self.phase {
            Phase::AwaitingSurface => Action::QuerySurface,
            Phase::CreatingSwapchain => Action::CreateSwapchain(self.config->0),
            Phase::CreatingAttachments => Action::CreateAttachments {
                color_image: color_image_for(
                    self.format(),
                    self.extent(),
                    self.profile.msaa_samples,
                ),
                depth_image: depth_image_for(
                    self.profile.depth_format,
                    self.extent(),
                    self.profile.msaa_samples,
                ),
            },
            Phase::CreatingRenderPass => Action::CreateRenderPass(
                render_pass_for(
                    self.format(),
                    self.profile.depth_format,
                    self.profile.msaa_samples,
                ),
            ),
            Phase::CreatingFramebuffers => Action::CreateFramebuffers,
            Phase::CreatingPipeline => Action::CreatePipeline(
                pipeline_info_for(
                    self.targets.render_pass,
                    self.extent(),
                    self.profile.push_constant_size,
                    self.profile.msaa_samples,
                ),
            ),
            Phase::AllocatingCommandBuffers => Action::AllocateCommandBuffers(
                CommandBufferAllocateInfo {
                    command_pool: self.profile.command_pool,
                    level: CommandBufferLevel::Primary,
                    command_buffer_count: self.framebuffers.len() as u32,
                },
            ),
            Phase::Recording => Action::Record,
            Phase::Ready => if self.resized {
                Action::WaitDeviceIdle
            } else if self.fence() == SlotState::Armed {
                Action::AcquireNextImage { slot: self.current_frame as usize }
            } else {
                Action::WaitForFence { slot: self.current_frame as usize }
            },
            Phase::ResettingFence => Action::ResetFence { slot: self.current_frame as usize },
            Phase::Acquiring => Action::AcquireNextImage { slot: self.current_frame as usize },
            Phase::UpdatingUniforms { image } => Action::UpdateUniforms { image },
            Phase::Submitting { image } => Action::Submit(
                Submission {
                    image,
                    command_buffer: self.command_buffers[image as int],
                    wait_semaphore: self.current_frame as usize,
                    wait_stage: STAGE_COLOR_ATTACHMENT_OUTPUT,
                    signal_semaphore: self.current_frame as usize,
                    fence: self.current_frame as usize,
                },
            ),
            Phase::Presenting { image } => Action::Present {
                image,
                wait_semaphore: self.current_frame as usize,
            },
            Phase::Idling | Phase::Closing => Action::WaitDeviceIdle,
            Phase::TearingDown => Action::CleanupSwapchain,
            Phase::Destroying => Action::Destroy,
            Phase::Destroyed => Action::Rest,
            Phase::Failed(error) => Action::Abort(error),
        }
    }

    /// The state after a completion was reported while a frame is drawn.
    /// A completion that the renderer was not waiting for makes it fail.
    pub open spec fn draw(self, event: FrameEvent) -> RendererView {
        if self.halted() {
            self
        } else {
            match event {
                FrameEvent::FenceSignaled => if self.phase == Phase::Ready && !self.resized
                    && self.fence() != SlotState::Armed {
                    RendererView {
                        phase: Phase::ResettingFence,
                        slots: self.slots.update(self.current_frame as int, SlotState::Signaled),
                        ..self
                    }
                } else {
                    self.fail(RenderError::UnexpectedEvent)
                },
                FrameEvent::FenceReset => if self.phase == Phase::ResettingFence {
                    RendererView {
                        phase: Phase::Acquiring,
                        slots: self.slots.update(self.current_frame as int, SlotState::Armed),
                        ..self
                    }
                } else {
                    self.fail(RenderError::UnexpectedEvent)
                },
                FrameEvent::ImageAcquired { image, suboptimal } => if !self.acquiring() {
                    self.fail(RenderError::UnexpectedEvent)
                } else if image < self.images.len() {
                    RendererView {
                        phase: Phase::UpdatingUniforms { image },
                        resized: self.resized || suboptimal,
                        ..self
                    }
                } else {
                    self.fail(RenderError::ImageIndexOutOfRange)
                },
                FrameEvent::SwapchainStale => if self.acquiring() {
                    RendererView { phase: Phase::Idling, ..self }
                } else {
                    self.fail(RenderError::UnexpectedEvent)
                },
                FrameEvent::UniformsUpdated => match self.phase {
                    Phase::UpdatingUniforms { image } => RendererView {
                        phase: Phase::Submitting { image },
                        ..self
                    },
                    _ => self.fail(RenderError::UnexpectedEvent),
                },
                FrameEvent::Submitted => match self.phase {
                    Phase::Submitting { image } => RendererView {
                        phase: Phase::Presenting { image },
                        slots: self.slots.update(self.current_frame as int, SlotState::InFlight),
                        ..self
                    },
                    _ => self.fail(RenderError::UnexpectedEvent),
                },
                FrameEvent::Presented { stale } => match self.phase {
                    Phase::Presenting { image } => RendererView {
                        phase: Phase::Ready,
                        resized: self.resized || stale,
                        current_frame: next_slot(self.current_frame),
                        ..self
                    },
                    _ => self.fail(RenderError::UnexpectedEvent),
                },
            }
        }
    }

    /// The state after the window said that its size has changed.
    pub open spec fn resize_framebuffer(self) -> RendererView {
        if self.halted() {
            self
        } else {
            RendererView { resized: true, ..self }
        }
    }

    /// The state after the window asked to be closed.
    pub open spec fn close(self) -> RendererView {
        if self.halted() {
            self
        } else if self.phase == Phase::Ready {
            RendererView { phase: Phase::Closing, ..self }
        } else {
            self.fail(RenderError::UnexpectedEvent)
        }
    }

    /// The state after the device fell idle.
    pub open spec fn device_idle(self) -> RendererView {
        if self.halted() {
            self
        } else if self.phase == Phase::Idling || (self.phase == Phase::Ready && self.resized) {
            RendererView {
                phase: Phase::TearingDown,
                slots: settled(self.slots),
                resized: false,
                ..self
            }
        } else if self.phase == Phase::Closing {
            RendererView { phase: Phase::Destroying, slots: settled(self.slots), ..self }
        } else {
            self.fail(RenderError::UnexpectedEvent)
        }
    }

    /// The state without anything that depends on the swapchain.
    pub open spec fn cleared(self) -> RendererView {
        RendererView {
            config: None,
            swapchain: 0,
            images: Seq::empty(),
            imageviews: Seq::empty(),
            framebuffers: Seq::empty(),
            command_buffers: Seq::empty(),
            targets: no_targets(),
            ..self
        }
    }

    /// The state after the old targets were destroyed.
    pub open spec fn torn_down(self) -> RendererView {
        if self.halted() {
            self
        } else if self.phase == Phase::TearingDown {
            RendererView { phase: Phase::AwaitingSurface, ..self.cleared() }
        } else {
            self.fail(RenderError::UnexpectedEvent)
        }
    }

    /// The state after everything was destroyed.
    pub open spec fn destroyed(self) -> RendererView {
        if self.halted() {
            self
        } else if self.phase == Phase::Destroying {
            RendererView { phase: Phase::Destroyed, ..self.cleared() }
        } else {
            self.fail(RenderError::UnexpectedEvent)
        }
    }

    /// The state after the surface said what it supports and the window how
    /// large it is.
    pub open spec fn surface_queried(
        self,
        capabilities: SurfaceCapabilities,
        formats: Seq<SurfaceFormat>,
        present_modes: Seq<i32>,
        size: Extent2D,
    ) -> RendererView {
        if self.halted() {
            self
        } else if self.phase == Phase::AwaitingSurface {
            match negotiated(capabilities, formats, present_modes, size, self.profile.families) {
                Ok(config) => RendererView {
                    phase: Phase::CreatingSwapchain,
                    config: Some(config),
                    ..self
                },
                Err(error) => self.fail(error),
            }
        } else {
            self.fail(RenderError::UnexpectedEvent)
        }
    }

    /// Whether the images that the driver made can be taken.
    pub open spec fn accepts_images(self, images: Seq<u64>, imageviews: Seq<u64>) -> bool {
        &&& images.len() > 0
        &&& images.len() >= self.config->0.min_image_count
        &&& images.len() <= u32::MAX
        &&& imageviews.len() == images.len()
    }

    /// The count of swapchains made, after one more.
    pub open spec fn next_generation(self) -> nat {
        if self.generation < u64::MAX {
            self.generation + 1
        } else {
            self.generation
        }
    }

    /// The state after the swapchain was created.
    pub open spec fn swapchain_created(self, swapchain: u64, images: Seq<u64>, imageviews: Seq<u64>)
        -> RendererView {
        if self.halted() {
            self
        } else if self.phase == Phase::CreatingSwapchain {
            if self.accepts_images(images, imageviews) {
                RendererView {
                    phase: Phase::CreatingAttachments,
                    swapchain,
                    images,
                    imageviews,
                    generation: self.next_generation(),
                    ..self
                }
            } else {
                self.fail(RenderError::ResourceCountMismatch)
            }
        } else {
            self.fail(RenderError::UnexpectedEvent)
        }
    }

    /// The state after the colour and the depth target were created.
    pub open spec fn attachments_created(self, color_image: ImageHandles, depth_image: ImageHandles)
        -> RendererView {
        if self.halted() {
            self
        } else if self.phase == Phase::CreatingAttachments {
            RendererView {
                phase: Phase::CreatingRenderPass,
                targets: TargetResources { color_image, depth_image, ..self.targets },
                ..self
            }
        } else {
            self.fail(RenderError::UnexpectedEvent)
        }
    }

    /// The state after the render pass was created.
    pub open spec fn render_pass_created(self, render_pass: u64) -> RendererView {
        if self.halted() {
            self
        } else if self.phase == Phase::CreatingRenderPass {
            RendererView {
                phase: Phase::CreatingFramebuffers,
                targets: TargetResources { render_pass, ..self.targets },
                ..self
            }
        } else {
            self.fail(RenderError::UnexpectedEvent)
        }
    }

    /// The state after the framebuffers were created.
    pub open spec fn framebuffers_created(self, framebuffers: Seq<u64>) -> RendererView {
        if self.halted() {
            self
        } else if self.phase == Phase::CreatingFramebuffers {
            if framebuffers.len() == self.imageviews.len() {
                RendererView { phase: Phase::CreatingPipeline, framebuffers, ..self }
            } else {
                self.fail(RenderError::ResourceCountMismatch)
            }
        } else {
            self.fail(RenderError::UnexpectedEvent)
        }
    }

    /// The state after the pipeline and its layout were created.
    pub open spec fn pipeline_created(self, layout: u64, pipeline: u64) -> RendererView {
        if self.halted() {
            self
        } else if self.phase == Phase::CreatingPipeline {
            RendererView {
                phase: Phase::AllocatingCommandBuffers,
                targets: TargetResources { pipeline_layout: layout, pipeline, ..self.targets },
                ..self
            }
        } else {
            self.fail(RenderError::UnexpectedEvent)
        }
    }

    /// The state after the command buffers were allocated.
    pub open spec fn command_buffers_allocated(self, buffers: Seq<u64>) -> RendererView {
        if self.halted() {
            self
        } else if self.phase == Phase::AllocatingCommandBuffers {
            if buffers.len() == self.framebuffers.len() {
                RendererView { phase: Phase::Recording, command_buffers: buffers, ..self }
            } else {
                self.fail(RenderError::ResourceCountMismatch)
            }
        } else {
            self.fail(RenderError::UnexpectedEvent)
        }
    }

    /// The state after the commands were recorded.
    pub open spec fn recorded(self) -> RendererView {
        if self.halted() {
            self
        } else if self.phase == Phase::Recording {
            RendererView { phase: Phase::Ready, ..self }
        } else {
            self.fail(RenderError::UnexpectedEvent)
        }
    }
}

/// A completion that the caller reports while the targets are destroyed and
/// built.
pub enum RebuildEvent {
    /// The device has finished all work.
    DeviceIdle,
    /// The old targets are destroyed.
    TornDown,
    /// What the surface supports, and the size of the window.
    SurfaceQueried { support: SwapChainSupportDetail, size: Extent2D },
    /// The swapchain, its images in order, and a view of each.
    SwapchainCreated { swapchain: u64, images: Vec<u64>, imageviews: Vec<u64> },
    /// The colour and the depth target.
    AttachmentsCreated { color_image: ImageHandles, depth_image: ImageHandles },
    /// The render pass.
    RenderPassCreated { render_pass: u64 },
    /// The framebuffers, in the order of the image views.
    FramebuffersCreated { framebuffers: Vec<u64> },
    /// The pipeline and its layout.
    PipelineCreated { layout: u64, pipeline: u64 },
    /// The command buffers, in the order of the framebuffers.
    CommandBuffersAllocated { buffers: Vec<u64> },
    /// The commands are recorded.
    Recorded,
}

/// The state after a completion was reported while the targets are destroyed
/// and built. A completion that the renderer was not waiting for makes it
/// fail.
pub open spec fn rebuild_step(state: RendererView, event: RebuildEvent) -> RendererView {
    match event {
        RebuildEvent::DeviceIdle => state.device_idle(),
        RebuildEvent::TornDown => state.torn_down(),
        RebuildEvent::SurfaceQueried { support, size } => state.surface_queried(
            support.capabilities,
            support.formats@,
            support.present_modes@,
            size,
        ),
        RebuildEvent::SwapchainCreated { swapchain, images, imageviews } => state.swapchain_created(
            swapchain,
            images@,
            imageviews@,
        ),
        RebuildEvent::AttachmentsCreated { color_image, depth_image } => state.attachments_created(
            color_image,
            depth_image,
        ),
        RebuildEvent::RenderPassCreated { render_pass } => state.render_pass_created(render_pass),
        RebuildEvent::FramebuffersCreated { framebuffers } => state.framebuffers_created(
            framebuffers@,
        ),
        RebuildEvent::PipelineCreated { layout, pipeline } => state.pipeline_created(
            layout,
            pipeline,
        ),
        RebuildEvent::CommandBuffersAllocated { buffers } => state.command_buffers_allocated(
            buffers@,
        ),
        RebuildEvent::Recorded => state.recorded(),
    }
}

/// What sort of object a handle names.
#[derive(Clone, Copy, Debug, PartialEq, Eq, Structural)]
pub enum ObjectKind {
    CommandBuffer,
    Framebuffer,
    Pipeline,
    PipelineLayout,
    RenderPass,
    ImageView,
    Image,
    Memory,
    Swapchain,
}

/// One object to destroy.
#[derive(Clone, Copy, Debug, PartialEq, Eq, Structural)]
pub struct Doomed {
    /// The kind of resource that the object is part of.
    pub owner: Resource,
    pub kind: ObjectKind,
    pub handle: u64,
}

/// The objects that the handles name, in order.
pub open spec fn doomed_all(owner: Resource, kind: ObjectKind, handles: Seq<u64>) -> Seq<Doomed> {
    Seq::new(handles.len(), |i: int| Doomed { owner, kind, handle: handles[i] })
}

/// The three objects of an image, in the order they are destroyed.
pub open spec fn doomed_image(owner: Resource, image: ImageHandles) -> Seq<Doomed> {
    seq![
        Doomed { owner, kind: ObjectKind::ImageView, handle: image.image_view },
        Doomed { owner, kind: ObjectKind::Image, handle: image.image },
        Doomed { owner, kind: ObjectKind::Memory, handle: image.memory },
    ]
}

/// Where a kind of resource stands in the order of teardown, or six for a
/// kind that a teardown leaves alone.
pub open spec fn teardown_rank(resource: Resource) -> int {
    match resource {
        Resource::CommandBuffers => 0,
        Resource::Framebuffers => 1,
        Resource::Pipeline => 2,
        Resource::RenderPass => 3,
        Resource::Attachments => 4,
        Resource::Swapchain => 5,
        _ => 6,
    }
}

impl RendererView {
    /// Every object that depends on the swapchain, in the order of teardown:
    /// the command buffers, the framebuffers, the pipeline and its layout,
    /// the render pass, the depth and the colour target, the image views and
    /// the swapchain.
    pub open spec fn teardown_list(self) -> Seq<Doomed> {
        doomed_all(Resource::CommandBuffers, ObjectKind::CommandBuffer, self.command_buffers)
            + doomed_all(Resource::Framebuffers, ObjectKind::Framebuffer, self.framebuffers)
            + seq![
            Doomed {
                owner: Resource::Pipeline,
                kind: ObjectKind::Pipeline,
                handle: self.targets.pipeline,
            },
            Doomed {
                owner: Resource::Pipeline,
                kind: ObjectKind::PipelineLayout,
                handle: self.targets.pipeline_layout,
            },
            Doomed {
                owner: Resource::RenderPass,
                kind: ObjectKind::RenderPass,
                handle: self.targets.render_pass,
            },
        ] + doomed_image(Resource::Attachments, self.targets.depth_image) + doomed_image(
            Resource::Attachments,
            self.targets.color_image,
        ) + doomed_all(Resource::Swapchain, ObjectKind::ImageView, self.imageviews) + seq![
            Doomed { owner: Resource::Swapchain, kind: ObjectKind::Swapchain, handle: self.swapchain },
        ]
    }

    /// What is to be destroyed now: everything that depends on the
    /// swapchain while the renderer waits for just that, and nothing at any
    /// other time.
    pub open spec fn cleanup_list(self) -> Seq<Doomed> {
        if self.phase == Phase::TearingDown || self.phase == Phase::Destroying {
            self.teardown_list()
        } else {
            Seq::empty()
        }
    }
}

/// Anything that the caller can report to the renderer.
pub enum Report {
    /// A completion while a frame is drawn.
    Frame(FrameEvent),
    /// A completion while the targets are destroyed and built.
    Rebuild(RebuildEvent),
    /// The window's size has changed.
    Resized,
    /// The window is to be closed.
    CloseRequested,
    /// Everything is destroyed.
    Destroyed,
}

impl RendererView {
    /// The state after one report.
    pub open spec fn reported(self, report: Report) -> RendererView {
        match report {
            Report::Frame(event) => self.draw(event),
            Report::Rebuild(event) => rebuild_step(self, event),
            Report::Resized => self.resize_framebuffer(),
            Report::CloseRequested => self.close(),
            Report::Destroyed => self.destroyed(),
        }
    }

    /// The state after a run of reports, in order.
    pub open spec fn run(self, reports: Seq<Report>) -> RendererView
        decreases reports.len(),
    {
        if reports.len() == 0 {
            self
        } else {
            self.run(reports.drop_last()).reported(reports.last())
        }
    }
}

/// Whatever is reported to the renderer, in whatever order, the invariant
/// holds of the state it is in: every state that a renderer can reach keeps
/// its slot inside the ring, its image index inside the swapchain's images,
/// its lists of one length, and its objects alive while work is in flight.
pub proof fn lemma_every_run_keeps_invariant(state: RendererView, reports: Seq<Report>)
    requires
        state.wf(),
    ensures
        state.run(reports).wf(),
    decreases reports.len(),
{
    if reports.len() > 0 {
        lemma_every_run_keeps_invariant(state, reports.drop_last());
    }
}

/// Once the renderer has failed or has destroyed everything, no report
/// changes its state again.
pub proof fn lemma_halted_state_is_final(state: RendererView, reports: Seq<Report>)
    requires
        state.halted(),
    ensures
        state.run(reports) == state,
    decreases reports.len(),
{
    if reports.len() > 0 {
        lemma_halted_state_is_final(state, reports.drop_last());
    }
}

/// What the driver and the window hand back in the course of one rebuild.
pub struct RebuildInputs {
    pub capabilities: SurfaceCapabilities,
    pub formats: Seq<SurfaceFormat>,
    pub present_modes: Seq<i32>,
    pub size: Extent2D,
    pub swapchain: u64,
    pub images: Seq<u64>,
    pub imageviews: Seq<u64>,
    pub color_image: ImageHandles,
    pub depth_image: ImageHandles,
    pub render_pass: u64,
    pub framebuffers: Seq<u64>,
    pub pipeline_layout: u64,
    pub pipeline: u64,
    pub command_buffers: Seq<u64>,
}

impl RendererView {
    /// The state after everything that depends on the swapchain was built
    /// from what the driver and the window handed back.
    pub open spec fn constructed(self, inputs: RebuildInputs) -> RendererView {
        self.surface_queried(
            inputs.capabilities,
            inputs.formats,
            inputs.present_modes,
            inputs.size,
        ).swapchain_created(inputs.swapchain, inputs.images, inputs.imageviews).attachments_created(
            inputs.color_image,
            inputs.depth_image,
        ).render_pass_created(inputs.render_pass).framebuffers_created(
            inputs.framebuffers,
        ).pipeline_created(inputs.pipeline_layout, inputs.pipeline).command_buffers_allocated(
            inputs.command_buffers,
        ).recorded()
    }

    /// The state after one whole rebuild: the device fell idle, the old
    /// targets were destroyed, and new ones were built.
    pub open spec fn rebuilt(self, inputs: RebuildInputs) -> RendererView {
        self.device_idle().torn_down().constructed(inputs)
    }
}

/// A renderer starts in a state that the invariant holds of.
pub proof fn lemma_initial_state(profile: Profile, set_layouts: Seq<u64>, drawables: Seq<Drawable>)
    ensures
        RendererView::initial(profile, set_layouts, drawables).wf(),
        RendererView::initial(profile, set_layouts, drawables).action() == Action::QuerySurface,
        RendererView::initial(profile, set_layouts, drawables).target_state()
            == TargetState::Unbuilt,
{
}

/// Whatever is reported while a frame is drawn, the invariant holds
/// afterwards.
pub proof fn lemma_draw_keeps_invariant(state: RendererView, event: FrameEvent)
    requires
        state.wf(),
    ensures
        state.draw(event).wf(),
{
}

/// Whatever the window reports, and whenever the device falls idle or a
/// teardown ends, the invariant holds afterwards.
pub proof fn lemma_interruptions_keep_invariant(state: RendererView)
    requires
        state.wf(),
    ensures
        state.resize_framebuffer().wf(),
        state.close().wf(),
        state.device_idle().wf(),
        state.torn_down().wf(),
        state.destroyed().wf(),
{
}

/// Whatever the driver hands back while the targets are built, the invariant
/// holds afterwards.
pub proof fn lemma_construction_keeps_invariant(state: RendererView, inputs: RebuildInputs)
    requires
        state.wf(),
    ensures
        state.surface_queried(
            inputs.capabilities,
            inputs.formats,
            inputs.present_modes,
            inputs.size,
        ).wf(),
        state.swapchain_created(inputs.swapchain, inputs.images, inputs.imageviews).wf(),
        state.attachments_created(inputs.color_image, inputs.depth_image).wf(),
        state.render_pass_created(inputs.render_pass).wf(),
        state.framebuffers_created(inputs.framebuffers).wf(),
        state.pipeline_created(inputs.pipeline_layout, inputs.pipeline).wf(),
        state.command_buffers_allocated(inputs.command_buffers).wf(),
        state.recorded().wf(),
{
}

/// The slot is always one of the ring. It moves on to the next slot when a
/// frame has been presented, and at no other time: a frame that is skipped
/// because no image could be acquired keeps its slot.
pub proof fn lemma_slot_advances_with_each_presented_frame(state: RendererView, event: FrameEvent)
    requires
        state.wf(),
    ensures
        state.current_frame < MAX_FRAMES_IN_FLIGHT,
        state.draw(event).current_frame == if state.phase is Presenting && event is Presented {
            next_slot(state.current_frame)
        } else {
            state.current_frame
        },
{
}

/// Commands are submitted only into a slot whose fence is armed, and with
/// that slot's own fence and semaphores.
pub proof fn lemma_fence_armed_before_submit(state: RendererView)
    requires
        state.wf(),
        state.action() is Submit,
    ensures
        state.fence() == SlotState::Armed,
        state.action()->Submit_0.fence == state.current_frame,
        state.action()->Submit_0.wait_semaphore == state.current_frame,
        state.action()->Submit_0.signal_semaphore == state.current_frame,
{
}

/// A fence is armed in one way only: it was reset after it had been waited
/// for. So before a slot's command buffer is used again, the fence of the
/// slot has been waited for.
pub proof fn lemma_only_a_reset_after_a_wait_arms_a_slot(
    state: RendererView,
    event: FrameEvent,
    slot: int,
)
    requires
        state.wf(),
        0 <= slot < MAX_FRAMES_IN_FLIGHT,
        state.slots[slot] != SlotState::Armed,
        state.draw(event).slots[slot] == SlotState::Armed,
    ensures
        state.phase == Phase::ResettingFence,
        event == FrameEvent::FenceReset,
        slot == state.current_frame,
        state.slots[slot] == SlotState::Signaled,
{
}

/// A fence is reset only after a wait for it has returned, and a wait is
/// asked for only where it can return: on a fence that is signalled, or
/// that work in flight will signal. A fence that is armed is never waited
/// for.
pub proof fn lemma_wait_can_return(state: RendererView, event: FrameEvent)
    requires
        state.wf(),
    ensures
        state.action() is WaitForFence ==> state.action()->WaitForFence_slot
            == state.current_frame && state.fence() != SlotState::Armed,
        state.action() is ResetFence ==> state.action()->ResetFence_slot == state.current_frame
            && state.fence() == SlotState::Signaled,
        state.draw(event).phase == Phase::ResettingFence ==> state.phase == Phase::Ready && event
            == FrameEvent::FenceSignaled,
{
}

/// While a frame is drawn, work leaves flight in one way only: the fence of
/// the current slot was waited for.
pub proof fn lemma_only_a_wait_frees_a_slot(state: RendererView, event: FrameEvent, slot: int)
    requires
        state.wf(),
        0 <= slot < MAX_FRAMES_IN_FLIGHT,
        state.in_flight(slot),
        !state.draw(event).in_flight(slot),
    ensures
        state.phase == Phase::Ready,
        event == FrameEvent::FenceSignaled,
        slot == state.current_frame,
{
}

/// While a frame is drawn, work enters flight in one way only: the commands
/// of the frame were submitted with the fence of the current slot. So a wait
/// for a slot's fence blocks only while a submission into that slot is still
/// with the device.
pub proof fn lemma_only_a_submission_occupies_a_slot(
    state: RendererView,
    event: FrameEvent,
    slot: int,
)
    requires
        state.wf(),
        0 <= slot < MAX_FRAMES_IN_FLIGHT,
        !state.in_flight(slot),
        state.draw(event).in_flight(slot),
    ensures
        state.phase is Submitting,
        event == FrameEvent::Submitted,
        slot == state.current_frame,
{
}

/// Once the targets are known to be out of date, no image is acquired
/// before they have been rebuilt: a frame cannot begin, and the next thing
/// asked for between two frames is that the device fall idle.
pub proof fn lemma_invalidated_targets_are_rebuilt_first(state: RendererView, event: FrameEvent)
    requires
        state.wf(),
        state.phase == Phase::Ready,
        state.resized,
    ensures
        state.action() == Action::WaitDeviceIdle,
        state.draw(event).phase == Phase::Failed(RenderError::UnexpectedEvent),
        state.device_idle().action() == Action::CleanupSwapchain,
{
}

/// An image index that the renderer holds, or hands out for a submission or
/// a presentation, is an index into the swapchain's images as they are now;
/// the command buffer submitted is the one of that image.
pub proof fn lemma_image_index_is_valid(state: RendererView)
    requires
        state.wf(),
    ensures
        acquired_image(state.phase) is Some ==> acquired_image(state.phase)->0
            < state.images.len(),
        state.action() is Submit ==> state.action()->Submit_0.image < state.images.len()
            && state.action()->Submit_0.command_buffer
            == state.command_buffers[state.action()->Submit_0.image as int],
        state.action() is Present ==> state.action()->Present_image < state.images.len(),
        state.action() is UpdateUniforms ==> state.action()->UpdateUniforms_image
            < state.images.len(),
{
}

/// An index beyond the swapchain's images is refused when it is reported.
pub proof fn lemma_image_index_is_checked(state: RendererView, image: u32, suboptimal: bool)
    requires
        state.wf(),
        state.acquiring(),
    ensures
        image >= state.images.len() ==> state.draw(
            FrameEvent::ImageAcquired { image, suboptimal },
        ).phase == Phase::Failed(RenderError::ImageIndexOutOfRange),
        image < state.images.len() ==> acquired_image(
            state.draw(FrameEvent::ImageAcquired { image, suboptimal }).phase,
        ) == Some(image),
{
}

/// Drawing a frame never changes the swapchain's images, and nothing but
/// drawing a frame leaves the renderer with an image index: after a rebuild
/// an index has to be acquired anew.
pub proof fn lemma_image_index_does_not_outlive_images(
    state: RendererView,
    event: FrameEvent,
    inputs: RebuildInputs,
)
    requires
        state.wf(),
    ensures
        state.draw(event).images == state.images,
        state.draw(event).command_buffers == state.command_buffers,
        acquired_image(state.resize_framebuffer().phase) == acquired_image(state.phase),
        state.resize_framebuffer().images == state.images,
        acquired_image(state.close().phase) is None,
        acquired_image(state.device_idle().phase) is None,
        acquired_image(state.torn_down().phase) is None,
        acquired_image(state.destroyed().phase) is None,
        acquired_image(
            state.surface_queried(
                inputs.capabilities,
                inputs.formats,
                inputs.present_modes,
                inputs.size,
            ).phase,
        ) is None,
        acquired_image(
            state.swapchain_created(inputs.swapchain, inputs.images, inputs.imageviews).phase,
        ) is None,
        acquired_image(state.attachments_created(inputs.color_image, inputs.depth_image).phase)
            is None,
        acquired_image(state.render_pass_created(inputs.render_pass).phase) is None,
        acquired_image(state.framebuffers_created(inputs.framebuffers).phase) is None,
        acquired_image(state.pipeline_created(inputs.pipeline_layout, inputs.pipeline).phase)
            is None,
        acquired_image(state.command_buffers_allocated(inputs.command_buffers).phase) is None,
        acquired_image(state.recorded().phase) is None,
{
}

/// Whenever the targets can be drawn to, there are as many command buffers
/// as framebuffers, as image views and as images.
pub proof fn lemma_lists_match_when_built(state: RendererView)
    requires
        state.wf(),
        state.target_state() == TargetState::Valid || state.target_state()
            == TargetState::Invalidated || state.phase == Phase::Recording,
    ensures
        state.command_buffers.len() == state.framebuffers.len(),
        state.framebuffers.len() == state.imageviews.len(),
        state.imageviews.len() == state.images.len(),
        state.images.len() > 0,
{
}

/// The command buffers are asked for in one call, as many as there are
/// framebuffers, primary, from the renderer's pool. What the driver hands
/// back is taken only where it has that number; it then is the renderer's
/// whole list, with nothing left of an earlier one, and the pool is the same
/// as before.
pub proof fn lemma_command_buffers_match_framebuffers(state: RendererView, buffers: Seq<u64>)
    requires
        state.wf(),
        state.phase == Phase::AllocatingCommandBuffers,
    ensures
        state.action() == Action::AllocateCommandBuffers(
            CommandBufferAllocateInfo {
                command_pool: state.profile.command_pool,
                level: CommandBufferLevel::Primary,
                command_buffer_count: state.framebuffers.len() as u32,
            },
        ),
        state.framebuffers.len() <= u32::MAX,
        state.command_buffers.len() == 0,
        buffers.len() == state.framebuffers.len() ==> state.command_buffers_allocated(
            buffers,
        ).command_buffers == buffers && state.command_buffers_allocated(buffers).phase
            == Phase::Recording,
        buffers.len() != state.framebuffers.len() ==> state.command_buffers_allocated(buffers)
            == state.fail(RenderError::ResourceCountMismatch),
        state.command_buffers_allocated(buffers).profile == state.profile,
{
}

/// Objects are destroyed only while no slot has work with the device.
pub proof fn lemma_destruction_needs_idle_device(state: RendererView)
    requires
        state.wf(),
        state.action() == Action::CleanupSwapchain || state.action() == Action::Destroy,
    ensures
        state.idle(),
{
}

/// The only way into a phase in which objects are destroyed is that the
/// device was reported idle.
pub proof fn lemma_only_idle_device_starts_destruction(
    state: RendererView,
    event: FrameEvent,
    inputs: RebuildInputs,
)
    requires
        state.wf(),
        state.phase != Phase::TearingDown,
        state.phase != Phase::Destroying,
    ensures
        state.draw(event).action() != Action::CleanupSwapchain,
        state.draw(event).action() != Action::Destroy,
        state.resize_framebuffer().action() != Action::CleanupSwapchain,
        state.resize_framebuffer().action() != Action::Destroy,
        state.close().action() != Action::CleanupSwapchain,
        state.close().action() != Action::Destroy,
        state.constructed(inputs).action() != Action::CleanupSwapchain,
        state.constructed(inputs).action() != Action::Destroy,
        state.torn_down().action() != Action::CleanupSwapchain,
        state.destroyed().action() != Action::Destroy,
{
}

impl RendererView {
    /// The state after one whole frame was drawn into `image`: the fence
    /// was waited for and reset, the image acquired, the uniform data
    /// written, the commands submitted and the image presented.
    pub open spec fn frame_drawn(self, image: u32, stale: bool) -> RendererView {
        self.draw(FrameEvent::FenceSignaled).draw(FrameEvent::FenceReset).draw(
            FrameEvent::ImageAcquired { image, suboptimal: false },
        ).draw(FrameEvent::UniformsUpdated).draw(FrameEvent::Submitted).draw(
            FrameEvent::Presented { stale },
        )
    }
}

/// A frame runs through its steps in one order: wait for the slot's fence,
/// reset it, acquire an image, write the uniform data, submit the image's
/// command buffer, present the image. The semaphores and the fence are
/// those of the slot, the command buffer is that of the image. Afterwards
/// the work of the frame is in flight on its slot, and the next slot is
/// current.
pub proof fn lemma_frame_runs_in_order(state: RendererView, image: u32, stale: bool)
    requires
        state.wf(),
        state.phase == Phase::Ready,
        !state.resized,
        state.fence() != SlotState::Armed,
        image < state.images.len(),
    ensures
        state.action() == (Action::WaitForFence { slot: state.current_frame as usize }),
        state.draw(FrameEvent::FenceSignaled).action() == (Action::ResetFence {
            slot: state.current_frame as usize,
        }),
        state.draw(FrameEvent::FenceSignaled).draw(FrameEvent::FenceReset).action()
            == (Action::AcquireNextImage { slot: state.current_frame as usize }),
        state.draw(FrameEvent::FenceSignaled).draw(FrameEvent::FenceReset).draw(
            FrameEvent::ImageAcquired { image, suboptimal: false },
        ).action() == (Action::UpdateUniforms { image }),
        state.draw(FrameEvent::FenceSignaled).draw(FrameEvent::FenceReset).draw(
            FrameEvent::ImageAcquired { image, suboptimal: false },
        ).draw(FrameEvent::UniformsUpdated).action() == Action::Submit(
            Submission {
                image,
                command_buffer: state.command_buffers[image as int],
                wait_semaphore: state.current_frame as usize,
                wait_stage: STAGE_COLOR_ATTACHMENT_OUTPUT,
                signal_semaphore: state.current_frame as usize,
                fence: state.current_frame as usize,
            },
        ),
        state.draw(FrameEvent::FenceSignaled).draw(FrameEvent::FenceReset).draw(
            FrameEvent::ImageAcquired { image, suboptimal: false },
        ).draw(FrameEvent::UniformsUpdated).draw(FrameEvent::Submitted).action()
            == (Action::Present { image, wait_semaphore: state.current_frame as usize }),
        state.frame_drawn(image, stale) == (RendererView {
            slots: state.slots.update(state.current_frame as int, SlotState::InFlight),
            current_frame: next_slot(state.current_frame),
            resized: stale,
            ..state
        }),
        state.frame_drawn(image, stale).wf(),
{
    let s1 = state.draw(FrameEvent::FenceSignaled);
    let s2 = s1.draw(FrameEvent::FenceReset);
    let s3 = s2.draw(FrameEvent::ImageAcquired { image, suboptimal: false });
    let s4 = s3.draw(FrameEvent::UniformsUpdated);
    let s5 = s4.draw(FrameEvent::Submitted);
    let s6 = s5.draw(FrameEvent::Presented { stale });
    assert(s6.slots =~= state.slots.update(state.current_frame as int, SlotState::InFlight));
}

/// Of two frames drawn one after the other, the second uses the other slot,
/// and the frame after them uses the slot of the first again: the slots
/// alternate.
pub proof fn lemma_slots_alternate(state: RendererView, first: u32, second: u32)
    requires
        state.wf(),
        state.phase == Phase::Ready,
        !state.resized,
        state.fence() != SlotState::Armed,
        state.slots[next_slot(state.current_frame) as int] != SlotState::Armed,
        first < state.images.len(),
        second < state.images.len(),
    ensures
        state.frame_drawn(first, false).current_frame != state.current_frame,
        state.frame_drawn(first, false).frame_drawn(second, false).current_frame
            == state.current_frame,
        state.frame_drawn(first, false).frame_drawn(second, false).phase == Phase::Ready,
        !state.frame_drawn(first, false).frame_drawn(second, false).idle(),
{
}

/// A frame for which no image could be acquired is skipped: the renderer
/// waits for the device to fall idle, then rebuilds, and neither submits nor
/// presents before that. The slot stays the same and its fence stays armed,
/// so the frame that follows the rebuild acquires without a second wait.
pub proof fn lemma_stale_acquire_skips_the_frame(state: RendererView)
    requires
        state.wf(),
        state.acquiring(),
    ensures
        state.draw(FrameEvent::SwapchainStale).phase == Phase::Idling,
        state.draw(FrameEvent::SwapchainStale).action() == Action::WaitDeviceIdle,
        state.draw(FrameEvent::SwapchainStale).device_idle().action() == Action::CleanupSwapchain,
        state.draw(FrameEvent::SwapchainStale).current_frame == state.current_frame,
        state.draw(FrameEvent::SwapchainStale).slots == state.slots,
        state.draw(FrameEvent::SwapchainStale).device_idle().fence() == SlotState::Armed,
{
}

/// A swapchain that was found out of date when an image was presented is
/// not rebuilt at once: the frame ends as usual, and the next frame starts
/// by waiting for the device to fall idle.
pub proof fn lemma_stale_present_defers_the_rebuild(state: RendererView)
    requires
        state.wf(),
        state.phase is Presenting,
    ensures
        state.draw(FrameEvent::Presented { stale: true }).phase == Phase::Ready,
        state.draw(FrameEvent::Presented { stale: true }).target_state()
            == TargetState::Invalidated,
        state.draw(FrameEvent::Presented { stale: true }).action() == Action::WaitDeviceIdle,
{
}

/// Whatever the surface and the window say their sizes are, the swapchain
/// that the renderer asks for has an extent within the surface's limits, and
/// so have the attachments, the viewport and the scissor that are made for
/// it. Where the least extent that the surface allows holds a pixel, none of
/// them is empty: a minimised window gets that least extent.
pub proof fn lemma_targets_are_within_limits(
    state: RendererView,
    capabilities: SurfaceCapabilities,
    formats: Seq<SurfaceFormat>,
    present_modes: Seq<i32>,
    size: Extent2D,
)
    requires
        state.wf(),
        state.surface_queried(capabilities, formats, present_modes, size).phase
            == Phase::CreatingSwapchain,
    ensures
        state.surface_queried(capabilities, formats, present_modes, size).action()
            is CreateSwapchain,
        capabilities.admits(
            state.surface_queried(capabilities, formats, present_modes, size).extent(),
        ),
        state.surface_queried(
            capabilities,
            formats,
            present_modes,
            size,
        ).action()->CreateSwapchain_0.extent == state.surface_queried(
            capabilities,
            formats,
            present_modes,
            size,
        ).extent(),
        !capabilities.min_image_extent.empty() ==> !state.surface_queried(
            capabilities,
            formats,
            present_modes,
            size,
        ).extent().empty(),
        size.width == 0 && size.height == 0 && capabilities.current_extent.width
            == EXTENT_UNDEFINED ==> state.surface_queried(
            capabilities,
            formats,
            present_modes,
            size,
        ).extent() == capabilities.min_image_extent,
        capabilities.current_extent.width == 0 && capabilities.current_extent.height == 0
            ==> state.surface_queried(capabilities, formats, present_modes, size).extent()
            == capabilities.min_image_extent,
{
}

/// The attachments and the pipeline are made for the swapchain's extent: the
/// images have its width and height, and the viewport and the scissor cover
/// exactly that.
pub proof fn lemma_targets_follow_extent(state: RendererView)
    requires
        state.wf(),
    ensures
        state.action() is CreateAttachments ==> state.action()->CreateAttachments_color_image.info.width
            == state.extent().width && state.action()->CreateAttachments_color_image.info.height
            == state.extent().height && state.action()->CreateAttachments_depth_image.info.width
            == state.extent().width && state.action()->CreateAttachments_depth_image.info.height
            == state.extent().height,
        state.action() is CreatePipeline ==> state.action()->CreatePipeline_0.viewport.width
            == state.extent().width && state.action()->CreatePipeline_0.viewport.height
            == state.extent().height && state.action()->CreatePipeline_0.scissor.extent
            == state.extent(),
{
}

/// A rebuild that succeeds ends in a state that can be drawn to, built for
/// what the surface and the window said during that rebuild.
pub proof fn lemma_rebuild_matches_request(state: RendererView, inputs: RebuildInputs)
    requires
        state.wf(),
        state.rebuilt(inputs).phase == Phase::Ready,
    ensures
        state.rebuilt(inputs).wf(),
        state.rebuilt(inputs).target_state() == TargetState::Valid,
        negotiated(
            inputs.capabilities,
            inputs.formats,
            inputs.present_modes,
            inputs.size,
            state.profile.families,
        ) is Ok,
        state.rebuilt(inputs).config == Some(
            negotiated(
                inputs.capabilities,
                inputs.formats,
                inputs.present_modes,
                inputs.size,
                state.profile.families,
            )->Ok_0,
        ),
        inputs.capabilities.admits(state.rebuilt(inputs).extent()),
        !inputs.capabilities.min_image_extent.empty() ==> !state.rebuilt(inputs).extent().empty(),
        state.rebuilt(inputs).images == inputs.images,
        state.rebuilt(inputs).framebuffers == inputs.framebuffers,
        state.rebuilt(inputs).command_buffers == inputs.command_buffers,
        state.rebuilt(inputs).command_buffers.len() == inputs.images.len(),
        state.rebuilt(inputs).framebuffers.len() == inputs.images.len(),
{
}

/// Two rebuilds in a row leave the renderer as the second alone would have
/// left it, but for the count of swapchains made: nothing of the first
/// remains, and the targets match the size that was asked for last.
pub proof fn lemma_rebuild_twice(state: RendererView, first: RebuildInputs, second: RebuildInputs)
    requires
        state.wf(),
        state.rebuilt(first).phase == Phase::Ready,
        state.rebuilt(first).resize_framebuffer().rebuilt(second).phase == Phase::Ready,
    ensures
        state.rebuilt(second).phase == Phase::Ready,
        state.rebuilt(first).resize_framebuffer().rebuilt(second) == (RendererView {
            generation: state.rebuilt(first).resize_framebuffer().rebuilt(second).generation,
            ..state.rebuilt(second)
        }),
        state.rebuilt(first).resize_framebuffer().rebuilt(second).target_state()
            == TargetState::Valid,
        state.rebuilt(first).resize_framebuffer().rebuilt(second).extent() == negotiated(
            second.capabilities,
            second.formats,
            second.present_modes,
            second.size,
            state.profile.families,
        )->Ok_0.extent,
{
    lemma_rebuild_matches_request(state, first);
    let middle = state.rebuilt(first).resize_framebuffer();
    lemma_rebuild_matches_request(middle, second);
    lemma_rebuild_steps(state, first);
    lemma_rebuild_steps(middle, second);
    assert(settled(middle.slots) =~= settled(state.slots));
    lemma_rebuild_steps_from(state, second, middle);
}

/// A rebuild that succeeds went through every phase in turn.
proof fn lemma_rebuild_steps(state: RendererView, inputs: RebuildInputs)
    requires
        state.rebuilt(inputs).phase == Phase::Ready,
    ensures
        state.device_idle().phase == Phase::TearingDown,
        state.device_idle().torn_down().phase == Phase::AwaitingSurface,
        state.phase == Phase::Idling || (state.phase == Phase::Ready && state.resized),
{
}

/// What a rebuild builds does not depend on what was there before it.
proof fn lemma_rebuild_steps_from(state: RendererView, inputs: RebuildInputs, other: RendererView)
    requires
        state.phase == Phase::Idling || (state.phase == Phase::Ready && state.resized),
        other.phase == Phase::Idling || (other.phase == Phase::Ready && other.resized),
        other.rebuilt(inputs).phase == Phase::Ready,
        other.profile == state.profile,
        other.set_layouts == state.set_layouts,
        other.drawables == state.drawables,
        other.current_frame == state.current_frame,
        settled(other.slots) == settled(state.slots),
    ensures
        state.rebuilt(inputs).phase == Phase::Ready,
        other.rebuilt(inputs) == (RendererView {
            generation: other.rebuilt(inputs).generation,
            ..state.rebuilt(inputs)
        }),
{
}

/// The objects of a teardown are listed kind by kind in the order of
/// teardown, so that none is destroyed while an object listed after it is
/// made from it.
pub proof fn lemma_teardown_list_in_order(state: RendererView)
    ensures
        state.teardown_list().len() == state.command_buffers.len() + state.framebuffers.len()
            + state.imageviews.len() + 10,
        forall|i: int|
            0 <= i < state.teardown_list().len() ==> 0 <= teardown_rank(
                (#[trigger] state.teardown_list()[i]).owner,
            ) < 6 && teardown_order()[teardown_rank(state.teardown_list()[i].owner)]
                == state.teardown_list()[i].owner,
        forall|i: int, j: int|
            0 <= i < j < state.teardown_list().len() ==> teardown_rank(
                (#[trigger] state.teardown_list()[i]).owner,
            ) <= teardown_rank((#[trigger] state.teardown_list()[j]).owner),
{
}

} // verus!
