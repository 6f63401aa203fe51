use rail::commandpool::{Command, CommandBufferAllocateInfo, CommandBufferLevel, Drawable};
use rail::device::QueueFamilyIndices;
use rail::error::RenderError;
use rail::orchestrator::{
    Action, FrameEvent, ImageHandles, ObjectKind, Phase, Profile, RebuildEvent, SlotState,
    TargetState,
};
use rail::renderer::Renderer;
use rail::resource::Resource;
use rail::swapchain::{Extent2D, SurfaceCapabilities, SurfaceFormat, SwapChainSupportDetail};

fn profile() -> Profile {
    Profile {
        msaa_samples: 4,
        depth_format: 126,
        families: QueueFamilyIndices { graphics_family: Some(0), present_family: Some(0) },
        push_constant_size: 128,
        command_pool: 900,
        command_queue_family: 0,
    }
}

fn drawables() -> Vec<Drawable> {
    vec![
        Drawable { vertex_buffer: 11, index_buffer: 12, index_count: 36, instance_count: 1, descriptor_set: 13, transform: 0 },
        Drawable { vertex_buffer: 21, index_buffer: 22, index_count: 6, instance_count: 1, descriptor_set: 23, transform: 1 },
    ]
}

fn support(width: u32, height: u32) -> SwapChainSupportDetail {
    SwapChainSupportDetail {
        capabilities: SurfaceCapabilities {
            min_image_count: 1,
            max_image_count: 3,
            current_extent: Extent2D { width: u32::MAX, height: u32::MAX },
            min_image_extent: Extent2D { width: 1, height: 1 },
            max_image_extent: Extent2D { width: 4096, height: 4096 },
            current_transform: 1,
        },
        formats: vec![SurfaceFormat { format: 50, color_space: 0 }],
        present_modes: vec![2],
    }
}

fn handles(base: u64, count: u64) -> Vec<u64> {
    (0..count).map(|i| base + i).collect()
}

/// Runs the construction half of a rebuild with `count` swapchain images.
fn build(mut renderer: Renderer, width: u32, height: u32, count: u64) -> Renderer {
    assert_eq!(renderer.action(), Action::QuerySurface);
    renderer = renderer.recreate_swapchain(RebuildEvent::SurfaceQueried {
        support: support(width, height),
        size: Extent2D { width, height },
    });
    assert!(matches!(renderer.action(), Action::CreateSwapchain(_)));
    renderer = renderer.recreate_swapchain(RebuildEvent::SwapchainCreated {
        swapchain: 1,
        images: handles(100, count),
        imageviews: handles(200, count),
    });
    assert!(matches!(renderer.action(), Action::CreateAttachments { .. }));
    renderer = renderer.recreate_swapchain(RebuildEvent::AttachmentsCreated {
        color_image: ImageHandles { image: 31, image_view: 32, memory: 33 },
        depth_image: ImageHandles { image: 41, image_view: 42, memory: 43 },
    });
    assert!(matches!(renderer.action(), Action::CreateRenderPass(_)));
    renderer = renderer.recreate_swapchain(RebuildEvent::RenderPassCreated { render_pass: 50 });
    assert_eq!(renderer.action(), Action::CreateFramebuffers);
    assert_eq!(renderer.create_framebuffers().len() as u64, count);
    renderer = renderer.recreate_swapchain(RebuildEvent::FramebuffersCreated {
        framebuffers: handles(300, count),
    });
    match renderer.action() {
        Action::CreatePipeline(info) => {
            let pipeline = renderer.create_pipeline().unwrap();
            assert_eq!(pipeline.info, info);
            assert_eq!(pipeline.set_layouts, vec![70, 71, 72]);
            assert_eq!((info.viewport.width, info.viewport.height), (width.max(1), height.max(1)));
            assert_eq!(info.render_pass, 50);
            assert_eq!(info.rasterization_samples, 4);
            assert_eq!(info.push_constants.size, 128);
        }
        other => panic!("expected a pipeline, got {:?}", other),
    }
    renderer = renderer.recreate_swapchain(RebuildEvent::PipelineCreated { layout: 60, pipeline: 61 });
    assert_eq!(
        renderer.action(),
        Action::AllocateCommandBuffers(CommandBufferAllocateInfo {
            command_pool: 900,
            level: CommandBufferLevel::Primary,
            command_buffer_count: count as u32,
        })
    );
    assert!(renderer.command_buffers().is_empty());
    renderer = renderer.recreate_swapchain(RebuildEvent::CommandBuffersAllocated {
        buffers: handles(400, count),
    });
    assert_eq!(renderer.action(), Action::Record);
    assert_eq!(renderer.record().len() as u64, count);
    renderer.recreate_swapchain(RebuildEvent::Recorded)
}

fn started(count: u64) -> Renderer {
    build(Renderer::new(profile(), vec![70, 71, 72], drawables()), 800, 600, count)
}

/// Draws one whole frame on the given image and returns the slot it used.
fn frame(mut renderer: Renderer, image: u32) -> (Renderer, usize) {
    let slot = renderer.current_frame();
    assert_eq!(renderer.action(), Action::WaitForFence { slot });
    renderer = renderer.draw(FrameEvent::FenceSignaled);
    assert!(!renderer.is_in_flight(slot));
    assert_eq!(renderer.slot_state(slot), Some(SlotState::Signaled));
    assert_eq!(renderer.action(), Action::ResetFence { slot });
    renderer = renderer.draw(FrameEvent::FenceReset);
    assert_eq!(renderer.slot_state(slot), Some(SlotState::Armed));
    assert_eq!(renderer.action(), Action::AcquireNextImage { slot });
    renderer = renderer.draw(FrameEvent::ImageAcquired { image, suboptimal: false });
    assert_eq!(renderer.action(), Action::UpdateUniforms { image });
    renderer = renderer.draw(FrameEvent::UniformsUpdated);
    match renderer.action() {
        Action::Submit(submission) => {
            assert_eq!(submission.image, image);
            assert_eq!(submission.command_buffer, 400 + image as u64);
            assert_eq!(submission.wait_semaphore, slot);
            assert_eq!(submission.signal_semaphore, slot);
            assert_eq!(submission.fence, slot);
            assert_eq!(submission.wait_stage, 0x400);
        }
        other => panic!("expected a submission, got {:?}", other),
    }
    renderer = renderer.draw(FrameEvent::Submitted);
    assert!(renderer.is_in_flight(slot));
    assert_eq!(renderer.slot_state(slot), Some(SlotState::InFlight));
    assert_eq!(renderer.action(), Action::Present { image, wait_semaphore: slot });
    renderer = renderer.draw(FrameEvent::Presented { stale: false });
    (renderer, slot)
}

#[test]
fn startup_builds_for_the_surface_extent() {
    let renderer = started(3);
    assert_eq!(renderer.phase(), Phase::Ready);
    assert_eq!(renderer.target_state(), TargetState::Valid);
    assert_eq!(renderer.extent(), Some(Extent2D { width: 800, height: 600 }));
    assert_eq!(renderer.generation(), 1);
    let chain = renderer.swapchain().unwrap();
    assert_eq!(chain.images.len(), 3);
    assert_eq!(chain.imageviews.len(), 3);
    assert_eq!(chain.framebuffers.len(), 3);
    assert_eq!(renderer.command_buffers().len(), 3);
    assert_eq!(chain.config.min_image_count, 2);
}

#[test]
fn slots_alternate_over_consecutive_frames() {
    let mut renderer = started(3);
    let mut slots = Vec::new();
    for image in [0u32, 1, 2, 0, 1] {
        let (next, slot) = frame(renderer, image);
        renderer = next;
        slots.push(slot);
    }
    assert_eq!(slots, vec![0, 1, 0, 1, 0]);
    assert_eq!(renderer.target_state(), TargetState::Valid);
    assert!(renderer.is_in_flight(0));
    assert!(renderer.is_in_flight(1));
    assert_eq!(renderer.slot_state(2), None);
    assert!(!renderer.is_in_flight(2));
}

#[test]
fn first_wait_on_each_slot_finds_the_fence_signaled() {
    let renderer = started(2);
    assert_eq!(renderer.slot_state(0), Some(SlotState::Signaled));
    assert_eq!(renderer.slot_state(1), Some(SlotState::Signaled));
    let (renderer, _) = frame(renderer, 0);
    assert_eq!(renderer.slot_state(0), Some(SlotState::InFlight));
    assert_eq!(renderer.slot_state(1), Some(SlotState::Signaled));
    assert_eq!(renderer.action(), Action::WaitForFence { slot: 1 });
}

#[test]
fn stale_acquire_rebuilds_and_skips_present() {
    let (mut renderer, _) = frame(started(3), 2);
    assert_eq!(renderer.current_frame(), 1);
    renderer = renderer.draw(FrameEvent::FenceSignaled);
    renderer = renderer.draw(FrameEvent::FenceReset);
    renderer = renderer.draw(FrameEvent::SwapchainStale);
    assert_eq!(renderer.phase(), Phase::Idling);
    assert_eq!(renderer.action(), Action::WaitDeviceIdle);
    assert!(renderer.cleanup_swapchain().is_empty());
    renderer = renderer.recreate_swapchain(RebuildEvent::DeviceIdle);
    assert_eq!(renderer.action(), Action::CleanupSwapchain);
    let doomed = renderer.cleanup_swapchain();
    assert_eq!(doomed.len(), 3 + 3 + 3 + 10);
    assert_eq!(doomed[0].kind, ObjectKind::CommandBuffer);
    assert_eq!(doomed[0].handle, 400);
    assert_eq!(doomed[3].kind, ObjectKind::Framebuffer);
    assert_eq!(doomed[6].kind, ObjectKind::Pipeline);
    assert_eq!(doomed[6].handle, 61);
    assert_eq!(doomed[7].kind, ObjectKind::PipelineLayout);
    assert_eq!(doomed[8].kind, ObjectKind::RenderPass);
    assert_eq!(doomed[9].owner, Resource::Attachments);
    assert_eq!(doomed[9].handle, 42);
    assert_eq!(doomed[12].handle, 32);
    assert_eq!(doomed[15].kind, ObjectKind::ImageView);
    assert_eq!(doomed[18].kind, ObjectKind::Swapchain);
    assert_eq!(doomed[18].handle, 1);
    renderer = renderer.recreate_swapchain(RebuildEvent::TornDown);
    renderer = build(renderer, 1024, 768, 2);
    assert_eq!(renderer.phase(), Phase::Ready);
    assert_eq!(renderer.extent(), Some(Extent2D { width: 1024, height: 768 }));
    assert_eq!(renderer.record().len(), 2);
    assert_eq!(renderer.command_buffers().len(), 2);
    assert_eq!(renderer.current_frame(), 1);
    assert_eq!(renderer.generation(), 2);
    assert_eq!(renderer.slot_state(0), Some(SlotState::Signaled));
    assert_eq!(renderer.slot_state(1), Some(SlotState::Armed));
    assert_eq!(renderer.action(), Action::AcquireNextImage { slot: 1 });
    renderer = renderer.draw(FrameEvent::ImageAcquired { image: 1, suboptimal: false });
    assert_eq!(renderer.action(), Action::UpdateUniforms { image: 1 });
    renderer = renderer.draw(FrameEvent::UniformsUpdated);
    renderer = renderer.draw(FrameEvent::Submitted);
    renderer = renderer.draw(FrameEvent::Presented { stale: false });
    assert_eq!(renderer.current_frame(), 0);
    assert_eq!(renderer.action(), Action::WaitForFence { slot: 0 });
}

#[test]
fn stale_present_defers_rebuild_to_next_tick() {
    let mut renderer = started(2);
    renderer = renderer.draw(FrameEvent::FenceSignaled);
    renderer = renderer.draw(FrameEvent::FenceReset);
    renderer = renderer.draw(FrameEvent::ImageAcquired { image: 1, suboptimal: false });
    renderer = renderer.draw(FrameEvent::UniformsUpdated);
    renderer = renderer.draw(FrameEvent::Submitted);
    renderer = renderer.draw(FrameEvent::Presented { stale: true });
    assert_eq!(renderer.phase(), Phase::Ready);
    assert_eq!(renderer.current_frame(), 1);
    assert_eq!(renderer.target_state(), TargetState::Invalidated);
    assert_eq!(renderer.action(), Action::WaitDeviceIdle);
    renderer = renderer.recreate_swapchain(RebuildEvent::DeviceIdle);
    assert!(!renderer.is_in_flight(0));
    assert_eq!(renderer.target_state(), TargetState::Rebuilding);
}

#[test]
fn resize_to_zero_is_clamped_and_rebuild_succeeds() {
    let mut renderer = started(2).resize_framebuffer();
    assert_eq!(renderer.action(), Action::WaitDeviceIdle);
    renderer = renderer.recreate_swapchain(RebuildEvent::DeviceIdle);
    renderer = renderer.recreate_swapchain(RebuildEvent::TornDown);
    renderer = build(renderer, 0, 0, 2);
    assert_eq!(renderer.phase(), Phase::Ready);
    assert_eq!(renderer.extent(), Some(Extent2D { width: 1, height: 1 }));
}

/// What a surface says that has a size of its own.
fn sized_support(width: u32, height: u32) -> SwapChainSupportDetail {
    let mut support = support(width, height);
    support.capabilities.current_extent = Extent2D { width, height };
    support.capabilities.min_image_extent = Extent2D { width: 4, height: 2 };
    support.capabilities.max_image_extent = Extent2D { width: 2048, height: 1024 };
    support
}

fn negotiated_extent(support: SwapChainSupportDetail, width: u32, height: u32) -> Extent2D {
    let renderer = Renderer::new(profile(), vec![70], drawables()).recreate_swapchain(
        RebuildEvent::SurfaceQueried { support, size: Extent2D { width, height } },
    );
    match renderer.action() {
        Action::CreateSwapchain(config) => {
            assert_eq!(renderer.extent(), Some(config.extent));
            config.extent
        }
        other => panic!("expected a swapchain, got {:?}", other),
    }
}

#[test]
fn surface_extent_outside_the_limits_is_clamped() {
    assert_eq!(negotiated_extent(sized_support(0, 0), 0, 0), Extent2D { width: 4, height: 2 });
    assert_eq!(negotiated_extent(sized_support(0, 0), 800, 600), Extent2D { width: 4, height: 2 });
    assert_eq!(negotiated_extent(sized_support(3, 5000), 800, 600), Extent2D { width: 4, height: 1024 });
    assert_eq!(negotiated_extent(sized_support(4096, 1), 800, 600), Extent2D { width: 2048, height: 2 });
    assert_eq!(negotiated_extent(sized_support(800, 600), 0, 0), Extent2D { width: 800, height: 600 });
    assert_eq!(negotiated_extent(sized_support(4, 1024), 9, 9), Extent2D { width: 4, height: 1024 });
}

#[test]
fn minimised_window_with_a_sized_surface_still_rebuilds() {
    let mut renderer = started(2).resize_framebuffer();
    renderer = renderer.recreate_swapchain(RebuildEvent::DeviceIdle);
    renderer = renderer.recreate_swapchain(RebuildEvent::TornDown);
    renderer = renderer.recreate_swapchain(RebuildEvent::SurfaceQueried {
        support: sized_support(0, 0),
        size: Extent2D { width: 0, height: 0 },
    });
    assert_eq!(renderer.extent(), Some(Extent2D { width: 4, height: 2 }));
    renderer = renderer.recreate_swapchain(RebuildEvent::SwapchainCreated {
        swapchain: 1,
        images: handles(100, 2),
        imageviews: handles(200, 2),
    });
    match renderer.action() {
        Action::CreateAttachments { color_image, depth_image } => {
            assert_eq!((color_image.info.width, color_image.info.height), (4, 2));
            assert_eq!((depth_image.info.width, depth_image.info.height), (4, 2));
        }
        other => panic!("expected attachments, got {:?}", other),
    }
    renderer = renderer.recreate_swapchain(RebuildEvent::AttachmentsCreated {
        color_image: ImageHandles { image: 31, image_view: 32, memory: 33 },
        depth_image: ImageHandles { image: 41, image_view: 42, memory: 43 },
    });
    renderer = renderer.recreate_swapchain(RebuildEvent::RenderPassCreated { render_pass: 50 });
    let infos = renderer.create_framebuffers();
    assert_eq!((infos[0].width, infos[0].height), (4, 2));
    renderer = renderer.recreate_swapchain(RebuildEvent::FramebuffersCreated { framebuffers: handles(300, 2) });
    match renderer.action() {
        Action::CreatePipeline(info) => {
            assert_eq!((info.viewport.width, info.viewport.height), (4, 2));
            assert_eq!(info.scissor.extent, Extent2D { width: 4, height: 2 });
            assert_eq!(info.scissor.extent.aspect_ratio(), Some((4, 2)));
        }
        other => panic!("expected a pipeline, got {:?}", other),
    }
    renderer = renderer.recreate_swapchain(RebuildEvent::PipelineCreated { layout: 60, pipeline: 61 });
    renderer = renderer.recreate_swapchain(RebuildEvent::CommandBuffersAllocated { buffers: handles(400, 2) });
    renderer = renderer.recreate_swapchain(RebuildEvent::Recorded);
    assert_eq!(renderer.phase(), Phase::Ready);
    assert_eq!(renderer.target_state(), TargetState::Valid);
}

#[test]
fn allocated_command_buffers_replace_the_old_ones() {
    let mut renderer = started(3);
    assert_eq!(renderer.command_pool().pool, 900);
    assert_eq!(renderer.command_pool().queue_family_index, 0);
    assert_eq!(renderer.command_pool().buffers, vec![400, 401, 402]);
    renderer = renderer.resize_framebuffer();
    renderer = renderer.recreate_swapchain(RebuildEvent::DeviceIdle);
    renderer = renderer.recreate_swapchain(RebuildEvent::TornDown);
    assert!(renderer.command_pool().buffers.is_empty());
    assert_eq!(renderer.command_pool().pool, 900);
    renderer = build(renderer, 640, 480, 2);
    assert_eq!(renderer.command_pool().buffers, vec![400, 401]);
    assert_eq!(renderer.command_pool().pool, 900);
}

#[test]
fn command_buffer_count_mismatch_fails() {
    let mut renderer = Renderer::new(profile(), vec![70], drawables());
    renderer = renderer.recreate_swapchain(RebuildEvent::SurfaceQueried {
        support: support(800, 600),
        size: Extent2D { width: 800, height: 600 },
    });
    renderer = renderer.recreate_swapchain(RebuildEvent::SwapchainCreated {
        swapchain: 1,
        images: handles(100, 2),
        imageviews: handles(200, 2),
    });
    renderer = renderer.recreate_swapchain(RebuildEvent::AttachmentsCreated {
        color_image: ImageHandles { image: 31, image_view: 32, memory: 33 },
        depth_image: ImageHandles { image: 41, image_view: 42, memory: 43 },
    });
    renderer = renderer.recreate_swapchain(RebuildEvent::RenderPassCreated { render_pass: 50 });
    renderer = renderer.recreate_swapchain(RebuildEvent::FramebuffersCreated { framebuffers: handles(300, 2) });
    renderer = renderer.recreate_swapchain(RebuildEvent::PipelineCreated { layout: 60, pipeline: 61 });
    renderer = renderer.recreate_swapchain(RebuildEvent::CommandBuffersAllocated { buffers: handles(400, 3) });
    assert_eq!(renderer.phase(), Phase::Failed(RenderError::ResourceCountMismatch));
    assert!(renderer.command_buffers().is_empty());
}

#[test]
fn two_rebuilds_keep_only_the_latest_extent() {
    let mut renderer = started(2).resize_framebuffer();
    renderer = renderer.recreate_swapchain(RebuildEvent::DeviceIdle);
    renderer = renderer.recreate_swapchain(RebuildEvent::TornDown);
    renderer = build(renderer, 640, 480, 3).resize_framebuffer();
    renderer = renderer.recreate_swapchain(RebuildEvent::DeviceIdle);
    renderer = renderer.recreate_swapchain(RebuildEvent::TornDown);
    renderer = build(renderer, 1280, 720, 2);
    assert_eq!(renderer.target_state(), TargetState::Valid);
    assert_eq!(renderer.extent(), Some(Extent2D { width: 1280, height: 720 }));
    assert_eq!(renderer.swapchain().unwrap().images.len(), 2);
    assert_eq!(renderer.command_buffers().len(), 2);
    assert_eq!(renderer.generation(), 3);
}

#[test]
fn image_index_out_of_range_is_an_invariant_violation() {
    let mut renderer = started(2);
    renderer = renderer.draw(FrameEvent::FenceSignaled);
    renderer = renderer.draw(FrameEvent::FenceReset);
    renderer = renderer.draw(FrameEvent::ImageAcquired { image: 2, suboptimal: false });
    assert_eq!(renderer.phase(), Phase::Failed(RenderError::ImageIndexOutOfRange));
    assert_eq!(renderer.action(), Action::Abort(RenderError::ImageIndexOutOfRange));
    renderer = renderer.draw(FrameEvent::Submitted);
    assert_eq!(renderer.phase(), Phase::Failed(RenderError::ImageIndexOutOfRange));
}

#[test]
fn suboptimal_acquire_draws_the_frame_and_rebuilds_after_it() {
    let mut renderer = started(2);
    renderer = renderer.draw(FrameEvent::FenceSignaled);
    renderer = renderer.draw(FrameEvent::FenceReset);
    renderer = renderer.draw(FrameEvent::ImageAcquired { image: 0, suboptimal: true });
    assert_eq!(renderer.target_state(), TargetState::Invalidated);
    assert_eq!(renderer.action(), Action::UpdateUniforms { image: 0 });
    renderer = renderer.draw(FrameEvent::UniformsUpdated);
    renderer = renderer.draw(FrameEvent::Submitted);
    renderer = renderer.draw(FrameEvent::Presented { stale: false });
    assert_eq!(renderer.action(), Action::WaitDeviceIdle);
    assert_eq!(renderer.draw(FrameEvent::FenceSignaled).phase(), Phase::Failed(RenderError::UnexpectedEvent));
}

#[test]
fn close_is_refused_in_the_middle_of_a_frame() {
    let renderer = started(2).draw(FrameEvent::FenceSignaled).close();
    assert_eq!(renderer.phase(), Phase::Failed(RenderError::UnexpectedEvent));
    let renderer = started(2).recreate_swapchain(RebuildEvent::DeviceIdle);
    assert_eq!(renderer.phase(), Phase::Failed(RenderError::UnexpectedEvent));
    let renderer = started(2).recreate_swapchain(RebuildEvent::TornDown);
    assert_eq!(renderer.phase(), Phase::Failed(RenderError::UnexpectedEvent));
    let renderer = started(2).destroyed();
    assert_eq!(renderer.phase(), Phase::Failed(RenderError::UnexpectedEvent));
}

#[test]
fn result_codes_become_events() {
    assert_eq!(rail::constants::RESULT_SUCCESS, ash::vk::Result::SUCCESS.as_raw());
    assert_eq!(rail::constants::RESULT_SUBOPTIMAL, ash::vk::Result::SUBOPTIMAL_KHR.as_raw());
    assert_eq!(rail::constants::RESULT_ERROR_OUT_OF_DATE, ash::vk::Result::ERROR_OUT_OF_DATE_KHR.as_raw());
    assert_eq!(FrameEvent::from_acquire(0, 2), Ok(FrameEvent::ImageAcquired { image: 2, suboptimal: false }));
    assert_eq!(FrameEvent::from_acquire(1_000_001_003, 1), Ok(FrameEvent::ImageAcquired { image: 1, suboptimal: true }));
    assert_eq!(FrameEvent::from_acquire(-1_000_001_004, 1), Ok(FrameEvent::SwapchainStale));
    assert_eq!(FrameEvent::from_acquire(-4, 1), Err(RenderError::AcquireFailed));
    assert_eq!(FrameEvent::from_acquire(2, 1), Err(RenderError::AcquireFailed));
    assert_eq!(FrameEvent::from_present(0), Ok(FrameEvent::Presented { stale: false }));
    assert_eq!(FrameEvent::from_present(1_000_001_003), Ok(FrameEvent::Presented { stale: true }));
    assert_eq!(FrameEvent::from_present(-1_000_001_004), Ok(FrameEvent::Presented { stale: true }));
    assert_eq!(FrameEvent::from_present(-4), Err(RenderError::PresentFailed));
}

#[test]
fn unexpected_event_fails() {
    let renderer = started(2).draw(FrameEvent::Submitted);
    assert_eq!(renderer.phase(), Phase::Failed(RenderError::UnexpectedEvent));
}

#[test]
fn framebuffer_count_mismatch_fails() {
    let mut renderer = Renderer::new(profile(), vec![70, 71, 72], drawables());
    renderer = renderer.recreate_swapchain(RebuildEvent::SurfaceQueried {
        support: support(800, 600),
        size: Extent2D { width: 800, height: 600 },
    });
    renderer = renderer.recreate_swapchain(RebuildEvent::SwapchainCreated {
        swapchain: 1,
        images: handles(100, 3),
        imageviews: handles(200, 3),
    });
    renderer = renderer.recreate_swapchain(RebuildEvent::AttachmentsCreated {
        color_image: ImageHandles { image: 31, image_view: 32, memory: 33 },
        depth_image: ImageHandles { image: 41, image_view: 42, memory: 43 },
    });
    renderer = renderer.recreate_swapchain(RebuildEvent::RenderPassCreated { render_pass: 50 });
    renderer = renderer.recreate_swapchain(RebuildEvent::FramebuffersCreated { framebuffers: handles(300, 2) });
    assert_eq!(renderer.phase(), Phase::Failed(RenderError::ResourceCountMismatch));
}

#[test]
fn recorded_commands_follow_the_fixed_sequence() {
    let renderer = started(2);
    let sequence = renderer.record();
    assert_eq!(sequence.len(), 2);
    let commands = &sequence[1];
    assert_eq!(commands.len(), 3 + 5 * 2 + 2);
    assert_eq!(commands[0], Command::Begin);
    match commands[1] {
        Command::BeginRenderPass { render_pass, framebuffer, extent, clear } => {
            assert_eq!(render_pass, 50);
            assert_eq!(framebuffer, 301);
            assert_eq!(extent, Extent2D { width: 800, height: 600 });
            assert_eq!((clear.red, clear.green, clear.blue, clear.alpha), (0, 0, 0, 1));
            assert_eq!((clear.depth, clear.stencil), (1, 0));
        }
        other => panic!("unexpected command {:?}", other),
    }
    assert_eq!(commands[2], Command::BindPipeline { pipeline: 61 });
    assert_eq!(commands[3], Command::BindVertexBuffer { buffer: 11 });
    assert_eq!(commands[4], Command::BindIndexBuffer { buffer: 12 });
    assert_eq!(commands[5], Command::BindDescriptorSet { layout: 60, set: 13 });
    assert_eq!(commands[6], Command::PushConstants { layout: 60, transform: 0 });
    assert_eq!(commands[7], Command::DrawIndexed { index_count: 36, instance_count: 1 });
    assert_eq!(commands[8], Command::BindVertexBuffer { buffer: 21 });
    assert_eq!(commands[12], Command::DrawIndexed { index_count: 6, instance_count: 1 });
    assert_eq!(commands[13], Command::EndRenderPass);
    assert_eq!(commands[14], Command::End);
}

#[test]
fn shutdown_waits_for_idle_before_destroying() {
    let (mut renderer, _) = frame(started(2), 0);
    assert!(renderer.destroy().is_empty());
    renderer = renderer.close();
    assert_eq!(renderer.action(), Action::WaitDeviceIdle);
    assert!(renderer.destroy().is_empty());
    renderer = renderer.recreate_swapchain(RebuildEvent::DeviceIdle);
    assert_eq!(renderer.action(), Action::Destroy);
    assert!(!renderer.is_in_flight(0));
    let order = renderer.destroy();
    assert_eq!(order.len(), 17);
    assert_eq!(order[0], Resource::SyncObjects);
    assert_eq!(order[1], Resource::CommandBuffers);
    assert_eq!(order[6], Resource::Swapchain);
    assert_eq!(order[16], Resource::Instance);
    assert_eq!(renderer.cleanup_swapchain().len(), 2 + 2 + 2 + 10);
    renderer = renderer.destroyed();
    assert_eq!(renderer.action(), Action::Rest);
    assert_eq!(renderer.target_state(), TargetState::Retired);
}
