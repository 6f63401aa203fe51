use ash::vk;
use rail::buffer::{find_memory_type, Buffer};
use rail::buffers::{
    create_command_buffers, create_command_pool, create_framebuffers, IndexBuffer, UniformBuffer,
    VertexBuffer,
};
use rail::color_image::ColorImage;
use rail::commandpool::{
    record, record_frame, Command, CommandBufferAllocateInfo, CommandBufferLevel, CommandPool,
    Drawable,
};
use rail::constants;
use rail::depth_image::{DepthImage, FormatCandidate};
use rail::descriptorset::{descriptor_write, DescriptorInfo, DescriptorLayout, DescriptorPool};
use rail::device::QueueFamilyIndices;
use rail::error::RenderError;
use rail::image::{check_mipmap_support, Image, ImageTiling, MipStep};
use rail::input::{Direction, InputManager, WindowEvent};
use rail::mesh::{Mesh, Model, ObjMesh, Vertex};
use rail::pipeline::{get_attribute_descriptions, get_binding_description, CullMode, GraphicPipeline};
use rail::render_pass::{ImageLayout, LoadOp, RenderPass, StoreOp};
use rail::resource::{
    construction_steps, rebuild_steps, shutdown_steps, teardown_steps, Resource,
};
use rail::shader::Shader;
use rail::swapchain::{
    Extent2D, SharingMode, SurfaceCapabilities, SurfaceFormat, SwapChain, SwapChainSupportDetail,
};
use rail::sync_object::{SyncObjects, MAX_FRAMES_IN_FLIGHT};

#[test]
fn constants_match_the_api() {
    assert_eq!(constants::FORMAT_B8G8R8A8_SRGB, vk::Format::B8G8R8A8_SRGB.as_raw());
    assert_eq!(constants::FORMAT_R8G8B8A8_SRGB, vk::Format::R8G8B8A8_SRGB.as_raw());
    assert_eq!(constants::FORMAT_D32_SFLOAT, vk::Format::D32_SFLOAT.as_raw());
    assert_eq!(constants::FORMAT_D32_SFLOAT_S8_UINT, vk::Format::D32_SFLOAT_S8_UINT.as_raw());
    assert_eq!(constants::FORMAT_D24_UNORM_S8_UINT, vk::Format::D24_UNORM_S8_UINT.as_raw());
    assert_eq!(constants::FORMAT_R32G32B32A32_SFLOAT, vk::Format::R32G32B32A32_SFLOAT.as_raw());
    assert_eq!(constants::FORMAT_R32G32_SFLOAT, vk::Format::R32G32_SFLOAT.as_raw());
    assert_eq!(constants::COLOR_SPACE_SRGB_NONLINEAR, vk::ColorSpaceKHR::SRGB_NONLINEAR.as_raw());
    assert_eq!(constants::PRESENT_MODE_MAILBOX, vk::PresentModeKHR::MAILBOX.as_raw());
    assert_eq!(constants::PRESENT_MODE_FIFO, vk::PresentModeKHR::FIFO.as_raw());
    assert_eq!(constants::IMAGE_USAGE_COLOR_ATTACHMENT, vk::ImageUsageFlags::COLOR_ATTACHMENT.as_raw());
    assert_eq!(constants::IMAGE_USAGE_TRANSFER_SRC, vk::ImageUsageFlags::TRANSFER_SRC.as_raw());
    assert_eq!(constants::IMAGE_USAGE_TRANSFER_DST, vk::ImageUsageFlags::TRANSFER_DST.as_raw());
    assert_eq!(constants::IMAGE_USAGE_SAMPLED, vk::ImageUsageFlags::SAMPLED.as_raw());
    assert_eq!(constants::IMAGE_USAGE_DEPTH_STENCIL_ATTACHMENT, vk::ImageUsageFlags::DEPTH_STENCIL_ATTACHMENT.as_raw());
    assert_eq!(constants::IMAGE_USAGE_TRANSIENT_ATTACHMENT, vk::ImageUsageFlags::TRANSIENT_ATTACHMENT.as_raw());
    assert_eq!(constants::IMAGE_ASPECT_COLOR, vk::ImageAspectFlags::COLOR.as_raw());
    assert_eq!(constants::IMAGE_ASPECT_DEPTH, vk::ImageAspectFlags::DEPTH.as_raw());
    assert_eq!(constants::COMPOSITE_ALPHA_OPAQUE, vk::CompositeAlphaFlagsKHR::OPAQUE.as_raw());
    assert_eq!(constants::QUEUE_GRAPHICS, vk::QueueFlags::GRAPHICS.as_raw());
    assert_eq!(constants::SAMPLE_COUNT_1, vk::SampleCountFlags::TYPE_1.as_raw());
    assert_eq!(constants::SAMPLE_COUNT_2, vk::SampleCountFlags::TYPE_2.as_raw());
    assert_eq!(constants::SAMPLE_COUNT_4, vk::SampleCountFlags::TYPE_4.as_raw());
    assert_eq!(constants::SAMPLE_COUNT_8, vk::SampleCountFlags::TYPE_8.as_raw());
    assert_eq!(constants::SAMPLE_COUNT_16, vk::SampleCountFlags::TYPE_16.as_raw());
    assert_eq!(constants::SAMPLE_COUNT_32, vk::SampleCountFlags::TYPE_32.as_raw());
    assert_eq!(constants::SAMPLE_COUNT_64, vk::SampleCountFlags::TYPE_64.as_raw());
    assert_eq!(constants::FORMAT_FEATURE_DEPTH_STENCIL_ATTACHMENT, vk::FormatFeatureFlags::DEPTH_STENCIL_ATTACHMENT.as_raw());
    assert_eq!(constants::FORMAT_FEATURE_SAMPLED_IMAGE_FILTER_LINEAR, vk::FormatFeatureFlags::SAMPLED_IMAGE_FILTER_LINEAR.as_raw());
    assert_eq!(constants::MEMORY_DEVICE_LOCAL, vk::MemoryPropertyFlags::DEVICE_LOCAL.as_raw());
    assert_eq!(constants::MEMORY_HOST_VISIBLE, vk::MemoryPropertyFlags::HOST_VISIBLE.as_raw());
    assert_eq!(constants::MEMORY_HOST_COHERENT, vk::MemoryPropertyFlags::HOST_COHERENT.as_raw());
    assert_eq!(constants::STAGE_TOP_OF_PIPE, vk::PipelineStageFlags::TOP_OF_PIPE.as_raw());
    assert_eq!(constants::STAGE_FRAGMENT_SHADER, vk::PipelineStageFlags::FRAGMENT_SHADER.as_raw());
    assert_eq!(constants::STAGE_COLOR_ATTACHMENT_OUTPUT, vk::PipelineStageFlags::COLOR_ATTACHMENT_OUTPUT.as_raw());
    assert_eq!(constants::STAGE_TRANSFER, vk::PipelineStageFlags::TRANSFER.as_raw());
    assert_eq!(constants::ACCESS_SHADER_READ, vk::AccessFlags::SHADER_READ.as_raw());
    assert_eq!(constants::ACCESS_COLOR_ATTACHMENT_READ, vk::AccessFlags::COLOR_ATTACHMENT_READ.as_raw());
    assert_eq!(constants::ACCESS_COLOR_ATTACHMENT_WRITE, vk::AccessFlags::COLOR_ATTACHMENT_WRITE.as_raw());
    assert_eq!(constants::ACCESS_TRANSFER_READ, vk::AccessFlags::TRANSFER_READ.as_raw());
    assert_eq!(constants::ACCESS_TRANSFER_WRITE, vk::AccessFlags::TRANSFER_WRITE.as_raw());
    assert_eq!(constants::SHADER_STAGE_VERTEX, vk::ShaderStageFlags::VERTEX.as_raw());
    assert_eq!(constants::SHADER_STAGE_FRAGMENT, vk::ShaderStageFlags::FRAGMENT.as_raw());
    assert_eq!(constants::COLOR_COMPONENTS_RGBA, vk::ColorComponentFlags::RGBA.as_raw());
    assert_eq!(constants::BUFFER_USAGE_TRANSFER_SRC, vk::BufferUsageFlags::TRANSFER_SRC.as_raw());
    assert_eq!(constants::BUFFER_USAGE_TRANSFER_DST, vk::BufferUsageFlags::TRANSFER_DST.as_raw());
    assert_eq!(constants::BUFFER_USAGE_UNIFORM_BUFFER, vk::BufferUsageFlags::UNIFORM_BUFFER.as_raw());
    assert_eq!(constants::BUFFER_USAGE_STORAGE_BUFFER, vk::BufferUsageFlags::STORAGE_BUFFER.as_raw());
    assert_eq!(constants::BUFFER_USAGE_INDEX_BUFFER, vk::BufferUsageFlags::INDEX_BUFFER.as_raw());
    assert_eq!(constants::BUFFER_USAGE_VERTEX_BUFFER, vk::BufferUsageFlags::VERTEX_BUFFER.as_raw());
    assert_eq!(constants::DESCRIPTOR_TYPE_COMBINED_IMAGE_SAMPLER, vk::DescriptorType::COMBINED_IMAGE_SAMPLER.as_raw());
    assert_eq!(constants::DESCRIPTOR_TYPE_UNIFORM_BUFFER, vk::DescriptorType::UNIFORM_BUFFER.as_raw());
    assert_eq!(constants::WHOLE_SIZE, vk::WHOLE_SIZE);
    assert_eq!(constants::EXTENT_UNDEFINED, u32::MAX);
    assert_eq!(rail::validation::SEVERITY_WARNING, vk::DebugUtilsMessageSeverityFlagsEXT::WARNING.as_raw());
    assert_eq!(rail::validation::SEVERITY_ERROR, vk::DebugUtilsMessageSeverityFlagsEXT::ERROR.as_raw());
    assert_eq!(rail::validation::SEVERITY_INFO, vk::DebugUtilsMessageSeverityFlagsEXT::INFO.as_raw());
    assert_eq!(rail::validation::SEVERITY_VERBOSE, vk::DebugUtilsMessageSeverityFlagsEXT::VERBOSE.as_raw());
    assert_eq!(rail::validation::MESSAGE_GENERAL, vk::DebugUtilsMessageTypeFlagsEXT::GENERAL.as_raw());
    assert_eq!(rail::validation::MESSAGE_VALIDATION, vk::DebugUtilsMessageTypeFlagsEXT::VALIDATION.as_raw());
    assert_eq!(rail::validation::MESSAGE_PERFORMANCE, vk::DebugUtilsMessageTypeFlagsEXT::PERFORMANCE.as_raw());
}

#[test]
fn format_choice_prefers_srgb() {
    let preferred = SurfaceFormat { format: 50, color_space: 0 };
    let other = SurfaceFormat { format: 44, color_space: 0 };
    let wrong_space = SurfaceFormat { format: 50, color_space: 7 };
    assert_eq!(SwapChain::choose_swapchain_format(&vec![other, wrong_space, preferred]), preferred);
    assert_eq!(SwapChain::choose_swapchain_format(&vec![wrong_space, other]), wrong_space);
    assert_eq!(SwapChain::choose_swapchain_present_mode(&vec![0, 2, 1]), 1);
    assert_eq!(SwapChain::choose_swapchain_present_mode(&vec![0, 3]), 2);
    assert_eq!(SwapChain::choose_swapchain_present_mode(&vec![]), 2);
}

fn capabilities(min: u32, max: u32) -> SurfaceCapabilities {
    SurfaceCapabilities {
        min_image_count: min,
        max_image_count: max,
        current_extent: Extent2D { width: u32::MAX, height: u32::MAX },
        min_image_extent: Extent2D { width: 16, height: 8 },
        max_image_extent: Extent2D { width: 1920, height: 1080 },
        current_transform: 1,
    }
}

#[test]
fn image_count_is_one_above_minimum_within_maximum() {
    assert_eq!(SwapChain::choose_image_count(&capabilities(2, 0)), 3);
    assert_eq!(SwapChain::choose_image_count(&capabilities(2, 3)), 3);
    assert_eq!(SwapChain::choose_image_count(&capabilities(2, 2)), 2);
    assert_eq!(SwapChain::choose_image_count(&capabilities(1, 8)), 2);
    assert!(capabilities(2, 3).is_valid());
    assert!(!capabilities(4, 3).is_valid());
    assert!(!capabilities(u32::MAX, 0).is_valid());
}

#[test]
fn extent_is_clamped_on_each_axis() {
    let caps = capabilities(2, 3);
    let pick = |w, h| SwapChain::choose_swapchain_extent(&caps, Extent2D { width: w, height: h });
    assert_eq!(pick(800, 600), Extent2D { width: 800, height: 600 });
    assert_eq!(pick(0, 0), Extent2D { width: 16, height: 8 });
    assert_eq!(pick(4000, 4), Extent2D { width: 1920, height: 8 });
    assert_eq!(pick(16, 1080), Extent2D { width: 16, height: 1080 });
    assert_eq!(pick(15, 1081), Extent2D { width: 16, height: 1080 });
    let sized = |w, h| {
        let mut caps = capabilities(2, 3);
        caps.current_extent = Extent2D { width: w, height: h };
        SwapChain::choose_swapchain_extent(&caps, Extent2D { width: 800, height: 600 })
    };
    assert_eq!(sized(640, 480), Extent2D { width: 640, height: 480 });
    assert_eq!(sized(16, 8), Extent2D { width: 16, height: 8 });
    assert_eq!(sized(1920, 1080), Extent2D { width: 1920, height: 1080 });
    assert_eq!(sized(0, 0), Extent2D { width: 16, height: 8 });
    assert_eq!(sized(15, 7), Extent2D { width: 16, height: 8 });
    assert_eq!(sized(1, 2000), Extent2D { width: 16, height: 1080 });
    assert_eq!(sized(1921, 1081), Extent2D { width: 1920, height: 1080 });
    assert_eq!(sized(u32::MAX - 1, 0), Extent2D { width: 1920, height: 8 });
    assert_eq!(Extent2D { width: 16, height: 8 }.aspect_ratio(), Some((16, 8)));
    assert_eq!(Extent2D { width: 16, height: 0 }.aspect_ratio(), None);
    assert_eq!(Extent2D { width: 0, height: 8 }.aspect_ratio(), None);
}

#[test]
fn negotiation_reports_each_failure() {
    let families = QueueFamilyIndices { graphics_family: Some(0), present_family: Some(1) };
    let size = Extent2D { width: 800, height: 600 };
    let support = |formats: Vec<SurfaceFormat>, modes: Vec<i32>, caps: SurfaceCapabilities| SwapChainSupportDetail {
        capabilities: caps,
        formats,
        present_modes: modes,
    };
    let format = SurfaceFormat { format: 44, color_space: 0 };
    assert_eq!(SwapChain::new(&support(vec![], vec![], capabilities(4, 3)), size, &families).err(), Some(RenderError::NoSurfaceFormat));
    assert_eq!(SwapChain::new(&support(vec![format], vec![], capabilities(4, 3)), size, &families).err(), Some(RenderError::NoPresentMode));
    assert_eq!(SwapChain::new(&support(vec![format], vec![2], capabilities(4, 3)), size, &families).err(), Some(RenderError::UnsupportedSurface));
    let missing = QueueFamilyIndices { graphics_family: None, present_family: Some(1) };
    assert_eq!(SwapChain::new(&support(vec![format], vec![2], capabilities(2, 3)), size, &missing).err(), Some(RenderError::MissingQueueFamily));
    let chain = SwapChain::new(&support(vec![format], vec![2], capabilities(2, 3)), size, &families).unwrap();
    assert_eq!(chain.config.sharing, SharingMode::Concurrent { graphics_family: 0, present_family: 1 });
    assert_eq!(chain.config.format, format);
    assert_eq!(chain.config.present_mode, 2);
    assert_eq!(chain.config.image_array_layers, 1);
    assert_eq!(chain.config.image_usage, 0x10);
    assert_eq!(chain.config.composite_alpha, 1);
    assert_eq!(chain.config.pre_transform, 1);
    assert!(chain.config.clipped);
    assert!(chain.images.is_empty());
}

#[test]
fn swapchain_takes_images_and_framebuffers_of_matching_length() {
    let families = QueueFamilyIndices { graphics_family: Some(0), present_family: Some(0) };
    let support = SwapChainSupportDetail {
        capabilities: capabilities(2, 3),
        formats: vec![SurfaceFormat { format: 50, color_space: 0 }],
        present_modes: vec![2],
    };
    let mut chain = SwapChain::new(&support, Extent2D { width: 640, height: 480 }, &families).unwrap();
    assert_eq!(chain.attach_images(9, vec![1, 2], vec![3, 4]), Err(RenderError::ResourceCountMismatch));
    assert_eq!(chain.attach_images(9, vec![1, 2, 3], vec![4, 5]), Err(RenderError::ResourceCountMismatch));
    assert_eq!(chain.attach_images(9, vec![], vec![]), Err(RenderError::ResourceCountMismatch));
    assert_eq!(chain.swapchain, 0);
    assert_eq!(chain.attach_framebuffers(vec![]), Err(RenderError::ResourceCountMismatch));
    assert_eq!(chain.attach_images(9, vec![1, 2, 3], vec![4, 5, 6]), Ok(()));
    assert_eq!(chain.swapchain, 9);
    let infos = chain.create_framebuffer(70, 71, 72);
    assert_eq!(infos.len(), 3);
    assert_eq!(infos[1].render_pass, 70);
    assert_eq!(infos[1].depth_view, 71);
    assert_eq!(infos[1].color_view, 72);
    assert_eq!(infos[1].resolve_view, 5);
    assert_eq!((infos[1].width, infos[1].height, infos[1].layers), (640, 480, 1));
    assert_eq!(infos[1].attachments(), vec![72, 71, 5]);
    assert_eq!(chain.attach_framebuffers(vec![7, 8]), Err(RenderError::ResourceCountMismatch));
    assert_eq!(chain.attach_framebuffers(vec![7, 8, 9]), Ok(()));
    assert_eq!(chain.destroy_framebuffers(), vec![7, 8, 9]);
    assert!(chain.framebuffers.is_empty());
    assert_eq!(chain.destroy(), (vec![4, 5, 6], 9));
    assert!(chain.images.is_empty());
    assert_eq!(create_framebuffers(1, 2, 3, &vec![4], Extent2D { width: 5, height: 6 })[0].resolve_view, 4);
    let views = SwapChain::create_image_views(50, &vec![1, 2]);
    assert_eq!(views.len(), 2);
    assert_eq!((views[1].format, views[1].aspect, views[1].mip_levels), (50, 1, 1));
}

#[test]
fn render_pass_has_three_attachments() {
    let pass = RenderPass::new(50, 126, 4);
    assert_eq!(pass.pass, 0);
    assert_eq!(pass.color_attachment.format, 50);
    assert_eq!(pass.color_attachment.samples, 4);
    assert_eq!(pass.color_attachment.load_op, LoadOp::Clear);
    assert_eq!(pass.color_attachment.store_op, StoreOp::Store);
    assert_eq!(pass.color_attachment.final_layout, ImageLayout::ColorAttachmentOptimal);
    assert_eq!(pass.depth_attachment.format, 126);
    assert_eq!(pass.depth_attachment.samples, 4);
    assert_eq!(pass.depth_attachment.store_op, StoreOp::DontCare);
    assert_eq!(pass.depth_attachment.final_layout, ImageLayout::DepthStencilAttachmentOptimal);
    assert_eq!(pass.color_attachment_resolve.format, 50);
    assert_eq!(pass.color_attachment_resolve.samples, 1);
    assert_eq!(pass.color_attachment_resolve.load_op, LoadOp::DontCare);
    assert_eq!(pass.color_attachment_resolve.final_layout, ImageLayout::PresentSrc);
    assert_eq!(pass.color_attachment_ref.attachment, 0);
    assert_eq!(pass.depth_attachment_ref.attachment, 1);
    assert_eq!(pass.color_attachment_resolve_ref.attachment, 2);
    assert_eq!(pass.dependency.src_subpass, None);
    assert_eq!(pass.dependency.dst_subpass, 0);
    assert_eq!(pass.dependency.src_stage_mask, 0x400);
    assert_eq!(pass.dependency.dst_access_mask, 0x180);
    let made = pass.created(77);
    assert_eq!(made.pass, 77);
    assert_eq!(made.color_attachment, pass.color_attachment);
    let extent = Extent2D { width: 3, height: 2 };
    match made.begin(extent, 9) {
        Command::BeginRenderPass { render_pass, framebuffer, extent: area, clear } => {
            assert_eq!((render_pass, framebuffer, area), (77, 9, extent));
            assert_eq!((clear.red, clear.green, clear.blue, clear.alpha, clear.depth, clear.stencil), (0, 0, 0, 1, 1, 0));
        }
        other => panic!("unexpected command {:?}", other),
    }
    assert_eq!(made.end(), Command::EndRenderPass);
}

#[test]
fn pipeline_is_baked_to_the_extent() {
    let pipeline = GraphicPipeline::new(5, Extent2D { width: 800, height: 600 }, &vec![1, 2, 3], 128, 8);
    assert_eq!(pipeline.info.render_pass, 5);
    assert_eq!((pipeline.info.viewport.x, pipeline.info.viewport.y), (0, 0));
    assert_eq!((pipeline.info.viewport.width, pipeline.info.viewport.height), (800, 600));
    assert_eq!((pipeline.info.viewport.min_depth, pipeline.info.viewport.max_depth), (0, 1));
    assert_eq!(pipeline.info.scissor.extent, Extent2D { width: 800, height: 600 });
    assert_eq!(pipeline.info.rasterization_samples, 8);
    assert_eq!(pipeline.info.push_constants.size, 128);
    assert_eq!(pipeline.info.push_constants.stage_flags, 1);
    assert_eq!(pipeline.info.cull_mode, CullMode::Back);
    assert_eq!(pipeline.info.color_write_mask, 0xf);
    assert_eq!(pipeline.set_layouts, vec![1, 2, 3]);
    assert_eq!(pipeline.info.binding, get_binding_description());
    assert_eq!(get_binding_description().stride, 32);
    let attributes = get_attribute_descriptions();
    assert_eq!(pipeline.attributes, attributes);
    assert_eq!(attributes.len(), 3);
    assert_eq!((attributes[0].location, attributes[0].offset, attributes[0].format), (0, 0, 109));
    assert_eq!((attributes[1].location, attributes[1].offset, attributes[1].format), (1, 12, 109));
    assert_eq!((attributes[2].location, attributes[2].offset, attributes[2].format), (2, 24, 103));
    let mut made = pipeline;
    made.pipeline = 40;
    made.layout = 41;
    assert_eq!(made.bind(), Command::BindPipeline { pipeline: 40 });
    assert_eq!(made.destroy(), (40, 41));
}

#[test]
fn shader_code_must_be_whole_words() {
    assert!(matches!(Shader::from_spv(&vec![]), Err(RenderError::MisalignedShaderCode)));
    assert!(matches!(Shader::from_spv(&vec![1, 2, 3]), Err(RenderError::MisalignedShaderCode)));
    assert!(matches!(Shader::from_spv(&vec![1, 2, 3, 4, 5]), Err(RenderError::MisalignedShaderCode)));
    let shader = Shader::from_spv(&vec![0x03, 0x02, 0x23, 0x07, 0xff, 0xff, 0xff, 0xff]).unwrap();
    assert_eq!(shader.code, vec![0x0723_0203, 0xffff_ffff]);
    assert_eq!(shader.module, 0);
    assert_eq!(shader.code_size(), Some(8));
}

#[test]
fn attachments_follow_the_swapchain() {
    let extent = Extent2D { width: 320, height: 200 };
    let color = ColorImage::new(50, &extent, 4);
    assert_eq!((color.info.width, color.info.height), (320, 200));
    assert_eq!(color.info.format, 50);
    assert_eq!(color.info.samples, 4);
    assert_eq!(color.info.usage, 0x50);
    assert_eq!(color.info.memory_properties, 1);
    assert_eq!(color.info.tiling, ImageTiling::Optimal);
    assert_eq!(color.view.aspect, 1);
    let color = color.created(7, 8, 9);
    assert_eq!(color.destroy(), (8, 7, 9));
    let depth = DepthImage::new(126, &extent, 4);
    assert_eq!(depth.info.format, 126);
    assert_eq!(depth.info.usage, 0x20);
    assert_eq!(depth.view.aspect, 2);
    assert_eq!(depth.info.mip_levels, 1);
    assert_eq!(depth.created(1, 2, 3).destroy(), (2, 1, 3));
}

#[test]
fn depth_format_is_the_first_supported_candidate() {
    assert_eq!(DepthImage::depth_format_candidates(), vec![126, 130, 129]);
    let candidate = |format, linear, optimal| FormatCandidate { format, linear_tiling_features: linear, optimal_tiling_features: optimal };
    let candidates = vec![candidate(126, 0x200, 0x1), candidate(130, 0, 0x201), candidate(129, 0, 0x200)];
    assert_eq!(DepthImage::find_depth_format(&candidates), Ok(130));
    assert_eq!(DepthImage::find_supported_format(&candidates, ImageTiling::Linear, 0x200), Ok(126));
    assert_eq!(DepthImage::find_supported_format(&candidates, ImageTiling::Optimal, 0x201), Ok(130));
    assert_eq!(DepthImage::find_supported_format(&candidates, ImageTiling::Optimal, 0x400), Err(RenderError::NoSupportedFormat));
    assert_eq!(DepthImage::find_depth_format(&vec![]), Err(RenderError::NoSupportedFormat));
}

#[test]
fn memory_type_is_the_first_that_fits() {
    let types = vec![0x1, 0x6, 0x7, 0x6];
    assert_eq!(find_memory_type(0b1111, 0x6, &types), Ok(1));
    assert_eq!(find_memory_type(0b1101, 0x6, &types), Ok(2));
    assert_eq!(find_memory_type(0b1001, 0x6, &types), Ok(3));
    assert_eq!(find_memory_type(0b0001, 0x6, &types), Err(RenderError::NoMemoryType));
    assert_eq!(find_memory_type(0b1111, 0x8, &types), Err(RenderError::NoMemoryType));
    assert_eq!(find_memory_type(0b1111, 0x1, &vec![]), Err(RenderError::NoMemoryType));
    let many = vec![0u32; 40];
    assert_eq!(find_memory_type(u32::MAX, 0x1, &many), Err(RenderError::NoMemoryType));
    let mut last = vec![0u32; 32];
    last[31] = 0x1;
    assert_eq!(find_memory_type(0x8000_0000, 0x1, &last), Ok(31));
}

#[test]
fn buffers_have_usage_by_kind() {
    assert_eq!((Buffer::staging(10).usage, Buffer::staging(10).memory_properties), (0x1, 0x6));
    assert_eq!((Buffer::vertex(10).usage, Buffer::vertex(10).memory_properties), (0x82, 0x1));
    assert_eq!((Buffer::index(10).usage, Buffer::index(10).memory_properties), (0x42, 0x1));
    assert_eq!((Buffer::uniform(10).usage, Buffer::uniform(10).memory_properties), (0x10, 0x6));
    assert_eq!((Buffer::storage(10).usage, Buffer::storage(10).memory_properties), (0x20, 0x6));
    let buffer = Buffer::new(64, 0x10, 0x6).created(3, 4);
    assert_eq!(buffer.size, 64);
    assert_eq!(buffer.destroy(), (3, 4));
    assert!(buffer.fits(64));
    assert!(buffer.fits(0));
    assert!(!buffer.fits(65));
    let upload = VertexBuffer::new(3).unwrap();
    assert_eq!(upload.staging, Buffer::staging(96));
    assert_eq!(upload.target, Buffer::vertex(96));
    let upload = IndexBuffer::new(6).unwrap();
    assert_eq!(upload.staging, Buffer::staging(24));
    assert_eq!(upload.target, Buffer::index(24));
    let uniforms = UniformBuffer::new(3);
    assert_eq!(uniforms, vec![Buffer::uniform(192); 3]);
    let made = UniformBuffer { buffers: vec![1, 2], memory: vec![3, 4] };
    assert_eq!(made.destroy(), vec![1, 3, 2, 4]);
}

#[test]
fn texture_has_full_mip_chain() {
    let texture = Image::new(1024, 512).unwrap();
    assert_eq!(texture.mip_levels, 11);
    assert_eq!(texture.size, 1024 * 512 * 4);
    assert_eq!(texture.info.format, 43);
    assert_eq!(texture.info.usage, 0x7);
    assert_eq!(texture.info.mip_levels, 11);
    assert_eq!(Image::mip_levels(1, 1), 1);
    assert_eq!(Image::mip_levels(0, 0), 1);
    assert_eq!(Image::mip_levels(2, 1), 2);
    assert_eq!(Image::mip_levels(3, 3), 2);
    assert_eq!(Image::mip_levels(4, 1), 3);
    assert_eq!(Image::mip_levels(1000, 1023), 10);
    assert_eq!(Image::mip_levels(u32::MAX, 1), 32);
    for size in [1u32, 2, 3, 7, 8, 100, 255, 256, 4096, 65535] {
        assert_eq!(Image::mip_levels(size, 1), (size as f32).log2().floor() as u32 + 1);
    }
    assert_eq!(Image::new(0, 512).err(), Some(RenderError::BadTextureSize));
    assert_eq!(Image::new(65536, 65536).err(), Some(RenderError::BadTextureSize));
    assert_eq!(Image::new(32768, 32768).err(), Some(RenderError::BadTextureSize));
    assert!(Image::new(32768, 32767).is_ok());
    assert_eq!(Image::create_texture_sampler(11).max_lod, 11);
    assert_eq!(Image::create_texture_image_view(1).aspect, 1);
    assert_eq!(Image::copy_buffer_to_image(4, 5).depth, 1);
}

#[test]
fn layout_transitions_have_fixed_masks() {
    let first = Image::transition_image_layout(ImageLayout::Undefined, ImageLayout::TransferDstOptimal, 5).unwrap();
    assert_eq!((first.src_access_mask, first.dst_access_mask), (0, 0x1000));
    assert_eq!((first.src_stage, first.dst_stage), (0x1, 0x1000));
    assert_eq!((first.base_mip_level, first.level_count), (0, 5));
    let second = Image::transition_image_layout(ImageLayout::TransferDstOptimal, ImageLayout::ShaderReadOnlyOptimal, 1).unwrap();
    assert_eq!((second.src_access_mask, second.dst_access_mask), (0x1000, 0x20));
    assert_eq!((second.src_stage, second.dst_stage), (0x1000, 0x80));
    let third = Image::transition_image_layout(ImageLayout::Undefined, ImageLayout::ColorAttachmentOptimal, 1).unwrap();
    assert_eq!((third.src_access_mask, third.dst_access_mask), (0, 0x180));
    assert_eq!((third.src_stage, third.dst_stage), (0x1, 0x400));
    assert_eq!(
        Image::transition_image_layout(ImageLayout::ShaderReadOnlyOptimal, ImageLayout::Undefined, 1),
        Err(RenderError::UnsupportedLayoutTransition)
    );
}

#[test]
fn mip_chain_is_blitted_level_by_level() {
    let steps = Image::generate_mipmaps(8, 2, 4);
    assert_eq!(steps.len(), 3 * 3 + 1);
    match steps[0] {
        MipStep::Barrier(barrier) => {
            assert_eq!(barrier.base_mip_level, 0);
            assert_eq!(barrier.old_layout, ImageLayout::TransferDstOptimal);
            assert_eq!(barrier.new_layout, ImageLayout::TransferSrcOptimal);
            assert_eq!((barrier.src_access_mask, barrier.dst_access_mask), (0x1000, 0x800));
        }
        other => panic!("unexpected step {:?}", other),
    }
    assert_eq!(steps[1], MipStep::Blit { src_level: 0, src_width: 8, src_height: 2, dst_level: 1, dst_width: 4, dst_height: 1 });
    assert_eq!(steps[4], MipStep::Blit { src_level: 1, src_width: 4, src_height: 1, dst_level: 2, dst_width: 2, dst_height: 1 });
    assert_eq!(steps[7], MipStep::Blit { src_level: 2, src_width: 2, src_height: 1, dst_level: 3, dst_width: 1, dst_height: 1 });
    match steps[8] {
        MipStep::Barrier(barrier) => {
            assert_eq!(barrier.base_mip_level, 2);
            assert_eq!(barrier.new_layout, ImageLayout::ShaderReadOnlyOptimal);
            assert_eq!((barrier.src_stage, barrier.dst_stage), (0x1000, 0x80));
        }
        other => panic!("unexpected step {:?}", other),
    }
    match steps[9] {
        MipStep::Barrier(barrier) => {
            assert_eq!(barrier.base_mip_level, 3);
            assert_eq!(barrier.old_layout, ImageLayout::TransferDstOptimal);
            assert_eq!(barrier.new_layout, ImageLayout::ShaderReadOnlyOptimal);
        }
        other => panic!("unexpected step {:?}", other),
    }
    assert_eq!(Image::generate_mipmaps(8, 8, 1).len(), 1);
    assert_eq!(check_mipmap_support(0x1000), Ok(()));
    assert_eq!(check_mipmap_support(0x0fff), Err(RenderError::NoLinearBlit));
}

#[test]
fn sync_objects_need_one_of_each_per_slot() {
    assert_eq!(MAX_FRAMES_IN_FLIGHT, 2);
    assert!(SyncObjects::fences_start_signaled());
    assert!(matches!(SyncObjects::new(vec![1], vec![2, 3], vec![4, 5]), Err(RenderError::ResourceCountMismatch)));
    assert!(matches!(SyncObjects::new(vec![1, 2], vec![3, 4], vec![5, 6, 7]), Err(RenderError::ResourceCountMismatch)));
    let ring = SyncObjects::new(vec![1, 2], vec![3, 4], vec![5, 6]).unwrap();
    assert_eq!(ring.destroy(), vec![1, 3, 5, 2, 4, 6]);
}

#[test]
fn command_pool_uses_the_graphics_family() {
    let families = QueueFamilyIndices { graphics_family: Some(2), present_family: None };
    let mut pool = CommandPool::new(&families).unwrap();
    assert_eq!(pool.queue_family_index, 2);
    assert_eq!(create_command_pool(&families).unwrap().queue_family_index, 2);
    assert!(matches!(CommandPool::new(&QueueFamilyIndices::new()), Err(RenderError::MissingQueueFamily)));
    pool.pool = 55;
    assert_eq!(
        pool.allocate_buffers(&vec![1, 2, 3]),
        Ok(CommandBufferAllocateInfo {
            command_pool: 55,
            level: CommandBufferLevel::Primary,
            command_buffer_count: 3,
        })
    );
    assert_eq!(pool.allocate_buffers(&vec![]).unwrap().command_buffer_count, 0);
    assert!(pool.buffers.is_empty());
    assert_eq!(pool.attach_buffers(&vec![1, 2, 3], vec![7, 8]), Err(RenderError::ResourceCountMismatch));
    assert_eq!(pool.attach_buffers(&vec![1, 2, 3], vec![7, 8, 9, 10]), Err(RenderError::ResourceCountMismatch));
    assert!(pool.buffers.is_empty());
    assert_eq!(pool.attach_buffers(&vec![1, 2, 3], vec![7, 8, 9]), Ok(()));
    assert_eq!(pool.buffers, vec![7, 8, 9]);
    assert_eq!(pool.get_buffer(1), Some(8));
    assert_eq!(pool.get_buffer(3), None);
    assert_eq!(pool.attach_buffers(&vec![1, 2], vec![20, 21]), Ok(()));
    assert_eq!(pool.buffers, vec![20, 21]);
    assert_eq!((pool.pool, pool.queue_family_index), (55, 2));
    assert_eq!(pool.attach_buffers(&vec![1, 2], vec![30]), Err(RenderError::ResourceCountMismatch));
    assert_eq!(pool.buffers, vec![20, 21]);
    assert_eq!(pool.free_buffers(), vec![20, 21]);
    assert!(pool.buffers.is_empty());
    assert_eq!(pool.pool, 55);
}

#[test]
fn one_command_buffer_is_recorded_per_framebuffer() {
    let extent = Extent2D { width: 4, height: 4 };
    let drawable = Drawable { vertex_buffer: 1, index_buffer: 2, index_count: 3, instance_count: 4, descriptor_set: 5, transform: 6 };
    let sequence = record(10, 11, 12, &vec![20, 21, 22], extent, &vec![drawable]);
    assert_eq!(sequence.len(), 3);
    assert_eq!(sequence[2], record_frame(10, 11, 12, 22, extent, &vec![drawable]));
    assert_eq!(sequence[0].len(), 10);
    assert_eq!(sequence[0][7], Command::DrawIndexed { index_count: 3, instance_count: 4 });
    assert!(record(10, 11, 12, &vec![], extent, &vec![drawable]).is_empty());
    let empty = record_frame(10, 11, 12, 20, extent, &vec![]);
    assert_eq!(empty.len(), 5);
    assert_eq!(empty[3], Command::EndRenderPass);
    let old = create_command_buffers(11, 12, &vec![20, 21], 10, extent, 1, 2, &vec![30, 31, 32], 36).unwrap();
    assert_eq!(old.len(), 2);
    assert_eq!(old[1].len(), 9);
    assert_eq!(old[1][5], Command::BindDescriptorSet { layout: 12, set: 31 });
    assert_eq!(old[1][6], Command::DrawIndexed { index_count: 36, instance_count: 1 });
    assert_eq!(create_command_buffers(11, 12, &vec![20, 21], 10, extent, 1, 2, &vec![30], 36), Err(RenderError::ResourceCountMismatch));
}

#[test]
fn orders_respect_dependencies() {
    let construction = construction_steps();
    let position = |order: &Vec<Resource>, resource: Resource| order.iter().position(|r| *r == resource).unwrap();
    assert_eq!(construction.len(), 17);
    assert!(position(&construction, Resource::Swapchain) < position(&construction, Resource::Attachments));
    assert!(position(&construction, Resource::RenderPass) < position(&construction, Resource::Framebuffers));
    assert!(position(&construction, Resource::RenderPass) < position(&construction, Resource::Pipeline));
    assert_eq!(construction[16], Resource::CommandBuffers);
    assert_eq!(
        rebuild_steps(),
        vec![Resource::Swapchain, Resource::Attachments, Resource::RenderPass, Resource::Framebuffers, Resource::Pipeline, Resource::CommandBuffers]
    );
    assert_eq!(
        teardown_steps(),
        vec![Resource::CommandBuffers, Resource::Framebuffers, Resource::Pipeline, Resource::RenderPass, Resource::Attachments, Resource::Swapchain]
    );
    let shutdown = shutdown_steps();
    assert_eq!(shutdown.len(), 17);
    assert_eq!(shutdown[0], Resource::SyncObjects);
    assert!(position(&shutdown, Resource::Pipeline) < position(&shutdown, Resource::DescriptorLayouts));
    assert!(position(&shutdown, Resource::CommandBuffers) < position(&shutdown, Resource::CommandPool));
    assert!(position(&shutdown, Resource::Device) < position(&shutdown, Resource::Surface));
}

#[test]
fn keys_move_the_camera() {
    let mut input = InputManager::new();
    assert_eq!(input.input, 0);
    assert_eq!(input.direction(), Direction { x: 0, y: 0, z: 0 });
    input.register(87);
    assert_eq!(input.input, 87);
    assert_eq!(input.direction(), Direction { x: 0, y: 0, z: -1 });
    input.register(83);
    assert_eq!(input.direction(), Direction { x: 0, y: 0, z: 1 });
    input.register(65);
    assert_eq!(input.direction(), Direction { x: 1, y: 0, z: 0 });
    input.register(68);
    assert_eq!(input.direction(), Direction { x: -1, y: 0, z: 0 });
    input.register(74);
    assert_eq!(input.direction(), Direction { x: 0, y: 1, z: 0 });
    input.register(75);
    assert_eq!(input.direction(), Direction { x: 0, y: -1, z: 0 });
    input.register(0);
    assert_eq!(input.direction(), Direction { x: 0, y: 0, z: 0 });
}

#[test]
fn window_messages_become_events() {
    assert_eq!(rail::input::WM_QUIT, windows::Win32::UI::WindowsAndMessaging::WM_QUIT);
    assert_eq!(rail::input::WM_KEYDOWN, windows::Win32::UI::WindowsAndMessaging::WM_KEYDOWN);
    assert_eq!(rail::input::WM_KEYUP, windows::Win32::UI::WindowsAndMessaging::WM_KEYUP);
    assert_eq!(rail::input::WM_SIZE, windows::Win32::UI::WindowsAndMessaging::WM_SIZE);
    let mut input = InputManager::new();
    assert_eq!(input.handle_message(0x0100, 65, 0), WindowEvent::Idle);
    assert_eq!(input.input, 65);
    assert_eq!(input.handle_message(0x0200, 70, 0), WindowEvent::Idle);
    assert_eq!(input.input, 65);
    assert_eq!(input.handle_message(0x0005, 70, (600 << 16) | 800), WindowEvent::Resized { width: 800, height: 600 });
    assert_eq!(input.input, 65);
    assert_eq!(input.handle_message(0x0101, 65, 0), WindowEvent::Idle);
    assert_eq!(input.input, 0);
    assert_eq!(input.handle_message(0x0005, 0, 0), WindowEvent::Resized { width: 0, height: 0 });
    assert_eq!(input.handle_message(0x0012, 9, 9), WindowEvent::Quit);
    assert_eq!(input.input, 0);
}

#[test]
fn descriptors_point_at_buffers_and_images() {
    let layout = DescriptorLayout::drawable();
    assert_eq!(layout.bindings.len(), 2);
    assert_eq!((layout.bindings[0].binding, layout.bindings[0].descriptor_type, layout.bindings[0].stage_flags), (0, 6, 0x1));
    assert_eq!((layout.bindings[1].binding, layout.bindings[1].descriptor_type, layout.bindings[1].stage_flags), (1, 1, 0x10));
    let mut pool = DescriptorPool::new(&layout, 3).unwrap();
    assert_eq!(pool.max_sets, 3);
    assert_eq!(pool.pool_sizes.len(), 2);
    assert_eq!((pool.pool_sizes[0].ty, pool.pool_sizes[0].descriptor_count), (6, 3));
    assert_eq!((pool.pool_sizes[1].ty, pool.pool_sizes[1].descriptor_count), (1, 3));
    let mut wide = DescriptorLayout::new(layout.bindings.clone());
    wide.bindings[1].descriptor_count = 0x8000_0000;
    assert!(matches!(DescriptorPool::new(&wide, 2), Err(RenderError::ResourceCountMismatch)));
    assert_eq!(pool.create_sets(vec![1, 2]), Err(RenderError::ResourceCountMismatch));
    assert_eq!(pool.create_sets(vec![1, 2, 3]), Ok(()));
    assert_eq!(pool.sets, vec![1, 2, 3]);
    assert_eq!(pool.bind(50, 1), Some(Command::BindDescriptorSet { layout: 50, set: 2 }));
    assert_eq!(pool.bind(50, 3), None);
    let info = DescriptorInfo::buffer(9);
    assert_eq!(info, DescriptorInfo::Buffer { buffer: 9, offset: 0, range: u64::MAX });
    let image = DescriptorInfo::image(4, 5);
    assert_eq!(image, DescriptorInfo::Image { sampler: 4, image_view: 5, image_layout: ImageLayout::ShaderReadOnlyOptimal });
    let write = descriptor_write(1, 6, &info, 0, 1);
    assert_eq!((write.dst_set, write.descriptor_type, write.dst_binding, write.descriptor_count), (1, 6, 0, 1));
    assert_eq!(write.info, info);
}

fn bits(numbers: &[f32]) -> Vec<u32> {
    numbers.iter().map(|number| number.to_bits()).collect()
}

#[test]
fn vertices_are_put_together_from_the_file() {
    let first = ObjMesh {
        positions: bits(&[0.0, 1.0, 2.0, 3.0, 4.0, 5.0, 9.0]),
        texcoords: bits(&[0.5, 0.25, 0.75, 1.0]),
        indices: vec![0, 1, 1],
    };
    let second = ObjMesh {
        positions: bits(&[-1.0, -2.0, -3.0]),
        texcoords: bits(&[0.125, 0.0, 7.0]),
        indices: vec![0],
    };
    let vertices = first.vertices().unwrap();
    assert_eq!(vertices.len(), 2);
    assert_eq!(vertices[1].pos.map(f32::from_bits), [3.0, 4.0, 5.0]);
    assert_eq!(vertices[1].color.map(f32::from_bits), [1.0, 1.0, 1.0]);
    assert_eq!(vertices[1].tex_coord.map(f32::from_bits), [0.75, 1.0]);
    let model = Model::from_obj(&vec![first, second]).unwrap();
    assert_eq!(model.vertices.len(), 3);
    assert_eq!(model.vertices[0].tex_coord.map(f32::from_bits), [0.5, 0.25]);
    assert_eq!(model.vertices[2].pos.map(f32::from_bits), [-1.0, -2.0, -3.0]);
    assert_eq!(model.vertices[2].tex_coord.map(f32::from_bits), [0.125, 0.0]);
    assert_eq!(model.indices, vec![0]);
    let empty = Model::from_obj(&vec![]).unwrap();
    assert!(empty.vertices.is_empty());
    assert!(empty.indices.is_empty());
    let bare = ObjMesh { positions: bits(&[0.0, 1.0, 2.0]), texcoords: vec![], indices: vec![0] };
    assert_eq!(bare.vertices().err(), Some(RenderError::BadModel));
    let short = ObjMesh { positions: bits(&[0.0; 6]), texcoords: bits(&[0.0; 3]), indices: vec![] };
    assert_eq!(Model::from_obj(&vec![short]).err(), Some(RenderError::BadModel));
    let bindings = Vertex::get_binding_descriptions();
    assert_eq!((bindings[0].binding, bindings[0].stride), (0, 32));
    let attributes = Vertex::get_attribute_descriptions();
    assert_eq!(attributes.to_vec(), get_attribute_descriptions());
}

#[test]
fn mesh_sizes_follow_the_model() {
    let vertex = Vertex { pos: [0; 3], color: [0; 3], tex_coord: [0; 2] };
    let model = Model { vertices: vec![vertex; 3], indices: vec![0, 1, 2] };
    let mesh = Mesh::from_obj(&model).unwrap();
    assert_eq!(mesh.index_count, 3);
    assert_eq!(mesh.vertex_buffer, Buffer::vertex(96));
    assert_eq!(mesh.index_buffer, Buffer::index(12));
    let made = Mesh { vertex_buffer: Buffer::vertex(96).created(1, 2), index_buffer: Buffer::index(12).created(3, 4), ..mesh };
    assert_eq!(made.bind(), (Command::BindVertexBuffer { buffer: 1 }, Command::BindIndexBuffer { buffer: 3 }));
    assert_eq!(made.draw(2), Command::DrawIndexed { index_count: 3, instance_count: 2 });
    let drawable = made.drawable(8, 1);
    assert_eq!(drawable, Drawable { vertex_buffer: 1, index_buffer: 3, index_count: 3, instance_count: 1, descriptor_set: 8, transform: 1 });
}
