//! Negotiating a swapchain with the surface, and the chain's images.

use vstd::prelude::*;
use crate::constants::{
    COLOR_SPACE_SRGB_NONLINEAR, COMPOSITE_ALPHA_OPAQUE, EXTENT_UNDEFINED, FORMAT_B8G8R8A8_SRGB,
    IMAGE_ASPECT_COLOR, IMAGE_USAGE_COLOR_ATTACHMENT, PRESENT_MODE_FIFO, PRESENT_MODE_MAILBOX,
};
use crate::device::QueueFamilyIndices;
use crate::error::RenderError;
use crate::image::ImageViewInfo;

verus! {

/// A width and a height in pixels.
#[derive(Clone, Copy, Debug, PartialEq, Eq, Structural)]
pub struct Extent2D {
    pub width: u32,
    pub height: u32,
}

impl Extent2D {
    /// Whether the extent holds no pixel.
    pub open spec fn empty(&self) -> bool {
        self.width == 0 || self.height == 0
    }

    /// The ratio of width to height as a pair of whole numbers, for an
    /// extent that holds a pixel. An extent without pixels has no ratio.
    pub fn aspect_ratio(&self) -> (ratio: Option<(u32, u32)>)
        ensures
            ratio == if self.empty() {
                None
            } else {
                Some((self.width, self.height))
            },
    {
        if self.width == 0 || self.height == 0 {
            None
        } else {
            Some((self.width, self.height))
        }
    }
}

/// A pixel format together with the colour space it is shown in.
#[derive(Clone, Copy, Debug, PartialEq, Eq, Structural)]
pub struct SurfaceFormat {
    pub format: i32,
    pub color_space: i32,
}

/// The limits that a surface sets for a swapchain.
#[derive(Clone, Copy, Debug, PartialEq, Eq, Structural)]
pub struct SurfaceCapabilities {
    pub min_image_count: u32,
    /// Zero where the surface sets no upper limit.
    pub max_image_count: u32,
    /// The surface's size, or a width of `EXTENT_UNDEFINED` where the
    /// swapchain decides the size.
    pub current_extent: Extent2D,
    pub min_image_extent: Extent2D,
    pub max_image_extent: Extent2D,
    pub current_transform: u32,
}

/// All that a surface says about the swapchains it can show.
pub struct SwapChainSupportDetail {
    pub capabilities: SurfaceCapabilities,
    pub formats: Vec<SurfaceFormat>,
    pub present_modes: Vec<i32>,
}

/// Which queue families may touch the swapchain's images.
#[derive(Clone, Copy, Debug, PartialEq, Eq, Structural)]
pub enum SharingMode {
    /// One family owns an image at a time.
    Exclusive,
    /// The drawing and the presenting family use the images side by side.
    Concurrent { graphics_family: u32, present_family: u32 },
}

/// The parameters that a swapchain is created with.
#[derive(Clone, Copy, Debug, PartialEq, Eq, Structural)]
pub struct SwapchainConfig {
    pub min_image_count: u32,
    pub format: SurfaceFormat,
    pub extent: Extent2D,
    pub image_array_layers: u32,
    pub image_usage: u32,
    pub sharing: SharingMode,
    pub pre_transform: u32,
    pub composite_alpha: u32,
    pub present_mode: i32,
    pub clipped: bool,
}

/// The format that the renderer likes best.
pub open spec fn preferred_format() -> SurfaceFormat {
    SurfaceFormat { format: FORMAT_B8G8R8A8_SRGB, color_space: COLOR_SPACE_SRGB_NONLINEAR }
}

/// The format to use of those on offer: the preferred one where it is among
/// them, else the first.
pub open spec fn chosen_format(formats: Seq<SurfaceFormat>) -> SurfaceFormat
    recommends
        formats.len() > 0,
{
    if formats.contains(preferred_format()) {
        preferred_format()
    } else {
        formats[0]
    }
}

/// The present mode to use of those on offer: mailbox where it is among them,
/// else first in, first out.
pub open spec fn chosen_present_mode(modes: Seq<i32>) -> i32 {
    if modes.contains(PRESENT_MODE_MAILBOX) {
        PRESENT_MODE_MAILBOX
    } else {
        PRESENT_MODE_FIFO
    }
}

/// `input` moved into the range from `min` to `max`.
pub open spec fn clamped(input: u32, min: u32, max: u32) -> u32 {
    if input < min {
        min
    } else if input > max {
        max
    } else {
        input
    }
}

/// The extent that a swapchain starts from: the surface's own size where it
/// has one, else the window's size.
pub open spec fn wanted_extent(capabilities: SurfaceCapabilities, size: Extent2D) -> Extent2D {
    if capabilities.current_extent.width != EXTENT_UNDEFINED {
        capabilities.current_extent
    } else {
        size
    }
}

/// The extent of a swapchain for a window of the given size: the extent it
/// starts from, moved into the surface's limits on each axis.
pub open spec fn chosen_extent(capabilities: SurfaceCapabilities, size: Extent2D) -> Extent2D {
    Extent2D {
        width: clamped(
            wanted_extent(capabilities, size).width,
            capabilities.min_image_extent.width,
            capabilities.max_image_extent.width,
        ),
        height: clamped(
            wanted_extent(capabilities, size).height,
            capabilities.min_image_extent.height,
            capabilities.max_image_extent.height,
        ),
    }
}

/// The number of images to ask for: one more than the surface's minimum, but
/// no more than its maximum where it has one.
pub open spec fn chosen_image_count(capabilities: SurfaceCapabilities) -> int {
    let wanted = capabilities.min_image_count + 1;
    if capabilities.max_image_count > 0 && wanted > capabilities.max_image_count {
        capabilities.max_image_count as int
    } else {
        wanted
    }
}

/// How the images are shared between the two queue families.
pub open spec fn chosen_sharing(families: QueueFamilyIndices) -> SharingMode
    recommends
        families.complete(),
{
    if families.graphics_family != families.present_family {
        SharingMode::Concurrent {
            graphics_family: families.graphics_family->0,
            present_family: families.present_family->0,
        }
    } else {
        SharingMode::Exclusive
    }
}

impl SurfaceCapabilities {
    /// The limits do not contradict each other: each minimum is at most its
    /// maximum, and one image more than the minimum can be counted.
    pub open spec fn wf(&self) -> bool {
        &&& self.min_image_extent.width <= self.max_image_extent.width
        &&& self.min_image_extent.height <= self.max_image_extent.height
        &&& self.min_image_count < u32::MAX
        &&& (self.max_image_count == 0 || self.min_image_count <= self.max_image_count)
    }

    /// Whether the limits are free of contradiction.
    pub fn is_valid(&self) -> (valid: bool)
        ensures
            valid == self.wf(),
    {
        self.min_image_extent.width <= self.max_image_extent.width
            && self.min_image_extent.height <= self.max_image_extent.height
            && self.min_image_count < u32::MAX && (self.max_image_count == 0
            || self.min_image_count <= self.max_image_count)
    }

    /// Whether `extent` lies within the limits on both axes.
    pub open spec fn admits(&self, extent: Extent2D) -> bool {
        &&& self.min_image_extent.width <= extent.width <= self.max_image_extent.width
        &&& self.min_image_extent.height <= extent.height <= self.max_image_extent.height
    }
}

/// The parameters of the swapchain for a surface and a window size, or the
/// reason why the surface cannot be drawn to.
pub open spec fn negotiated(
    capabilities: SurfaceCapabilities,
    formats: Seq<SurfaceFormat>,
    present_modes: Seq<i32>,
    size: Extent2D,
    families: QueueFamilyIndices,
) -> Result<SwapchainConfig, RenderError> {
    if formats.len() == 0 {
        Err(RenderError::NoSurfaceFormat)
    } else if present_modes.len() == 0 {
        Err(RenderError::NoPresentMode)
    } else if !capabilities.wf() {
        Err(RenderError::UnsupportedSurface)
    } else if !families.complete() {
        Err(RenderError::MissingQueueFamily)
    } else {
        Ok(
            SwapchainConfig {
                min_image_count: chosen_image_count(capabilities) as u32,
                format: chosen_format(formats),
                extent: chosen_extent(capabilities, size),
                image_array_layers: 1,
                image_usage: IMAGE_USAGE_COLOR_ATTACHMENT,
                sharing: chosen_sharing(families),
                pre_transform: capabilities.current_transform,
                composite_alpha: COMPOSITE_ALPHA_OPAQUE,
                present_mode: chosen_present_mode(present_modes),
                clipped: true,
            },
        )
    }
}

/// Moves `input` into the range from `min` to `max`.
///
/// Calls `num::clamp`, which returns `min` for an input below it, `max` for
/// one above it and the input otherwise, and which in a debug build panics
/// when `min` exceeds `max`.
#[verifier::external_body]
fn clamp_u32(input: u32, min: u32, max: u32) -> (bounded: u32)
    requires
        min <= max,
    ensures
        bounded == clamped(input, min, max),
{
    num::clamp(input, min, max)
}

/// One framebuffer to create: the render pass it is for, the views bound to
/// the pass's three attachments, and its size.
#[derive(Clone, Copy, Debug, PartialEq, Eq, Structural)]
pub struct FramebufferInfo {
    pub render_pass: u64,
    /// The multisampled colour target.
    pub color_view: u64,
    /// The depth target.
    pub depth_view: u64,
    /// The swapchain image that the colour target is resolved into.
    pub resolve_view: u64,
    pub width: u32,
    pub height: u32,
    pub layers: u32,
}

/// The views of a framebuffer in the order of the render pass's attachments:
/// the colour target, the depth target, the resolve target.
pub open spec fn attachments_of(info: FramebufferInfo) -> Seq<u64> {
    seq![info.color_view, info.depth_view, info.resolve_view]
}

impl FramebufferInfo {
    /// The views to bind, in the order of the render pass's attachments.
    pub fn attachments(&self) -> (views: Vec<u64>)
        ensures
            views@ == attachments_of(*self),
            views@.len() == 3,
            views@[crate::render_pass::ATTACHMENT_COLOR as int] == self.color_view,
            views@[crate::render_pass::ATTACHMENT_DEPTH as int] == self.depth_view,
            views@[crate::render_pass::ATTACHMENT_RESOLVE as int] == self.resolve_view,
    {
        let mut views: Vec<u64> = Vec::new();
        views.push(self.color_view);
        views.push(self.depth_view);
        views.push(self.resolve_view);
        views
    }
}

/// The framebuffer for one swapchain image view.
pub open spec fn framebuffer_for(
    render_pass: u64,
    depth_image_view: u64,
    color_image_view: u64,
    image_view: u64,
    extent: Extent2D,
) -> FramebufferInfo {
    FramebufferInfo {
        render_pass,
        color_view: color_image_view,
        depth_view: depth_image_view,
        resolve_view: image_view,
        width: extent.width,
        height: extent.height,
        layers: 1,
    }
}

/// A swapchain: the parameters it was negotiated with and, once the driver
/// has made it, its images, their views and the framebuffers drawn into.
pub struct SwapChain {
    pub config: SwapchainConfig,
    pub swapchain: u64,
    pub images: Vec<u64>,
    pub imageviews: Vec<u64>,
    pub framebuffers: Vec<u64>,
}

impl SwapChain {
    /// Every image has its view, and there are framebuffers for all views or
    /// for none.
    pub open spec fn wf(&self) -> bool {
        &&& self.images@.len() == self.imageviews@.len()
        &&& self.images@.len() <= u32::MAX
        &&& (self.framebuffers@.len() == 0 || self.framebuffers@.len() == self.imageviews@.len())
    }

    /// The driver has made the chain's images.
    pub open spec fn has_images(&self) -> bool {
        self.images@.len() > 0
    }

    /// Every image view has its framebuffer.
    pub open spec fn has_framebuffers(&self) -> bool {
        self.framebuffers@.len() > 0 && self.framebuffers@.len() == self.imageviews@.len()
    }

    /// Negotiates a swapchain for a window of `size` with what the surface
    /// supports. The chain has no images yet: the driver makes them from
    /// `config`, and `attach_images` takes them in.
    ///
    /// Fails where the surface offers no format or no present mode, where its
    /// limits contradict each other, and where a queue family is missing.
    pub fn new(
        support: &SwapChainSupportDetail,
        size: Extent2D,
        families: &QueueFamilyIndices,
    ) -> (chain: Result<SwapChain, RenderError>)
        ensures
            (match negotiated(
                support.capabilities,
                support.formats@,
                support.present_modes@,
                size,
                *families,
            ) {
                Ok(config) => chain is Ok && chain->Ok_0.config == config
                    && chain->Ok_0.swapchain == 0 && chain->Ok_0.images@.len() == 0
                    && chain->Ok_0.imageviews@.len() == 0 && chain->Ok_0.framebuffers@.len()
                    == 0,
                Err(error) => chain == Err::<SwapChain, RenderError>(error),
            }),
            chain is Ok ==> chain->Ok_0.wf(),
            chain is Ok ==> support.capabilities.admits(chain->Ok_0.config.extent),
    {
        if support.formats.len() == 0 {
            return Err(RenderError::NoSurfaceFormat);
        }
        if support.present_modes.len() == 0 {
            return Err(RenderError::NoPresentMode);
        }
        if !support.capabilities.is_valid() {
            return Err(RenderError::UnsupportedSurface);
        }
        if !families.is_complete() {
            return Err(RenderError::MissingQueueFamily);
        }
        let surface_format = Self::choose_swapchain_format(&support.formats);
        let present_mode = Self::choose_swapchain_present_mode(&support.present_modes);
        let extent = Self::choose_swapchain_extent(&support.capabilities, size);
        let image_count = Self::choose_image_count(&support.capabilities);
        let sharing = Self::choose_sharing_mode(families);
        Ok(
            SwapChain {
                config: SwapchainConfig {
                    min_image_count: image_count,
                    format: surface_format,
                    extent,
                    image_array_layers: 1,
                    image_usage: IMAGE_USAGE_COLOR_ATTACHMENT,
                    sharing,
                    pre_transform: support.capabilities.current_transform,
                    composite_alpha: COMPOSITE_ALPHA_OPAQUE,
                    present_mode,
                    clipped: true,
                },
                swapchain: 0,
                images: Vec::new(),
                imageviews: Vec::new(),
                framebuffers: Vec::new(),
            },
        )
    }

    /// The views to create, one of each image in order: its colour, in the
    /// swapchain's format, without further mip levels.
    pub fn create_image_views(surface_format: i32, images: &Vec<u64>) -> (views: Vec<
        ImageViewInfo,
    >)
        ensures
            views@.len() == images@.len(),
            forall|i: int|
                0 <= i < views@.len() ==> views@[i] == (ImageViewInfo {
                    format: surface_format,
                    aspect: IMAGE_ASPECT_COLOR,
                    mip_levels: 1,
                }),
    {
        let mut views: Vec<ImageViewInfo> = Vec::new();
        let mut i: usize = 0;
        while i < images.len()
            invariant
                i <= images@.len(),
                views@.len() == i,
                forall|j: int|
                    0 <= j < i ==> views@[j] == (ImageViewInfo {
                        format: surface_format,
                        aspect: IMAGE_ASPECT_COLOR,
                        mip_levels: 1,
                    }),
            decreases images@.len() - i,
        {
            views.push(
                ImageViewInfo { format: surface_format, aspect: IMAGE_ASPECT_COLOR, mip_levels: 1 },
            );
            i += 1;
        }
        views
    }

    /// Picks the pixel format: the preferred one where the surface offers it,
    /// else the first on offer.
    pub fn choose_swapchain_format(available_formats: &Vec<SurfaceFormat>) -> (format:
        SurfaceFormat)
        requires
            available_formats@.len() > 0,
        ensures
            format == chosen_format(available_formats@),
    {
        let mut i: usize = 0;
        while i < available_formats.len()
            invariant
                i <= available_formats@.len(),
                forall|j: int| 0 <= j < i ==> available_formats@[j] != preferred_format(),
            decreases available_formats@.len() - i,
        {
            let available_format = available_formats[i];
            if available_format.format == FORMAT_B8G8R8A8_SRGB && available_format.color_space
                == COLOR_SPACE_SRGB_NONLINEAR {
                return available_format;
            }
            i += 1;
        }
        available_formats[0]
    }

    /// Picks the present mode: mailbox where the surface offers it, else
    /// first in, first out.
    pub fn choose_swapchain_present_mode(available_present_modes: &Vec<i32>) -> (mode: i32)
        ensures
            mode == chosen_present_mode(available_present_modes@),
    {
        let mut i: usize = 0;
        while i < available_present_modes.len()
            invariant
                i <= available_present_modes@.len(),
                forall|j: int|
                    0 <= j < i ==> available_present_modes@[j] != PRESENT_MODE_MAILBOX,
            decreases available_present_modes@.len() - i,
        {
            let available_present_mode = available_present_modes[i];
            if available_present_mode == PRESENT_MODE_MAILBOX {
                return available_present_mode;
            }
            i += 1;
        }
        PRESENT_MODE_FIFO
    }

    /// Picks the extent: the surface's own size where it has one, else the
    /// window's size, moved into the surface's limits on each axis. An
    /// extent within the limits is taken as it is; one outside them, as a
    /// minimised window has, is moved to the nearer limit.
    pub fn choose_swapchain_extent(capabilities: &SurfaceCapabilities, size: Extent2D) -> (extent:
        Extent2D)
        requires
            capabilities.min_image_extent.width <= capabilities.max_image_extent.width,
            capabilities.min_image_extent.height <= capabilities.max_image_extent.height,
        ensures
            extent == chosen_extent(*capabilities, size),
            capabilities.admits(extent),
    {
        let wanted = if capabilities.current_extent.width != EXTENT_UNDEFINED {
            capabilities.current_extent
        } else {
            size
        };
        Extent2D {
            width: clamp_u32(
                wanted.width,
                capabilities.min_image_extent.width,
                capabilities.max_image_extent.width,
            ),
            height: clamp_u32(
                wanted.height,
                capabilities.min_image_extent.height,
                capabilities.max_image_extent.height,
            ),
        }
    }

    /// Picks the number of images to ask the surface for.
    pub fn choose_image_count(capabilities: &SurfaceCapabilities) -> (count: u32)
        requires
            capabilities.min_image_count < u32::MAX,
        ensures
            count == chosen_image_count(*capabilities),
    {
        let image_count = capabilities.min_image_count + 1;
        if capabilities.max_image_count > 0 && image_count > capabilities.max_image_count {
            capabilities.max_image_count
        } else {
            image_count
        }
    }

    /// Picks how the two queue families share the images.
    pub fn choose_sharing_mode(families: &QueueFamilyIndices) -> (sharing: SharingMode)
        requires
            families.complete(),
        ensures
            sharing == chosen_sharing(*families),
    {
        match (families.graphics_family, families.present_family) {
            (Some(graphics_family), Some(present_family)) => {
                if graphics_family != present_family {
                    SharingMode::Concurrent { graphics_family, present_family }
                } else {
                    SharingMode::Exclusive
                }
            },
            _ => SharingMode::Exclusive,
        }
    }

    /// Whether the driver's images can be taken for this chain: there is at
    /// least one, no fewer than were asked for, no more than an image index
    /// can count, and as many views as images.
    pub open spec fn accepts(&self, images: Seq<u64>, imageviews: Seq<u64>) -> bool {
        &&& images.len() > 0
        &&& images.len() >= self.config.min_image_count
        &&& images.len() <= u32::MAX
        &&& imageviews.len() == images.len()
    }

    /// Takes in the chain that the driver made, with its images and one view
    /// of each. Framebuffers of an earlier chain are forgotten.
    ///
    /// Fails, and changes nothing, where the images cannot be accepted.
    pub fn attach_images(
        &mut self,
        swapchain: u64,
        images: Vec<u64>,
        imageviews: Vec<u64>,
    ) -> (outcome: Result<(), RenderError>)
        ensures
            old(self).accepts(images@, imageviews@) ==> ({
                &&& outcome is Ok
                &&& final(self).config == old(self).config
                &&& final(self).swapchain == swapchain
                &&& final(self).images@ == images@
                &&& final(self).imageviews@ == imageviews@
                &&& final(self).framebuffers@.len() == 0
                &&& final(self).wf()
            }),
            !old(self).accepts(images@, imageviews@) ==> ({
                &&& outcome == Err::<(), RenderError>(RenderError::ResourceCountMismatch)
                &&& *final(self) == *old(self)
            }),
    {
        if images.len() == 0 || images.len() > u32::MAX as usize || imageviews.len()
            != images.len() || images.len() < self.config.min_image_count as usize {
            return Err(RenderError::ResourceCountMismatch);
        }
        self.swapchain = swapchain;
        self.images = images;
        self.imageviews = imageviews;
        self.framebuffers = Vec::new();
        Ok(())
    }

    /// The framebuffers to create, one for each image view in order. Each
    /// binds the multisampled colour target, the depth target and the view
    /// itself, and has the chain's extent.
    pub fn create_framebuffer(
        &self,
        render_pass: u64,
        depth_image_view: u64,
        color_image_view: u64,
    ) -> (infos: Vec<FramebufferInfo>)
        ensures
            infos@.len() == self.imageviews@.len(),
            forall|i: int|
                0 <= i < infos@.len() ==> infos@[i] == framebuffer_for(
                    render_pass,
                    depth_image_view,
                    color_image_view,
                    self.imageviews@[i],
                    self.config.extent,
                ),
    {
        crate::buffers::create_framebuffers(
            render_pass,
            depth_image_view,
            color_image_view,
            &self.imageviews,
            self.config.extent,
        )
    }

    /// Takes in the framebuffers that the driver made, one for each image
    /// view.
    ///
    /// Fails, and changes nothing, where the chain has no images or their
    /// number differs from that of the framebuffers.
    pub fn attach_framebuffers(&mut self, framebuffers: Vec<u64>) -> (outcome: Result<
        (),
        RenderError,
    >)
        ensures
            old(self).has_images() && framebuffers@.len() == old(self).imageviews@.len() ==> ({
                &&& outcome is Ok
                &&& final(self).framebuffers@ == framebuffers@
                &&& final(self).config == old(self).config
                &&& final(self).swapchain == old(self).swapchain
                &&& final(self).images@ == old(self).images@
                &&& final(self).imageviews@ == old(self).imageviews@
            }),
            !(old(self).has_images() && framebuffers@.len() == old(self).imageviews@.len()) ==> ({
                &&& outcome == Err::<(), RenderError>(RenderError::ResourceCountMismatch)
                &&& *final(self) == *old(self)
            }),
    {
        if self.images.len() == 0 || framebuffers.len() != self.imageviews.len() {
            return Err(RenderError::ResourceCountMismatch);
        }
        self.framebuffers = framebuffers;
        Ok(())
    }

    /// Hands out the framebuffers to destroy, in the order they were made,
    /// and forgets them.
    pub fn destroy_framebuffers(&mut self) -> (framebuffers: Vec<u64>)
        ensures
            framebuffers@ == old(self).framebuffers@,
            final(self).framebuffers@.len() == 0,
            final(self).config == old(self).config,
            final(self).swapchain == old(self).swapchain,
            final(self).images@ == old(self).images@,
            final(self).imageviews@ == old(self).imageviews@,
    {
        let mut framebuffers: Vec<u64> = Vec::new();
        std::mem::swap(&mut self.framebuffers, &mut framebuffers);
        framebuffers
    }

    /// Hands out what is left to destroy, the image views first and then the
    /// chain itself, and forgets both. The images go with the chain.
    pub fn destroy(&mut self) -> (doomed: (Vec<u64>, u64))
        requires
            old(self).framebuffers@.len() == 0,
        ensures
            doomed.0@ == old(self).imageviews@,
            doomed.1 == old(self).swapchain,
            final(self).config == old(self).config,
            final(self).swapchain == 0,
            final(self).images@.len() == 0,
            final(self).imageviews@.len() == 0,
            final(self).framebuffers@.len() == 0,
    {
        let mut imageviews: Vec<u64> = Vec::new();
        std::mem::swap(&mut self.imageviews, &mut imageviews);
        self.images = Vec::new();
        let swapchain = self.swapchain;
        self.swapchain = 0;
        (imageviews, swapchain)
    }
}

/// The extent that is chosen lies within the surface's limits, whatever the
/// surface and the window say their sizes are. A size of nothing at all, as
/// a minimised window has, gives the least extent that the surface allows,
/// which holds a pixel wherever that least extent does.
pub proof fn lemma_extent_within_limits(capabilities: SurfaceCapabilities, size: Extent2D)
    requires
        capabilities.wf(),
    ensures
        capabilities.admits(chosen_extent(capabilities, size)),
        wanted_extent(capabilities, size).width == 0 && wanted_extent(capabilities, size).height
            == 0 ==> chosen_extent(capabilities, size) == capabilities.min_image_extent,
        !capabilities.min_image_extent.empty() ==> !chosen_extent(capabilities, size).empty(),
{
}

/// An extent within the limits is taken as it is: the surface's own where it
/// has one, else the window's.
pub proof fn lemma_extent_within_limits_is_kept(capabilities: SurfaceCapabilities, size: Extent2D)
    requires
        capabilities.admits(wanted_extent(capabilities, size)),
    ensures
        chosen_extent(capabilities, size) == wanted_extent(capabilities, size),
        capabilities.current_extent.width != EXTENT_UNDEFINED ==> chosen_extent(capabilities, size)
            == capabilities.current_extent,
        capabilities.current_extent.width == EXTENT_UNDEFINED ==> chosen_extent(capabilities, size)
            == size,
{
}

/// On each axis an extent outside the limits is moved to the nearer limit,
/// and no further.
pub proof fn lemma_extent_moves_to_nearer_limit(capabilities: SurfaceCapabilities, size: Extent2D)
    requires
        capabilities.wf(),
    ensures
        wanted_extent(capabilities, size).width < capabilities.min_image_extent.width
            ==> chosen_extent(capabilities, size).width == capabilities.min_image_extent.width,
        wanted_extent(capabilities, size).width > capabilities.max_image_extent.width
            ==> chosen_extent(capabilities, size).width == capabilities.max_image_extent.width,
        wanted_extent(capabilities, size).height < capabilities.min_image_extent.height
            ==> chosen_extent(capabilities, size).height == capabilities.min_image_extent.height,
        wanted_extent(capabilities, size).height > capabilities.max_image_extent.height
            ==> chosen_extent(capabilities, size).height == capabilities.max_image_extent.height,
{
}

/// The number of images asked for lies within the surface's limits.
pub proof fn lemma_image_count_within_limits(capabilities: SurfaceCapabilities)
    requires
        capabilities.wf(),
    ensures
        capabilities.min_image_count <= chosen_image_count(capabilities) <= u32::MAX,
        capabilities.max_image_count > 0 ==> chosen_image_count(capabilities)
            <= capabilities.max_image_count,
        chosen_image_count(capabilities) <= capabilities.min_image_count + 1,
{
}

/// A negotiation that succeeds yields the format, the extent and the image
/// count that were chosen, all of them within what the surface offers.
pub proof fn lemma_negotiated_within_offer(
    capabilities: SurfaceCapabilities,
    formats: Seq<SurfaceFormat>,
    present_modes: Seq<i32>,
    size: Extent2D,
    families: QueueFamilyIndices,
)
    requires
        negotiated(capabilities, formats, present_modes, size, families) is Ok,
    ensures
        formats.contains(negotiated(capabilities, formats, present_modes, size, families)->Ok_0.format),
        negotiated(capabilities, formats, present_modes, size, families)->Ok_0.present_mode
            == PRESENT_MODE_FIFO || present_modes.contains(
            negotiated(capabilities, formats, present_modes, size, families)->Ok_0.present_mode,
        ),
        negotiated(capabilities, formats, present_modes, size, families)->Ok_0.extent
            == chosen_extent(capabilities, size),
        capabilities.admits(
            negotiated(capabilities, formats, present_modes, size, families)->Ok_0.extent,
        ),
        !capabilities.min_image_extent.empty() ==> !negotiated(
            capabilities,
            formats,
            present_modes,
            size,
            families,
        )->Ok_0.extent.empty(),
        capabilities.min_image_count <= negotiated(
            capabilities,
            formats,
            present_modes,
            size,
            families,
        )->Ok_0.min_image_count,
        capabilities.max_image_count > 0 ==> negotiated(
            capabilities,
            formats,
            present_modes,
            size,
            families,
        )->Ok_0.min_image_count <= capabilities.max_image_count,
{
}

} // verus!
