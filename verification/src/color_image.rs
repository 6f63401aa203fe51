//! The multisampled colour target.

use vstd::prelude::*;
use crate::constants::{
    IMAGE_ASPECT_COLOR, IMAGE_USAGE_COLOR_ATTACHMENT, IMAGE_USAGE_TRANSIENT_ATTACHMENT,
    MEMORY_DEVICE_LOCAL,
};
use crate::image::{ImageInfo, ImageTiling, ImageViewInfo};
use crate::swapchain::Extent2D;

verus! {

/// The image that a frame is drawn into before it is resolved into a
/// swapchain image.
#[derive(Clone, Copy, Debug, PartialEq, Eq, Structural)]
pub struct ColorImage {
    /// The driver's handles, zero until the image has been created.
    pub image: u64,
    pub image_view: u64,
    pub memory: u64,
    pub info: ImageInfo,
    pub view: ImageViewInfo,
}

/// The colour target for a swapchain of the given format and extent.
pub open spec fn color_image_for(format: i32, extent: Extent2D, msaa_samples: u32) -> ColorImage {
    ColorImage {
        image: 0,
        image_view: 0,
        memory: 0,
        info: ImageInfo {
            width: extent.width,
            height: extent.height,
            mip_levels: 1,
            samples: msaa_samples,
            format,
            tiling: ImageTiling::Optimal,
            usage: IMAGE_USAGE_TRANSIENT_ATTACHMENT | IMAGE_USAGE_COLOR_ATTACHMENT,
            memory_properties: MEMORY_DEVICE_LOCAL,
        },
        view: ImageViewInfo { format, aspect: IMAGE_ASPECT_COLOR, mip_levels: 1 },
    }
}

impl ColorImage {
    /// Describes the colour target: an image of the swapchain's format and
    /// extent with `msaa_samples` samples, and a view of it. Neither has a
    /// handle yet.
    pub fn new(format: i32, extent: &Extent2D, msaa_samples: u32) -> (target: ColorImage)
        ensures
            target == color_image_for(format, *extent, msaa_samples),
    {
        ColorImage {
            image: 0,
            image_view: 0,
            memory: 0,
            info: ImageInfo {
                width: extent.width,
                height: extent.height,
                mip_levels: 1,
                samples: msaa_samples,
                format,
                tiling: ImageTiling::Optimal,
                usage: IMAGE_USAGE_TRANSIENT_ATTACHMENT | IMAGE_USAGE_COLOR_ATTACHMENT,
                memory_properties: MEMORY_DEVICE_LOCAL,
            },
            view: ImageViewInfo { format, aspect: IMAGE_ASPECT_COLOR, mip_levels: 1 },
        }
    }

    /// The same target with the handles that the driver made for it.
    pub fn created(self, image: u64, image_view: u64, memory: u64) -> (target: ColorImage)
        ensures
            target == (ColorImage { image, image_view, memory, ..self }),
    {
        ColorImage { image, image_view, memory, info: self.info, view: self.view }
    }

    /// The handles to destroy, in order: the view, the image, its memory.
    pub fn destroy(&self) -> (doomed: (u64, u64, u64))
        ensures
            doomed == (self.image_view, self.image, self.memory),
    {
        (self.image_view, self.image, self.memory)
    }
}

} // verus!
