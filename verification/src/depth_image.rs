//! The depth target, and the choice of its format.

use vstd::prelude::*;
use crate::constants::{
    FORMAT_D24_UNORM_S8_UINT, FORMAT_D32_SFLOAT, FORMAT_D32_SFLOAT_S8_UINT,
    FORMAT_FEATURE_DEPTH_STENCIL_ATTACHMENT, IMAGE_ASPECT_DEPTH,
    IMAGE_USAGE_DEPTH_STENCIL_ATTACHMENT, MEMORY_DEVICE_LOCAL,
};
use crate::error::RenderError;
use crate::flags::{format_features_contain, has_flags};
use crate::image::{ImageInfo, ImageTiling, ImageViewInfo};
use crate::swapchain::Extent2D;

verus! {

/// A format together with what the device can do with it in either tiling.
#[derive(Clone, Copy, Debug, PartialEq, Eq, Structural)]
pub struct FormatCandidate {
    pub format: i32,
    pub linear_tiling_features: u32,
    pub optimal_tiling_features: u32,
}

impl FormatCandidate {
    /// The device offers every feature of `features` for this format in the
    /// given tiling.
    pub open spec fn supports(&self, tiling: ImageTiling, features: u32) -> bool {
        match tiling {
            ImageTiling::Linear => has_flags(self.linear_tiling_features, features),
            ImageTiling::Optimal => has_flags(self.optimal_tiling_features, features),
        }
    }
}

/// No candidate before position `end` offers the features.
pub open spec fn none_supports(
    candidates: Seq<FormatCandidate>,
    end: int,
    tiling: ImageTiling,
    features: u32,
) -> bool {
    forall|j: int| 0 <= j < end ==> !(#[trigger] candidates[j]).supports(tiling, features)
}

/// The image that depth is tested against.
#[derive(Clone, Copy, Debug, PartialEq, Eq, Structural)]
pub struct DepthImage {
    /// The driver's handles, zero until the image has been created.
    pub image: u64,
    pub image_view: u64,
    pub memory: u64,
    pub info: ImageInfo,
    pub view: ImageViewInfo,
}

/// The depth target of the given format for a swapchain of the given extent.
pub open spec fn depth_image_for(depth_format: i32, extent: Extent2D, msaa_samples: u32)
    -> DepthImage {
    DepthImage {
        image: 0,
        image_view: 0,
        memory: 0,
        info: ImageInfo {
            width: extent.width,
            height: extent.height,
            mip_levels: 1,
            samples: msaa_samples,
            format: depth_format,
            tiling: ImageTiling::Optimal,
            usage: IMAGE_USAGE_DEPTH_STENCIL_ATTACHMENT,
            memory_properties: MEMORY_DEVICE_LOCAL,
        },
        view: ImageViewInfo { format: depth_format, aspect: IMAGE_ASPECT_DEPTH, mip_levels: 1 },
    }
}

/// The depth formats that the renderer can use, best first.
pub open spec fn depth_formats() -> Seq<i32> {
    seq![FORMAT_D32_SFLOAT, FORMAT_D32_SFLOAT_S8_UINT, FORMAT_D24_UNORM_S8_UINT]
}

impl DepthImage {
    /// Describes the depth target: an image of `depth_format` with the
    /// swapchain's extent and `msaa_samples` samples, and a view of it.
    /// Neither has a handle yet.
    pub fn new(depth_format: i32, swapchain_extent: &Extent2D, msaa_samples: u32) -> (target:
        DepthImage)
        ensures
            target == depth_image_for(depth_format, *swapchain_extent, msaa_samples),
    {
        DepthImage {
            image: 0,
            image_view: 0,
            memory: 0,
            info: ImageInfo {
                width: swapchain_extent.width,
                height: swapchain_extent.height,
                mip_levels: 1,
                samples: msaa_samples,
                format: depth_format,
                tiling: ImageTiling::Optimal,
                usage: IMAGE_USAGE_DEPTH_STENCIL_ATTACHMENT,
                memory_properties: MEMORY_DEVICE_LOCAL,
            },
            view: ImageViewInfo {
                format: depth_format,
                aspect: IMAGE_ASPECT_DEPTH,
                mip_levels: 1,
            },
        }
    }

    /// The same target with the handles that the driver made for it.
    pub fn created(self, image: u64, image_view: u64, memory: u64) -> (target: DepthImage)
        ensures
            target == (DepthImage { image, image_view, memory, ..self }),
    {
        DepthImage { image, image_view, memory, info: self.info, view: self.view }
    }

    /// The depth formats to ask the device about, best first.
    pub fn depth_format_candidates() -> (formats: Vec<i32>)
        ensures
            formats@ == depth_formats(),
    {
        let mut formats: Vec<i32> = Vec::new();
        formats.push(FORMAT_D32_SFLOAT);
        formats.push(FORMAT_D32_SFLOAT_S8_UINT);
        formats.push(FORMAT_D24_UNORM_S8_UINT);
        formats
    }

    /// Picks the depth format: the first candidate that can be a depth and
    /// stencil attachment in optimal tiling.
    pub fn find_depth_format(candidates: &Vec<FormatCandidate>) -> (format: Result<
        i32,
        RenderError,
    >)
        ensures
            format is Ok <==> exists|i: int|
                0 <= i < candidates@.len() && (#[trigger] candidates@[i]).supports(
                    ImageTiling::Optimal,
                    FORMAT_FEATURE_DEPTH_STENCIL_ATTACHMENT,
                ),
            format is Ok ==> exists|i: int|
                0 <= i < candidates@.len() && (#[trigger] candidates@[i]).supports(
                    ImageTiling::Optimal,
                    FORMAT_FEATURE_DEPTH_STENCIL_ATTACHMENT,
                ) && none_supports(
                    candidates@,
                    i,
                    ImageTiling::Optimal,
                    FORMAT_FEATURE_DEPTH_STENCIL_ATTACHMENT,
                ) && format->Ok_0 == candidates@[i].format,
            format is Err ==> format->Err_0 == RenderError::NoSupportedFormat,
    {
        Self::find_supported_format(
            candidates,
            ImageTiling::Optimal,
            FORMAT_FEATURE_DEPTH_STENCIL_ATTACHMENT,
        )
    }

    /// Picks the first candidate for which the device offers every feature
    /// of `features` in the given tiling.
    ///
    /// Fails where no candidate does.
    pub fn find_supported_format(
        candidate_formats: &Vec<FormatCandidate>,
        tiling: ImageTiling,
        features: u32,
    ) -> (format: Result<i32, RenderError>)
        ensures
            format is Ok <==> exists|i: int|
                0 <= i < candidate_formats@.len() && (#[trigger] candidate_formats@[i]).supports(
                    tiling,
                    features,
                ),
            format is Ok ==> exists|i: int|
                0 <= i < candidate_formats@.len() && (#[trigger] candidate_formats@[i]).supports(
                    tiling,
                    features,
                ) && none_supports(candidate_formats@, i, tiling, features) && format->Ok_0
                    == candidate_formats@[i].format,
            format is Err ==> format->Err_0 == RenderError::NoSupportedFormat,
    {
        let mut i: usize = 0;
        while i < candidate_formats.len()
            invariant
                i <= candidate_formats@.len(),
                none_supports(candidate_formats@, i as int, tiling, features),
            decreases candidate_formats@.len() - i,
        {
            let candidate = candidate_formats[i];
            let found = match tiling {
                ImageTiling::Linear => format_features_contain(
                    candidate.linear_tiling_features,
                    features,
                ),
                ImageTiling::Optimal => format_features_contain(
                    candidate.optimal_tiling_features,
                    features,
                ),
            };
            if found {
                return Ok(candidate.format);
            }
            i += 1;
        }
        Err(RenderError::NoSupportedFormat)
    }

    /// The handles to destroy, in order: the view, the image, its memory.
    pub fn destroy(&self) -> (doomed: (u64, u64, u64))
        ensures
            doomed == (self.image_view, self.image, self.memory),
    {
        (self.image_view, self.image, self.memory)
    }
}

} // verus!
