//! Images: what one is created with, and what it takes to fill a texture.

use vstd::prelude::*;
use crate::constants::{
    ACCESS_COLOR_ATTACHMENT_READ, ACCESS_COLOR_ATTACHMENT_WRITE, ACCESS_SHADER_READ,
    ACCESS_TRANSFER_READ, ACCESS_TRANSFER_WRITE, FORMAT_FEATURE_SAMPLED_IMAGE_FILTER_LINEAR,
    FORMAT_R8G8B8A8_SRGB, IMAGE_ASPECT_COLOR, IMAGE_USAGE_SAMPLED, IMAGE_USAGE_TRANSFER_DST,
    IMAGE_USAGE_TRANSFER_SRC, MEMORY_DEVICE_LOCAL, SAMPLE_COUNT_1, STAGE_COLOR_ATTACHMENT_OUTPUT,
    STAGE_FRAGMENT_SHADER, STAGE_TOP_OF_PIPE, STAGE_TRANSFER,
};
use crate::error::RenderError;
use crate::flags::{format_features_contain, has_flags};
use crate::render_pass::ImageLayout;

verus! {

/// How an image's texels are laid out in memory.
#[derive(Clone, Copy, Debug, PartialEq, Eq, Structural)]
pub enum ImageTiling {
    Optimal,
    Linear,
}

/// The parameters that a two-dimensional image and its memory are created
/// with.
#[derive(Clone, Copy, Debug, PartialEq, Eq, Structural)]
pub struct ImageInfo {
    pub width: u32,
    pub height: u32,
    pub mip_levels: u32,
    pub samples: u32,
    pub format: i32,
    pub tiling: ImageTiling,
    pub usage: u32,
    pub memory_properties: u32,
}

/// The parameters that a view of a whole two-dimensional image is created
/// with.
#[derive(Clone, Copy, Debug, PartialEq, Eq, Structural)]
pub struct ImageViewInfo {
    pub format: i32,
    pub aspect: u32,
    pub mip_levels: u32,
}

/// The format of every texture.
pub const FORMAT: i32 = FORMAT_R8G8B8A8_SRGB;

/// The number of bytes of one texel.
pub const TEXEL_SIZE: u32 = 4;

/// The number of bytes of the first level of a texture.
pub open spec fn texture_bytes(width: u32, height: u32) -> int {
    TEXEL_SIZE * (width * height)
}

/// The number of sizes that an edge of `n` texels takes when it is halved
/// until one texel is left.
pub open spec fn mip_levels_of(n: nat) -> nat
    decreases n,
{
    if n <= 1 {
        1
    } else {
        1 + mip_levels_of(n / 2)
    }
}

/// The number of mip levels of a texture: as many as its longer edge can be
/// halved, and the full size.
pub open spec fn mip_level_count(width: u32, height: u32) -> nat {
    mip_levels_of(if width >= height { width as nat } else { height as nat })
}

/// The length of an edge at a mip level: half the length at the level
/// before, but at least one texel.
pub open spec fn mip_size(size: u32, level: nat) -> u32
    decreases level,
{
    if level == 0 {
        size
    } else if mip_size(size, (level - 1) as nat) / 2 >= 1 {
        mip_size(size, (level - 1) as nat) / 2
    } else {
        1
    }
}

/// A barrier on some mip levels of an image: which accesses it waits for in
/// which stage, which accesses wait for it in which stage, and the layout
/// change it makes.
#[derive(Clone, Copy, Debug, PartialEq, Eq, Structural)]
pub struct ImageBarrier {
    pub src_access_mask: u32,
    pub dst_access_mask: u32,
    pub old_layout: ImageLayout,
    pub new_layout: ImageLayout,
    pub src_stage: u32,
    pub dst_stage: u32,
    pub base_mip_level: u32,
    pub level_count: u32,
}

/// One step in making a texture's mip chain.
#[derive(Clone, Copy, Debug, PartialEq, Eq, Structural)]
pub enum MipStep {
    Barrier(ImageBarrier),
    /// Scales one level down into the next with a linear filter.
    Blit {
        src_level: u32,
        src_width: u32,
        src_height: u32,
        dst_level: u32,
        dst_width: u32,
        dst_height: u32,
    },
}

/// The region of a buffer that is copied into the whole first level of an
/// image. The texels lie tightly packed from the buffer's start.
#[derive(Clone, Copy, Debug, PartialEq, Eq, Structural)]
pub struct BufferImageCopy {
    pub buffer_offset: u64,
    pub mip_level: u32,
    pub width: u32,
    pub height: u32,
    pub depth: u32,
}

/// How a texture is sampled: linear filters, repeating, over all its mip
/// levels.
#[derive(Clone, Copy, Debug, PartialEq, Eq, Structural)]
pub struct SamplerInfo {
    pub min_lod: u32,
    pub max_lod: u32,
}

/// The barrier that prepares a level to be read by a blit.
pub open spec fn barrier_to_source(level: u32) -> ImageBarrier {
    ImageBarrier {
        src_access_mask: ACCESS_TRANSFER_WRITE,
        dst_access_mask: ACCESS_TRANSFER_READ,
        old_layout: ImageLayout::TransferDstOptimal,
        new_layout: ImageLayout::TransferSrcOptimal,
        src_stage: STAGE_TRANSFER,
        dst_stage: STAGE_TRANSFER,
        base_mip_level: level,
        level_count: 1,
    }
}

/// The barrier that hands a level that was read by a blit to the fragment
/// shader.
pub open spec fn barrier_source_to_shader(level: u32) -> ImageBarrier {
    ImageBarrier {
        src_access_mask: ACCESS_TRANSFER_READ,
        dst_access_mask: ACCESS_SHADER_READ,
        old_layout: ImageLayout::TransferSrcOptimal,
        new_layout: ImageLayout::ShaderReadOnlyOptimal,
        src_stage: STAGE_TRANSFER,
        dst_stage: STAGE_FRAGMENT_SHADER,
        base_mip_level: level,
        level_count: 1,
    }
}

/// The barrier that hands a level that was only written to the fragment
/// shader.
pub open spec fn barrier_destination_to_shader(level: u32) -> ImageBarrier {
    ImageBarrier {
        src_access_mask: ACCESS_TRANSFER_WRITE,
        dst_access_mask: ACCESS_SHADER_READ,
        old_layout: ImageLayout::TransferDstOptimal,
        new_layout: ImageLayout::ShaderReadOnlyOptimal,
        src_stage: STAGE_TRANSFER,
        dst_stage: STAGE_FRAGMENT_SHADER,
        base_mip_level: level,
        level_count: 1,
    }
}

/// The blit that fills `level` from the level before it.
pub open spec fn blit_into(tex_width: u32, tex_height: u32, level: u32) -> MipStep
    recommends
        level >= 1,
{
    MipStep::Blit {
        src_level: (level - 1) as u32,
        src_width: mip_size(tex_width, (level - 1) as nat),
        src_height: mip_size(tex_height, (level - 1) as nat),
        dst_level: level,
        dst_width: mip_size(tex_width, level as nat),
        dst_height: mip_size(tex_height, level as nat),
    }
}

/// The steps that fill the levels from the first up to `level`, each from
/// the one before it: the source level is made readable, scaled down into
/// the next, and handed to the shader.
pub open spec fn mip_steps_to(tex_width: u32, tex_height: u32, level: nat) -> Seq<MipStep>
    decreases level,
{
    if level == 0 {
        Seq::empty()
    } else {
        mip_steps_to(tex_width, tex_height, (level - 1) as nat) + seq![
            MipStep::Barrier(barrier_to_source((level - 1) as u32)),
            blit_into(tex_width, tex_height, level as u32),
            MipStep::Barrier(barrier_source_to_shader((level - 1) as u32)),
        ]
    }
}

/// All the steps that make the mip chain of a texture with `mip_levels`
/// levels whose first level has been written: every further level is filled
/// in turn, and the last level, which nothing reads from, is handed to the
/// shader as it is.
pub open spec fn mip_steps(tex_width: u32, tex_height: u32, mip_levels: u32) -> Seq<MipStep>
    recommends
        mip_levels >= 1,
{
    mip_steps_to(tex_width, tex_height, (mip_levels - 1) as nat) + seq![
        MipStep::Barrier(barrier_destination_to_shader((mip_levels - 1) as u32)),
    ]
}

/// The barrier for a change of layout of the first `mip_levels` levels, if
/// the renderer has one for it.
pub open spec fn transition_barrier(old_layout: ImageLayout, new_layout: ImageLayout, mip_levels: u32)
    -> Option<ImageBarrier> {
    if old_layout == ImageLayout::Undefined && new_layout == ImageLayout::TransferDstOptimal {
        Some(
            ImageBarrier {
                src_access_mask: 0,
                dst_access_mask: ACCESS_TRANSFER_WRITE,
                old_layout,
                new_layout,
                src_stage: STAGE_TOP_OF_PIPE,
                dst_stage: STAGE_TRANSFER,
                base_mip_level: 0,
                level_count: mip_levels,
            },
        )
    } else if old_layout == ImageLayout::TransferDstOptimal && new_layout
        == ImageLayout::ShaderReadOnlyOptimal {
        Some(
            ImageBarrier {
                src_access_mask: ACCESS_TRANSFER_WRITE,
                dst_access_mask: ACCESS_SHADER_READ,
                old_layout,
                new_layout,
                src_stage: STAGE_TRANSFER,
                dst_stage: STAGE_FRAGMENT_SHADER,
                base_mip_level: 0,
                level_count: mip_levels,
            },
        )
    } else if old_layout == ImageLayout::Undefined && new_layout
        == ImageLayout::ColorAttachmentOptimal {
        Some(
            ImageBarrier {
                src_access_mask: 0,
                dst_access_mask: ACCESS_COLOR_ATTACHMENT_READ | ACCESS_COLOR_ATTACHMENT_WRITE,
                old_layout,
                new_layout,
                src_stage: STAGE_TOP_OF_PIPE,
                dst_stage: STAGE_COLOR_ATTACHMENT_OUTPUT,
                base_mip_level: 0,
                level_count: mip_levels,
            },
        )
    } else {
        None
    }
}

/// A texture: an image with its whole mip chain, a view and a sampler.
#[derive(Clone, Copy, Debug, PartialEq, Eq, Structural)]
pub struct Image {
    /// The driver's handles, zero until the texture has been created.
    pub image: u64,
    pub view: u64,
    pub sampler: u64,
    pub memory: u64,
    pub mip_levels: u32,
    /// The number of bytes of the first level.
    pub size: u64,
    pub info: ImageInfo,
}

impl Image {
    /// Describes the texture for a picture of the given size: four bytes to
    /// the texel, a full mip chain, in device memory, written and read by
    /// transfers and sampled by shaders. It has no handles yet.
    ///
    /// Fails where the picture has no texels, or so many that their bytes
    /// cannot be counted in 32 bits.
    pub fn new(image_width: u32, image_height: u32) -> (texture: Result<Image, RenderError>)
        ensures
            (0 < texture_bytes(image_width, image_height) <= u32::MAX) ==> texture is Ok
                && texture->Ok_0.image == 0 && texture->Ok_0.view == 0 && texture->Ok_0.sampler
                == 0 && texture->Ok_0.memory == 0 && texture->Ok_0.size == texture_bytes(
                image_width,
                image_height,
            ) && texture->Ok_0.mip_levels == mip_level_count(image_width, image_height)
                && texture->Ok_0.info == Self::image_info(
                image_width,
                image_height,
                texture->Ok_0.mip_levels,
            ),
            !(0 < texture_bytes(image_width, image_height) <= u32::MAX) ==> texture is Err
                && texture->Err_0 == RenderError::BadTextureSize,
    {
        assert(0 <= image_width * image_height <= 0xFFFF_FFFF * 0xFFFF_FFFF) by (nonlinear_arith)
            requires
                0 <= image_width <= 0xFFFF_FFFF,
                0 <= image_height <= 0xFFFF_FFFF,
        ;
        let texels: u64 = (image_width as u64) * (image_height as u64);
        if texels == 0 || texels > 0x3FFF_FFFF {
            return Err(RenderError::BadTextureSize);
        }
        let image_size: u64 = texels * 4;
        let mip_levels = Self::mip_levels(image_width, image_height);
        Ok(
            Image {
                image: 0,
                view: 0,
                sampler: 0,
                memory: 0,
                mip_levels,
                size: image_size,
                info: Self::create_image(
                    image_width,
                    image_height,
                    mip_levels,
                    SAMPLE_COUNT_1,
                    FORMAT,
                    ImageTiling::Optimal,
                    IMAGE_USAGE_TRANSFER_SRC | IMAGE_USAGE_TRANSFER_DST | IMAGE_USAGE_SAMPLED,
                    MEMORY_DEVICE_LOCAL,
                ),
            },
        )
    }

    /// What a texture's image is created with.
    pub open spec fn image_info(width: u32, height: u32, mip_levels: u32) -> ImageInfo {
        ImageInfo {
            width,
            height,
            mip_levels,
            samples: SAMPLE_COUNT_1,
            format: FORMAT,
            tiling: ImageTiling::Optimal,
            usage: IMAGE_USAGE_TRANSFER_SRC | IMAGE_USAGE_TRANSFER_DST | IMAGE_USAGE_SAMPLED,
            memory_properties: MEMORY_DEVICE_LOCAL,
        }
    }

    /// The number of mip levels of a texture of the given size.
    pub fn mip_levels(width: u32, height: u32) -> (levels: u32)
        ensures
            levels == mip_level_count(width, height),
            levels >= 1,
    {
        let longer: u32 = if width >= height {
            width
        } else {
            height
        };
        let mut rest: u32 = longer;
        let mut levels: u32 = 1;
        while rest > 1
            invariant
                levels >= 1,
                levels + rest <= longer + 1,
                levels + mip_levels_of(rest as nat) == mip_levels_of(longer as nat) + 1,
            decreases rest,
        {
            rest = rest / 2;
            levels = levels + 1;
        }
        levels
    }

    /// Describes an image: two-dimensional, one layer, owned by one queue
    /// family at a time, with no contents to begin with.
    pub fn create_image(
        width: u32,
        height: u32,
        mip_levels: u32,
        num_samples: u32,
        format: i32,
        tiling: ImageTiling,
        usage: u32,
        required_memory_properties: u32,
    ) -> (info: ImageInfo)
        ensures
            info == (ImageInfo {
                width,
                height,
                mip_levels,
                samples: num_samples,
                format,
                tiling,
                usage,
                memory_properties: required_memory_properties,
            }),
    {
        ImageInfo {
            width,
            height,
            mip_levels,
            samples: num_samples,
            format,
            tiling,
            usage,
            memory_properties: required_memory_properties,
        }
    }

    /// Describes a view of the first `mip_levels` levels of an image.
    pub fn create_image_view(format: i32, aspect_flags: u32, mip_levels: u32) -> (view:
        ImageViewInfo)
        ensures
            view == (ImageViewInfo { format, aspect: aspect_flags, mip_levels }),
    {
        ImageViewInfo { format, aspect: aspect_flags, mip_levels }
    }

    /// Describes the view of a texture: its colour, in the texture format.
    pub fn create_texture_image_view(mip_levels: u32) -> (view: ImageViewInfo)
        ensures
            view == (ImageViewInfo { format: FORMAT, aspect: IMAGE_ASPECT_COLOR, mip_levels }),
    {
        Self::create_image_view(FORMAT, IMAGE_ASPECT_COLOR, mip_levels)
    }

    /// Describes the sampler of a texture with `mip_levels` levels.
    pub fn create_texture_sampler(mip_levels: u32) -> (sampler: SamplerInfo)
        ensures
            sampler == (SamplerInfo { min_lod: 0, max_lod: mip_levels }),
    {
        SamplerInfo { min_lod: 0, max_lod: mip_levels }
    }

    /// The barrier that changes the layout of the first `mip_levels` levels.
    ///
    /// Fails for a change that the renderer has no barrier for. It has one
    /// for a fresh image that is to be written by a transfer, for a written
    /// image that is to be read by shaders, and for a fresh image that is to
    /// be a colour attachment.
    pub fn transition_image_layout(
        old_layout: ImageLayout,
        new_layout: ImageLayout,
        mip_levels: u32,
    ) -> (barrier: Result<ImageBarrier, RenderError>)
        ensures
            match transition_barrier(old_layout, new_layout, mip_levels) {
                Some(expected) => barrier == Ok::<ImageBarrier, RenderError>(expected),
                None => barrier == Err::<ImageBarrier, RenderError>(
                    RenderError::UnsupportedLayoutTransition,
                ),
            },
    {
        let src_access_mask;
        let dst_access_mask;
        let source_stage;
        let destination_stage;
        match (old_layout, new_layout) {
            (ImageLayout::Undefined, ImageLayout::TransferDstOptimal) => {
                src_access_mask = 0;
                dst_access_mask = ACCESS_TRANSFER_WRITE;
                source_stage = STAGE_TOP_OF_PIPE;
                destination_stage = STAGE_TRANSFER;
            },
            (ImageLayout::TransferDstOptimal, ImageLayout::ShaderReadOnlyOptimal) => {
                src_access_mask = ACCESS_TRANSFER_WRITE;
                dst_access_mask = ACCESS_SHADER_READ;
                source_stage = STAGE_TRANSFER;
                destination_stage = STAGE_FRAGMENT_SHADER;
            },
            (ImageLayout::Undefined, ImageLayout::ColorAttachmentOptimal) => {
                src_access_mask = 0;
                dst_access_mask = ACCESS_COLOR_ATTACHMENT_READ | ACCESS_COLOR_ATTACHMENT_WRITE;
                source_stage = STAGE_TOP_OF_PIPE;
                destination_stage = STAGE_COLOR_ATTACHMENT_OUTPUT;
            },
            _ => {
                return Err(RenderError::UnsupportedLayoutTransition);
            },
        }
        Ok(
            ImageBarrier {
                src_access_mask,
                dst_access_mask,
                old_layout,
                new_layout,
                src_stage: source_stage,
                dst_stage: destination_stage,
                base_mip_level: 0,
                level_count: mip_levels,
            },
        )
    }

    /// The region to copy from a staging buffer into an image of the given
    /// size.
    pub fn copy_buffer_to_image(width: u32, height: u32) -> (region: BufferImageCopy)
        ensures
            region == (BufferImageCopy { buffer_offset: 0, mip_level: 0, width, height, depth: 1 }),
    {
        BufferImageCopy { buffer_offset: 0, mip_level: 0, width, height, depth: 1 }
    }

    /// The steps that make the mip chain of a texture whose first level has
    /// been written and whose levels all await a transfer.
    pub fn generate_mipmaps(tex_width: u32, tex_height: u32, mip_levels: u32) -> (steps: Vec<
        MipStep,
    >)
        requires
            mip_levels >= 1,
        ensures
            steps@ == mip_steps(tex_width, tex_height, mip_levels),
    {
        let mut steps: Vec<MipStep> = Vec::new();
        let mut mip_width: u32 = tex_width;
        let mut mip_height: u32 = tex_height;
        let mut i: u32 = 1;
        while i < mip_levels
            invariant
                1 <= i <= mip_levels,
                mip_width == mip_size(tex_width, (i - 1) as nat),
                mip_height == mip_size(tex_height, (i - 1) as nat),
                steps@ == mip_steps_to(tex_width, tex_height, (i - 1) as nat),
            decreases mip_levels - i,
        {
            let next_width: u32 = if mip_width / 2 >= 1 {
                mip_width / 2
            } else {
                1
            };
            let next_height: u32 = if mip_height / 2 >= 1 {
                mip_height / 2
            } else {
                1
            };
            steps.push(
                MipStep::Barrier(
                    ImageBarrier {
                        src_access_mask: ACCESS_TRANSFER_WRITE,
                        dst_access_mask: ACCESS_TRANSFER_READ,
                        old_layout: ImageLayout::TransferDstOptimal,
                        new_layout: ImageLayout::TransferSrcOptimal,
                        src_stage: STAGE_TRANSFER,
                        dst_stage: STAGE_TRANSFER,
                        base_mip_level: i - 1,
                        level_count: 1,
                    },
                ),
            );
            steps.push(
                MipStep::Blit {
                    src_level: i - 1,
                    src_width: mip_width,
                    src_height: mip_height,
                    dst_level: i,
                    dst_width: next_width,
                    dst_height: next_height,
                },
            );
            steps.push(
                MipStep::Barrier(
                    ImageBarrier {
                        src_access_mask: ACCESS_TRANSFER_READ,
                        dst_access_mask: ACCESS_SHADER_READ,
                        old_layout: ImageLayout::TransferSrcOptimal,
                        new_layout: ImageLayout::ShaderReadOnlyOptimal,
                        src_stage: STAGE_TRANSFER,
                        dst_stage: STAGE_FRAGMENT_SHADER,
                        base_mip_level: i - 1,
                        level_count: 1,
                    },
                ),
            );
            mip_width = next_width;
            mip_height = next_height;
            i = i + 1;
        }
        steps.push(
            MipStep::Barrier(
                ImageBarrier {
                    src_access_mask: ACCESS_TRANSFER_WRITE,
                    dst_access_mask: ACCESS_SHADER_READ,
                    old_layout: ImageLayout::TransferDstOptimal,
                    new_layout: ImageLayout::ShaderReadOnlyOptimal,
                    src_stage: STAGE_TRANSFER,
                    dst_stage: STAGE_FRAGMENT_SHADER,
                    base_mip_level: mip_levels - 1,
                    level_count: 1,
                },
            ),
        );
        steps
    }

    /// The handles to destroy, in order: the sampler, the view, the image,
    /// its memory.
    pub fn destroy(&self) -> (doomed: (u64, u64, u64, u64))
        ensures
            doomed == (self.sampler, self.view, self.image, self.memory),
    {
        (self.sampler, self.view, self.image, self.memory)
    }
}

/// Whether mip chains can be made by blitting: the texture format has to
/// allow linear filtering in optimal tiling.
pub fn check_mipmap_support(optimal_tiling_features: u32) -> (outcome: Result<(), RenderError>)
    ensures
        has_flags(optimal_tiling_features, FORMAT_FEATURE_SAMPLED_IMAGE_FILTER_LINEAR)
            ==> outcome is Ok,
        !has_flags(optimal_tiling_features, FORMAT_FEATURE_SAMPLED_IMAGE_FILTER_LINEAR)
            ==> outcome is Err && outcome->Err_0 == RenderError::NoLinearBlit,
{
    if format_features_contain(
        optimal_tiling_features,
        FORMAT_FEATURE_SAMPLED_IMAGE_FILTER_LINEAR,
    ) {
        Ok(())
    } else {
        Err(RenderError::NoLinearBlit)
    }
}

/// Halving an edge of two texels or more once and then `level` times more
/// is the same as halving half the edge `level` times.
proof fn lemma_mip_size_of_half(size: u32, level: nat)
    requires
        size >= 2,
    ensures
        mip_size(size, level + 1) == mip_size((size / 2) as u32, level),
    decreases level,
{
    if level == 0 {
        assert(mip_size(size, 0) == size);
    } else {
        lemma_mip_size_of_half(size, (level - 1) as nat);
    }
}

/// The mip chain is as long as it needs to be and no longer: at its last
/// level the edge is a single texel.
pub proof fn lemma_mip_chain_ends_with_one_texel(size: u32)
    requires
        size >= 1,
    ensures
        mip_levels_of(size as nat) >= 1,
        mip_size(size, (mip_levels_of(size as nat) - 1) as nat) == 1,
    decreases size,
{
    if size >= 2 {
        let half = (size / 2) as u32;
        lemma_mip_chain_ends_with_one_texel(half);
        lemma_mip_size_of_half(size, (mip_levels_of(half as nat) - 1) as nat);
    }
}

/// No level of a texture that has texels is without them.
pub proof fn lemma_mip_size_is_positive(size: u32, level: nat)
    requires
        size >= 1,
    ensures
        mip_size(size, level) >= 1,
{
}

} // verus!
