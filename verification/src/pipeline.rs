//! The graphics pipeline. All of its state is fixed when it is created, the
//! viewport and the scissor included, so it lives and dies with the
//! swapchain whose extent it was made for.

use vstd::prelude::*;
use crate::commandpool::Command;
use crate::constants::{
    COLOR_COMPONENTS_RGBA, FORMAT_R32G32B32A32_SFLOAT, FORMAT_R32G32_SFLOAT, SHADER_STAGE_VERTEX,
};
use crate::swapchain::Extent2D;

verus! {

/// The part of the framebuffer that is drawn to, in whole pixels, and the
/// range of depths, in whole units.
#[derive(Clone, Copy, Debug, PartialEq, Eq, Structural)]
pub struct Viewport {
    pub x: u32,
    pub y: u32,
    pub width: u32,
    pub height: u32,
    pub min_depth: u32,
    pub max_depth: u32,
}

/// A rectangle of pixels.
#[derive(Clone, Copy, Debug, PartialEq, Eq, Structural)]
pub struct Rect2D {
    pub x: i32,
    pub y: i32,
    pub extent: Extent2D,
}

/// The bytes that shaders of some stages receive with each draw.
#[derive(Clone, Copy, Debug, PartialEq, Eq, Structural)]
pub struct PushConstantRange {
    pub stage_flags: u32,
    pub offset: u32,
    pub size: u32,
}

/// Where the vertices of one buffer binding lie: `stride` bytes apart, one
/// for each vertex.
#[derive(Clone, Copy, Debug, PartialEq, Eq, Structural)]
pub struct VertexBinding {
    pub binding: u32,
    pub stride: u32,
}

/// Where one attribute lies within a vertex.
#[derive(Clone, Copy, Debug, PartialEq, Eq, Structural)]
pub struct VertexAttribute {
    pub location: u32,
    pub binding: u32,
    pub format: i32,
    pub offset: u32,
}

/// How primitives are assembled from vertices.
#[derive(Clone, Copy, Debug, PartialEq, Eq, Structural)]
pub enum Topology {
    TriangleList,
}

/// How polygons are filled.
#[derive(Clone, Copy, Debug, PartialEq, Eq, Structural)]
pub enum PolygonMode {
    Fill,
}

/// Which faces are thrown away.
#[derive(Clone, Copy, Debug, PartialEq, Eq, Structural)]
pub enum CullMode {
    Nothing,
    Front,
    Back,
}

/// Which winding makes a face a front face.
#[derive(Clone, Copy, Debug, PartialEq, Eq, Structural)]
pub enum FrontFace {
    CounterClockwise,
    Clockwise,
}

/// How a fragment's depth is compared with the depth already stored.
#[derive(Clone, Copy, Debug, PartialEq, Eq, Structural)]
pub enum CompareOp {
    Less,
    Always,
}

/// The fixed state of the pipeline.
#[derive(Clone, Copy, Debug, PartialEq, Eq, Structural)]
pub struct PipelineInfo {
    pub render_pass: u64,
    pub subpass: u32,
    pub binding: VertexBinding,
    pub topology: Topology,
    pub viewport: Viewport,
    pub scissor: Rect2D,
    pub polygon_mode: PolygonMode,
    pub cull_mode: CullMode,
    pub front_face: FrontFace,
    pub line_width: u32,
    pub rasterization_samples: u32,
    pub depth_test_enable: bool,
    pub depth_write_enable: bool,
    pub depth_compare_op: CompareOp,
    pub blend_enable: bool,
    pub color_write_mask: u32,
    pub push_constants: PushConstantRange,
}

/// The number of bytes of one 32-bit float.
pub const FLOAT_SIZE: u32 = 4;

/// The number of floats of a vertex's position, colour and texture
/// coordinate.
pub const POSITION_COMPONENTS: u32 = 3;

pub const COLOR_COMPONENTS: u32 = 3;

pub const TEX_COORD_COMPONENTS: u32 = 2;

/// The size of a vertex in bytes: its attributes lie one behind the other.
pub open spec fn vertex_stride() -> int {
    FLOAT_SIZE * (POSITION_COMPONENTS + COLOR_COMPONENTS + TEX_COORD_COMPONENTS)
}

/// The attributes of a vertex: position, colour, texture coordinate, each at
/// the offset where the one before it ends.
pub open spec fn vertex_attributes() -> Seq<VertexAttribute> {
    seq![
        VertexAttribute { location: 0, binding: 0, format: FORMAT_R32G32B32A32_SFLOAT, offset: 0 },
        VertexAttribute {
            location: 1,
            binding: 0,
            format: FORMAT_R32G32B32A32_SFLOAT,
            offset: (FLOAT_SIZE * POSITION_COMPONENTS) as u32,
        },
        VertexAttribute {
            location: 2,
            binding: 0,
            format: FORMAT_R32G32_SFLOAT,
            offset: (FLOAT_SIZE * (POSITION_COMPONENTS + COLOR_COMPONENTS)) as u32,
        },
    ]
}

/// The fixed state of a pipeline that draws into targets of the given extent.
pub open spec fn pipeline_info_for(
    render_pass: u64,
    extent: Extent2D,
    push_constant_size: u32,
    msaa_samples: u32,
) -> PipelineInfo {
    PipelineInfo {
        render_pass,
        subpass: 0,
        binding: VertexBinding { binding: 0, stride: vertex_stride() as u32 },
        topology: Topology::TriangleList,
        viewport: Viewport {
            x: 0,
            y: 0,
            width: extent.width,
            height: extent.height,
            min_depth: 0,
            max_depth: 1,
        },
        scissor: Rect2D { x: 0, y: 0, extent },
        polygon_mode: PolygonMode::Fill,
        cull_mode: CullMode::Back,
        front_face: FrontFace::CounterClockwise,
        line_width: 1,
        rasterization_samples: msaa_samples,
        depth_test_enable: true,
        depth_write_enable: true,
        depth_compare_op: CompareOp::Less,
        blend_enable: false,
        color_write_mask: COLOR_COMPONENTS_RGBA,
        push_constants: PushConstantRange {
            stage_flags: SHADER_STAGE_VERTEX,
            offset: 0,
            size: push_constant_size,
        },
    }
}

impl PipelineInfo {
    /// The fixed state of a pipeline that draws through `render_pass` into
    /// targets of `extent` with `msaa_samples` samples and hands
    /// `push_constant_size` bytes to the vertex shader with each draw.
    pub fn new(render_pass: u64, extent: Extent2D, push_constant_size: u32, msaa_samples: u32) -> (info:
        PipelineInfo)
        ensures
            info == pipeline_info_for(render_pass, extent, push_constant_size, msaa_samples),
    {
        PipelineInfo {
            render_pass,
            subpass: 0,
            binding: get_binding_description(),
            topology: Topology::TriangleList,
            viewport: Viewport {
                x: 0,
                y: 0,
                width: extent.width,
                height: extent.height,
                min_depth: 0,
                max_depth: 1,
            },
            scissor: Rect2D { x: 0, y: 0, extent },
            polygon_mode: PolygonMode::Fill,
            cull_mode: CullMode::Back,
            front_face: FrontFace::CounterClockwise,
            line_width: 1,
            rasterization_samples: msaa_samples,
            depth_test_enable: true,
            depth_write_enable: true,
            depth_compare_op: CompareOp::Less,
            blend_enable: false,
            color_write_mask: COLOR_COMPONENTS_RGBA,
            push_constants: PushConstantRange {
                stage_flags: SHADER_STAGE_VERTEX,
                offset: 0,
                size: push_constant_size,
            },
        }
    }
}

/// The graphics pipeline and its layout.
pub struct GraphicPipeline {
    /// The driver's handles, zero until the pipeline has been created.
    pub layout: u64,
    pub pipeline: u64,
    pub info: PipelineInfo,
    pub attributes: Vec<VertexAttribute>,
    pub set_layouts: Vec<u64>,
}

impl GraphicPipeline {
    /// The viewport and the scissor cover exactly a target of `extent`.
    pub open spec fn baked_to(&self, extent: Extent2D) -> bool {
        &&& self.info.viewport.x == 0
        &&& self.info.viewport.y == 0
        &&& self.info.viewport.width == extent.width
        &&& self.info.viewport.height == extent.height
        &&& self.info.scissor == (Rect2D { x: 0, y: 0, extent })
    }

    /// Describes the pipeline that draws through `render_pass` into targets
    /// of `extent` with `msaa_samples` samples, takes its resources through
    /// `set_layouts` and hands `push_constant_size` bytes to the vertex
    /// shader with each draw. Neither the pipeline nor its layout has a
    /// handle yet.
    pub fn new(
        render_pass: u64,
        extent: Extent2D,
        set_layouts: &Vec<u64>,
        push_constant_size: u32,
        msaa_samples: u32,
    ) -> (pipeline: GraphicPipeline)
        ensures
            pipeline.layout == 0,
            pipeline.pipeline == 0,
            pipeline.info == pipeline_info_for(
                render_pass,
                extent,
                push_constant_size,
                msaa_samples,
            ),
            pipeline.attributes@ == vertex_attributes(),
            pipeline.set_layouts@ == set_layouts@,
            pipeline.baked_to(extent),
    {
        let info = PipelineInfo::new(render_pass, extent, push_constant_size, msaa_samples);
        GraphicPipeline {
            layout: 0,
            pipeline: 0,
            info,
            attributes: get_attribute_descriptions(),
            set_layouts: set_layouts.clone(),
        }
    }

    /// The command that binds the pipeline.
    pub fn bind(&self) -> (command: Command)
        ensures
            command == (Command::BindPipeline { pipeline: self.pipeline }),
    {
        Command::BindPipeline { pipeline: self.pipeline }
    }

    /// The handles to destroy, in order: the pipeline, then its layout.
    pub fn destroy(&self) -> (doomed: (u64, u64))
        ensures
            doomed == (self.pipeline, self.layout),
    {
        (self.pipeline, self.layout)
    }
}

/// The one binding that vertices are read from.
pub fn get_binding_description() -> (binding: VertexBinding)
    ensures
        binding == (VertexBinding { binding: 0, stride: vertex_stride() as u32 }),
{
    VertexBinding {
        binding: 0,
        stride: FLOAT_SIZE * (POSITION_COMPONENTS + COLOR_COMPONENTS + TEX_COORD_COMPONENTS),
    }
}

/// The three attributes of a vertex.
pub fn get_attribute_descriptions() -> (attributes: Vec<VertexAttribute>)
    ensures
        attributes@ == vertex_attributes(),
{
    let mut attributes: Vec<VertexAttribute> = Vec::new();
    attributes.push(
        VertexAttribute { location: 0, binding: 0, format: FORMAT_R32G32B32A32_SFLOAT, offset: 0 },
    );
    attributes.push(
        VertexAttribute {
            location: 1,
            binding: 0,
            format: FORMAT_R32G32B32A32_SFLOAT,
            offset: FLOAT_SIZE * POSITION_COMPONENTS,
        },
    );
    attributes.push(
        VertexAttribute {
            location: 2,
            binding: 0,
            format: FORMAT_R32G32_SFLOAT,
            offset: FLOAT_SIZE * (POSITION_COMPONENTS + COLOR_COMPONENTS),
        },
    );
    attributes
}

} // verus!
