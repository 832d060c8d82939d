//! The pipeline builder: two compiled stages, a vertex layout and a target
//! format become one render pipeline, or the first error that stops them.

use vstd::prelude::*;

use crate::bind_group::BindGroupLayout;
use crate::error::RenderError;
use crate::format::{ShaderStage, TextureFormat};
use crate::shader::{is_compile_error, spirv_words, stage_failure, ShaderModule};
use crate::texture::CompareFunction;
use crate::vertex::{VertexFormat, VertexLayout};

verus! {

/// The winding of a triangle that faces the viewer.
#[derive(Clone, Copy, Debug, PartialEq, Eq, Structural)]
pub enum FrontFace {
    Ccw,
    Cw,
}

/// Which triangles are dropped before rasterization.
#[derive(Clone, Copy, Debug, PartialEq, Eq, Structural)]
pub enum CullMode {
    Neither,
    Front,
    Back,
}

/// How vertices are assembled into primitives.
#[derive(Clone, Copy, Debug, PartialEq, Eq, Structural)]
pub enum PrimitiveTopology {
    PointList,
    LineList,
    LineStrip,
    TriangleList,
    TriangleStrip,
}

/// The width of one index.
#[derive(Clone, Copy, Debug, PartialEq, Eq, Structural)]
pub enum IndexFormat {
    Uint16,
    Uint32,
}

/// A factor of the blend equation.
#[derive(Clone, Copy, Debug, PartialEq, Eq, Structural)]
pub enum BlendFactor {
    Zero,
    One,
    SrcAlpha,
    OneMinusSrcAlpha,
}

/// The operator of the blend equation.
#[derive(Clone, Copy, Debug, PartialEq, Eq, Structural)]
pub enum BlendOperation {
    Add,
    Subtract,
    ReverseSubtract,
    Min,
    Max,
}

/// How a new value is combined with the one already in the target.
#[derive(Clone, Copy, Debug, PartialEq, Eq, Structural)]
pub struct BlendDescriptor {
    pub src_factor: BlendFactor,
    pub dst_factor: BlendFactor,
    pub operation: BlendOperation,
}

/// Which channels of the target a draw may write.
#[derive(Clone, Copy, Debug, PartialEq, Eq, Structural)]
pub struct ColorWrite {
    pub red: bool,
    pub green: bool,
    pub blue: bool,
    pub alpha: bool,
}

/// How primitives are rasterized.  The slope scale and the clamp of the
/// depth bias are whole numbers.
#[derive(Clone, Copy, Debug, PartialEq, Eq, Structural)]
pub struct RasterizationState {
    pub front_face: FrontFace,
    pub cull_mode: CullMode,
    pub depth_bias: i32,
    pub depth_bias_slope_scale: i32,
    pub depth_bias_clamp: i32,
}

/// What happens to a stencil value after a test.
#[derive(Clone, Copy, Debug, PartialEq, Eq, Structural)]
pub enum StencilOperation {
    Keep,
    Zero,
    Replace,
    Invert,
    IncrementClamp,
    DecrementClamp,
    IncrementWrap,
    DecrementWrap,
}

/// The stencil test for the triangles facing one way.
#[derive(Clone, Copy, Debug, PartialEq, Eq, Structural)]
pub struct StencilFace {
    pub compare: CompareFunction,
    pub fail_op: StencilOperation,
    pub depth_fail_op: StencilOperation,
    pub pass_op: StencilOperation,
}

/// The depth and stencil tests of a pipeline.
#[derive(Clone, Copy, Debug, PartialEq, Eq, Structural)]
pub struct DepthStencilState {
    pub format: TextureFormat,
    pub depth_write_enabled: bool,
    pub depth_compare: CompareFunction,
    pub stencil_front: StencilFace,
    pub stencil_back: StencilFace,
    pub stencil_read_mask: u32,
    pub stencil_write_mask: u32,
}

/// The colour target of a pipeline.
#[derive(Clone, Copy, Debug, PartialEq, Eq, Structural)]
pub struct ColorState {
    pub format: TextureFormat,
    pub alpha_blend: BlendDescriptor,
    pub color_blend: BlendDescriptor,
    pub write_mask: ColorWrite,
}

/// Everything about a pipeline that is not a program or a layout.
#[derive(Clone, Copy, Debug, PartialEq, Eq)]
pub struct FixedFunction {
    pub rasterization: RasterizationState,
    pub color_target: ColorState,
    pub primitive_topology: PrimitiveTopology,
    pub index_format: IndexFormat,
    pub depth_stencil: Option<DepthStencilState>,
    pub sample_count: u32,
    pub sample_mask: u32,
    pub alpha_to_coverage_enabled: bool,
}

/// The blend that overwrites the target with the new value.
pub open spec fn replace_blend() -> BlendDescriptor {
    BlendDescriptor {
        src_factor: BlendFactor::One,
        dst_factor: BlendFactor::Zero,
        operation: BlendOperation::Add,
    }
}

/// The fixed-function state of every pipeline of this renderer: front faces
/// wind counter-clockwise and back faces are culled; the one colour target
/// has the given format and is overwritten in all four channels; triangles
/// come as a list with 16-bit indices; no depth or stencil test, one sample
/// a pixel.
pub open spec fn fixed_function_for(target_format: TextureFormat) -> FixedFunction {
    FixedFunction {
        rasterization: RasterizationState {
            front_face: FrontFace::Ccw,
            cull_mode: CullMode::Back,
            depth_bias: 0,
            depth_bias_slope_scale: 0,
            depth_bias_clamp: 0,
        },
        color_target: ColorState {
            format: target_format,
            alpha_blend: replace_blend(),
            color_blend: replace_blend(),
            write_mask: ColorWrite { red: true, green: true, blue: true, alpha: true },
        },
        primitive_topology: PrimitiveTopology::TriangleList,
        index_format: IndexFormat::Uint16,
        depth_stencil: None,
        sample_count: 1,
        sample_mask: 0xffff_ffff,
        alpha_to_coverage_enabled: false,
    }
}

/// A render pipeline, as the device is asked to create it.
#[derive(Clone, Debug, PartialEq, Eq)]
pub struct RenderPipeline {
    pub vertex_stage: ShaderModule,
    pub fragment_stage: Option<ShaderModule>,
    pub vertex_layout: VertexLayout,
    pub bind_group_layouts: Vec<BindGroupLayout>,
    pub fixed: FixedFunction,
}

/// The diagnostic with which the shaders stop a build, if they do.  The
/// compiler's verdict on either stage comes before the look at its output.
pub open spec fn shader_failure(
    vertex: Result<Vec<u8>, String>,
    fragment: Option<Result<Vec<u8>, String>>,
) -> Option<Seq<char>> {
    match (vertex, fragment) {
        (Err(diagnostic), _) => Some(diagnostic@),
        (Ok(_), Some(Err(diagnostic))) => Some(diagnostic@),
        (Ok(_), Some(Ok(_))) => if stage_failure(vertex) is Some {
            stage_failure(vertex)
        } else {
            stage_failure(fragment->Some_0)
        },
        (Ok(_), None) => stage_failure(vertex),
    }
}

impl RenderPipeline {
    /// The pipeline is the one built from these modules, layouts and format.
    pub open spec fn is_built_from(
        self,
        vertex: Seq<u8>,
        fragment: Option<Seq<u8>>,
        vertex_layout: VertexLayout,
        bind_group_layouts: Vec<BindGroupLayout>,
        target_format: TextureFormat,
    ) -> bool {
        &&& spirv_words(vertex) matches Some(words) && self.vertex_stage.holds(
            ShaderStage::Vertex,
            words,
        )
        &&& match fragment {
            None => self.fragment_stage is None,
            Some(bytes) => spirv_words(bytes) matches Some(words) && self.fragment_stage matches Some(
                module,
            ) && module.holds(ShaderStage::Fragment, words),
        }
        &&& self.vertex_layout == vertex_layout
        &&& self.bind_group_layouts == bind_group_layouts
        &&& self.fixed == fixed_function_for(target_format)
    }

    /// Assembles a render pipeline.
    ///
    /// `vertex` and `fragment` are what the shading-language compiler handed
    /// back for each stage: its output as bytes, or its diagnostic.  A stage
    /// that did not compile, or whose output is no SPIR-V module, stops the
    /// build with a `ShaderCompileError` that carries the diagnostic.
    /// `vertex_inputs` are the inputs the vertex stage declares, by
    /// location; a layout that does not supply exactly these stops the build
    /// with `LayoutMismatch`.  Otherwise the pipeline holds both modules, the
    /// layouts as given, and the fixed-function state for `target_format`.
    pub fn build(
        vertex: Result<Vec<u8>, String>,
        fragment: Option<Result<Vec<u8>, String>>,
        vertex_inputs: &[VertexFormat],
        vertex_layout: VertexLayout,
        bind_group_layouts: Vec<BindGroupLayout>,
        target_format: TextureFormat,
    ) -> (r: Result<RenderPipeline, RenderError>)
        ensures
            match r {
                Ok(pipeline) => {
                    &&& shader_failure(vertex, fragment) is None
                    &&& vertex_layout.supplies(vertex_inputs@)
                    &&& pipeline.is_built_from(
                        vertex->Ok_0@,
                        match fragment {
                            Some(compiled) => Some(compiled->Ok_0@),
                            None => None,
                        },
                        vertex_layout,
                        bind_group_layouts,
                        target_format,
                    )
                },
                Err(e) => match shader_failure(vertex, fragment) {
                    Some(diagnostic) => is_compile_error(e, diagnostic),
                    None => !vertex_layout.supplies(vertex_inputs@) && e
                        == RenderError::LayoutMismatch,
                },
            },
    {
        let vertex_bytes = match vertex {
            Err(diagnostic) => {
                return Err(RenderError::ShaderCompileError(diagnostic));
            },
            Ok(bytes) => bytes,
        };
        let fragment_bytes = match fragment {
            Some(Err(diagnostic)) => {
                return Err(RenderError::ShaderCompileError(diagnostic));
            },
            Some(Ok(bytes)) => Some(bytes),
            None => None,
        };
        let vertex_stage = match ShaderModule::load(ShaderStage::Vertex, Ok(vertex_bytes)) {
            Err(e) => {
                return Err(e);
            },
            Ok(module) => module,
        };
        let fragment_stage = match fragment_bytes {
            None => None,
            Some(bytes) => match ShaderModule::load(ShaderStage::Fragment, Ok(bytes)) {
                Err(e) => {
                    return Err(e);
                },
                Ok(module) => Some(module),
            },
        };
        if !vertex_layout.matches_inputs(vertex_inputs) {
            return Err(RenderError::LayoutMismatch);
        }
        Ok(
            RenderPipeline {
                vertex_stage,
                fragment_stage,
                vertex_layout,
                bind_group_layouts,
                fixed: FixedFunction {
                    rasterization: RasterizationState {
                        front_face: FrontFace::Ccw,
                        cull_mode: CullMode::Back,
                        depth_bias: 0,
                        depth_bias_slope_scale: 0,
                        depth_bias_clamp: 0,
                    },
                    color_target: ColorState {
                        format: target_format,
                        alpha_blend: BlendDescriptor {
                            src_factor: BlendFactor::One,
                            dst_factor: BlendFactor::Zero,
                            operation: BlendOperation::Add,
                        },
                        color_blend: BlendDescriptor {
                            src_factor: BlendFactor::One,
                            dst_factor: BlendFactor::Zero,
                            operation: BlendOperation::Add,
                        },
                        write_mask: ColorWrite { red: true, green: true, blue: true, alpha: true },
                    },
                    primitive_topology: PrimitiveTopology::TriangleList,
                    index_format: IndexFormat::Uint16,
                    depth_stencil: None,
                    sample_count: 1,
                    sample_mask: 0xffff_ffff,
                    alpha_to_coverage_enabled: false,
                },
            },
        )
    }
}

/// A build never goes through with a layout whose number of attributes
/// differs from the number of inputs the vertex stage declares.
pub proof fn lemma_attribute_count_mismatch_stops_build(
    vertex_layout: VertexLayout,
    vertex_inputs: Seq<VertexFormat>,
)
    requires
        vertex_layout.attributes@.len() != vertex_inputs.len(),
    ensures
        !vertex_layout.supplies(vertex_inputs),
{
}

} // verus!
