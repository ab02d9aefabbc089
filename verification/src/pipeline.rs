//! Plain descriptions of a render pipeline and of the resources bound to it.
//!
//! Nothing here touches a device. The caller turns each description into the
//! device's own descriptor, field by field.

use vstd::prelude::*;

verus! {

/// The shader stages that can see a binding.
#[derive(Clone, Copy, Debug, PartialEq, Eq, Structural)]
pub struct ShaderStage {
    pub vertex: bool,
    pub fragment: bool,
    pub compute: bool,
}

/// The kind of resource that a binding slot expects. `min_binding_size` is
/// the least size in bytes of a buffer bound to the slot, where the layout
/// fixes one.
#[derive(Clone, Copy, Debug, PartialEq, Eq, Structural)]
pub enum BindingType {
    UniformBuffer { dynamic: bool, min_binding_size: Option<u64> },
    StorageBuffer { dynamic: bool, min_binding_size: Option<u64>, readonly: bool },
}

/// One slot of a bind group layout. `count` is the length of the array of
/// resources in the slot, where the slot holds an array.
#[derive(Clone, Copy, Debug, PartialEq, Eq, Structural)]
pub struct BindGroupLayoutBinding {
    pub binding: u32,
    pub visibility: ShaderStage,
    pub ty: BindingType,
    pub count: Option<u32>,
}

/// A range of push constant memory and the stages that read it.
#[derive(Clone, Copy, Debug, PartialEq, Eq, Structural)]
pub struct PushConstantRange {
    pub stages: ShaderStage,
    pub start: u32,
    pub end: u32,
}

/// Pixel formats of render targets.
#[derive(Clone, Copy, Debug, PartialEq, Eq, Structural)]
pub enum TextureFormat {
    Rgba8Unorm,
    Rgba8UnormSrgb,
    Bgra8Unorm,
    Bgra8UnormSrgb,
    Depth32Float,
    Depth24Plus,
    Depth24PlusStencil8,
}

/// How the vertices of a draw are assembled into primitives.
#[derive(Clone, Copy, Debug, PartialEq, Eq, Structural)]
pub enum PrimitiveTopology {
    PointList,
    LineList,
    LineStrip,
    TriangleList,
    TriangleStrip,
}

/// Winding order of a front-facing triangle.
#[derive(Clone, Copy, Debug, PartialEq, Eq, Structural)]
pub enum FrontFace {
    Ccw,
    Cw,
}

/// Which faces are discarded.
#[derive(Clone, Copy, Debug, PartialEq, Eq, Structural)]
pub enum CullMode {
    Off,
    Front,
    Back,
}

#[derive(Clone, Copy, Debug, PartialEq, Eq, Structural)]
pub enum BlendFactor {
    Zero,
    One,
    SrcColor,
    OneMinusSrcColor,
    SrcAlpha,
    OneMinusSrcAlpha,
    DstColor,
    OneMinusDstColor,
    DstAlpha,
    OneMinusDstAlpha,
    SrcAlphaSaturated,
    BlendColor,
    OneMinusBlendColor,
}

#[derive(Clone, Copy, Debug, PartialEq, Eq, Structural)]
pub enum BlendOperation {
    Add,
    Subtract,
    ReverseSubtract,
    Min,
    Max,
}

/// How a new colour is combined with the one already in the target.
#[derive(Clone, Copy, Debug, PartialEq, Eq, Structural)]
pub struct BlendDescriptor {
    pub src_factor: BlendFactor,
    pub dst_factor: BlendFactor,
    pub operation: BlendOperation,
}

/// The colour channels that a pipeline writes.
#[derive(Clone, Copy, Debug, PartialEq, Eq, Structural)]
pub struct ColorWrite {
    pub red: bool,
    pub green: bool,
    pub blue: bool,
    pub alpha: bool,
}

/// Output state of one colour target.
#[derive(Clone, Copy, Debug, PartialEq, Eq, Structural)]
pub struct ColorStateDescriptor {
    pub format: TextureFormat,
    pub color_blend: BlendDescriptor,
    pub alpha_blend: BlendDescriptor,
    pub write_mask: ColorWrite,
}

#[derive(Clone, Copy, Debug, PartialEq, Eq, Structural)]
pub enum CompareFunction {
    Never,
    Less,
    Equal,
    LessEqual,
    Greater,
    NotEqual,
    GreaterEqual,
    Always,
}

#[derive(Clone, Copy, Debug, PartialEq, Eq, Structural)]
pub enum StencilOperation {
    Keep,
    Zero,
    Replace,
    Invert,
    IncrementClamp,
    DecrementClamp,
    IncrementWrap,
    DecrementWrap,
}

/// Stencil test and updates for one face.
#[derive(Clone, Copy, Debug, PartialEq, Eq, Structural)]
pub struct StencilStateFaceDescriptor {
    pub compare: CompareFunction,
    pub fail_op: StencilOperation,
    pub depth_fail_op: StencilOperation,
    pub pass_op: StencilOperation,
}

/// Depth and stencil state of a pipeline.
#[derive(Clone, Copy, Debug, PartialEq, Eq, Structural)]
pub struct DepthStencilStateDescriptor {
    pub format: TextureFormat,
    pub depth_write_enabled: bool,
    pub depth_compare: CompareFunction,
    pub stencil_front: StencilStateFaceDescriptor,
    pub stencil_back: StencilStateFaceDescriptor,
    pub stencil_read_mask: u32,
    pub stencil_write_mask: u32,
}

/// Rasterizer state of a pipeline. The two depth bias factors are bit
/// patterns of single-precision numbers.
#[derive(Clone, Copy, Debug, PartialEq, Eq, Structural)]
pub struct RasterizationStateDescriptor {
    pub front_face: FrontFace,
    pub cull_mode: CullMode,
    pub clamp_depth: bool,
    pub depth_bias: i32,
    pub depth_bias_slope_scale: u32,
    pub depth_bias_clamp: u32,
}

/// Width of the indices of an indexed draw.
#[derive(Clone, Copy, Debug, PartialEq, Eq, Structural)]
pub enum IndexFormat {
    Uint16,
    Uint32,
}

/// Type of one vertex attribute: one to four components of 32 bits each.
#[derive(Clone, Copy, Debug, PartialEq, Eq, Structural)]
pub enum VertexFormat {
    Float,
    Float2,
    Float3,
    Float4,
    Uint,
    Uint2,
    Uint3,
    Uint4,
    Int,
    Int2,
    Int3,
    Int4,
}

/// Whether a vertex buffer advances with each vertex or with each instance.
#[derive(Clone, Copy, Debug, PartialEq, Eq, Structural)]
pub enum InputStepMode {
    Vertex,
    Instance,
}

/// One attribute of a vertex, read from a vertex buffer.
#[derive(Clone, Copy, Debug, PartialEq, Eq, Structural)]
pub struct VertexAttributeDescriptor {
    pub offset: u64,
    pub format: VertexFormat,
    pub shader_location: u32,
}

/// How one vertex buffer is read.
#[derive(Clone, Debug, PartialEq, Eq)]
pub struct VertexBufferDescriptor {
    pub stride: u64,
    pub step_mode: InputStepMode,
    pub attributes: Vec<VertexAttributeDescriptor>,
}

/// One programmable stage: a compiled module and the name of its entry
/// point.
#[derive(Debug, PartialEq, Eq)]
pub struct ProgrammableStageDescriptor<Module> {
    pub module: Module,
    pub entry_point: String,
}

/// Everything that defines a render pipeline, but for the layout of its bind
/// groups, which the caller holds.
#[derive(Debug, PartialEq, Eq)]
pub struct RenderPipelineDescriptor<Module> {
    pub vertex_stage: ProgrammableStageDescriptor<Module>,
    pub fragment_stage: Option<ProgrammableStageDescriptor<Module>>,
    pub rasterization_state: Option<RasterizationStateDescriptor>,
    pub primitive_topology: PrimitiveTopology,
    pub color_states: Vec<ColorStateDescriptor>,
    pub depth_stencil_state: Option<DepthStencilStateDescriptor>,
    pub index_format: IndexFormat,
    pub vertex_buffers: Vec<VertexBufferDescriptor>,
    pub sample_count: u32,
    pub sample_mask: u32,
    pub alpha_to_coverage_enabled: bool,
}

impl<Module> RenderPipelineDescriptor<Module> {
    /// Format of the depth target that the pipeline renders into, if it
    /// tests or writes depth at all.
    pub open spec fn spec_depth_format(self) -> Option<TextureFormat> {
        match self.depth_stencil_state {
            Some(state) => Some(state.format),
            None => None,
        }
    }
}

impl ShaderStage {
    pub open spec fn spec_vertex() -> ShaderStage {
        ShaderStage { vertex: true, fragment: false, compute: false }
    }

    pub open spec fn spec_vertex_and_fragment() -> ShaderStage {
        ShaderStage { vertex: true, fragment: true, compute: false }
    }

    /// Visible to the vertex stage alone.
    pub fn vertex() -> (stages: ShaderStage)
        ensures
            stages == Self::spec_vertex(),
    {
        ShaderStage { vertex: true, fragment: false, compute: false }
    }

    /// Visible to the vertex and the fragment stage.
    pub fn vertex_and_fragment() -> (stages: ShaderStage)
        ensures
            stages == Self::spec_vertex_and_fragment(),
    {
        ShaderStage { vertex: true, fragment: true, compute: false }
    }
}

impl BlendDescriptor {
    pub open spec fn spec_replace() -> BlendDescriptor {
        BlendDescriptor {
            src_factor: BlendFactor::One,
            dst_factor: BlendFactor::Zero,
            operation: BlendOperation::Add,
        }
    }

    /// The new colour replaces the old one.
    pub fn replace() -> (blend: BlendDescriptor)
        ensures
            blend == Self::spec_replace(),
    {
        BlendDescriptor {
            src_factor: BlendFactor::One,
            dst_factor: BlendFactor::Zero,
            operation: BlendOperation::Add,
        }
    }
}

impl ColorWrite {
    pub open spec fn spec_all() -> ColorWrite {
        ColorWrite { red: true, green: true, blue: true, alpha: true }
    }

    /// Every channel is written.
    pub fn all() -> (mask: ColorWrite)
        ensures
            mask == Self::spec_all(),
    {
        ColorWrite { red: true, green: true, blue: true, alpha: true }
    }
}

} // verus!
