//! Draws the particles of the fluid as screen-facing quads.
//!
//! The renderer owns one pipeline state and one bind group. The pipeline
//! state is replaced as a whole or not at all.

use crate::pipeline::{
    BindGroupLayoutBinding, BindingType, BlendDescriptor, ColorStateDescriptor, ColorWrite,
    CullMode, FrontFace, IndexFormat, PrimitiveTopology, ProgrammableStageDescriptor,
    PushConstantRange, RasterizationStateDescriptor, RenderPipelineDescriptor, ShaderStage,
    TextureFormat, VertexBufferDescriptor,
};
use crate::screen::spec_backbuffer_format;
use crate::uniformbuffer::{BindingResource, BufferSlice, UniformBuffer, UniformContent};
use vstd::prelude::*;

verus! {

/// Slot of the camera's uniform buffer.
pub const CAMERA_BINDING: u32 = 0;

/// Slot of the particle storage buffer.
pub const PARTICLE_BINDING: u32 = 1;

/// Index of the renderer's one bind group.
pub const BIND_GROUP_INDEX: u32 = 0;

/// Vertices drawn for each particle: the corners of a quad, as a strip.
pub const VERTICES_PER_PARTICLE: u32 = 4;

/// A resource and the slot that it is bound to.
#[derive(Debug, PartialEq, Eq)]
pub struct Binding<'a, Buffer> {
    pub binding: u32,
    pub resource: BindingResource<'a, Buffer>,
}

/// What the device needs to know to make a pipeline layout: the layouts of
/// the bind groups, by reference and in the order of their indices, and the
/// ranges of push constants.
#[derive(Debug, PartialEq, Eq)]
pub struct PipelineLayoutDescriptor<'a, BindGroupLayout> {
    pub bind_group_layouts: Vec<&'a BindGroupLayout>,
    pub push_constant_ranges: Vec<PushConstantRange>,
}

/// A pipeline on the device, together with what it was built from.
#[derive(Debug, PartialEq, Eq)]
pub struct PipelineState<Pipeline, Module> {
    pub pipeline: Pipeline,
    pub descriptor: RenderPipelineDescriptor<Module>,
}

/// One command of a render pass.
#[derive(Debug, PartialEq, Eq)]
pub enum RenderCommand<'a, Pipeline, BindGroup> {
    SetPipeline(&'a Pipeline),
    /// Bind `bind_group` at `index`, with one dynamic offset for each of its
    /// bindings that takes one.
    SetBindGroup { index: u32, bind_group: &'a BindGroup, offsets: Vec<u32> },
    /// A draw without indices, of the vertices `first_vertex..end_vertex`
    /// for each of the instances `first_instance..end_instance`.
    Draw { first_vertex: u32, end_vertex: u32, first_instance: u32, end_instance: u32 },
}

/// Source file of the vertex stage, below the shader directory.
pub open spec fn spec_vertex_shader_path() -> Seq<char> {
    "sphere_particles.vert"@
}

/// Source file of the fragment stage, below the shader directory.
pub open spec fn spec_fragment_shader_path() -> Seq<char> {
    "sphere_particles.frag"@
}

/// The two slots of the bind group: the camera's uniform buffer for both
/// stages, and the particles as read-only storage for the vertex stage.
pub open spec fn spec_bind_group_layout() -> Seq<BindGroupLayoutBinding> {
    seq![
        BindGroupLayoutBinding {
            binding: CAMERA_BINDING,
            visibility: ShaderStage::spec_vertex_and_fragment(),
            ty: BindingType::UniformBuffer { dynamic: false, min_binding_size: None },
            count: None,
        },
        BindGroupLayoutBinding {
            binding: PARTICLE_BINDING,
            visibility: ShaderStage::spec_vertex(),
            ty: BindingType::StorageBuffer {
                dynamic: false,
                min_binding_size: None,
                readonly: true,
            },
            count: None,
        },
    ]
}

/// Counter-clockwise front faces, nothing culled, no depth bias.
pub open spec fn spec_rasterization_state() -> RasterizationStateDescriptor {
    RasterizationStateDescriptor {
        front_face: FrontFace::Ccw,
        cull_mode: CullMode::Off,
        clamp_depth: false,
        depth_bias: 0,
        depth_bias_slope_scale: 0,
        depth_bias_clamp: 0,
    }
}

/// The backbuffer, every channel overwritten.
pub open spec fn spec_color_state() -> ColorStateDescriptor {
    ColorStateDescriptor {
        format: spec_backbuffer_format(),
        color_blend: BlendDescriptor::spec_replace(),
        alpha_blend: BlendDescriptor::spec_replace(),
        write_mask: ColorWrite::spec_all(),
    }
}

/// `descriptor` is the particle pipeline over the two given modules: both
/// entered at `main`, with the renderer's fixed configuration. The pipeline
/// writes to the backbuffer alone, without a depth or stencil test, and
/// reads no vertex buffer: the vertex stage makes the corners of each quad
/// from the particle it belongs to.
pub open spec fn is_particle_pipeline<Module>(
    descriptor: RenderPipelineDescriptor<Module>,
    vs_module: Module,
    fs_module: Module,
) -> bool {
    &&& descriptor.vertex_stage.module == vs_module
    &&& descriptor.vertex_stage.entry_point@ == "main"@
    &&& descriptor.fragment_stage matches Some(stage) && stage.module == fs_module
        && stage.entry_point@ == "main"@
    &&& descriptor.rasterization_state == Some(spec_rasterization_state())
    &&& descriptor.primitive_topology == PrimitiveTopology::TriangleStrip
    &&& descriptor.color_states@ == seq![spec_color_state()]
    &&& descriptor.depth_stencil_state is None
    &&& descriptor.index_format == IndexFormat::Uint16
    &&& descriptor.vertex_buffers@.len() == 0
    &&& descriptor.sample_count == 1
    &&& descriptor.sample_mask == u32::MAX
    &&& !descriptor.alpha_to_coverage_enabled
}

/// `created` is what the two modules, as far as they were loaded, give: the
/// particle pipeline over both, or nothing where one is missing.
pub open spec fn is_created<Module>(
    created: Option<RenderPipelineDescriptor<Module>>,
    vs_module: Option<Module>,
    fs_module: Option<Module>,
) -> bool {
    match created {
        Some(descriptor) => vs_module is Some && fs_module is Some && is_particle_pipeline(
            descriptor,
            vs_module->0,
            fs_module->0,
        ),
        None => vs_module is None || fs_module is None,
    }
}

impl<Pipeline, Module> PipelineState<Pipeline, Module> {
    /// The state that a description and the device's answer to it give.
    pub open spec fn spec_new(
        descriptor: Option<RenderPipelineDescriptor<Module>>,
        pipeline: Option<Pipeline>,
    ) -> Option<Self> {
        match (descriptor, pipeline) {
            (Some(descriptor), Some(pipeline)) => Some(PipelineState { pipeline, descriptor }),
            _ => None,
        }
    }

    /// Joins a description with the pipeline that the device built from it.
    /// Where there was nothing to build from, or the device built nothing,
    /// there is no state.
    pub fn new(
        descriptor: Option<RenderPipelineDescriptor<Module>>,
        pipeline: Option<Pipeline>,
    ) -> (state: Option<Self>)
        ensures
            state == Self::spec_new(descriptor, pipeline),
    {
        match (descriptor, pipeline) {
            (Some(descriptor), Some(pipeline)) => Some(PipelineState { pipeline, descriptor }),
            _ => None,
        }
    }
}

/// `commands` are the commands that draw `num_particles` particles with
/// `pipeline` and `bind_group`: bind the pipeline, bind the bind group
/// without any dynamic offset, then one draw of four vertices per instance.
pub open spec fn is_draw<'a, Pipeline, BindGroup>(
    commands: Seq<RenderCommand<'a, Pipeline, BindGroup>>,
    pipeline: &'a Pipeline,
    bind_group: &'a BindGroup,
    num_particles: u32,
) -> bool {
    &&& commands.len() == 3
    &&& commands[0] matches RenderCommand::SetPipeline(bound) && bound == pipeline
    &&& commands[1] matches RenderCommand::SetBindGroup { index, bind_group: bound, offsets }
        && index == BIND_GROUP_INDEX && bound == bind_group && offsets@.len() == 0
    &&& commands[2] matches RenderCommand::Draw {
        first_vertex,
        end_vertex,
        first_instance,
        end_instance,
    } && first_vertex == 0 && end_vertex == VERTICES_PER_PARTICLE && first_instance == 0
        && end_instance == num_particles
}

/// The renderer: its pipeline state, the pipeline layout that every
/// pipeline state is built against, and its bind group.
pub struct ParticleRenderer<Pipeline, Module, PipelineLayout, BindGroup> {
    render_pipeline: PipelineState<Pipeline, Module>,
    pipeline_layout: PipelineLayout,
    bind_group: BindGroup,
}

impl<Pipeline, Module, PipelineLayout, BindGroup> ParticleRenderer<
    Pipeline,
    Module,
    PipelineLayout,
    BindGroup,
> {
    /// The pipeline state in use.
    pub closed spec fn spec_render_pipeline(&self) -> PipelineState<Pipeline, Module> {
        self.render_pipeline
    }

    pub closed spec fn spec_pipeline_layout(&self) -> PipelineLayout {
        self.pipeline_layout
    }

    pub closed spec fn spec_bind_group(&self) -> BindGroup {
        self.bind_group
    }

    /// The module bound to the vertex stage.
    pub open spec fn spec_vertex_module(&self) -> Module {
        self.spec_render_pipeline().descriptor.vertex_stage.module
    }

    /// The module bound to the fragment stage, if the pipeline has one.
    pub open spec fn spec_fragment_module(&self) -> Option<Module> {
        match self.spec_render_pipeline().descriptor.fragment_stage {
            Some(stage) => Some(stage.module),
            None => None,
        }
    }

    /// The pipeline state after a reload that produced `candidate`.
    pub open spec fn spec_reloaded(
        &self,
        candidate: Option<PipelineState<Pipeline, Module>>,
    ) -> PipelineState<Pipeline, Module> {
        match candidate {
            Some(state) => state,
            None => self.spec_render_pipeline(),
        }
    }

    /// The layout of the bind group.
    pub fn bind_group_layout_desc() -> (bindings: Vec<BindGroupLayoutBinding>)
        ensures
            bindings@ == spec_bind_group_layout(),
    {
        vec![
            BindGroupLayoutBinding {
                binding: CAMERA_BINDING,
                visibility: ShaderStage::vertex_and_fragment(),
                ty: BindingType::UniformBuffer { dynamic: false, min_binding_size: None },
                count: None,
            },
            BindGroupLayoutBinding {
                binding: PARTICLE_BINDING,
                visibility: ShaderStage::vertex(),
                ty: BindingType::StorageBuffer {
                    dynamic: false,
                    min_binding_size: None,
                    readonly: true,
                },
                count: None,
            },
        ]
    }

    /// The pipeline layout: the one bind group, laid out as
    /// `bind_group_layout`, and no push constants.
    pub fn pipeline_layout_desc<'a, BindGroupLayout>(
        bind_group_layout: &'a BindGroupLayout,
    ) -> (descriptor: PipelineLayoutDescriptor<'a, BindGroupLayout>)
        ensures
            descriptor.bind_group_layouts@ == seq![bind_group_layout],
            descriptor.push_constant_ranges@.len() == 0,
    {
        PipelineLayoutDescriptor {
            bind_group_layouts: vec![bind_group_layout],
            push_constant_ranges: Vec::new(),
        }
    }

    /// The resources of the bind group: the whole camera buffer in the
    /// camera slot, and the first `particle_buffer_size` bytes of the
    /// particle buffer in the particle slot. Both buffers stay with their
    /// owners and have to outlive the bind group.
    pub fn bind_group_desc<'a, Content: UniformContent, Buffer>(
        ubo_camera: &'a UniformBuffer<Content, Buffer>,
        particle_buffer: &'a Buffer,
        particle_buffer_size: u64,
    ) -> (bindings: Vec<Binding<'a, Buffer>>)
        ensures
            bindings@ == seq![
                Binding {
                    binding: CAMERA_BINDING,
                    resource: BindingResource::Buffer(
                        BufferSlice { buffer: &ubo_camera.spec_buffer(), offset: 0, size: None },
                    ),
                },
                Binding {
                    binding: PARTICLE_BINDING,
                    resource: BindingResource::Buffer(
                        BufferSlice {
                            buffer: particle_buffer,
                            offset: 0,
                            size: Some(particle_buffer_size),
                        },
                    ),
                },
            ],
    {
        vec![
            Binding { binding: CAMERA_BINDING, resource: ubo_camera.binding_resource() },
            Binding {
                binding: PARTICLE_BINDING,
                resource: BindingResource::Buffer(
                    BufferSlice {
                        buffer: particle_buffer,
                        offset: 0,
                        size: Some(particle_buffer_size),
                    },
                ),
            },
        ]
    }

    /// Path of the vertex stage's source.
    pub fn vertex_shader_path() -> (path: String)
        ensures
            path@ == spec_vertex_shader_path(),
    {
        "sphere_particles.vert".to_owned()
    }

    /// Path of the fragment stage's source.
    pub fn fragment_shader_path() -> (path: String)
        ensures
            path@ == spec_fragment_shader_path(),
    {
        "sphere_particles.frag".to_owned()
    }

    /// Describes the pipeline over the two stage modules, as far as they
    /// were loaded: there is a description if and only if both are there,
    /// and it binds exactly these two.
    pub fn create_pipeline_state(vs_module: Option<Module>, fs_module: Option<Module>) -> (created:
        Option<RenderPipelineDescriptor<Module>>)
        ensures
            is_created(created, vs_module, fs_module),
    {
        let vs_module = vs_module?;
        let fs_module = fs_module?;
        let color_states = vec![
            ColorStateDescriptor {
                format: TextureFormat::Bgra8Unorm,
                color_blend: BlendDescriptor::replace(),
                alpha_blend: BlendDescriptor::replace(),
                write_mask: ColorWrite::all(),
            },
        ];
        assert(color_states@ =~= seq![spec_color_state()]);
        let vertex_buffers: Vec<VertexBufferDescriptor> = Vec::new();
        Some(
            RenderPipelineDescriptor {
                vertex_stage: ProgrammableStageDescriptor {
                    module: vs_module,
                    entry_point: "main".to_owned(),
                },
                fragment_stage: Some(
                    ProgrammableStageDescriptor {
                        module: fs_module,
                        entry_point: "main".to_owned(),
                    },
                ),
                rasterization_state: Some(
                    RasterizationStateDescriptor {
                        front_face: FrontFace::Ccw,
                        cull_mode: CullMode::Off,
                        clamp_depth: false,
                        depth_bias: 0,
                        depth_bias_slope_scale: 0,
                        depth_bias_clamp: 0,
                    },
                ),
                primitive_topology: PrimitiveTopology::TriangleStrip,
                color_states,
                depth_stencil_state: None,
                index_format: IndexFormat::Uint16,
                vertex_buffers,
                sample_count: 1,
                sample_mask: u32::MAX,
                alpha_to_coverage_enabled: false,
            },
        )
    }

    /// Puts the renderer together from what the device made. Without an
    /// initial pipeline state there is no renderer.
    pub fn new(
        pipeline_layout: PipelineLayout,
        render_pipeline: Option<PipelineState<Pipeline, Module>>,
        bind_group: BindGroup,
    ) -> (renderer: Option<Self>)
        ensures
            renderer is Some <==> render_pipeline is Some,
            renderer matches Some(r) ==> r.spec_render_pipeline() == render_pipeline->0
                && r.spec_pipeline_layout() == pipeline_layout && r.spec_bind_group()
                == bind_group,
    {
        match render_pipeline {
            Some(render_pipeline) => Some(
                ParticleRenderer { render_pipeline, pipeline_layout, bind_group },
            ),
            None => None,
        }
    }

    /// Ends a reload. `candidate` is the pipeline state that the reload
    /// produced, if it produced one. It takes the place of the old state;
    /// without one the renderer stays exactly as it was.
    pub fn try_reload_shaders(&mut self, candidate: Option<PipelineState<Pipeline, Module>>)
        ensures
            final(self).spec_render_pipeline() == old(self).spec_reloaded(candidate),
            final(self).spec_pipeline_layout() == old(self).spec_pipeline_layout(),
            final(self).spec_bind_group() == old(self).spec_bind_group(),
            candidate is None ==> *final(self) == *old(self),
    {
        if let Some(render_pipeline) = candidate {
            self.render_pipeline = render_pipeline;
        }
    }

    /// Puts `bind_group` in the place of the bind group in use and hands the
    /// old one back. This is due whenever one of the bound buffers is
    /// replaced by another; the pipeline state has no part in it.
    pub fn rebind(&mut self, bind_group: BindGroup) -> (retired: BindGroup)
        ensures
            retired == old(self).spec_bind_group(),
            final(self).spec_bind_group() == bind_group,
            final(self).spec_render_pipeline() == old(self).spec_render_pipeline(),
            final(self).spec_pipeline_layout() == old(self).spec_pipeline_layout(),
    {
        let mut bind_group = bind_group;
        std::mem::swap(&mut self.bind_group, &mut bind_group);
        bind_group
    }

    /// The commands that draw `num_particles` particles.
    pub fn draw(&self, num_particles: u32) -> (commands: Vec<
        RenderCommand<'_, Pipeline, BindGroup>,
    >)
        ensures
            is_draw(
                commands@,
                &self.spec_render_pipeline().pipeline,
                &self.spec_bind_group(),
                num_particles,
            ),
    {
        vec![
            RenderCommand::SetPipeline(&self.render_pipeline.pipeline),
            RenderCommand::SetBindGroup {
                index: BIND_GROUP_INDEX,
                bind_group: &self.bind_group,
                offsets: Vec::new(),
            },
            RenderCommand::Draw {
                first_vertex: 0,
                end_vertex: VERTICES_PER_PARTICLE,
                first_instance: 0,
                end_instance: num_particles,
            },
        ]
    }

    pub fn render_pipeline(&self) -> (state: &PipelineState<Pipeline, Module>)
        ensures
            *state == self.spec_render_pipeline(),
    {
        &self.render_pipeline
    }

    pub fn pipeline_layout(&self) -> (layout: &PipelineLayout)
        ensures
            *layout == self.spec_pipeline_layout(),
    {
        &self.pipeline_layout
    }

    pub fn bind_group(&self) -> (bind_group: &BindGroup)
        ensures
            *bind_group == self.spec_bind_group(),
    {
        &self.bind_group
    }
}

/// A reload is all or nothing. `before` is the renderer before a reload and
/// `after` the renderer after it, where the two loads gave `vs_module` and
/// `fs_module`, `created` is the description made of them and `pipeline` is
/// what the device built. Then `after` either binds both new modules, in a
/// pipeline state that is new as a whole, or binds the two modules that
/// `before` bound, in the very same state. It never binds one new module
/// beside an old one.
pub proof fn lemma_reload_all_or_nothing<Pipeline, Module, PipelineLayout, BindGroup>(
    before: ParticleRenderer<Pipeline, Module, PipelineLayout, BindGroup>,
    after: ParticleRenderer<Pipeline, Module, PipelineLayout, BindGroup>,
    vs_module: Option<Module>,
    fs_module: Option<Module>,
    created: Option<RenderPipelineDescriptor<Module>>,
    pipeline: Option<Pipeline>,
)
    requires
        is_created(created, vs_module, fs_module),
        after.spec_render_pipeline() == before.spec_reloaded(
            PipelineState::spec_new(created, pipeline),
        ),
    ensures
        ({
            let replaced = vs_module is Some && fs_module is Some && pipeline is Some;
            &&& replaced ==> after.spec_render_pipeline().pipeline == pipeline->0
                && after.spec_vertex_module() == vs_module->0 && after.spec_fragment_module()
                == Some(fs_module->0)
            &&& !replaced ==> after.spec_render_pipeline() == before.spec_render_pipeline()
                && after.spec_vertex_module() == before.spec_vertex_module()
                && after.spec_fragment_module() == before.spec_fragment_module()
        }),
{
}

/// A reload that produced no pipeline state leaves the draw commands as they
/// were: the same pipeline and the same bind group, for every number of
/// particles.
pub proof fn lemma_failed_reload_keeps_draw<'a, Pipeline, Module, PipelineLayout, BindGroup>(
    before: &'a ParticleRenderer<Pipeline, Module, PipelineLayout, BindGroup>,
    after: &'a ParticleRenderer<Pipeline, Module, PipelineLayout, BindGroup>,
    commands: Seq<RenderCommand<'a, Pipeline, BindGroup>>,
    num_particles: u32,
)
    requires
        after.spec_render_pipeline() == before.spec_reloaded(None),
        after.spec_bind_group() == before.spec_bind_group(),
    ensures
        is_draw(
            commands,
            &after.spec_render_pipeline().pipeline,
            &after.spec_bind_group(),
            num_particles,
        ) <==> is_draw(
            commands,
            &before.spec_render_pipeline().pipeline,
            &before.spec_bind_group(),
            num_particles,
        ),
{
}

} // verus!
