use blub::particle_renderer::{
    Binding, ParticleRenderer, PipelineState, RenderCommand, BIND_GROUP_INDEX, CAMERA_BINDING,
    PARTICLE_BINDING, VERTICES_PER_PARTICLE,
};
use blub::pipeline::{
    BindGroupLayoutBinding, BindingType, BlendDescriptor, BlendFactor, BlendOperation,
    ColorStateDescriptor, ColorWrite, CullMode, FrontFace, IndexFormat, PrimitiveTopology,
    RasterizationStateDescriptor, ShaderStage, TextureFormat,
};
use blub::uniformbuffer::{BindingResource, BufferSlice, PaddedVector3, UniformBuffer};

type Renderer = ParticleRenderer<&'static str, &'static str, &'static str, &'static str>;
type State = PipelineState<&'static str, &'static str>;

fn state(pipeline: &'static str, vs: &'static str, fs: &'static str) -> Option<State> {
    PipelineState::new(Renderer::create_pipeline_state(Some(vs), Some(fs)), Some(pipeline))
}

fn renderer() -> Renderer {
    Renderer::new("layout", state("pipeline 1", "vs 1", "fs 1"), "bind group").unwrap()
}

#[test]
fn constants() {
    assert_eq!(CAMERA_BINDING, 0);
    assert_eq!(PARTICLE_BINDING, 1);
    assert_eq!(BIND_GROUP_INDEX, 0);
    assert_eq!(VERTICES_PER_PARTICLE, 4);
}

#[test]
fn shader_paths() {
    assert_eq!(Renderer::vertex_shader_path(), "sphere_particles.vert");
    assert_eq!(Renderer::fragment_shader_path(), "sphere_particles.frag");
}

#[test]
fn bind_group_layout_has_camera_and_particle_slots() {
    assert_eq!(
        Renderer::bind_group_layout_desc(),
        vec![
            BindGroupLayoutBinding {
                binding: 0,
                visibility: ShaderStage { vertex: true, fragment: true, compute: false },
                ty: BindingType::UniformBuffer { dynamic: false, min_binding_size: None },
                count: None,
            },
            BindGroupLayoutBinding {
                binding: 1,
                visibility: ShaderStage { vertex: true, fragment: false, compute: false },
                ty: BindingType::StorageBuffer {
                    dynamic: false,
                    min_binding_size: None,
                    readonly: true,
                },
                count: None,
            },
        ]
    );
}

#[test]
fn bind_group_refers_to_both_buffers_by_handle() {
    let camera = UniformBuffer::<PaddedVector3, u32>::new(11);
    let particles: u32 = 22;
    let bindings = Renderer::bind_group_desc(&camera, &particles, 4096);
    assert_eq!(
        bindings,
        vec![
            Binding {
                binding: 0,
                resource: BindingResource::Buffer(
                    BufferSlice { buffer: &11, offset: 0, size: None }
                ),
            },
            Binding {
                binding: 1,
                resource: BindingResource::Buffer(
                    BufferSlice { buffer: &22, offset: 0, size: Some(4096) }
                ),
            },
        ]
    );
    // Neither buffer has moved.
    assert_eq!(*camera.buffer(), 11);
    assert_eq!(particles, 22);
}

#[test]
fn pipeline_layout_has_the_one_bind_group_and_no_push_constants() {
    let bind_group_layout = "bind group layout";
    let descriptor = Renderer::pipeline_layout_desc(&bind_group_layout);
    assert_eq!(descriptor.bind_group_layouts, vec![&"bind group layout"]);
    assert!(descriptor.push_constant_ranges.is_empty());
}

#[test]
fn pipeline_needs_both_stages() {
    assert!(Renderer::create_pipeline_state(Some("vs"), Some("fs")).is_some());
    assert!(Renderer::create_pipeline_state(None, Some("fs")).is_none());
    assert!(Renderer::create_pipeline_state(Some("vs"), None).is_none());
    assert!(Renderer::create_pipeline_state(None, None).is_none());
}

#[test]
fn pipeline_binds_the_two_modules_at_main() {
    let descriptor = Renderer::create_pipeline_state(Some("vs"), Some("fs")).unwrap();
    assert_eq!(descriptor.vertex_stage.module, "vs");
    assert_eq!(descriptor.vertex_stage.entry_point, "main");
    let fragment = descriptor.fragment_stage.unwrap();
    assert_eq!(fragment.module, "fs");
    assert_eq!(fragment.entry_point, "main");
}

#[test]
fn pipeline_fixed_function_configuration() {
    let descriptor = Renderer::create_pipeline_state(Some("vs"), Some("fs")).unwrap();
    assert_eq!(
        descriptor.rasterization_state,
        Some(RasterizationStateDescriptor {
            front_face: FrontFace::Ccw,
            cull_mode: CullMode::Off,
            clamp_depth: false,
            depth_bias: 0,
            depth_bias_slope_scale: 0.0f32.to_bits(),
            depth_bias_clamp: 0.0f32.to_bits(),
        })
    );
    assert_eq!(descriptor.primitive_topology, PrimitiveTopology::TriangleStrip);
    let replace = BlendDescriptor {
        src_factor: BlendFactor::One,
        dst_factor: BlendFactor::Zero,
        operation: BlendOperation::Add,
    };
    assert_eq!(
        descriptor.color_states,
        vec![ColorStateDescriptor {
            format: TextureFormat::Bgra8Unorm,
            color_blend: replace,
            alpha_blend: replace,
            write_mask: ColorWrite { red: true, green: true, blue: true, alpha: true },
        }]
    );
    assert_eq!(descriptor.depth_stencil_state, None);
    assert_eq!(descriptor.index_format, IndexFormat::Uint16);
    assert!(descriptor.vertex_buffers.is_empty());
    assert_eq!(descriptor.sample_count, 1);
    assert_eq!(descriptor.sample_mask, !0);
    assert!(!descriptor.alpha_to_coverage_enabled);
}

#[test]
fn builders_of_fixed_values() {
    assert_eq!(ShaderStage::vertex(), ShaderStage { vertex: true, fragment: false, compute: false });
    assert_eq!(
        ShaderStage::vertex_and_fragment(),
        ShaderStage { vertex: true, fragment: true, compute: false }
    );
    assert_eq!(BlendDescriptor::replace().src_factor, BlendFactor::One);
    assert_eq!(BlendDescriptor::replace().dst_factor, BlendFactor::Zero);
    assert_eq!(BlendDescriptor::replace().operation, BlendOperation::Add);
    assert_eq!(ColorWrite::all(), ColorWrite { red: true, green: true, blue: true, alpha: true });
}

#[test]
fn pipeline_state_needs_description_and_pipeline() {
    let described = || Renderer::create_pipeline_state(Some("vs"), Some("fs"));
    let built = PipelineState::new(described(), Some("pipeline")).unwrap();
    assert_eq!(built.pipeline, "pipeline");
    assert_eq!(built.descriptor, described().unwrap());
    assert_eq!(PipelineState::<&str, &str>::new(described(), None), None);
    assert_eq!(PipelineState::<&str, &str>::new(None, Some("pipeline")), None);
    assert_eq!(PipelineState::<&str, &str>::new(None, None), None);
}

#[test]
fn no_renderer_without_initial_pipeline() {
    assert!(Renderer::new("layout", None, "bind group").is_none());
    let failed = PipelineState::new(Renderer::create_pipeline_state(Some("vs"), None), Some("p"));
    assert!(Renderer::new("layout", failed, "bind group").is_none());
}

#[test]
fn new_renderer_holds_what_it_was_given() {
    let renderer = renderer();
    assert_eq!(*renderer.pipeline_layout(), "layout");
    assert_eq!(*renderer.bind_group(), "bind group");
    assert_eq!(renderer.render_pipeline().pipeline, "pipeline 1");
    assert_eq!(renderer.render_pipeline().descriptor.vertex_stage.module, "vs 1");
    assert_eq!(
        renderer.render_pipeline().descriptor.fragment_stage.as_ref().unwrap().module,
        "fs 1"
    );
}

#[test]
fn draw_issues_one_draw_of_four_vertices_per_particle() {
    let renderer = renderer();
    let commands = renderer.draw(100);
    assert_eq!(
        commands,
        vec![
            RenderCommand::SetPipeline(&"pipeline 1"),
            RenderCommand::SetBindGroup { index: 0, bind_group: &"bind group", offsets: vec![] },
            RenderCommand::Draw {
                first_vertex: 0,
                end_vertex: 4,
                first_instance: 0,
                end_instance: 100,
            },
        ]
    );
    let draws = commands.iter().filter(|c| matches!(c, RenderCommand::Draw { .. })).count();
    assert_eq!(draws, 1);
}

#[test]
fn draw_of_no_particles_and_of_the_most() {
    let renderer = renderer();
    assert_eq!(
        renderer.draw(0)[2],
        RenderCommand::Draw { first_vertex: 0, end_vertex: 4, first_instance: 0, end_instance: 0 }
    );
    assert_eq!(
        renderer.draw(u32::MAX)[2],
        RenderCommand::Draw {
            first_vertex: 0,
            end_vertex: 4,
            first_instance: 0,
            end_instance: u32::MAX,
        }
    );
}

#[test]
fn reload_replaces_both_stages_at_once() {
    let mut renderer = renderer();
    renderer.try_reload_shaders(state("pipeline 2", "vs 2", "fs 2"));
    let state = renderer.render_pipeline();
    assert_eq!(state.pipeline, "pipeline 2");
    assert_eq!(state.descriptor.vertex_stage.module, "vs 2");
    assert_eq!(state.descriptor.fragment_stage.as_ref().unwrap().module, "fs 2");
    assert_eq!(*renderer.pipeline_layout(), "layout");
    assert_eq!(*renderer.bind_group(), "bind group");
    assert_eq!(renderer.draw(3)[0], RenderCommand::SetPipeline(&"pipeline 2"));
}

#[test]
fn reload_with_invalid_fragment_stage_changes_nothing() {
    let mut renderer = renderer();
    let before: Vec<String> = renderer.draw(100).iter().map(|c| format!("{:?}", c)).collect();
    let state_before = format!("{:?}", renderer.render_pipeline());

    // The vertex stage compiled, the fragment stage did not.
    let created = Renderer::create_pipeline_state(Some("vs 2"), None);
    assert!(created.is_none());
    renderer.try_reload_shaders(PipelineState::new(created, None));

    let after: Vec<String> = renderer.draw(100).iter().map(|c| format!("{:?}", c)).collect();
    assert_eq!(before, after);
    assert_eq!(state_before, format!("{:?}", renderer.render_pipeline()));
    assert_eq!(renderer.render_pipeline().descriptor.vertex_stage.module, "vs 1");
    assert_eq!(
        renderer.render_pipeline().descriptor.fragment_stage.as_ref().unwrap().module,
        "fs 1"
    );
}

#[test]
fn reload_with_invalid_vertex_stage_changes_nothing() {
    let mut renderer = renderer();
    let created = Renderer::create_pipeline_state(None, Some("fs 2"));
    renderer.try_reload_shaders(PipelineState::new(created, None));
    assert_eq!(renderer.render_pipeline().pipeline, "pipeline 1");
    assert_eq!(renderer.render_pipeline().descriptor.vertex_stage.module, "vs 1");
    assert_eq!(
        renderer.render_pipeline().descriptor.fragment_stage.as_ref().unwrap().module,
        "fs 1"
    );
}

#[test]
fn reload_without_a_built_pipeline_changes_nothing() {
    let mut renderer = renderer();
    let created = Renderer::create_pipeline_state(Some("vs 2"), Some("fs 2"));
    renderer.try_reload_shaders(PipelineState::new(created, None));
    assert_eq!(renderer.render_pipeline().pipeline, "pipeline 1");
    assert_eq!(renderer.render_pipeline().descriptor.vertex_stage.module, "vs 1");
}

#[test]
fn rebind_replaces_the_bind_group_and_nothing_else() {
    let mut renderer = renderer();
    let retired = renderer.rebind("bind group 2");
    assert_eq!(retired, "bind group");
    assert_eq!(*renderer.bind_group(), "bind group 2");
    assert_eq!(renderer.render_pipeline().pipeline, "pipeline 1");
    assert_eq!(*renderer.pipeline_layout(), "layout");
    assert_eq!(
        renderer.draw(1)[1],
        RenderCommand::SetBindGroup { index: 0, bind_group: &"bind group 2", offsets: vec![] }
    );
    // A reload afterwards leaves the new bind group in place.
    renderer.try_reload_shaders(state("pipeline 2", "vs 2", "fs 2"));
    assert_eq!(*renderer.bind_group(), "bind group 2");
}

#[test]
fn renderer_recovers_after_a_failed_reload() {
    let mut renderer = renderer();
    renderer.try_reload_shaders(None);
    renderer.try_reload_shaders(state("pipeline 3", "vs 3", "fs 3"));
    assert_eq!(renderer.render_pipeline().pipeline, "pipeline 3");
    renderer.try_reload_shaders(None);
    assert_eq!(renderer.render_pipeline().pipeline, "pipeline 3");
}
