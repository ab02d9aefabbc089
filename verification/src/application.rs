//! One frame after the other: the presentation surface chain and its
//! resizes, the check for changed shaders, and the commands of a frame.
//!
//! The application owns the device's objects and decides what is done with
//! them. The caller talks to the device and the window, and reports back.

use crate::camera::CameraUniformBufferContent;
use crate::particle_renderer::{
    is_created, is_draw, is_particle_pipeline, spec_fragment_shader_path,
    spec_vertex_shader_path, ParticleRenderer, PipelineState, RenderCommand,
};
use crate::pipeline::{RenderPipelineDescriptor, TextureFormat};
use crate::screen::{
    spec_backbuffer_format, spec_swap_chain_desc, PhysicalSize, PresentMode, SwapChainDescriptor,
    TextureUsage,
};
use crate::shader::{
    distinct_paths, lemma_load, observed, spec_detected_change, spec_load, Loaded,
    ShaderDirectory, SourceStamp, Timestamp,
};
use crate::uniformbuffer::{is_memory_image, BufferWrite, UniformBuffer, UniformContent};
use vstd::prelude::*;

verus! {

/// A span of time: whole seconds and the nanoseconds beyond them.
#[derive(Clone, Copy, Debug, PartialEq, Eq, Structural)]
pub struct Duration {
    pub secs: u64,
    pub nanos: u32,
}

/// A colour with alpha. Each channel is the bit pattern of a
/// double-precision number.
#[derive(Clone, Copy, Debug, PartialEq, Eq, Structural)]
pub struct Color {
    pub r: u64,
    pub g: u64,
    pub b: u64,
    pub a: u64,
}

/// What happens to a render target when a pass begins.
#[derive(Clone, Copy, Debug, PartialEq, Eq, Structural)]
pub enum LoadOp {
    Clear,
    Load,
}

/// What happens to a render target when a pass ends.
#[derive(Clone, Copy, Debug, PartialEq, Eq, Structural)]
pub enum StoreOp {
    Clear,
    Store,
}

/// A texture that a render pass can write to.
#[derive(Clone, Copy, Debug, PartialEq, Eq, Structural)]
pub enum RenderTarget {
    /// The frame that was acquired from the presentation surface chain.
    AcquiredFrame,
}

/// The colour target of a render pass. `resolve_target` is where the
/// samples of a multisampled target are resolved to, if anywhere.
#[derive(Clone, Copy, Debug, PartialEq, Eq, Structural)]
pub struct RenderPassColorAttachmentDescriptor {
    pub attachment: RenderTarget,
    pub resolve_target: Option<RenderTarget>,
    pub load_op: LoadOp,
    pub store_op: StoreOp,
    pub clear_color: Color,
}

/// The depth target of a render pass: a texture of the given format and of
/// the size of the colour target. `clear_depth` is the bit pattern of a
/// single-precision number.
#[derive(Clone, Copy, Debug, PartialEq, Eq, Structural)]
pub struct RenderPassDepthStencilAttachmentDescriptor {
    pub format: TextureFormat,
    pub depth_load_op: LoadOp,
    pub depth_store_op: StoreOp,
    pub clear_depth: u32,
}

/// A render pass with one colour target and, if any, one depth target.
#[derive(Clone, Copy, Debug, PartialEq, Eq, Structural)]
pub struct RenderPassDescriptor {
    pub color_attachment: RenderPassColorAttachmentDescriptor,
    pub depth_stencil_attachment: Option<RenderPassDepthStencilAttachmentDescriptor>,
}

impl RenderPassDescriptor {
    /// Format of the pass's depth target, if it has one.
    pub open spec fn spec_depth_format(self) -> Option<TextureFormat> {
        match self.depth_stencil_attachment {
            Some(attachment) => Some(attachment.format),
            None => None,
        }
    }
}

/// One step of a frame, in the order in which the caller performs them.
#[derive(Debug, PartialEq, Eq)]
pub enum FrameCommand<'a, Pipeline, BindGroup, Buffer> {
    /// Queue a write into a buffer.
    WriteBuffer(BufferWrite<'a, Buffer>),
    /// Begin a render pass on the acquired frame.
    BeginRenderPass(RenderPassDescriptor),
    /// Record a command into the pass.
    Render(RenderCommand<'a, Pipeline, BindGroup>),
    /// End the pass.
    EndRenderPass,
    /// Submit what was recorded to the device's queue.
    Submit,
}

/// What one shader load gave: the modification time that was seen and the
/// compiled module, if the source was read and compiled.
#[derive(Debug, PartialEq, Eq)]
pub struct ShaderLoad<Module> {
    pub modified: Timestamp,
    pub compiled: Option<Module>,
}

/// What `update` asks of the caller.
#[derive(Clone, Copy, Debug, PartialEq, Eq, Structural)]
pub struct UpdateAction {
    /// Load both shader stages again and report with `reload_shaders`.
    pub reload_shaders: bool,
    /// The time since startup from which the camera is advanced.
    pub camera_time: Duration,
}

/// Time since startup and time of the last frame before the first frame has
/// been drawn: sixteen milliseconds.
pub open spec fn spec_initial_time() -> Duration {
    Duration { secs: 0, nanos: 16_000_000 }
}

/// The background: red `0.1`, green `0.2`, blue `0.3`, opaque.
pub open spec fn spec_clear_color() -> Color {
    Color {
        r: 0x3FB9_9999_9999_999A,
        g: 0x3FC9_9999_9999_999A,
        b: 0x3FD3_3333_3333_3333,
        a: 0x3FF0_0000_0000_0000,
    }
}

/// The pass of every frame: the acquired frame alone, cleared to the
/// background and stored, with nothing to resolve and no depth target.
pub open spec fn spec_render_pass() -> RenderPassDescriptor {
    RenderPassDescriptor {
        color_attachment: RenderPassColorAttachmentDescriptor {
            attachment: RenderTarget::AcquiredFrame,
            resolve_target: None,
            load_op: LoadOp::Clear,
            store_op: StoreOp::Store,
            clear_color: spec_clear_color(),
        },
        depth_stencil_attachment: None,
    }
}

/// `commands` is the frame that writes `camera_words` into `camera_buffer`
/// and then draws `num_particles` particles with `pipeline` and
/// `bind_group`: the write first, then one pass around the renderer's
/// commands, then the submission.
pub open spec fn is_frame<'a, Pipeline, BindGroup, Buffer>(
    commands: Seq<FrameCommand<'a, Pipeline, BindGroup, Buffer>>,
    camera_buffer: Buffer,
    camera_words: Seq<u32>,
    pipeline: &'a Pipeline,
    bind_group: &'a BindGroup,
    num_particles: u32,
) -> bool {
    &&& commands.len() == 7
    &&& commands[0] matches FrameCommand::WriteBuffer(write) && *write.buffer == camera_buffer
        && write.offset == 0 && is_memory_image(write.data@, camera_words)
    &&& commands[1] == FrameCommand::<Pipeline, BindGroup, Buffer>::BeginRenderPass(
        spec_render_pass(),
    )
    &&& commands[2] matches FrameCommand::Render(first) && commands[3] matches FrameCommand::Render(
        second,
    ) && commands[4] matches FrameCommand::Render(third) && is_draw(
        seq![first, second, third],
        pipeline,
        bind_group,
        num_particles,
    )
    &&& commands[5] ==FrameCommand::<Pipeline, BindGroup, Buffer>::EndRenderPass
    &&& commands[6] == FrameCommand::<Pipeline, BindGroup, Buffer>::Submit
}

/// The application's state between two frames.
pub struct Application<SwapChain, Pipeline, Module, PipelineLayout, BindGroup, Buffer> {
    swap_chain: SwapChain,
    backbuffer_resolution: PhysicalSize,
    shader_dir: ShaderDirectory,
    particle_renderer: ParticleRenderer<Pipeline, Module, PipelineLayout, BindGroup>,
    ubo_camera: UniformBuffer<CameraUniformBufferContent, Buffer>,
    time_startup: Duration,
    time_last_frame: Duration,
}

impl<SwapChain, Pipeline, Module, PipelineLayout, BindGroup, Buffer> Application<
    SwapChain,
    Pipeline,
    Module,
    PipelineLayout,
    BindGroup,
    Buffer,
> {
    /// The one presentation surface chain that is alive.
    pub closed spec fn spec_swap_chain(&self) -> SwapChain {
        self.swap_chain
    }

    /// The size that the chain presents at.
    pub closed spec fn spec_backbuffer_resolution(&self) -> PhysicalSize {
        self.backbuffer_resolution
    }

    pub closed spec fn spec_shader_dir(&self) -> ShaderDirectory {
        self.shader_dir
    }

    pub closed spec fn spec_particle_renderer(&self) -> ParticleRenderer<
        Pipeline,
        Module,
        PipelineLayout,
        BindGroup,
    > {
        self.particle_renderer
    }

    pub closed spec fn spec_ubo_camera(&self) -> UniformBuffer<CameraUniformBufferContent, Buffer> {
        self.ubo_camera
    }

    /// Time from startup to the end of the last frame.
    pub closed spec fn spec_time_startup(&self) -> Duration {
        self.time_startup
    }

    /// Time that the last frame took.
    pub closed spec fn spec_time_last_frame(&self) -> Duration {
        self.time_last_frame
    }

    /// The shader directory holds no path twice.
    pub open spec fn wf(&self) -> bool {
        self.spec_shader_dir().wf()
    }

    /// Everything but the chain and its size is the same in `self` and
    /// `other`.
    pub open spec fn same_but_for_chain(&self, other: &Self) -> bool {
        &&& self.spec_shader_dir() == other.spec_shader_dir()
        &&& self.spec_particle_renderer() == other.spec_particle_renderer()
        &&& self.spec_ubo_camera() == other.spec_ubo_camera()
        &&& self.spec_time_startup() == other.spec_time_startup()
        &&& self.spec_time_last_frame() == other.spec_time_last_frame()
    }

    /// `after` and `retired` are what a resize to `size` with the new chain
    /// `swap_chain` makes of `self`: the new chain is in use at the new
    /// size, the old one has been handed back, and nothing else has moved.
    pub open spec fn resized_to(
        self,
        after: Self,
        size: PhysicalSize,
        swap_chain: SwapChain,
        retired: SwapChain,
    ) -> bool {
        &&& retired == self.spec_swap_chain()
        &&& after.spec_swap_chain() == swap_chain
        &&& after.spec_backbuffer_resolution() == size
        &&& after.same_but_for_chain(&self)
    }

    /// Format of the frames that are presented.
    pub fn backbuffer_format() -> (format: TextureFormat)
        ensures
            format == spec_backbuffer_format(),
    {
        TextureFormat::Bgra8Unorm
    }

    /// The chain that presents at `size`.
    pub fn swap_chain_desc(size: PhysicalSize) -> (descriptor: SwapChainDescriptor)
        ensures
            descriptor == spec_swap_chain_desc(size),
    {
        SwapChainDescriptor {
            usage: TextureUsage::output_attachment(),
            format: Self::backbuffer_format(),
            width: size.width,
            height: size.height,
            present_mode: PresentMode::NoVsync,
        }
    }

    /// The application at startup. `swap_chain` is the chain that the device
    /// made from `swap_chain_desc(backbuffer_resolution)`.
    pub fn new(
        swap_chain: SwapChain,
        backbuffer_resolution: PhysicalSize,
        shader_dir: ShaderDirectory,
        particle_renderer: ParticleRenderer<Pipeline, Module, PipelineLayout, BindGroup>,
        ubo_camera: UniformBuffer<CameraUniformBufferContent, Buffer>,
    ) -> (application: Self)
        requires
            shader_dir.wf(),
        ensures
            application.wf(),
            application.spec_swap_chain() == swap_chain,
            application.spec_backbuffer_resolution() == backbuffer_resolution,
            application.spec_shader_dir() == shader_dir,
            application.spec_particle_renderer() == particle_renderer,
            application.spec_ubo_camera() == ubo_camera,
            application.spec_time_startup() == spec_initial_time(),
            application.spec_time_last_frame() == spec_initial_time(),
    {
        Application {
            swap_chain,
            backbuffer_resolution,
            shader_dir,
            particle_renderer,
            ubo_camera,
            time_startup: Duration { secs: 0, nanos: 16_000_000 },
            time_last_frame: Duration { secs: 0, nanos: 16_000_000 },
        }
    }

    /// Puts `swap_chain`, the chain that the device made from
    /// `swap_chain_desc(size)`, in the place of the chain in use, and hands
    /// the old chain back for its release. No other chain is kept.
    pub fn window_resize(&mut self, size: PhysicalSize, swap_chain: SwapChain) -> (retired:
        SwapChain)
        ensures
            old(self).resized_to(*final(self), size, swap_chain, retired),
    {
        let mut swap_chain = swap_chain;
        self.backbuffer_resolution = size;
        std::mem::swap(&mut self.swap_chain, &mut swap_chain);
        swap_chain
    }

    /// Decides what this tick has to do. `stamps` is what the caller sees of
    /// the shader sources now. The shaders are to be loaded again if and
    /// only if one of the loaded sources has changed; the camera always
    /// advances, from the time since startup.
    pub fn update(&self, stamps: &Vec<SourceStamp>) -> (action: UpdateAction)
        ensures
            action.reload_shaders == spec_detected_change(self.spec_shader_dir()@, stamps@),
            action.camera_time == self.spec_time_startup(),
    {
        UpdateAction {
            reload_shaders: self.shader_dir.detected_change(stamps),
            camera_time: self.time_startup,
        }
    }

    /// Begins a reload: records the load of the vertex stage and then that
    /// of the fragment stage in the shader directory, and describes the
    /// pipeline over the two modules, if both are there.
    pub fn reload_shaders(&mut self, vs: ShaderLoad<Module>, fs: ShaderLoad<Module>) -> (created:
        Option<RenderPipelineDescriptor<Module>>)
        requires
            old(self).wf(),
        ensures
            final(self).wf(),
            final(self).spec_shader_dir()@ == spec_load(
                spec_load(old(self).spec_shader_dir()@, spec_vertex_shader_path(), vs.modified),
                spec_fragment_shader_path(),
                fs.modified,
            ),
            final(self).spec_shader_dir().spec_directory() == old(
                self,
            ).spec_shader_dir().spec_directory(),
            is_created(created, vs.compiled, fs.compiled),
            final(self).spec_particle_renderer() == old(self).spec_particle_renderer(),
            final(self).spec_swap_chain() == old(self).spec_swap_chain(),
            final(self).spec_backbuffer_resolution() == old(self).spec_backbuffer_resolution(),
            final(self).spec_ubo_camera() == old(self).spec_ubo_camera(),
            final(self).spec_time_startup() == old(self).spec_time_startup(),
            final(self).spec_time_last_frame() == old(self).spec_time_last_frame(),
    {
        let vs_path = ParticleRenderer::<
            Pipeline,
            Module,
            PipelineLayout,
            BindGroup,
        >::vertex_shader_path();
        let fs_path = ParticleRenderer::<
            Pipeline,
            Module,
            PipelineLayout,
            BindGroup,
        >::fragment_shader_path();
        let vs_module = self.shader_dir.load_shader_module(vs_path, vs.modified, vs.compiled);
        let fs_module = self.shader_dir.load_shader_module(fs_path, fs.modified, fs.compiled);
        ParticleRenderer::<Pipeline, Module, PipelineLayout, BindGroup>::create_pipeline_state(
            vs_module,
            fs_module,
        )
    }

    /// Ends a reload with the pipeline state that it produced, if any. See
    /// [`ParticleRenderer::try_reload_shaders`].
    pub fn try_reload_shaders(&mut self, candidate: Option<PipelineState<Pipeline, Module>>)
        ensures
            final(self).spec_particle_renderer().spec_render_pipeline() == old(
                self,
            ).spec_particle_renderer().spec_reloaded(candidate),
            final(self).spec_particle_renderer().spec_pipeline_layout() == old(
                self,
            ).spec_particle_renderer().spec_pipeline_layout(),
            final(self).spec_particle_renderer().spec_bind_group() == old(
                self,
            ).spec_particle_renderer().spec_bind_group(),
            candidate is None ==> *final(self) == *old(self),
            final(self).spec_shader_dir() == old(self).spec_shader_dir(),
            final(self).spec_swap_chain() == old(self).spec_swap_chain(),
            final(self).spec_backbuffer_resolution() == old(self).spec_backbuffer_resolution(),
            final(self).spec_ubo_camera() == old(self).spec_ubo_camera(),
            final(self).spec_time_startup() == old(self).spec_time_startup(),
            final(self).spec_time_last_frame() == old(self).spec_time_last_frame(),
    {
        self.particle_renderer.try_reload_shaders(candidate);
    }

    /// The commands of one frame, for the frame that the caller acquired
    /// from the chain: the write of the camera's content, then the pass that
    /// clears to the background and draws `num_particles` particles, then
    /// the submission.
    pub fn draw(&self, camera: CameraUniformBufferContent, num_particles: u32) -> (commands: Vec<
        FrameCommand<'_, Pipeline, BindGroup, Buffer>,
    >)
        ensures
            is_frame(
                commands@,
                self.spec_ubo_camera().spec_buffer(),
                camera.spec_words(),
                &self.spec_particle_renderer().spec_render_pipeline().pipeline,
                &self.spec_particle_renderer().spec_bind_group(),
                num_particles,
            ),
    {
        let mut commands: Vec<FrameCommand<'_, Pipeline, BindGroup, Buffer>> = Vec::new();
        commands.push(FrameCommand::WriteBuffer(self.ubo_camera.update_content(camera)));
        commands.push(
            FrameCommand::BeginRenderPass(
                RenderPassDescriptor {
                    color_attachment: RenderPassColorAttachmentDescriptor {
                        attachment: RenderTarget::AcquiredFrame,
                        resolve_target: None,
                        load_op: LoadOp::Clear,
                        store_op: StoreOp::Store,
                        clear_color: Color {
                            r: 0x3FB9_9999_9999_999A,
                            g: 0x3FC9_9999_9999_999A,
                            b: 0x3FD3_3333_3333_3333,
                            a: 0x3FF0_0000_0000_0000,
                        },
                    },
                    depth_stencil_attachment: None,
                },
            ),
        );
        let mut pass = self.particle_renderer.draw(num_particles);
        let ghost recorded = pass@;
        let draw = pass.pop().unwrap();
        let set_bind_group = pass.pop().unwrap();
        let set_pipeline = pass.pop().unwrap();
        assert(seq![set_pipeline, set_bind_group, draw] =~= recorded);
        commands.push(FrameCommand::Render(set_pipeline));
        commands.push(FrameCommand::Render(set_bind_group));
        commands.push(FrameCommand::Render(draw));
        commands.push(FrameCommand::EndRenderPass);
        commands.push(FrameCommand::Submit);
        commands
    }

    /// Records the times that the caller measured when the frame was
    /// submitted.
    pub fn frame_finished(&mut self, time_startup: Duration, time_last_frame: Duration)
        ensures
            final(self).spec_time_startup() == time_startup,
            final(self).spec_time_last_frame() == time_last_frame,
            final(self).spec_swap_chain() == old(self).spec_swap_chain(),
            final(self).spec_backbuffer_resolution() == old(self).spec_backbuffer_resolution(),
            final(self).spec_shader_dir() == old(self).spec_shader_dir(),
            final(self).spec_particle_renderer() == old(self).spec_particle_renderer(),
            final(self).spec_ubo_camera() == old(self).spec_ubo_camera(),
    {
        self.time_startup = time_startup;
        self.time_last_frame = time_last_frame;
    }

    pub fn swap_chain(&self) -> (swap_chain: &SwapChain)
        ensures
            *swap_chain == self.spec_swap_chain(),
    {
        &self.swap_chain
    }

    /// The chain, to acquire the next frame from. Whatever the caller does
    /// to the chain, the rest of the application stays as it is.
    pub fn swap_chain_mut(&mut self) -> (swap_chain: &mut SwapChain)
        ensures
            *swap_chain == old(self).spec_swap_chain(),
            final(self).spec_swap_chain() == *final(swap_chain),
            final(self).spec_backbuffer_resolution() == old(self).spec_backbuffer_resolution(),
            final(self).same_but_for_chain(old(self)),
    {
        &mut self.swap_chain
    }

    pub fn backbuffer_resolution(&self) -> (size: PhysicalSize)
        ensures
            size == self.spec_backbuffer_resolution(),
    {
        self.backbuffer_resolution
    }

    pub fn shader_dir(&self) -> (shader_dir: &ShaderDirectory)
        ensures
            *shader_dir == self.spec_shader_dir(),
    {
        &self.shader_dir
    }

    pub fn particle_renderer(&self) -> (renderer: &ParticleRenderer<
        Pipeline,
        Module,
        PipelineLayout,
        BindGroup,
    >)
        ensures
            *renderer == self.spec_particle_renderer(),
    {
        &self.particle_renderer
    }

    pub fn ubo_camera(&self) -> (ubo_camera: &UniformBuffer<CameraUniformBufferContent, Buffer>)
        ensures
            *ubo_camera == self.spec_ubo_camera(),
    {
        &self.ubo_camera
    }

    pub fn time_startup(&self) -> (time: Duration)
        ensures
            time == self.spec_time_startup(),
    {
        self.time_startup
    }

    pub fn time_last_frame(&self) -> (time: Duration)
        ensures
            time == self.spec_time_last_frame(),
    {
        self.time_last_frame
    }
}

/// After any run of resizes exactly one chain is in use: the one of the last
/// resize, at the size of the last resize. Every chain before it has been
/// handed back, the first by the first resize and each later one by the
/// resize that followed it. Nothing else in the application has moved.
///
/// `states[k]` is the application before resize `k`, which asked for
/// `sizes[k]`, brought `chains[k]` and handed back `retired[k]`.
pub proof fn lemma_resizes_leave_one_chain<
    SwapChain,
    Pipeline,
    Module,
    PipelineLayout,
    BindGroup,
    Buffer,
>(
    states: Seq<Application<SwapChain, Pipeline, Module, PipelineLayout, BindGroup, Buffer>>,
    sizes: Seq<PhysicalSize>,
    chains: Seq<SwapChain>,
    retired: Seq<SwapChain>,
)
    requires
        sizes.len() > 0,
        states.len() == sizes.len() + 1,
        chains.len() == sizes.len(),
        retired.len() == sizes.len(),
        forall|k: int|
            0 <= k < sizes.len() ==> (#[trigger] states[k]).resized_to(
                states[k + 1],
                sizes[k],
                chains[k],
                retired[k],
            ),
    ensures
        states.last().spec_swap_chain() == chains.last(),
        states.last().spec_backbuffer_resolution() == sizes.last(),
        retired[0] == states[0].spec_swap_chain(),
        forall|k: int| 1 <= k < retired.len() ==> #[trigger] retired[k] == chains[k - 1],
        states.last().same_but_for_chain(&states[0]),
    decreases sizes.len(),
{
    let n = sizes.len() as int;
    assert(states[n - 1].resized_to(states[n], sizes[n - 1], chains[n - 1], retired[n - 1]));
    assert(states[0].resized_to(states[1], sizes[0], chains[0], retired[0]));
    assert forall|k: int| 1 <= k < retired.len() implies #[trigger] retired[k] == chains[k - 1] by {
        assert(states[k - 1].resized_to(states[k], sizes[k - 1], chains[k - 1], retired[k - 1]));
        assert(states[k].resized_to(states[k + 1], sizes[k], chains[k], retired[k]));
    }
    if n > 1 {
        let shorter = states.take(n);
        assert forall|k: int| 0 <= k < n - 1 implies (#[trigger] shorter[k]).resized_to(
            shorter[k + 1],
            sizes.take(n - 1)[k],
            chains.take(n - 1)[k],
            retired.take(n - 1)[k],
        ) by {
            assert(states[k].resized_to(states[k + 1], sizes[k], chains[k], retired[k]));
        }
        lemma_resizes_leave_one_chain(
            shorter,
            sizes.take(n - 1),
            chains.take(n - 1),
            retired.take(n - 1),
        );
        assert(shorter.last() == states[n - 1]);
        assert(shorter[0] == states[0]);
    }
}

/// Every pipeline that the renderer describes writes to one colour target,
/// in the format of the presentation surface chain, whatever its size.
pub proof fn lemma_pipeline_targets_chain_format<Module>(
    descriptor: RenderPipelineDescriptor<Module>,
    vs_module: Module,
    fs_module: Module,
    size: PhysicalSize,
)
    requires
        is_particle_pipeline(descriptor, vs_module, fs_module),
    ensures
        descriptor.color_states@.len() == 1,
        descriptor.color_states@[0].format == spec_swap_chain_desc(size).format,
{
}

/// Every pipeline that the renderer describes fits the pass that every
/// frame begins: the depth target that the pipeline renders into is the
/// depth target of the pass. Neither has one.
pub proof fn lemma_pipeline_depth_is_pass_depth<Module>(
    descriptor: RenderPipelineDescriptor<Module>,
    vs_module: Module,
    fs_module: Module,
)
    requires
        is_particle_pipeline(descriptor, vs_module, fs_module),
    ensures
        descriptor.spec_depth_format() == spec_render_pass().spec_depth_format(),
        descriptor.spec_depth_format() is None,
{
}

/// In every frame the camera's content is written before the pass begins,
/// so the one draw of the frame, which comes inside the pass, reads what
/// this frame wrote. The frame holds no other write and no other draw.
pub proof fn lemma_frame_writes_before_it_draws<'a, Pipeline, BindGroup, Buffer>(
    commands: Seq<FrameCommand<'a, Pipeline, BindGroup, Buffer>>,
    camera_buffer: Buffer,
    camera_words: Seq<u32>,
    pipeline: &'a Pipeline,
    bind_group: &'a BindGroup,
    num_particles: u32,
)
    requires
        is_frame(commands, camera_buffer, camera_words, pipeline, bind_group, num_particles),
    ensures
        forall|i: int|
            0 <= i < commands.len() ==> ((#[trigger] commands[i]) is WriteBuffer <==> i == 0),
        forall|i: int|
            0 <= i < commands.len() ==> ((#[trigger] commands[i] matches FrameCommand::Render(
                command,
            ) && command is Draw) <==> i == 4),
        commands[1] is BeginRenderPass,
        commands[5] is EndRenderPass,
        commands[4] == FrameCommand::<Pipeline, BindGroup, Buffer>::Render(
            RenderCommand::Draw {
                first_vertex: 0,
                end_vertex: 4,
                first_instance: 0,
                end_instance: num_particles,
            },
        ),
{
    let first = commands[2]->Render_0;
    let second = commands[3]->Render_0;
    let third = commands[4]->Render_0;
    let pass = seq![first, second, third];
    assert(is_draw(pass, pipeline, bind_group, num_particles));
    assert(pass[0] is SetPipeline && pass[1] is SetBindGroup && pass[2] is Draw);
}

/// Right after a reload, with no source modified in between, no reload is
/// asked for: if `stamps` shows both stages at the times that their loads
/// saw, and every other loaded file at its recorded time, the shader
/// directory as `reload_shaders` leaves it detects no change.
pub proof fn lemma_no_change_after_reload(
    loaded: Loaded,
    vs_modified: Timestamp,
    fs_modified: Timestamp,
    stamps: Seq<SourceStamp>,
)
    requires
        distinct_paths(loaded),
        observed(stamps, spec_vertex_shader_path()) == vs_modified,
        observed(stamps, spec_fragment_shader_path()) == fs_modified,
        forall|i: int|
            0 <= i < loaded.len() && (#[trigger] loaded[i]).0 != spec_vertex_shader_path()
                && loaded[i].0 != spec_fragment_shader_path() ==> loaded[i].1 == observed(
                stamps,
                loaded[i].0,
            ),
    ensures
        !spec_detected_change(
            spec_load(
                spec_load(loaded, spec_vertex_shader_path(), vs_modified),
                spec_fragment_shader_path(),
                fs_modified,
            ),
            stamps,
        ),
{
    let between = spec_load(loaded, spec_vertex_shader_path(), vs_modified);
    let after = spec_load(between, spec_fragment_shader_path(), fs_modified);
    lemma_load(loaded, spec_vertex_shader_path(), vs_modified);
    lemma_load(between, spec_fragment_shader_path(), fs_modified);
    assert forall|i: int| 0 <= i < after.len() implies (#[trigger] after[i]).1 == observed(
        stamps,
        after[i].0,
    ) by {
        if after[i].0 != spec_fragment_shader_path() {
            assert(i < between.len());
            assert(after[i] == between[i]);
            if between[i].0 != spec_vertex_shader_path() {
                assert(i < loaded.len());
                assert(between[i] == loaded[i]);
            }
        }
    }
}

} // verus!
