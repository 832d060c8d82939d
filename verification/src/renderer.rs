//! The frame renderer: everything built at startup, and the commands one
//! frame records.

use vstd::prelude::*;

use crate::bind_group::{
    fills, lemma_texture_group_fills_layout, texture_bindings, texture_layout_entries, BindGroup,
    BindGroupLayout,
};
use crate::error::RenderError;
use crate::pipeline::{shader_failure, RenderPipeline};
use crate::session::{consistent, resized, Session, SessionView, SurfaceSize};
use crate::shader::is_compile_error;
use crate::texture::{texture_from_bytes, Texture, TextureUpload, TextureUploadView};
use crate::upload::{Geometry, GeometryView};
use crate::vertex::PipelineVariant;

verus! {

/// A colour with each channel in thousandths of full intensity.
#[derive(Clone, Copy, Debug, PartialEq, Eq, Structural)]
pub struct Color {
    pub r: u16,
    pub g: u16,
    pub b: u16,
    pub a: u16,
}

/// The background every frame is cleared to unless another is configured.
pub open spec fn default_clear_color() -> Color {
    Color { r: 100, g: 200, b: 300, a: 1000 }
}

impl Color {
    /// The background every frame is cleared to unless another is configured.
    pub fn background() -> (r: Color)
        ensures
            r == default_clear_color(),
    {
        Color { r: 100, g: 200, b: 300, a: 1000 }
    }
}

/// What happens to the target when a pass begins.
#[derive(Clone, Copy, Debug, PartialEq, Eq, Structural)]
pub enum LoadOp {
    Clear,
    Load,
}

/// What happens to the target when a pass ends.
#[derive(Clone, Copy, Debug, PartialEq, Eq, Structural)]
pub enum StoreOp {
    Clear,
    Store,
}

/// An image a render pass can draw to.
#[derive(Clone, Copy, Debug, PartialEq, Eq, Structural)]
pub enum Attachment {
    /// The image the swapchain handed out for this frame.
    SwapChainImage,
}

/// The depth and stencil target of a render pass.  The depth a clear writes
/// is in thousandths of the full range.
#[derive(Clone, Copy, Debug, PartialEq, Eq, Structural)]
pub struct DepthStencilAttachment {
    pub attachment: Attachment,
    pub depth_load_op: LoadOp,
    pub depth_store_op: StoreOp,
    pub clear_depth: u16,
    pub stencil_load_op: LoadOp,
    pub stencil_store_op: StoreOp,
    pub clear_stencil: u32,
}

/// One step of a frame, in the order the device receives it.
#[derive(Clone, Copy, Debug, PartialEq, Eq)]
pub enum RenderCommand {
    /// Opens the render pass on its colour target, with the image a
    /// multisampled target resolves to and the depth and stencil target, if
    /// the pass has them.
    BeginRenderPass {
        attachment: Attachment,
        resolve_target: Option<Attachment>,
        load_op: LoadOp,
        store_op: StoreOp,
        clear_color: Color,
        depth_stencil_attachment: Option<DepthStencilAttachment>,
    },
    /// Binds the render pipeline.
    SetPipeline,
    /// Binds the vertex buffer; a size of zero means the rest of the buffer.
    SetVertexBuffer { slot: u32, offset: u64, size: u64 },
    /// Binds the index buffer; a size of zero means the rest of the buffer.
    SetIndexBuffer { offset: u64, size: u64 },
    /// Binds the texture's bind group.
    SetBindGroup { index: u32 },
    /// Draws indices `first_index..end_index` for instances
    /// `first_instance..end_instance`.
    DrawIndexed {
        first_index: u32,
        end_index: u32,
        base_vertex: i32,
        first_instance: u32,
        end_instance: u32,
    },
    /// Closes the render pass.
    EndRenderPass,
    /// Hands the finished command buffer to the queue, which presents the
    /// image when the work is done.  Nothing waits for it.
    Submit,
}

/// How the swapchain answered the request for its next image.
#[derive(Clone, Copy, Debug, PartialEq, Eq, Structural)]
pub enum Acquisition {
    Acquired,
    Timeout,
    SurfaceLost,
}

/// The one draw call of a frame: every index once, one instance, from the
/// first index and the first vertex.
pub open spec fn draw_call(num_indices: u32) -> RenderCommand {
    RenderCommand::DrawIndexed {
        first_index: 0,
        end_index: num_indices,
        base_vertex: 0,
        first_instance: 0,
        end_instance: 1,
    }
}

/// The opening of the one pass of a frame: it draws to the swapchain's
/// image, which is cleared to the given colour first and kept afterwards;
/// nothing is resolved and there is no depth or stencil target.
pub open spec fn begin_pass(clear_color: Color) -> RenderCommand {
    RenderCommand::BeginRenderPass {
        attachment: Attachment::SwapChainImage,
        resolve_target: None,
        load_op: LoadOp::Clear,
        store_op: StoreOp::Store,
        clear_color,
        depth_stencil_attachment: None,
    }
}

/// What is recorded before the draw call: the pass opens with a clear, then
/// the pipeline, the vertex buffer at slot 0 and the index buffer are bound,
/// and a textured scene binds its bind group at index 0.
pub open spec fn bindings_before_draw(textured: bool, clear_color: Color) -> Seq<RenderCommand> {
    let common = seq![
        begin_pass(clear_color),
        RenderCommand::SetPipeline,
        RenderCommand::SetVertexBuffer { slot: 0, offset: 0, size: 0 },
        RenderCommand::SetIndexBuffer { offset: 0, size: 0 },
    ];
    if textured {
        common.push(RenderCommand::SetBindGroup { index: 0 })
    } else {
        common
    }
}

/// The commands of one whole frame.
pub open spec fn frame_commands(textured: bool, num_indices: u32, clear_color: Color) -> Seq<
    RenderCommand,
> {
    bindings_before_draw(textured, clear_color).push(draw_call(num_indices)).push(
        RenderCommand::EndRenderPass,
    ).push(RenderCommand::Submit)
}

/// The mathematical content of a [`Frame`].
pub struct FrameView {
    /// The extent of the image the frame was drawn to.
    pub target: SurfaceSize,
    /// The swapchain the image came from.
    pub swap_chain: u64,
    pub commands: Seq<RenderCommand>,
}

/// One rendered frame: the image it went to and what was recorded for it.
#[derive(Clone, Debug, PartialEq, Eq)]
pub struct Frame {
    pub target: SurfaceSize,
    pub swap_chain: u64,
    pub commands: Vec<RenderCommand>,
}

impl View for Frame {
    type V = FrameView;

    open spec fn view(&self) -> FrameView {
        FrameView { target: self.target, swap_chain: self.swap_chain, commands: self.commands@ }
    }
}

/// What the renderer is doing while a frame is open: the image has been
/// acquired and commands are being recorded.  Between frames the renderer is
/// idle and no such value exists.  The recording borrows the session, so the
/// swapchain cannot be resized or recreated until the frame is finished.
#[derive(Debug)]
pub struct Recording<'a> {
    session: &'a Session,
    commands: Vec<RenderCommand>,
}

impl<'a> View for Recording<'a> {
    type V = FrameView;

    closed spec fn view(&self) -> FrameView {
        FrameView {
            target: self.session@.size,
            swap_chain: self.session@.swap_chain,
            commands: self.commands@,
        }
    }
}

/// The mathematical content of a [`Renderer`].
pub struct RendererView {
    pub variant: PipelineVariant,
    pub pipeline: RenderPipeline,
    pub geometry: GeometryView,
    pub texture: Option<Texture>,
    pub bind_group: Option<BindGroup>,
    pub clear_color: Color,
}

/// The frame that a renderer draws to a session's next image.
pub open spec fn rendered(r: RendererView, s: SessionView, acquisition: Acquisition) -> Result<
    FrameView,
    RenderError,
> {
    match acquisition {
        Acquisition::Timeout => Err(RenderError::Timeout),
        Acquisition::SurfaceLost => Err(RenderError::SurfaceLost),
        Acquisition::Acquired => Ok(
            FrameView {
                target: s.size,
                swap_chain: s.swap_chain,
                commands: frame_commands(
                    r.variant.textured(),
                    r.geometry.num_indices,
                    r.clear_color,
                ),
            },
        ),
    }
}

/// The pipeline, buffers and texture of a scene, built once and only read
/// while frames are rendered.
#[derive(Debug)]
pub struct Renderer {
    variant: PipelineVariant,
    pipeline: RenderPipeline,
    geometry: Geometry,
    texture: Option<Texture>,
    bind_group: Option<BindGroup>,
    clear_color: Color,
}

impl View for Renderer {
    type V = RendererView;

    closed spec fn view(&self) -> RendererView {
        RendererView {
            variant: self.variant,
            pipeline: self.pipeline,
            geometry: self.geometry@,
            texture: self.texture,
            bind_group: self.bind_group,
            clear_color: self.clear_color,
        }
    }
}

/// A renderer has a texture and a bind group exactly when its variant is
/// the textured one; the bind group shows that texture and fills the one
/// bind group layout of the pipeline; and the pipeline reads vertices in the
/// variant's layout.
pub open spec fn coherent(r: RendererView) -> bool {
    &&& r.texture is Some <==> r.variant.textured()
    &&& r.bind_group is Some <==> r.variant.textured()
    &&& r.variant.textured() ==> {
        &&& r.bind_group->Some_0.bindings@ == texture_bindings(r.texture->Some_0)
        &&& r.pipeline.bind_group_layouts@.len() == 1
        &&& fills(r.pipeline.bind_group_layouts@[0].entries@, r.bind_group->Some_0.bindings@)
    }
    &&& !r.variant.textured() ==> r.pipeline.bind_group_layouts@.len() == 0
    &&& r.pipeline.vertex_layout.is_packed(r.variant.formats())
    &&& r.pipeline.vertex_layout.supplies(r.variant.formats())
}

impl Renderer {
    #[verifier::type_invariant]
    closed spec fn well_formed(&self) -> bool {
        coherent(self@)
    }

    /// Builds everything a scene needs before its first frame.
    ///
    /// The textured variant decodes `image_bytes` first and describes the
    /// texture, its upload, and the bind group and layout that show it; the
    /// other variants ignore the image and bind nothing.  Then the pipeline
    /// is built from the compiled stages, with the variant's vertex layout
    /// and the swapchain's format as its target.  The first failure is
    /// returned and nothing is built; on success the caller submits the
    /// upload, if there is one, before the first frame.
    pub fn new(
        variant: PipelineVariant,
        session: &Session,
        vertex: Result<Vec<u8>, String>,
        fragment: Result<Vec<u8>, String>,
        geometry: Geometry,
        image_bytes: &[u8],
        clear_color: Color,
    ) -> (r: Result<(Renderer, Option<TextureUpload>), RenderError>)
        ensures
            match r {
                Ok((renderer, upload)) => {
                    &&& coherent(renderer@)
                    &&& renderer@.variant == variant
                    &&& renderer@.geometry == geometry@
                    &&& renderer@.clear_color == clear_color
                    &&& shader_failure(vertex, Some(fragment)) is None
                    &&& renderer@.pipeline.is_built_from(
                        vertex->Ok_0@,
                        Some(fragment->Ok_0@),
                        renderer@.pipeline.vertex_layout,
                        renderer@.pipeline.bind_group_layouts,
                        session@.descriptor.format,
                    )
                    &&& upload is Some <==> variant.textured()
                    &&& variant.textured() ==> {
                        &&& renderer@.pipeline.bind_group_layouts@[0].entries@
                            == texture_layout_entries()
                        &&& texture_from_bytes(image_bytes@) == Ok::<
                            (Texture, TextureUploadView),
                            RenderError,
                        >((renderer@.texture->Some_0, upload->Some_0@))
                    }
                },
                Err(e) => if variant.textured() && texture_from_bytes(image_bytes@) is Err {
                    texture_from_bytes(image_bytes@) == Err::<
                        (Texture, TextureUploadView),
                        RenderError,
                    >(e)
                } else {
                    shader_failure(vertex, Some(fragment)) matches Some(diagnostic)
                        && is_compile_error(e, diagnostic)
                },
            },
    {
        let mut texture: Option<Texture> = None;
        let mut upload: Option<TextureUpload> = None;
        let mut bind_group: Option<BindGroup> = None;
        let mut bind_group_layouts: Vec<BindGroupLayout> = Vec::new();
        if variant.uses_texture() {
            match Texture::from_bytes(image_bytes) {
                Err(e) => {
                    return Err(e);
                },
                Ok((described, copy)) => {
                    proof {
                        lemma_texture_group_fills_layout(described);
                    }
                    bind_group_layouts.push(BindGroupLayout::for_texture());
                    bind_group = Some(BindGroup::for_texture(&described));
                    texture = Some(described);
                    upload = Some(copy);
                },
            }
        }
        let inputs = variant.vertex_formats();
        let pipeline = match RenderPipeline::build(
            vertex,
            Some(fragment),
            inputs.as_slice(),
            variant.descriptor(),
            bind_group_layouts,
            session.descriptor().format,
        ) {
            Err(e) => {
                return Err(e);
            },
            Ok(pipeline) => pipeline,
        };
        Ok((Renderer { variant, pipeline, geometry, texture, bind_group, clear_color }, upload))
    }

    /// The variant the scene was built for.
    pub fn variant(&self) -> (r: PipelineVariant)
        ensures
            r == self@.variant,
    {
        self.variant
    }

    /// The render pipeline.
    pub fn pipeline(&self) -> (r: &RenderPipeline)
        ensures
            *r == self@.pipeline,
    {
        &self.pipeline
    }

    /// The mesh.
    pub fn geometry(&self) -> (r: &Geometry)
        ensures
            r@ == self@.geometry,
    {
        &self.geometry
    }

    /// The texture, when the scene has one.
    pub fn texture(&self) -> (r: Option<Texture>)
        ensures
            r == self@.texture,
            r is Some <==> self@.variant.textured(),
    {
        proof {
            use_type_invariant(self);
        }
        self.texture
    }

    /// The bind group that shows the texture, when the scene has one.
    pub fn bind_group(&self) -> (r: &Option<BindGroup>)
        ensures
            *r == self@.bind_group,
            r is Some <==> self@.variant.textured(),
    {
        proof {
            use_type_invariant(self);
        }
        &self.bind_group
    }

    /// The background colour.
    pub fn clear_color(&self) -> (r: Color)
        ensures
            r == self@.clear_color,
    {
        self.clear_color
    }

    /// The hook for input events.  No event is handled here: the renderer
    /// stays as it is and the caller deals with the event.
    pub fn input(&mut self, event: &crate::event::WindowEvent) -> (handled: bool)
        ensures
            !handled,
            *final(self) == *old(self),
    {
        false
    }

    /// The hook for per-frame updates.  The scene is static: nothing changes.
    pub fn update(&mut self)
        ensures
            *final(self) == *old(self),
    {
    }

    /// Opens a frame on the image the swapchain handed out.
    ///
    /// Without an image there is no frame: a timeout and a lost surface are
    /// reported as they are, for the caller to recover from, and the
    /// renderer stays idle.
    pub fn begin_frame<'a>(&self, session: &'a Session, acquisition: Acquisition) -> (r: Result<
        Recording<'a>,
        RenderError,
    >)
        ensures
            match r {
                Ok(recording) => acquisition == Acquisition::Acquired && recording@ == (FrameView {
                    target: session@.size,
                    swap_chain: session@.swap_chain,
                    commands: Seq::<RenderCommand>::empty(),
                }),
                Err(e) => rendered(self@, session@, acquisition) == Err::<FrameView, RenderError>(e),
            },
    {
        match acquisition {
            Acquisition::Timeout => Err(RenderError::Timeout),
            Acquisition::SurfaceLost => Err(RenderError::SurfaceLost),
            Acquisition::Acquired => Ok(Recording { session, commands: Vec::new() }),
        }
    }

    /// Renders one frame to the session's next image.
    ///
    /// When the image was acquired, the frame targets an image of exactly
    /// the session's size and records one pass: clear, bind, one indexed
    /// draw over all indices, end, submit.  Otherwise the acquisition error
    /// is returned and nothing is recorded.
    pub fn render(&self, session: &Session, acquisition: Acquisition) -> (r: Result<
        Frame,
        RenderError,
    >)
        ensures
            match r {
                Ok(frame) => rendered(self@, session@, acquisition) == Ok::<FrameView, RenderError>(
                    frame@,
                ),
                Err(e) => rendered(self@, session@, acquisition) == Err::<FrameView, RenderError>(e),
            },
    {
        match self.begin_frame(session, acquisition) {
            Err(e) => Err(e),
            Ok(mut recording) => {
                recording.record_pass(self);
                Ok(recording.finish())
            },
        }
    }
}

impl<'a> Recording<'a> {
    /// Records the one render pass of a frame.
    pub fn record_pass(&mut self, renderer: &Renderer)
        ensures
            final(self)@.target == old(self)@.target,
            final(self)@.swap_chain == old(self)@.swap_chain,
            final(self)@.commands == old(self)@.commands + bindings_before_draw(
                renderer@.variant.textured(),
                renderer@.clear_color,
            ).push(draw_call(renderer@.geometry.num_indices)).push(RenderCommand::EndRenderPass),
    {
        let ghost before = self.commands@;
        self.commands.push(
            RenderCommand::BeginRenderPass {
                attachment: Attachment::SwapChainImage,
                resolve_target: None,
                load_op: LoadOp::Clear,
                store_op: StoreOp::Store,
                clear_color: renderer.clear_color(),
                depth_stencil_attachment: None,
            },
        );
        self.commands.push(RenderCommand::SetPipeline);
        self.commands.push(RenderCommand::SetVertexBuffer { slot: 0, offset: 0, size: 0 });
        self.commands.push(RenderCommand::SetIndexBuffer { offset: 0, size: 0 });
        if renderer.variant().uses_texture() {
            self.commands.push(RenderCommand::SetBindGroup { index: 0 });
        }
        self.commands.push(
            RenderCommand::DrawIndexed {
                first_index: 0,
                end_index: renderer.geometry().num_indices(),
                base_vertex: 0,
                first_instance: 0,
                end_instance: 1,
            },
        );
        self.commands.push(RenderCommand::EndRenderPass);
        proof {
            assert(self.commands@ =~= before + bindings_before_draw(
                renderer@.variant.textured(),
                renderer@.clear_color,
            ).push(draw_call(renderer@.geometry.num_indices)).push(RenderCommand::EndRenderPass));
        }
    }

    /// Submits what was recorded and closes the frame; the renderer is idle
    /// again.
    pub fn finish(self) -> (frame: Frame)
        ensures
            frame@.target == self@.target,
            frame@.swap_chain == self@.swap_chain,
            frame@.commands == self@.commands.push(RenderCommand::Submit),
    {
        let mut commands = self.commands;
        commands.push(RenderCommand::Submit);
        Frame { target: self.session.size(), swap_chain: self.session.swap_chain(), commands }
    }
}

/// One piece of device work at startup.
#[derive(Clone, Copy, Debug, PartialEq, Eq, Structural)]
pub enum SetupStep {
    /// Create the image, its view and its sampler.
    CreateTexture,
    /// Submit the copy that fills the image.
    SubmitTextureUpload,
    CreateBindGroupLayout,
    CreateBindGroup,
    CreateShaderModules,
    CreatePipelineLayout,
    CreateRenderPipeline,
    CreateVertexBuffer,
    CreateIndexBuffer,
}

/// The device work of startup, in order.  What shows the texture comes
/// first and only for a textured scene; the bind group layout is there
/// before the pipeline layout that refers to it.
pub open spec fn setup_steps(textured: bool) -> Seq<SetupStep> {
    let texture_steps = if textured {
        seq![
            SetupStep::CreateTexture,
            SetupStep::SubmitTextureUpload,
            SetupStep::CreateBindGroupLayout,
            SetupStep::CreateBindGroup,
        ]
    } else {
        Seq::<SetupStep>::empty()
    };
    texture_steps + seq![
        SetupStep::CreateShaderModules,
        SetupStep::CreatePipelineLayout,
        SetupStep::CreateRenderPipeline,
        SetupStep::CreateVertexBuffer,
        SetupStep::CreateIndexBuffer,
    ]
}

/// The device work the caller carries out for a new renderer, in order.
pub fn plan_setup(variant: PipelineVariant) -> (steps: Vec<SetupStep>)
    ensures
        steps@ == setup_steps(variant.textured()),
{
    let mut steps: Vec<SetupStep> = Vec::new();
    if variant.uses_texture() {
        steps.push(SetupStep::CreateTexture);
        steps.push(SetupStep::SubmitTextureUpload);
        steps.push(SetupStep::CreateBindGroupLayout);
        steps.push(SetupStep::CreateBindGroup);
    }
    steps.push(SetupStep::CreateShaderModules);
    steps.push(SetupStep::CreatePipelineLayout);
    steps.push(SetupStep::CreateRenderPipeline);
    steps.push(SetupStep::CreateVertexBuffer);
    steps.push(SetupStep::CreateIndexBuffer);
    assert(steps@ =~= setup_steps(variant.textured()));
    steps
}

/// Wherever startup creates a bind group layout, it does so before it
/// creates the pipeline layout, and the texture is filled before it is
/// bound.
pub proof fn lemma_bind_group_layout_precedes_pipeline_layout(textured: bool, i: int, j: int)
    requires
        0 <= i < setup_steps(textured).len(),
        0 <= j < setup_steps(textured).len(),
        setup_steps(textured)[j] == SetupStep::CreatePipelineLayout,
        setup_steps(textured)[i] == SetupStep::CreateBindGroupLayout || setup_steps(textured)[i]
            == SetupStep::SubmitTextureUpload,
    ensures
        i < j,
{
}

/// After a resize to a size with an area, a frame whose image is acquired
/// is rendered, and its image has exactly the new extent and comes from the
/// swapchain the resize left in use.
pub proof fn lemma_resize_then_render(r: RendererView, s: SessionView, new_size: SurfaceSize)
    requires
        consistent(s),
        !new_size.degenerate(),
    ensures
        rendered(r, resized(s, new_size), Acquisition::Acquired) matches Ok(frame) && frame.target
            == new_size && frame.swap_chain == resized(s, new_size).swap_chain,
{
}

/// Every frame issues exactly one draw call, and it covers all indices of
/// the mesh once, for one instance, from index zero and vertex zero.
pub proof fn lemma_frame_draws_all_indices(textured: bool, num_indices: u32, clear_color: Color)
    ensures
        ({
            let commands = frame_commands(textured, num_indices, clear_color);
            let at = if textured { 5int } else { 4int };
            &&& commands.len() == at + 3
            &&& commands[at] == draw_call(num_indices)
            &&& forall|k: int|
                0 <= k < commands.len() && k != at ==> !(#[trigger] commands[k] is DrawIndexed)
            &&& commands[0] is BeginRenderPass
            &&& commands[at + 1] == RenderCommand::EndRenderPass
            &&& commands[at + 2] == RenderCommand::Submit
        }),
{
}

} // verus!
