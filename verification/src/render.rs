//! Render targets and the recreation protocol.  One image view and one
//! framebuffer exist per swapchain image, all bound to one render-pass
//! description; a window resize tears the whole set down in strict
//! reverse-dependency order and rebuilds it at the new extent.

use vstd::prelude::*;
use crate::swapchain::{
    Extent2D, SurfaceFormat, SwapchainContext, SwapchainSupportDetails, SharingMode,
    swapchain_config_ok, swapchain_count_ok, support_wf, create_swapchain, chosen_extent,
};
use crate::device::QueueFamilyIndices;

verus! {

/// Raw code of the color-attachment-output pipeline stage.
pub const STAGE_COLOR_ATTACHMENT_OUTPUT: u32 = 0x400;

/// Raw code of the color-attachment-write access kind.
pub const ACCESS_COLOR_ATTACHMENT_WRITE: u32 = 0x100;

/// The implicit subpass outside the render pass.
pub const SUBPASS_EXTERNAL: u32 = u32::MAX;

#[derive(Debug, Clone, Copy, PartialEq, Eq, Structural)]
pub enum AttachmentLoadOp {
    Clear,
    DontCare,
}

#[derive(Debug, Clone, Copy, PartialEq, Eq, Structural)]
pub enum AttachmentStoreOp {
    Store,
    DontCare,
}

#[derive(Debug, Clone, Copy, PartialEq, Eq, Structural)]
pub enum ImageLayout {
    Undefined,
    ColorAttachmentOptimal,
    PresentSrc,
}

/// How one attachment is used across the pass.
#[derive(Debug, Clone, Copy, PartialEq, Eq, Structural)]
pub struct AttachmentDescription {
    pub format: i32,
    pub sample_count: u32,
    pub load_op: AttachmentLoadOp,
    pub store_op: AttachmentStoreOp,
    pub stencil_load_op: AttachmentLoadOp,
    pub stencil_store_op: AttachmentStoreOp,
    pub initial_layout: ImageLayout,
    pub final_layout: ImageLayout,
}

/// An execution-and-memory dependency between two subpasses.
#[derive(Debug, Clone, Copy, PartialEq, Eq, Structural)]
pub struct SubpassDependency {
    pub src_subpass: u32,
    pub dst_subpass: u32,
    pub src_stage_mask: u32,
    pub dst_stage_mask: u32,
    pub src_access_mask: u32,
    pub dst_access_mask: u32,
}

/// The render pass: its attachments, the attachment indices the single
/// subpass writes as color output, and its dependencies.
#[derive(Debug, Clone)]
pub struct RenderPassDescription {
    pub attachments: Vec<AttachmentDescription>,
    pub subpass_count: u32,
    pub color_attachment_refs: Vec<u32>,
    pub dependencies: Vec<SubpassDependency>,
}

/// The one attachment: cleared on load, stored at the end, carried from
/// undefined straight to a presentable layout.
pub open spec fn color_attachment_for(format: i32) -> AttachmentDescription {
    AttachmentDescription {
        format,
        sample_count: 1,
        load_op: AttachmentLoadOp::Clear,
        store_op: AttachmentStoreOp::Store,
        stencil_load_op: AttachmentLoadOp::DontCare,
        stencil_store_op: AttachmentStoreOp::DontCare,
        initial_layout: ImageLayout::Undefined,
        final_layout: ImageLayout::PresentSrc,
    }
}

/// The one dependency: from the implicit external stage into subpass 0,
/// both on the color-attachment-output stage, making the attachment
/// write visible before the color output begins.
pub open spec fn external_color_dependency() -> SubpassDependency {
    SubpassDependency {
        src_subpass: SUBPASS_EXTERNAL,
        dst_subpass: 0,
        src_stage_mask: STAGE_COLOR_ATTACHMENT_OUTPUT,
        dst_stage_mask: STAGE_COLOR_ATTACHMENT_OUTPUT,
        src_access_mask: 0,
        dst_access_mask: ACCESS_COLOR_ATTACHMENT_WRITE,
    }
}

/// A well-formed pass for `format`: one color attachment with the fixed
/// ops above, one subpass writing it, and exactly one dependency, the
/// external-to-first one.
pub open spec fn render_pass_ok(rp: RenderPassDescription, format: i32) -> bool {
    &&& rp.attachments@ == seq![color_attachment_for(format)]
    &&& rp.subpass_count == 1
    &&& rp.color_attachment_refs@ == seq![0u32]
    &&& rp.dependencies@ == seq![external_color_dependency()]
}

/// Describe the render pass for the swapchain's pixel format.
pub fn create_render_pass(attachment_format: i32) -> (r: RenderPassDescription)
    ensures
        render_pass_ok(r, attachment_format),
{
    let mut attachments: Vec<AttachmentDescription> = Vec::new();
    attachments.push(
        AttachmentDescription {
            format: attachment_format,
            sample_count: 1,
            load_op: AttachmentLoadOp::Clear,
            store_op: AttachmentStoreOp::Store,
            stencil_load_op: AttachmentLoadOp::DontCare,
            stencil_store_op: AttachmentStoreOp::DontCare,
            initial_layout: ImageLayout::Undefined,
            final_layout: ImageLayout::PresentSrc,
        },
    );
    let mut color_attachment_refs: Vec<u32> = Vec::new();
    color_attachment_refs.push(0);
    let mut dependencies: Vec<SubpassDependency> = Vec::new();
    dependencies.push(
        SubpassDependency {
            src_subpass: SUBPASS_EXTERNAL,
            dst_subpass: 0,
            src_stage_mask: STAGE_COLOR_ATTACHMENT_OUTPUT,
            dst_stage_mask: STAGE_COLOR_ATTACHMENT_OUTPUT,
            src_access_mask: 0,
            dst_access_mask: ACCESS_COLOR_ATTACHMENT_WRITE,
        },
    );
    let r = RenderPassDescription { attachments, subpass_count: 1, color_attachment_refs, dependencies };
    proof {
        assert(r.attachments@ =~= seq![color_attachment_for(attachment_format)]);
        assert(r.color_attachment_refs@ =~= seq![0u32]);
        assert(r.dependencies@ =~= seq![external_color_dependency()]);
    }
    r
}

#[derive(Debug, Clone, Copy, PartialEq, Eq, Structural)]
pub enum CullMode {
    NoCulling,
    Front,
    Back,
}

#[derive(Debug, Clone, Copy, PartialEq, Eq, Structural)]
pub enum FrontFace {
    Clockwise,
    CounterClockwise,
}

#[derive(Debug, Clone, Copy, PartialEq, Eq, Structural)]
pub enum PrimitiveTopology {
    TriangleList,
    LineList,
    PointList,
}

/// The fixed-function state the pipeline is built with, in the plain
/// values the creation call copies in.
#[derive(Debug, Clone, Copy, PartialEq, Eq, Structural)]
pub struct GraphicsPipelinePlan {
    pub viewport_extent: Extent2D,
    pub scissor_extent: Extent2D,
    pub topology: PrimitiveTopology,
    pub cull_mode: CullMode,
    pub front_face: FrontFace,
    pub sample_count: u32,
    pub depth_test_enabled: bool,
    pub blend_enabled: bool,
    pub descriptor_set_count: u32,
    pub push_constant_count: u32,
}

/// The fixed pipeline state for a given swapchain extent: viewport and
/// scissor sized to the extent, back-face culling with clockwise
/// winding, a triangle list, no depth test, a single sample, opaque
/// blending, and an empty layout.
pub open spec fn pipeline_plan_for(extent: Extent2D) -> GraphicsPipelinePlan {
    GraphicsPipelinePlan {
        viewport_extent: extent,
        scissor_extent: extent,
        topology: PrimitiveTopology::TriangleList,
        cull_mode: CullMode::Back,
        front_face: FrontFace::Clockwise,
        sample_count: 1,
        depth_test_enabled: false,
        blend_enabled: false,
        descriptor_set_count: 0,
        push_constant_count: 0,
    }
}

/// Plan the graphics pipeline's fixed-function state for the swapchain
/// extent.
pub fn create_graphics_pipeline(swapchain_extent: Extent2D) -> (r: GraphicsPipelinePlan)
    ensures
        r == pipeline_plan_for(swapchain_extent),
{
    GraphicsPipelinePlan {
        viewport_extent: swapchain_extent,
        scissor_extent: swapchain_extent,
        topology: PrimitiveTopology::TriangleList,
        cull_mode: CullMode::Back,
        front_face: FrontFace::Clockwise,
        sample_count: 1,
        depth_test_enabled: false,
        blend_enabled: false,
        descriptor_set_count: 0,
        push_constant_count: 0,
    }
}

/// Everything rebuilt on a resize, with what of it is currently alive.
/// Destruction in strict reverse-dependency order is forced by the
/// preconditions of the destroy steps: a resource can only go once
/// everything depending on it is gone.
pub struct RenderResources {
    pub swapchain: Option<SwapchainContext>,
    pub image_view_count: u32,
    pub render_pass: Option<RenderPassDescription>,
    pub framebuffer_count: u32,
    pub framebuffer_extent: Extent2D,
    pub pipeline: Option<GraphicsPipelinePlan>,
}

/// Nothing is alive: the state between teardown and rebuild.
pub open spec fn resources_empty(r: RenderResources) -> bool {
    &&& r.swapchain is None
    &&& r.image_view_count == 0
    &&& r.render_pass is None
    &&& r.framebuffer_count == 0
    &&& r.pipeline is None
}

/// The steady state: one image view and one framebuffer per swapchain
/// image, all at the chain's extent, a pass for the chain's format, and
/// a pipeline whose viewport matches the chain.
pub open spec fn resources_built(r: RenderResources) -> bool {
    &&& r.swapchain is Some
    &&& r.image_view_count == r.swapchain->Some_0.image_count
    &&& r.render_pass is Some
    &&& render_pass_ok(r.render_pass->Some_0, r.swapchain->Some_0.swapchain_format.format)
    &&& r.framebuffer_count == r.swapchain->Some_0.image_count
    &&& r.framebuffer_extent == r.swapchain->Some_0.swapchain_extent
    &&& r.pipeline == Some(pipeline_plan_for(r.swapchain->Some_0.swapchain_extent))
}

impl RenderResources {
    /// Before anything is created.
    pub fn empty() -> (r: RenderResources)
        ensures
            resources_empty(r),
    {
        RenderResources {
            swapchain: None,
            image_view_count: 0,
            render_pass: None,
            framebuffer_count: 0,
            framebuffer_extent: Extent2D { width: 0, height: 0 },
            pipeline: None,
        }
    }

    /// Destroy the pipeline.  Nothing depends on it, so it goes first.
    pub fn destroy_pipeline(&mut self)
        requires
            old(self).pipeline is Some,
        ensures
            *final(self) == (RenderResources { pipeline: None, ..*old(self) }),
    {
        self.pipeline = None;
    }

    /// Destroy every framebuffer; the pipeline must already be gone.
    pub fn destroy_framebuffers(&mut self)
        requires
            old(self).pipeline is None,
        ensures
            *final(self) == (RenderResources { framebuffer_count: 0, ..*old(self) }),
    {
        self.framebuffer_count = 0;
    }

    /// Destroy the render pass; the pipeline and the framebuffers that
    /// referenced it must already be gone.
    pub fn destroy_render_pass(&mut self)
        requires
            old(self).pipeline is None,
            old(self).framebuffer_count == 0,
        ensures
            *final(self) == (RenderResources { render_pass: None, ..*old(self) }),
    {
        self.render_pass = None;
    }

    /// Destroy every image view; the framebuffers that referenced them
    /// must already be gone.
    pub fn destroy_image_views(&mut self)
        requires
            old(self).pipeline is None,
            old(self).framebuffer_count == 0,
            old(self).render_pass is None,
        ensures
            *final(self) == (RenderResources { image_view_count: 0, ..*old(self) }),
    {
        self.image_view_count = 0;
    }

    /// Destroy the swapchain itself, last of all: the views that
    /// wrapped its images must already be gone.
    pub fn destroy_swapchain(&mut self)
        requires
            old(self).pipeline is None,
            old(self).framebuffer_count == 0,
            old(self).render_pass is None,
            old(self).image_view_count == 0,
        ensures
            *final(self) == (RenderResources { swapchain: None, ..*old(self) }),
            resources_empty(*final(self)),
    {
        self.swapchain = None;
    }

    /// Tear everything down, in the mandatory reverse-dependency order:
    /// pipeline, framebuffers, render pass, image views, swapchain.
    /// The caller must have drained all in-flight GPU work first.
    pub fn teardown(&mut self)
        requires
            old(self).pipeline is Some,
        ensures
            resources_empty(*final(self)),
    {
        self.destroy_pipeline();
        self.destroy_framebuffers();
        self.destroy_render_pass();
        self.destroy_image_views();
        self.destroy_swapchain();
    }

    /// Wrap each swapchain image in a color-attachment view: one view
    /// per image, always.
    pub fn create_image_views_2d(&mut self)
        requires
            old(self).swapchain is Some,
        ensures
            *final(self) == (RenderResources {
                image_view_count: old(self).swapchain->Some_0.image_count,
                ..*old(self)
            }),
    {
        let count = match &self.swapchain {
            Some(ctx) => ctx.image_count,
            None => 0,
        };
        self.image_view_count = count;
    }

    /// Bind one framebuffer per image view to the render pass, each
    /// sized to the swapchain extent.
    pub fn create_framebuffers(&mut self)
        requires
            old(self).swapchain is Some,
            old(self).render_pass is Some,
            old(self).image_view_count == old(self).swapchain->Some_0.image_count,
        ensures
            *final(self) == (RenderResources {
                framebuffer_count: old(self).swapchain->Some_0.image_count,
                framebuffer_extent: old(self).swapchain->Some_0.swapchain_extent,
                ..*old(self)
            }),
    {
        let (count, extent) = match &self.swapchain {
            Some(ctx) => (ctx.image_count, ctx.swapchain_extent),
            None => (0, Extent2D { width: 0, height: 0 }),
        };
        self.framebuffer_count = count;
        self.framebuffer_extent = extent;
    }

    /// Build everything over a freshly configured swapchain, in
    /// dependency order: swapchain, image views, render pass,
    /// framebuffers, pipeline.
    pub fn build(
        &mut self,
        support: &SwapchainSupportDetails,
        queue_family: &QueueFamilyIndices,
        window_width: u32,
        window_height: u32,
    )
        requires
            resources_empty(*old(self)),
            support_wf(*support),
            queue_family.graphics_family is Some,
            queue_family.present_family is Some,
        ensures
            resources_built(*final(self)),
            swapchain_config_ok(
                final(self).swapchain->Some_0,
                *support,
                queue_family.graphics_family->Some_0,
                queue_family.present_family->Some_0,
                window_width,
                window_height,
            ),
            swapchain_count_ok(final(self).swapchain->Some_0, support.capabilities),
    {
        let ctx = create_swapchain(support, queue_family, window_width, window_height);
        let format = ctx.swapchain_format.format;
        self.swapchain = Some(ctx);
        self.create_image_views_2d();
        self.render_pass = Some(create_render_pass(format));
        self.create_framebuffers();
        let extent = match &self.swapchain {
            Some(ctx) => ctx.swapchain_extent,
            None => Extent2D { width: 0, height: 0 },
        };
        self.pipeline = Some(create_graphics_pipeline(extent));
    }

    /// The resize protocol: with the device already idle, destroy
    /// everything in strict reverse-dependency order, then rebuild at
    /// the new size.  The resulting extent is a function of the surface
    /// reports and the requested size alone, so repeating the protocol
    /// with the same target yields the same extent.
    pub fn recreate(
        &mut self,
        support: &SwapchainSupportDetails,
        queue_family: &QueueFamilyIndices,
        window_width: u32,
        window_height: u32,
    )
        requires
            old(self).pipeline is Some,
            support_wf(*support),
            queue_family.graphics_family is Some,
            queue_family.present_family is Some,
        ensures
            resources_built(*final(self)),
            swapchain_config_ok(
                final(self).swapchain->Some_0,
                *support,
                queue_family.graphics_family->Some_0,
                queue_family.present_family->Some_0,
                window_width,
                window_height,
            ),
            final(self).swapchain->Some_0.swapchain_extent == chosen_extent(
                support.capabilities,
                window_width,
                window_height,
            ),
    {
        self.teardown();
        self.build(support, queue_family, window_width, window_height);
    }
}

/// One command recorded into a frame's buffer, in order.
#[derive(Debug, Clone, Copy, PartialEq, Eq, Structural)]
pub enum RenderCommand {
    /// Begin the render pass on the image's framebuffer over the full
    /// render area, clearing the attachment to opaque black.
    BeginPass { image_index: u32, render_area: Extent2D },
    BindPipeline,
    BindVertexBuffer { offset: u64 },
    Draw { vertex_count: u32, instance_count: u32, first_vertex: u32, first_instance: u32 },
    EndPass,
}

/// What one frame records: begin the pass with a clear, bind the
/// pipeline, bind the vertex buffer at offset zero, draw every vertex
/// once, end the pass.
pub open spec fn frame_commands(
    image_index: u32,
    render_area: Extent2D,
    vertex_count: u32,
) -> Seq<RenderCommand> {
    seq![
        RenderCommand::BeginPass { image_index, render_area },
        RenderCommand::BindPipeline,
        RenderCommand::BindVertexBuffer { offset: 0 },
        RenderCommand::Draw { vertex_count, instance_count: 1, first_vertex: 0, first_instance: 0 },
        RenderCommand::EndPass,
    ]
}

/// Record one frame's command sequence for the acquired image.
pub fn record_command_buffer(image_index: u32, render_area: Extent2D, vertex_count: u32) -> (r:
    Vec<RenderCommand>)
    ensures
        r@ == frame_commands(image_index, render_area, vertex_count),
{
    let mut commands: Vec<RenderCommand> = Vec::new();
    commands.push(RenderCommand::BeginPass { image_index, render_area });
    commands.push(RenderCommand::BindPipeline);
    commands.push(RenderCommand::BindVertexBuffer { offset: 0 });
    commands.push(
        RenderCommand::Draw {
            vertex_count,
            instance_count: 1,
            first_vertex: 0,
            first_instance: 0,
        },
    );
    commands.push(RenderCommand::EndPass);
    proof {
        assert(commands@ =~= frame_commands(image_index, render_area, vertex_count));
    }
    commands
}

/// Resize idempotence: running the recreation protocol twice in a row
/// against the same surface reports and the same target size leaves the
/// same extent both times — the extent chosen for that size — and each
/// run starts from a fully torn down state, as the destroy steps'
/// preconditions force.
pub proof fn lemma_resize_idempotent(
    first: RenderResources,
    second: RenderResources,
    support: SwapchainSupportDetails,
    graphics_family: u32,
    present_family: u32,
    window_width: u32,
    window_height: u32,
)
    requires
        resources_built(first),
        swapchain_config_ok(
            first.swapchain->Some_0,
            support,
            graphics_family,
            present_family,
            window_width,
            window_height,
        ),
        resources_built(second),
        swapchain_config_ok(
            second.swapchain->Some_0,
            support,
            graphics_family,
            present_family,
            window_width,
            window_height,
        ),
    ensures
        first.swapchain->Some_0.swapchain_extent == chosen_extent(
            support.capabilities,
            window_width,
            window_height,
        ),
        second.swapchain->Some_0.swapchain_extent == first.swapchain->Some_0.swapchain_extent,
        second.framebuffer_extent == first.framebuffer_extent,
        second.pipeline == first.pipeline,
        second.image_view_count == first.image_view_count,
        second.framebuffer_count == first.framebuffer_count,
{
}

} // verus!
