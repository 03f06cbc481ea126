use vulkan_rust_test::commands::{
    CommandBufferLevel, FrameBoundCommandGroup, OneTimeSubmitCommandGroup,
};
use vulkan_rust_test::device::QueueFamilyIndices;
use vulkan_rust_test::frame::{AcquireOutcome, FrameCoordinator, FrameStep};
use vulkan_rust_test::gpubuffer::{Allocator, GPUBuffer, MemoryLocation,
    upload_vertex_buffer_data_through_tmp_command};
use vulkan_rust_test::render::{
    AttachmentLoadOp, AttachmentStoreOp, CullMode, FrontFace, ImageLayout, PrimitiveTopology,
    RenderCommand, RenderResources, STAGE_COLOR_ATTACHMENT_OUTPUT, SUBPASS_EXTERNAL,
    create_graphics_pipeline, create_render_pass, record_command_buffer,
};
use vulkan_rust_test::swapchain::{
    COLOR_SPACE_SRGB_NONLINEAR, EXTENT_UNDEFINED, Extent2D, FORMAT_B8G8R8A8_SRGB,
    PRESENT_MODE_FIFO, SurfaceCapabilities, SurfaceFormat, SwapchainSupportDetails,
};
use vulkan_rust_test::sync::FrameSyncContext;

fn single_queue_family() -> QueueFamilyIndices {
    QueueFamilyIndices { graphics_family: Some(0), present_family: Some(0) }
}

fn resizable_support() -> SwapchainSupportDetails {
    SwapchainSupportDetails {
        capabilities: SurfaceCapabilities {
            min_image_count: 2,
            max_image_count: 8,
            current_extent: Extent2D { width: EXTENT_UNDEFINED, height: EXTENT_UNDEFINED },
            min_image_extent: Extent2D { width: 1, height: 1 },
            max_image_extent: Extent2D { width: 4096, height: 4096 },
        },
        formats: vec![SurfaceFormat {
            format: FORMAT_B8G8R8A8_SRGB,
            color_space: COLOR_SPACE_SRGB_NONLINEAR,
        }],
        present_modes: vec![PRESENT_MODE_FIFO],
    }
}

#[test]
fn command_group_grows_lazily_and_reuses_after_reset() {
    let mut group = FrameBoundCommandGroup::new(&single_queue_family(), CommandBufferLevel::Primary, 0);
    assert_eq!(group.pool_size, 0);
    let first = group.allocate_command_buffers(2);
    assert_eq!(first, vec![0, 1]);
    assert_eq!(group.pool_size, 2);
    let second = group.allocate_command_buffers(1);
    assert_eq!(second, vec![2]);
    assert_eq!(group.pool_size, 3);
    group.reset_command_group();
    assert_eq!(group.buffer_id, 0);
    assert_eq!(group.pool_size, 3);
    let reused = group.allocate_command_buffers(2);
    assert_eq!(reused, vec![0, 1]);
    assert_eq!(group.pool_size, 3);
    group.reset_frame(7);
    assert_eq!(group.frame_id, 7);
    group.destroy_group();
    assert_eq!(group.pool_size, 0);
}

#[test]
fn one_time_group_submit_resets_fence_and_pool() {
    let mut group = OneTimeSubmitCommandGroup::new(&single_queue_family(), CommandBufferLevel::Primary);
    let buffers = group.allocate_command_buffers(2);
    assert_eq!(buffers, vec![0, 1]);
    assert_eq!(group.buffer_id, 2);
    group.submit_and_wait();
    assert_eq!(group.buffer_id, 0);
    assert!(!group.fence_signaled);
    assert_eq!(group.pool_size, 2);
    group.destroy_group();
    assert_eq!(group.pool_size, 0);
}

#[test]
fn sync_context_starts_with_signaled_fences() {
    let sync = FrameSyncContext::new(2);
    assert_eq!(sync.in_flight_fences, vec![true, true]);
    assert_eq!(sync.image_available_semaphores.len(), 2);
    assert_eq!(sync.render_finished_semaphores.len(), 2);
    let mut gone = sync;
    gone.destroy_context();
    assert!(gone.in_flight_fences.is_empty());
}

#[test]
fn ring_slot_fence_is_signaled_before_every_record() {
    let mut frames = FrameCoordinator::new(2, 3, Extent2D { width: 800, height: 600 });
    for n in 0..10u32 {
        let slot_before = frames.current_frame;
        frames.wait_for_slot_fence();
        frames.complete_acquire(AcquireOutcome::Image(n % 3));
        // The property under test: recording is only reached with the
        // slot's fence observed signaled.
        assert!(frames.sync.in_flight_fences[frames.current_frame]);
        let (slot, image) = frames.begin_record();
        assert_eq!(slot, slot_before);
        assert_eq!(image, n % 3);
        frames.submit_frame();
        assert!(!frames.sync.in_flight_fences[slot]);
        frames.present_frame();
        assert_eq!(frames.current_frame, (slot_before + 1) % 2);
    }
}

#[test]
fn draw_loop_runs_many_frames_without_stalling() {
    // Regression guard against bad fence indexing: every slot fence the
    // loop is about to wait on was either created signaled or reset by
    // the submit exactly two frames earlier, never left unsignaled.
    let frame_count = 2usize;
    let mut frames = FrameCoordinator::new(frame_count, 3, Extent2D { width: 800, height: 600 });
    let mut submitted_at = vec![None::<u32>; frame_count];
    for n in 0..100u32 {
        let slot = frames.current_frame;
        if let Some(at) = submitted_at[slot] {
            assert_eq!(at + frame_count as u32, n);
        }
        frames.wait_for_slot_fence();
        frames.complete_acquire(AcquireOutcome::Image(n % 3));
        frames.begin_record();
        frames.submit_frame();
        submitted_at[slot] = Some(n);
        frames.present_frame();
    }
    assert_eq!(frames.current_frame, 0);
    assert!(matches!(frames.step, FrameStep::WaitForSlot));
}

#[test]
fn whole_frame_step_draws_and_advances_the_slot() {
    let mut frames = FrameCoordinator::new(2, 3, Extent2D { width: 800, height: 600 });
    let drawn = frames.draw_frame(AcquireOutcome::Image(1));
    assert_eq!(drawn, Some((0, 1)));
    assert_eq!(frames.current_frame, 1);
    assert!(!frames.sync.in_flight_fences[0]);
    let stale = frames.draw_frame(AcquireOutcome::OutOfDate);
    assert_eq!(stale, None);
    assert_eq!(frames.current_frame, 1);
    assert!(frames.resize_needed);
}

#[test]
fn stale_acquire_defers_a_resize_instead_of_failing() {
    let mut frames = FrameCoordinator::new(2, 3, Extent2D { width: 800, height: 600 });
    frames.wait_for_slot_fence();
    frames.complete_acquire(AcquireOutcome::OutOfDate);
    assert!(matches!(frames.step, FrameStep::WaitForSlot));
    assert!(frames.resize_needed);
    let request = frames.take_resize_request();
    assert_eq!(request, Some(Extent2D { width: 800, height: 600 }));
    assert!(!frames.resize_needed);
    assert_eq!(frames.take_resize_request(), None);
}

#[test]
fn resize_notification_is_deferred_not_inline() {
    let mut frames = FrameCoordinator::new(2, 3, Extent2D { width: 800, height: 600 });
    frames.wait_for_slot_fence();
    frames.complete_acquire(AcquireOutcome::Image(0));
    frames.on_resize(400, 300);
    // Mid-frame the protocol continues; the rebuild waits for the gap
    // between frames.
    assert!(matches!(frames.step, FrameStep::RecordCommands));
    frames.begin_record();
    frames.submit_frame();
    frames.present_frame();
    assert_eq!(frames.take_resize_request(), Some(Extent2D { width: 400, height: 300 }));
}

#[test]
fn startup_then_resize_reaches_both_target_extents() {
    let support = resizable_support();
    let queue_family = single_queue_family();
    let mut resources = RenderResources::empty();
    resources.build(&support, &queue_family, 800, 600);
    let first = resources.swapchain.as_ref().unwrap();
    assert_eq!(first.swapchain_extent, Extent2D { width: 800, height: 600 });
    assert_eq!(resources.framebuffer_count, first.image_count);
    assert_eq!(resources.image_view_count, first.image_count);

    resources.recreate(&support, &queue_family, 400, 300);
    let rebuilt = resources.swapchain.as_ref().unwrap();
    assert_eq!(rebuilt.swapchain_extent, Extent2D { width: 400, height: 300 });
    let plan = resources.pipeline.unwrap();
    assert_eq!(plan.viewport_extent, Extent2D { width: 400, height: 300 });

    // A draw after the rebuild still follows the protocol.
    let mut frames = FrameCoordinator::new(2, rebuilt.image_count, Extent2D { width: 400, height: 300 });
    frames.wait_for_slot_fence();
    frames.complete_acquire(AcquireOutcome::Image(0));
    let (slot, image) = frames.begin_record();
    assert_eq!((slot, image), (0, 0));
    frames.submit_frame();
    frames.present_frame();
}

#[test]
fn repeating_a_resize_yields_the_same_extent() {
    let support = resizable_support();
    let queue_family = single_queue_family();
    let mut resources = RenderResources::empty();
    resources.build(&support, &queue_family, 800, 600);
    resources.recreate(&support, &queue_family, 640, 480);
    let once = resources.swapchain.as_ref().unwrap().swapchain_extent;
    resources.recreate(&support, &queue_family, 640, 480);
    let twice = resources.swapchain.as_ref().unwrap().swapchain_extent;
    assert_eq!(once, Extent2D { width: 640, height: 480 });
    assert_eq!(twice, once);
}

#[test]
fn teardown_empties_everything_in_order() {
    let support = resizable_support();
    let queue_family = single_queue_family();
    let mut resources = RenderResources::empty();
    resources.build(&support, &queue_family, 800, 600);
    resources.teardown();
    assert!(resources.swapchain.is_none());
    assert_eq!(resources.image_view_count, 0);
    assert!(resources.render_pass.is_none());
    assert_eq!(resources.framebuffer_count, 0);
    assert!(resources.pipeline.is_none());
}

#[test]
fn render_pass_description_matches_the_fixed_pass() {
    let pass = create_render_pass(FORMAT_B8G8R8A8_SRGB);
    assert_eq!(pass.attachments.len(), 1);
    let color = pass.attachments[0];
    assert_eq!(color.format, FORMAT_B8G8R8A8_SRGB);
    assert_eq!(color.sample_count, 1);
    assert_eq!(color.load_op, AttachmentLoadOp::Clear);
    assert_eq!(color.store_op, AttachmentStoreOp::Store);
    assert_eq!(color.initial_layout, ImageLayout::Undefined);
    assert_eq!(color.final_layout, ImageLayout::PresentSrc);
    assert_eq!(pass.subpass_count, 1);
    assert_eq!(pass.color_attachment_refs, vec![0]);
    assert_eq!(pass.dependencies.len(), 1);
    let dep = pass.dependencies[0];
    assert_eq!(dep.src_subpass, SUBPASS_EXTERNAL);
    assert_eq!(dep.dst_subpass, 0);
    assert_eq!(dep.src_stage_mask, STAGE_COLOR_ATTACHMENT_OUTPUT);
    assert_eq!(dep.dst_stage_mask, STAGE_COLOR_ATTACHMENT_OUTPUT);
}

#[test]
fn pipeline_plan_sizes_viewport_to_the_extent() {
    let extent = Extent2D { width: 1024, height: 768 };
    let plan = create_graphics_pipeline(extent);
    assert_eq!(plan.viewport_extent, extent);
    assert_eq!(plan.scissor_extent, extent);
    assert_eq!(plan.topology, PrimitiveTopology::TriangleList);
    assert_eq!(plan.cull_mode, CullMode::Back);
    assert_eq!(plan.front_face, FrontFace::Clockwise);
    assert_eq!(plan.sample_count, 1);
    assert!(!plan.depth_test_enabled);
    assert!(!plan.blend_enabled);
    assert_eq!(plan.descriptor_set_count, 0);
    assert_eq!(plan.push_constant_count, 0);
}

#[test]
fn frame_recording_follows_the_fixed_sequence() {
    let area = Extent2D { width: 800, height: 600 };
    let commands = record_command_buffer(2, area, 3);
    assert_eq!(
        commands,
        vec![
            RenderCommand::BeginPass { image_index: 2, render_area: area },
            RenderCommand::BindPipeline,
            RenderCommand::BindVertexBuffer { offset: 0 },
            RenderCommand::Draw {
                vertex_count: 3,
                instance_count: 1,
                first_vertex: 0,
                first_instance: 0
            },
            RenderCommand::EndPass,
        ]
    );
}

#[test]
fn upload_round_trips_bytes_through_staging() {
    let mut allocator = Allocator::new(11);
    let mut group = OneTimeSubmitCommandGroup::new(&single_queue_family(), CommandBufferLevel::Primary);
    let data: Vec<u8> = (0..200u16).map(|b| (b % 251) as u8).collect();
    let vertex_buffer =
        upload_vertex_buffer_data_through_tmp_command(&mut allocator, &mut group, &data);
    assert_eq!(vertex_buffer.contents, data);
    assert!(!vertex_buffer.host_visible);
    // The staging buffer is already freed: one allocation lives on.
    assert_eq!(allocator.live_allocations, 1);
    assert_eq!(group.buffer_id, 0);
    GPUBuffer::destroy_gpu_buffer(vertex_buffer, &mut allocator);
    assert_eq!(allocator.live_allocations, 0);
}

#[test]
fn buffers_remember_their_allocator_and_visibility() {
    let mut allocator = Allocator::new(3);
    let buffer = GPUBuffer::create_gpu_buffer(&mut allocator, 16, MemoryLocation::CpuToGpu);
    assert_eq!(buffer.contents.len(), 16);
    assert!(buffer.host_visible);
    assert_eq!(buffer.allocator_id, 3);
    assert_eq!(allocator.live_allocations, 1);
    let device_local = GPUBuffer::create_gpu_buffer(&mut allocator, 16, MemoryLocation::GpuOnly);
    assert!(!device_local.host_visible);
    assert_eq!(allocator.live_allocations, 2);
    GPUBuffer::destroy_gpu_buffer(buffer, &mut allocator);
    GPUBuffer::destroy_gpu_buffer(device_local, &mut allocator);
    assert_eq!(allocator.live_allocations, 0);
}
