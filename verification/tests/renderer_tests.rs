use render_core::command_manager::{
    Command, CommandBufferRole, CommandManager, FenceRole, QueueFamilies, RecorderState,
    SemaphoreRole,
};
use render_core::errors::{AllocatorError, DeviceError, InitError, RecorderError, RenderError};
use render_core::geometry::{upload_mesh, Mesh};
use render_core::layout::{Format, LoadOp, RenderTargetLayout, StoreOp};
use render_core::renderer::{AcquireOutcome, DestroyOp, MeshSource, Renderer, SwapchainDescription};
use render_core::target::{build_frame_targets, Extent2d, FrameTarget};

fn small_extent() -> Extent2d {
    Extent2d { width: 1600, height: 900 }
}

fn two_image_swapchain() -> SwapchainDescription {
    SwapchainDescription {
        color_format: Format::B8g8r8a8Srgb,
        depth_format: Format::D32Sfloat,
        color_views: vec![101, 102],
        depth_view: 200,
        extent: small_extent(),
    }
}

fn queues() -> QueueFamilies {
    QueueFamilies { main_queue_index: 0, transfer_only_queue_index: 1 }
}

fn one_vertex_bytes() -> Vec<u8> {
    (0u8..36u8).collect()
}

fn new_error(
    description: SwapchainDescription,
    queue: QueueFamilies,
    sources: Vec<MeshSource>,
) -> InitError {
    match Renderer::new(description, queue, sources) {
        Err(e) => e,
        Ok(_) => panic!("construction should have been rejected"),
    }
}

fn make_renderer(sources: Vec<MeshSource>) -> Renderer {
    let (renderer, _uploads) = Renderer::new(two_image_swapchain(), queues(), sources).unwrap();
    renderer
}

fn draw_count(commands: &[Command]) -> usize {
    commands.iter().filter(|c| matches!(c, Command::Draw { .. })).count()
}

#[test]
fn layout_has_two_attachments_and_one_subpass() {
    let layout = RenderTargetLayout::build(Format::B8g8r8a8Srgb, Format::D32Sfloat).unwrap();
    assert_eq!(layout.attachments.len(), 2);
    assert_eq!(layout.subpasses.len(), 1);
    assert_eq!(layout.subpasses[0].color_attachments.len(), 1);
    assert_eq!(layout.subpasses[0].color_attachments[0].attachment, 0);
    assert!(layout.subpasses[0].depth_attachment.is_some());
    assert_eq!(layout.subpasses[0].depth_attachment.unwrap().attachment, 1);
    assert_eq!(layout.dependencies.len(), 2);
    assert_eq!(layout.attachments[0].format, Format::B8g8r8a8Srgb);
    assert_eq!(layout.attachments[0].load_op, LoadOp::Clear);
    assert_eq!(layout.attachments[0].store_op, StoreOp::Store);
    assert_eq!(layout.attachments[1].format, Format::D32Sfloat);
}

#[test]
fn layout_rejects_bad_format_pair() {
    let swapped = RenderTargetLayout::build(Format::D32Sfloat, Format::B8g8r8a8Srgb);
    assert_eq!(swapped.unwrap_err(), DeviceError::UnsupportedFormatPair);
    let both_color = RenderTargetLayout::build(Format::R8g8b8a8Unorm, Format::B8g8r8a8Srgb);
    assert!(both_color.is_err());
}

#[test]
fn one_frame_target_per_swapchain_image() {
    let views: Vec<u64> = vec![11, 22, 33];
    let targets = build_frame_targets(&views, 99, small_extent());
    assert_eq!(targets.len(), 3);
    for (i, target) in targets.iter().enumerate() {
        assert_eq!(
            *target,
            FrameTarget { color_view: views[i], depth_view: 99, extent: small_extent() }
        );
    }
}

#[test]
fn rebuild_replaces_targets_wholesale() {
    let mut renderer = make_renderer(Vec::new());
    assert_eq!(renderer.targets.len(), 2);
    let new_views: Vec<u64> = vec![301, 302, 303];
    let bigger = Extent2d { width: 1920, height: 1080 };
    renderer.rebuild_frame_targets(&new_views, 400, bigger).unwrap();
    assert_eq!(renderer.targets.len(), 3);
    assert_eq!(renderer.targets[2].color_view, 303);
    assert_eq!(renderer.targets[0].depth_view, 400);
    assert_eq!(renderer.extent, bigger);
    assert!(renderer.fence_signaled);
    let empty: Vec<u64> = Vec::new();
    assert_eq!(
        renderer.rebuild_frame_targets(&empty, 400, bigger).unwrap_err(),
        InitError::NoSwapchainImages
    );
}

#[test]
fn new_renderer_starts_with_signaled_fence_at_frame_zero() {
    let renderer = make_renderer(Vec::new());
    assert_eq!(renderer.framenumber, 0);
    assert!(renderer.fence_signaled);
    assert!(!renderer.fence_pending);
    assert_eq!(renderer.targets.len(), 2);
}

#[test]
fn new_rejects_empty_swapchain_and_zero_extent() {
    let mut description = two_image_swapchain();
    description.color_views = Vec::new();
    assert_eq!(new_error(description, queues(), Vec::new()), InitError::NoSwapchainImages);

    let mut description = two_image_swapchain();
    description.extent = Extent2d { width: 0, height: 900 };
    assert_eq!(new_error(description, queues(), Vec::new()), InitError::ZeroExtent);

    let mut description = two_image_swapchain();
    description.depth_format = Format::R8g8b8a8Srgb;
    assert_eq!(
        new_error(description, queues(), Vec::new()),
        InitError::LayoutRejected(DeviceError::UnsupportedFormatPair)
    );
}

#[test]
fn new_rejects_misaligned_geometry() {
    let source = MeshSource { name: "odd".to_string(), vertex_bytes: vec![0u8; 35] };
    assert_eq!(
        new_error(two_image_swapchain(), queues(), vec![source]),
        InitError::BadGeometry(AllocatorError::MisalignedVertexData)
    );

    let empty = MeshSource { name: "empty".to_string(), vertex_bytes: Vec::new() };
    assert_eq!(
        new_error(two_image_swapchain(), queues(), vec![empty]),
        InitError::BadGeometry(AllocatorError::ZeroSizeAllocation)
    );
}

#[test]
fn upload_round_trip_returns_source_bytes_exactly() {
    let bytes = one_vertex_bytes();
    let mut mesh = Mesh::from_vertex_bytes(bytes.clone()).unwrap();
    assert_eq!(mesh.vertex_count, 1);
    let request = upload_mesh(&mut mesh, 7).unwrap();
    assert_eq!(request.mesh, 7);
    assert_eq!(request.size, 36);
    assert_eq!(request.bytes, bytes);
    assert!(mesh.vertices.is_empty());
    assert!(mesh.vertex_buffer.is_some());
    assert_eq!(mesh.vertex_buffer.as_ref().unwrap().vertex_count, 1);
}

#[test]
fn empty_renderable_set_renders_zero_draws() {
    let mut renderer = make_renderer(Vec::new());
    let plan = renderer
        .render(true, AcquireOutcome::Acquired { index: 0, suboptimal: false })
        .unwrap();
    assert_eq!(draw_count(&plan.submit.commands), 0);
    assert_eq!(plan.submit.commands.len(), 3);
    assert!(matches!(plan.submit.commands[0], Command::BeginRenderPass { target: 0, .. }));
    assert!(matches!(plan.submit.commands[1], Command::BindPipeline));
    assert!(matches!(plan.submit.commands[2], Command::EndRenderPass));
    assert_eq!(renderer.framenumber, 1);
}

#[test]
fn one_draw_per_mesh_with_its_vertex_count() {
    let sources = vec![
        MeshSource { name: "tri".to_string(), vertex_bytes: vec![1u8; 108] },
        MeshSource { name: "quad".to_string(), vertex_bytes: vec![2u8; 216] },
    ];
    let mut renderer = make_renderer(sources);
    let plan = renderer
        .render(true, AcquireOutcome::Acquired { index: 1, suboptimal: false })
        .unwrap();
    assert_eq!(draw_count(&plan.submit.commands), 2);
    assert!(plan.submit.commands.contains(&Command::Draw {
        vertex_count: 3,
        instance_count: 1,
        first_vertex: 0,
        first_instance: 0,
    }));
    assert!(plan.submit.commands.contains(&Command::Draw {
        vertex_count: 6,
        instance_count: 1,
        first_vertex: 0,
        first_instance: 0,
    }));
    assert_eq!(plan.image_index, 1);
    assert_eq!(plan.present.image_index, 1);
}

#[test]
fn submission_waits_present_signals_render_and_fences_frame() {
    let mut renderer = make_renderer(Vec::new());
    let plan = renderer
        .render(true, AcquireOutcome::Acquired { index: 0, suboptimal: false })
        .unwrap();
    assert_eq!(plan.submit.wait_semaphores, vec![SemaphoreRole::Present]);
    assert_eq!(plan.submit.signal_semaphores, vec![SemaphoreRole::Render]);
    assert_eq!(plan.submit.fence, FenceRole::Frame);
    assert_eq!(plan.present.wait_semaphores, vec![SemaphoreRole::Render]);
    assert!(renderer.fence_pending);
    assert!(!renderer.fence_signaled);
}

#[test]
fn out_of_date_surface_is_a_distinguishable_error() {
    let mut renderer = make_renderer(Vec::new());
    let r = renderer.render(true, AcquireOutcome::OutOfDate);
    assert_eq!(r.unwrap_err(), RenderError::SurfaceOutOfDate);
    assert_ne!(RenderError::SurfaceOutOfDate, RenderError::AcquireFailed);
    assert_eq!(renderer.framenumber, 0);

    let r = renderer.render(true, AcquireOutcome::Failed);
    assert_eq!(r.unwrap_err(), RenderError::AcquireFailed);
}

#[test]
fn unknown_image_index_is_rejected() {
    let mut renderer = make_renderer(Vec::new());
    let r = renderer.render(true, AcquireOutcome::Acquired { index: 9, suboptimal: false });
    assert_eq!(r.unwrap_err(), RenderError::UnknownImageIndex);
}

#[test]
fn fence_timeout_stops_the_cycle_before_any_recording() {
    let mut renderer = make_renderer(Vec::new());
    let commands_before = renderer.command_manager.commands.clone();
    let state_before = renderer.command_manager.state;
    let r = renderer.render(false, AcquireOutcome::Acquired { index: 0, suboptimal: false });
    assert_eq!(r.unwrap_err(), RenderError::FenceTimeout);
    assert_eq!(renderer.command_manager.commands, commands_before);
    assert_eq!(renderer.command_manager.state, state_before);
    assert_eq!(renderer.framenumber, 0);
    assert!(renderer.fence_signaled);
}

#[test]
fn consecutive_renders_reuse_the_main_buffer() {
    let sources = vec![MeshSource { name: "tri".to_string(), vertex_bytes: vec![1u8; 36] }];
    let mut renderer = make_renderer(sources);

    let first = renderer
        .render(true, AcquireOutcome::Acquired { index: 0, suboptimal: false })
        .unwrap();
    assert_eq!(first.submit.buffer, CommandBufferRole::Main);
    assert!(renderer.fence_pending);

    // The second cycle begins only once the wait observed the fence that the
    // first submission signals; the recorder is then reset and refilled.
    let second = renderer
        .render(true, AcquireOutcome::Acquired { index: 1, suboptimal: false })
        .unwrap();
    assert_eq!(second.submit.buffer, CommandBufferRole::Main);
    assert_eq!(second.framenumber, 1);
    assert_eq!(draw_count(&second.submit.commands), 1);
    assert_eq!(renderer.framenumber, 2);
}

#[test]
fn recorder_protocol_rejects_closing_an_unopened_buffer() {
    let mut manager = CommandManager::new(queues());
    assert_eq!(manager.state, RecorderState::Ready);
    assert_eq!(manager.end_main_command_buffer().unwrap_err(), RecorderError::NotRecording);
    manager.begin_main_command_buffer();
    assert_eq!(manager.state, RecorderState::Recording);
    assert!(manager.end_main_command_buffer().is_ok());
    assert_eq!(manager.state, RecorderState::Ended);
}

#[test]
fn teardown_releases_children_before_parents() {
    let sources = vec![MeshSource { name: "tri".to_string(), vertex_bytes: vec![1u8; 36] }];
    let mut renderer = make_renderer(sources);
    let plan = renderer.teardown();
    assert_eq!(plan[0], DestroyOp::WaitFrameFence);
    let position = |op: &DestroyOp| plan.iter().position(|x| x == op).unwrap();
    let free_mesh = position(&DestroyOp::FreeMeshBuffer { mesh: 0 });
    let fence = position(&DestroyOp::DestroyFence { fence: FenceRole::Frame });
    let pipeline = position(&DestroyOp::DestroyPipeline);
    let framebuffer_last = position(&DestroyOp::DestroyFramebuffer { target: 1 });
    let render_pass = position(&DestroyOp::DestroyRenderPass);
    let main_pool = position(&DestroyOp::DestroyCommandPool { pool: CommandBufferRole::Main });
    assert!(free_mesh < fence);
    assert!(fence < pipeline);
    assert!(pipeline < framebuffer_last);
    assert!(framebuffer_last < render_pass);
    assert!(render_pass < main_pool);
}

#[test]
fn teardown_twice_destroys_nothing_twice() {
    let mut renderer = make_renderer(Vec::new());
    let first = renderer.teardown();
    assert!(!first.is_empty());
    for op in &first {
        assert_eq!(first.iter().filter(|x| *x == op).count(), 1);
    }
    let second = renderer.teardown();
    assert!(second.is_empty());
}

#[test]
fn shared_queue_family_destroys_one_pool_only() {
    let shared = QueueFamilies { main_queue_index: 0, transfer_only_queue_index: 0 };
    let (mut renderer, _uploads) =
        Renderer::new(two_image_swapchain(), shared, Vec::new()).unwrap();
    let plan = renderer.teardown();
    let pools: Vec<&DestroyOp> = plan
        .iter()
        .filter(|op| matches!(op, DestroyOp::DestroyCommandPool { .. }))
        .collect();
    assert_eq!(pools.len(), 1);
    assert_eq!(*pools[0], DestroyOp::DestroyCommandPool { pool: CommandBufferRole::Main });

    let (mut renderer, _uploads) =
        Renderer::new(two_image_swapchain(), queues(), Vec::new()).unwrap();
    let plan = renderer.teardown();
    let pools: Vec<&DestroyOp> = plan
        .iter()
        .filter(|op| matches!(op, DestroyOp::DestroyCommandPool { .. }))
        .collect();
    assert_eq!(pools.len(), 2);
}

#[test]
fn mesh_names_keep_source_order() {
    let sources = vec![
        MeshSource { name: "first".to_string(), vertex_bytes: vec![1u8; 36] },
        MeshSource { name: "second".to_string(), vertex_bytes: vec![2u8; 72] },
    ];
    let (renderer, uploads) = Renderer::new(two_image_swapchain(), queues(), sources).unwrap();
    assert_eq!(renderer.mesh_names, vec!["first".to_string(), "second".to_string()]);
    assert_eq!(uploads.len(), 2);
    assert_eq!(uploads[0].mesh, 0);
    assert_eq!(uploads[1].mesh, 1);
    assert_eq!(uploads[1].bytes, vec![2u8; 72]);
    assert_eq!(renderer.meshes[1].vertex_count, 2);
}
