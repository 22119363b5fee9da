use render_core::allocator::AllocKind;
use render_core::context::{make_api_version, DriverHandles, RenderContext};
use render_core::device::{
    ColorFormat, ColorSpace, DeviceClass, DeviceReport, PresentMode, QueueFamilyReport,
    SurfaceFormat,
};
use render_core::diag::{level_for_severity, DiagnosticSink, LogLevel, Severity};
use render_core::errors::{AllocError, EngineError, InitError};
use render_core::frame::{AcquireOutcome, FrameExecutor, FrameOp};
use render_core::mesh::{Mesh, Vertex};
use render_core::pipeline::{DepthFormat, ShaderStage, ShaderStageKind};
use render_core::swapchain::{Extent2d, SurfaceCapabilities};
use render_core::teardown::TeardownOp;

fn good_reports() -> Vec<DeviceReport> {
    vec![
        DeviceReport {
            class: DeviceClass::Integrated,
            queue_families: vec![QueueFamilyReport {
                supports_graphics: true,
                supports_present: true,
            }],
            formats: vec![SurfaceFormat {
                format: ColorFormat::B8g8r8a8Srgb,
                color_space: ColorSpace::SrgbNonlinear,
            }],
            present_modes: vec![PresentMode::Fifo, PresentMode::Mailbox],
            supports_swapchain_extension: true,
        },
    ]
}

fn good_caps() -> SurfaceCapabilities {
    SurfaceCapabilities {
        min_image_count: 2,
        max_image_count: 4,
        current_extent: Extent2d { width: 640, height: 480 },
    }
}

fn good_stages() -> Vec<ShaderStage> {
    vec![
        ShaderStage { module: 501, kind: ShaderStageKind::Vertex },
        ShaderStage { module: 502, kind: ShaderStageKind::Fragment },
    ]
}

fn handles() -> DriverHandles {
    DriverHandles {
        instance: 1,
        surface: 2,
        debug_messenger: Some(3),
        device: 4,
        graphics_queue: 5,
        swapchain: 6,
        depth_image: 7,
        depth_view: 8,
        pipeline: 9,
        pipeline_layout: 10,
        command_pool: 11,
        render_fence: 12,
        image_available_semaphore: 13,
        render_finished_semaphore: 14,
    }
}

fn window() -> Extent2d {
    Extent2d { width: 800, height: 600 }
}

fn build_context() -> RenderContext {
    RenderContext::new(
        &good_reports(),
        good_caps(),
        window(),
        &good_stages(),
        &vec![101, 102, 103],
        &vec![201, 202, 203],
        64 << 20,
        handles(),
    )
    .unwrap()
}

fn triangle_mesh() -> Mesh {
    let v = |b: u32| Vertex { px: b, py: b + 1, pz: b + 2, cx: 0, cy: 0, cz: 0 };
    Mesh::new(vec![v(1), v(10), v(20)], vec![0, 1, 2])
}

#[test]
fn context_initializes_in_creation_order() {
    let ctx = build_context();
    assert_eq!(ctx.selection.device_index, 0);
    assert_eq!(ctx.selection.present_mode, PresentMode::Mailbox);
    // The surface reports a fixed extent; the window size is ignored.
    assert_eq!(ctx.swapchain.image_extent, Extent2d { width: 640, height: 480 });
    assert_eq!(ctx.swapchain.requested_count, 3);
    assert_eq!(ctx.command_buffer_count, 3);
    assert_eq!(ctx.depth.extent, ctx.swapchain.image_extent);
    assert_eq!(ctx.depth.format, DepthFormat::D32Float);
    // Depth image: 640 * 480 pixels at four bytes each.
    assert_eq!(ctx.allocator.records[ctx.depth.allocation].size, 640 * 480 * 4);
    assert_eq!(ctx.allocator.records[ctx.depth.allocation].kind, AllocKind::Image);
    assert_eq!(ctx.pipeline.color_format, ColorFormat::B8g8r8a8Srgb);
    assert_eq!(ctx.pipeline.viewport_extent, ctx.swapchain.image_extent);
    assert!(ctx.meshes.is_empty());
}

#[test]
fn context_fails_without_a_compatible_device() {
    let mut reports = good_reports();
    reports[0].supports_swapchain_extension = false;
    let r = RenderContext::new(
        &reports,
        good_caps(),
        window(),
        &good_stages(),
        &vec![101, 102, 103],
        &vec![201, 202, 203],
        64 << 20,
        handles(),
    );
    assert_eq!(
        r.err().unwrap(),
        EngineError::Initialization(InitError::NoCompatibleDevice)
    );
}

#[test]
fn context_fails_on_a_mismatched_chain() {
    let r = RenderContext::new(
        &good_reports(),
        good_caps(),
        window(),
        &good_stages(),
        &vec![101, 102],
        &vec![201, 202, 203],
        64 << 20,
        handles(),
    );
    assert_eq!(
        r.err().unwrap(),
        EngineError::Initialization(InitError::SwapchainCreation)
    );
}

#[test]
fn context_fails_when_the_depth_image_exceeds_the_budget() {
    let r = RenderContext::new(
        &good_reports(),
        good_caps(),
        window(),
        &good_stages(),
        &vec![101, 102, 103],
        &vec![201, 202, 203],
        1024,
        handles(),
    );
    assert_eq!(r.err().unwrap(), EngineError::Resource(AllocError::OutOfMemory));
}

#[test]
fn context_fails_on_a_bad_stage_list() {
    let r = RenderContext::new(
        &good_reports(),
        good_caps(),
        window(),
        &vec![ShaderStage { module: 501, kind: ShaderStageKind::Vertex }],
        &vec![101, 102, 103],
        &vec![201, 202, 203],
        64 << 20,
        handles(),
    );
    assert_eq!(
        r.err().unwrap(),
        EngineError::Initialization(InitError::PipelineCreation)
    );
}

#[test]
fn uploaded_meshes_are_drawn_each_tick() {
    let mut ctx = build_context();
    let mb = ctx.upload_asset(&triangle_mesh()).unwrap();
    assert_eq!(ctx.allocator.records[mb.vertex_allocation].size, 3 * 24);
    assert_eq!(ctx.allocator.records[mb.index_allocation].size, 3 * 4);
    let mut exec = FrameExecutor::new();
    ctx.draw(&mut exec, AcquireOutcome::Ready { image_index: 0 }, true, true)
        .unwrap();
    let draws: Vec<&FrameOp> = exec
        .trace
        .iter()
        .filter(|op| matches!(op, FrameOp::DrawIndexed { .. }))
        .collect();
    assert_eq!(draws.len(), 1);
    assert_eq!(
        *draws[0],
        FrameOp::DrawIndexed { index_count: 3, instance_count: 1, first_index: 0 }
    );
    let binds: Vec<&FrameOp> = exec
        .trace
        .iter()
        .filter(|op| matches!(op, FrameOp::BindVertexBuffers { .. }))
        .collect();
    assert_eq!(
        *binds[0],
        FrameOp::BindVertexBuffers { allocation: mb.vertex_allocation, offset: 0 }
    );
}

#[test]
fn teardown_waits_idle_first_and_destroys_views_before_the_chain() {
    let mut ctx = build_context();
    ctx.upload_asset(&triangle_mesh()).unwrap();
    let ops = ctx.teardown();
    assert!(matches!(ops[0], TeardownOp::DeviceWaitIdle));
    assert_eq!(
        ops.iter().filter(|op| matches!(op, TeardownOp::DeviceWaitIdle)).count(),
        1
    );
    let chain_pos = ops
        .iter()
        .position(|op| matches!(op, TeardownOp::DestroySwapchain { .. }))
        .unwrap();
    for (k, op) in ops.iter().enumerate() {
        if matches!(op, TeardownOp::DestroyImageView { .. }) {
            assert!(k < chain_pos);
        }
    }
    // Depth image, vertex buffer, index buffer: three releases, one each.
    let frees: Vec<&TeardownOp> = ops
        .iter()
        .filter(|op| matches!(op, TeardownOp::FreeAllocation { .. }))
        .collect();
    assert_eq!(frees.len(), 3);
    let device_pos = ops.iter().position(|op| matches!(op, TeardownOp::DestroyDevice)).unwrap();
    let surface_pos = ops
        .iter()
        .position(|op| matches!(op, TeardownOp::DestroySurface { .. }))
        .unwrap();
    assert!(chain_pos < device_pos);
    assert!(device_pos < surface_pos);
    assert!(matches!(ops.last().unwrap(), TeardownOp::DestroyInstance));
    assert!(matches!(
        ops[ops.len() - 2],
        TeardownOp::DestroyDebugMessenger { messenger: 3 }
    ));
}

#[test]
fn api_versions_pack_into_their_bit_fields() {
    assert_eq!(make_api_version(0, 1, 3, 0), 0x0040_3000);
    assert_eq!(make_api_version(0, 1, 0, 0), 0x0040_0000);
    assert_eq!(make_api_version(0, 0, 1, 0), 0x0000_1000);
}

#[test]
fn diagnostics_map_severities_and_the_noop_sink_records_nothing() {
    assert_eq!(level_for_severity(Severity::Error), LogLevel::Error);
    assert_eq!(level_for_severity(Severity::Warning), LogLevel::Warn);
    assert_eq!(level_for_severity(Severity::Info), LogLevel::Info);
    assert_eq!(level_for_severity(Severity::Verbose), LogLevel::Warn);

    let mut recording = DiagnosticSink::new(true);
    recording.record(Severity::Error);
    recording.record(Severity::Verbose);
    assert_eq!(recording.recorded_count(), 2);
    assert_eq!(recording.entries, vec![LogLevel::Error, LogLevel::Warn]);

    let mut quiet = DiagnosticSink::new(false);
    quiet.record(Severity::Error);
    quiet.record(Severity::Warning);
    assert_eq!(quiet.recorded_count(), 0);
}

#[test]
fn errors_describe_themselves() {
    assert_eq!(InitError::NoCompatibleDevice.describe(), "no compatible device");
    assert!(!InitError::SwapchainCreation.describe().is_empty());
    assert!(!render_core::errors::FrameError::SubmitFailed.describe().is_empty());
}
