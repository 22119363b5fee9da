//! The composition root: builds the ownership tree — device selection,
//! swapchain, allocator, depth target, pipeline, command stream, frame
//! synchronization — in creation order, drives a frame, and tears the tree
//! down in reverse order.

use vstd::prelude::*;

use crate::allocator::{AllocKind, AllocationRecord, GpuAllocator, Residency};
use crate::device::{
    select_device, spec_qualifies, spec_selected_index, spec_selection_details, DeviceReport,
    DeviceSelection,
};
use crate::errors::{AllocError, EngineError, FrameError, InitError};
use crate::frame::{AcquireOutcome, DrawSpec, FrameExecutor, FrameSync, spec_tick_ops};
use crate::mesh::{upload, Mesh, MeshBuffers, VERTEX_STRIDE};
use crate::pipeline::{build_pipeline, spec_stages_valid, DepthFormat, Pipeline, ShaderStage};
use crate::swapchain::{
    spec_extent, spec_image_count, Extent2d, SurfaceCapabilities, SwapchainState,
};
use crate::teardown::{spec_teardown_ops, swapchain_teardown_ops, TeardownOp};

verus! {

/// Bytes one depth pixel occupies in the 32-bit float depth format.
pub const DEPTH_BYTES_PER_PIXEL: usize = 4;

/// The driver handles the host created for the context, as plain values.
#[derive(Clone, Copy, PartialEq, Eq, Structural, Debug)]
pub struct DriverHandles {
    pub instance: u64,
    pub surface: u64,
    /// The diagnostics messenger, present only in validation runs.
    pub debug_messenger: Option<u64>,
    pub device: u64,
    pub graphics_queue: u64,
    pub swapchain: u64,
    pub depth_image: u64,
    pub depth_view: u64,
    pub pipeline: u64,
    pub pipeline_layout: u64,
    pub command_pool: u64,
    pub render_fence: u64,
    pub image_available_semaphore: u64,
    pub render_finished_semaphore: u64,
}

/// Packs an API version number the way the driver reads it: the variant in
/// the top three bits, then seven bits of major, ten of minor and twelve of
/// patch.
pub fn make_api_version(variant: u32, major: u32, minor: u32, patch: u32) -> (v: u32)
    requires
        variant < 8,
        major < 128,
        minor < 1024,
        patch < 4096,
    ensures
        v == variant * 0x2000_0000 + major * 0x40_0000 + minor * 0x1000 + patch,
{
    let v = (variant << 29u32) | (major << 22u32) | (minor << 12u32) | patch;
    proof {
        assert(v == variant * 0x2000_0000 + major * 0x40_0000 + minor * 0x1000 + patch)
            by (bit_vector)
            requires
                variant < 8,
                major < 128,
                minor < 1024,
                patch < 4096,
                v == (variant << 29u32) | (major << 22u32) | (minor << 12u32) | patch,
        ;
    }
    v
}

/// The depth buffer: one device-local image allocation sized to the
/// swapchain extent, with its image and view handles.
#[derive(Clone, Copy, PartialEq, Eq, Structural, Debug)]
pub struct DepthTarget {
    pub allocation: usize,
    pub image: u64,
    pub view: u64,
    pub extent: Extent2d,
    pub format: DepthFormat,
}

/// One uploaded mesh's buffers stay valid in the allocator.
pub open spec fn spec_mesh_buffers_live(allocator: GpuAllocator, m: MeshBuffers) -> bool {
    &&& m.vertex_allocation < allocator.records@.len()
    &&& allocator.records@[m.vertex_allocation as int].live
    &&& allocator.records@[m.vertex_allocation as int].kind == AllocKind::Buffer(
        crate::allocator::BufferUsage::Vertex)
    &&& m.index_allocation < allocator.records@.len()
    &&& allocator.records@[m.index_allocation as int].live
    &&& allocator.records@[m.index_allocation as int].kind == AllocKind::Buffer(
        crate::allocator::BufferUsage::Index)
}

/// Some enumerated device qualifies.
pub open spec fn spec_device_ok(reports: Seq<DeviceReport>) -> bool {
    exists|i: int| 0 <= i < reports.len() && spec_qualifies(reports[i])
}

/// The chain the driver handed back matches the negotiated shape: one view
/// per image and at least as many images as requested.
pub open spec fn spec_chain_ok(
    capabilities: SurfaceCapabilities,
    images: Seq<u64>,
    views: Seq<u64>,
) -> bool {
    images.len() == views.len() && images.len() >= spec_image_count(capabilities)
}

/// Bytes the depth image needs at the resolved extent.
pub open spec fn spec_depth_size(
    capabilities: SurfaceCapabilities,
    window_extent: Extent2d,
) -> int {
    spec_extent(capabilities, window_extent).width * spec_extent(
        capabilities,
        window_extent,
    ).height * DEPTH_BYTES_PER_PIXEL
}

/// The composition root: owns everything the engine created, in one tree.
pub struct RenderContext {
    pub selection: DeviceSelection,
    pub capabilities: SurfaceCapabilities,
    pub handles: DriverHandles,
    pub swapchain: SwapchainState,
    pub allocator: GpuAllocator,
    pub depth: DepthTarget,
    pub pipeline: Pipeline,
    /// One command buffer per swapchain image, from a single pool.
    pub command_buffer_count: u32,
    pub sync: FrameSync,
    pub meshes: Vec<MeshBuffers>,
}

impl RenderContext {
    /// Context well-formedness: the chain is well formed, the allocator's
    /// books balance, the depth target and pipeline match the chain's
    /// extent, the command stream holds one buffer per image, and every
    /// uploaded mesh's buffers are live allocations of the right usage.
    pub open spec fn wf(&self) -> bool {
        &&& self.swapchain.wf()
        &&& self.allocator.wf()
        &&& self.command_buffer_count == self.swapchain.spec_images().len()
        &&& self.depth.extent == self.swapchain.image_extent
        &&& self.pipeline.viewport_extent == self.swapchain.image_extent
        &&& self.depth.allocation < self.allocator.records@.len()
        &&& self.allocator.records@[self.depth.allocation as int].live
        &&& self.allocator.records@[self.depth.allocation as int].kind is Image
        &&& self.allocator.records@[self.depth.allocation as int].residency is DeviceLocal
        &&& forall|i: int|
            0 <= i < self.meshes@.len() ==> spec_mesh_buffers_live(
                self.allocator,
                #[trigger] self.meshes@[i],
            )
    }

    /// Builds the context in creation order: select the device, assemble
    /// the swapchain, open the allocator and allocate the device-local
    /// depth image at the chain's extent, compile the pipeline against the
    /// negotiated color format and the depth format, and lay out one
    /// command buffer per image.
    ///
    /// Fails with the first failure in that order: no compatible device; a
    /// chain that does not match the negotiated shape; a depth image that
    /// exceeds the memory budget; a stage list without exactly one vertex
    /// and one fragment stage. Each failure is fatal at startup.
    pub fn new(
        reports: &Vec<DeviceReport>,
        capabilities: SurfaceCapabilities,
        window_extent: Extent2d,
        stages: &Vec<ShaderStage>,
        images: &Vec<u64>,
        image_views: &Vec<u64>,
        memory_budget: u64,
        handles: DriverHandles,
    ) -> (r: Result<RenderContext, EngineError>)
        requires
            capabilities.min_image_count < u32::MAX,
            images@.len() <= u32::MAX,
            spec_depth_size(capabilities, window_extent) <= usize::MAX,
        ensures
            match r {
                Ok(ctx) => {
                    &&& spec_device_ok(reports@)
                    &&& spec_chain_ok(capabilities, images@, image_views@)
                    &&& spec_depth_size(capabilities, window_extent) <= memory_budget
                    &&& spec_stages_valid(stages@)
                    &&& ctx.wf()
                    &&& spec_selected_index(reports@, ctx.selection.device_index as int)
                    &&& spec_selection_details(reports@, ctx.selection)
                    &&& ctx.capabilities == capabilities
                    &&& ctx.handles == handles
                    &&& ctx.swapchain.spec_images() == images@
                    &&& ctx.swapchain.spec_views() == image_views@
                    &&& ctx.swapchain.swapchain == handles.swapchain
                    &&& ctx.swapchain.image_extent == spec_extent(capabilities, window_extent)
                    &&& ctx.swapchain.requested_count == spec_image_count(capabilities)
                    &&& ctx.swapchain.format == ctx.selection.surface_format
                    &&& ctx.depth.allocation == 0
                    &&& ctx.depth.image == handles.depth_image
                    &&& ctx.depth.view == handles.depth_view
                    &&& ctx.depth.format is D32Float
                    &&& ctx.allocator.budget == memory_budget
                    &&& ctx.allocator.records@.len() == 1
                    &&& ctx.allocator.records@[0].size == spec_depth_size(
                        capabilities,
                        window_extent,
                    )
                    &&& ctx.pipeline.color_format == ctx.selection.surface_format.format
                    &&& ctx.pipeline.depth_format is D32Float
                    &&& ctx.command_buffer_count == images@.len()
                    &&& ctx.sync == (FrameSync {
                        render_fence: handles.render_fence,
                        image_available_semaphore: handles.image_available_semaphore,
                        render_finished_semaphore: handles.render_finished_semaphore,
                    })
                    &&& ctx.meshes@.len() == 0
                },
                Err(e) => match e {
                    EngineError::Initialization(InitError::NoCompatibleDevice) => !spec_device_ok(
                        reports@),
                    EngineError::Initialization(InitError::SwapchainCreation) => spec_device_ok(
                        reports@,
                    ) && !spec_chain_ok(capabilities, images@, image_views@),
                    EngineError::Resource(AllocError::OutOfMemory) => spec_device_ok(reports@)
                        && spec_chain_ok(capabilities, images@, image_views@) && spec_depth_size(
                        capabilities,
                        window_extent,
                    ) > memory_budget,
                    EngineError::Initialization(InitError::PipelineCreation) => spec_device_ok(
                        reports@,
                    ) && spec_chain_ok(capabilities, images@, image_views@) && spec_depth_size(
                        capabilities,
                        window_extent,
                    ) <= memory_budget && !spec_stages_valid(stages@),
                    _ => false,
                },
            },
    {
        let selection = match select_device(reports) {
            Ok(sel) => sel,
            Err(e) => {
                return Err(EngineError::Initialization(e));
            },
        };
        let swapchain = match SwapchainState::new(
            capabilities,
            window_extent,
            selection.surface_format,
            handles.swapchain,
            images,
            image_views,
        ) {
            Ok(s) => s,
            Err(e) => {
                return Err(EngineError::Initialization(e));
            },
        };
        let mut allocator = GpuAllocator::new(memory_budget);
        let extent = swapchain.image_extent;
        let depth_size = (extent.width as usize) * (extent.height as usize)
            * DEPTH_BYTES_PER_PIXEL;
        let depth_allocation = match allocator.allocate(
            depth_size,
            AllocKind::Image,
            Residency::DeviceLocal,
        ) {
            Ok(id) => id,
            Err(e) => {
                return Err(EngineError::Resource(e));
            },
        };
        let depth = DepthTarget {
            allocation: depth_allocation,
            image: handles.depth_image,
            view: handles.depth_view,
            extent,
            format: DepthFormat::D32Float,
        };
        let pipeline = match build_pipeline(
            stages,
            selection.surface_format.format,
            DepthFormat::D32Float,
            extent,
        ) {
            Ok(p) => p,
            Err(e) => {
                return Err(EngineError::Initialization(e));
            },
        };
        let command_buffer_count = images.len() as u32;
        let sync = FrameSync::new(
            handles.render_fence,
            handles.image_available_semaphore,
            handles.render_finished_semaphore,
        );
        Ok(RenderContext {
            selection,
            capabilities,
            handles,
            swapchain,
            allocator,
            depth,
            pipeline,
            command_buffer_count,
            sync,
            meshes: Vec::new(),
        })
    }

    /// Uploads one parsed mesh into GPU-resident buffers and adds it to the
    /// draw list. Fails exactly when the two buffers exceed the memory left
    /// in the budget, leaving the draw list and the live allocations as
    /// they were.
    pub fn upload_asset(&mut self, mesh: &Mesh) -> (r: Result<MeshBuffers, EngineError>)
        requires
            old(self).wf(),
            mesh.vertices@.len() * VERTEX_STRIDE <= usize::MAX,
            mesh.indices@.len() * 4 <= usize::MAX,
            mesh.indices@.len() <= u32::MAX,
        ensures
            final(self).wf(),
            final(self).selection == old(self).selection,
            final(self).capabilities == old(self).capabilities,
            final(self).handles == old(self).handles,
            final(self).swapchain == old(self).swapchain,
            final(self).depth == old(self).depth,
            final(self).pipeline == old(self).pipeline,
            final(self).command_buffer_count == old(self).command_buffer_count,
            final(self).sync == old(self).sync,
            final(self).allocator.budget == old(self).allocator.budget,
            match r {
                Ok(mb) => {
                    &&& final(self).meshes@ == old(self).meshes@.push(mb)
                    &&& mb.index_count == mesh.indices@.len()
                    &&& final(self).allocator.records@[mb.vertex_allocation as int].size
                        == mesh.vertices@.len() * VERTEX_STRIDE
                    &&& final(self).allocator.records@[mb.index_allocation as int].size
                        == mesh.indices@.len() * 4
                    &&& mesh.vertices@.len() * VERTEX_STRIDE + mesh.indices@.len() * 4
                        <= old(self).allocator.budget - old(self).allocator.used
                },
                Err(e) => {
                    &&& e == EngineError::Resource(AllocError::OutOfMemory)
                    &&& mesh.vertices@.len() * VERTEX_STRIDE + mesh.indices@.len() * 4 > old(
                        self,
                    ).allocator.budget - old(self).allocator.used
                    &&& final(self).meshes@ == old(self).meshes@
                    &&& final(self).allocator.used == old(self).allocator.used
                },
            },
    {
        let buffers = match upload(&mut self.allocator, mesh) {
            Ok(mb) => mb,
            Err(e) => {
                proof {
                    assert forall|i: int|
                        0 <= i < self.meshes@.len() implies spec_mesh_buffers_live(
                        self.allocator, #[trigger] self.meshes@[i]) by {
                        let m = self.meshes@[i];
                        assert(spec_mesh_buffers_live(old(self).allocator, m));
                        assert(self.allocator.records@[m.vertex_allocation as int] == old(
                            self).allocator.records@[m.vertex_allocation as int]);
                        assert(self.allocator.records@[m.index_allocation as int] == old(
                            self).allocator.records@[m.index_allocation as int]);
                    }
                    assert(self.allocator.records@[self.depth.allocation as int] == old(
                        self).allocator.records@[self.depth.allocation as int]);
                }
                return Err(EngineError::Resource(e));
            },
        };
        self.meshes.push(buffers);
        proof {
            assert forall|i: int|
                0 <= i < self.meshes@.len() implies spec_mesh_buffers_live(
                self.allocator, #[trigger] self.meshes@[i]) by {
                let m = self.meshes@[i];
                if i < old(self).meshes@.len() {
                    assert(spec_mesh_buffers_live(old(self).allocator, m));
                    assert(self.allocator.records@[m.vertex_allocation as int] == old(
                        self).allocator.records@[m.vertex_allocation as int]);
                    assert(self.allocator.records@[m.index_allocation as int] == old(
                        self).allocator.records@[m.index_allocation as int]);
                }
            }
            assert(self.allocator.records@[self.depth.allocation as int] == old(
                self).allocator.records@[self.depth.allocation as int]);
        }
        Ok(buffers)
    }

    /// Draws one frame: every uploaded mesh, bound and drawn over its full
    /// index range, through one tick of the frame machine. The driver's
    /// answers arrive as arguments; any failure is fatal for the frame.
    pub fn draw(
        &self,
        executor: &mut FrameExecutor,
        acquire_outcome: AcquireOutcome,
        submit_ok: bool,
        present_ok: bool,
    ) -> (r: Result<(), FrameError>)
        requires
            self.wf(),
            old(executor).phase is Idle,
            old(executor).ticks_completed < u64::MAX,
        ensures
            match r {
                Ok(u) => {
                    &&& acquire_outcome matches AcquireOutcome::Ready { image_index }
                        && (image_index as int) < self.swapchain.spec_images().len()
                        && final(executor).trace@ == old(executor).trace@ + spec_tick_ops(
                        image_index,
                        self.swapchain.spec_images()[image_index as int],
                        self.swapchain.spec_views()[image_index as int],
                        self.depth.image,
                        self.depth.view,
                        self.swapchain.image_extent,
                        self.handles.pipeline,
                        spec_draws_of(self.meshes@),
                    )
                    &&& submit_ok
                    &&& present_ok
                    &&& final(executor).phase is Idle
                    &&& final(executor).ticks_completed == old(executor).ticks_completed + 1
                },
                Err(e) => {
                    &&& final(executor).phase is Failed
                    &&& final(executor).ticks_completed == old(executor).ticks_completed
                },
            },
    {
        let draws = self.draw_list();
        executor.tick(
            &self.swapchain,
            self.depth.image,
            self.depth.view,
            self.handles.pipeline,
            &draws,
            acquire_outcome,
            submit_ok,
            present_ok,
        )
    }

    /// The draw list: one full-range draw per uploaded mesh, in upload
    /// order.
    pub fn draw_list(&self) -> (r: Vec<DrawSpec>)
        ensures
            r@ == spec_draws_of(self.meshes@),
    {
        let mut draws: Vec<DrawSpec> = Vec::new();
        let mut i: usize = 0;
        while i < self.meshes.len()
            invariant
                i <= self.meshes@.len(),
                draws@ == spec_draws_of(self.meshes@.subrange(0, i as int)),
            decreases self.meshes@.len() - i,
        {
            let d = DrawSpec::of_mesh(&self.meshes[i]);
            draws.push(d);
            proof {
                let pre = self.meshes@.subrange(0, i as int);
                let post = self.meshes@.subrange(0, i as int + 1);
                assert(post.drop_last() =~= pre);
                assert(post.last() == self.meshes@[i as int]);
            }
            i = i + 1;
        }
        proof {
            assert(self.meshes@.subrange(0, self.meshes@.len() as int) =~= self.meshes@);
        }
        draws
    }

    /// Tears the whole tree down in reverse creation order, releasing every
    /// live allocation exactly once, and returns the destruction sequence
    /// that the host replays against the driver. Consumes the context: it
    /// is destroyed once.
    pub fn teardown(self) -> (r: Vec<TeardownOp>)
        requires
            self.wf(),
        ensures
            r@ == spec_teardown_ops(
                self.handles.pipeline,
                self.handles.pipeline_layout,
                self.handles.command_pool,
                self.handles.render_fence,
                self.handles.image_available_semaphore,
                self.handles.render_finished_semaphore,
                self.depth.view,
                spec_live_ids(self.allocator.records@),
                self.swapchain.spec_views(),
                self.swapchain.swapchain,
                self.handles.surface,
                self.handles.debug_messenger,
            ),
    {
        let RenderContext { handles, swapchain, mut allocator, depth, .. } = self;
        let ghost initial_records = allocator.records@;
        let mut ops: Vec<TeardownOp> = Vec::new();
        ops.push(TeardownOp::DeviceWaitIdle);
        ops.push(TeardownOp::DestroyPipeline { pipeline: handles.pipeline });
        ops.push(TeardownOp::DestroyPipelineLayout { layout: handles.pipeline_layout });
        ops.push(TeardownOp::DestroyCommandPool { pool: handles.command_pool });
        ops.push(TeardownOp::DestroyFence { fence: handles.render_fence });
        ops.push(TeardownOp::DestroySemaphore {
            semaphore: handles.image_available_semaphore,
        });
        ops.push(TeardownOp::DestroySemaphore {
            semaphore: handles.render_finished_semaphore,
        });
        ops.push(TeardownOp::DestroyImageView { view: depth.view });
        let ghost head = ops@;
        let record_count = allocator.allocation_count();
        let mut i: usize = 0;
        while i < record_count
            invariant
                i <= record_count,
                record_count == allocator.records@.len(),
                allocator.records@.len() == initial_records.len(),
                allocator.wf(),
                forall|j: int|
                    i <= j < initial_records.len()
                        ==> allocator.records@[j] == initial_records[j],
                forall|j: int|
                    0 <= j < i ==> !(#[trigger] allocator.records@[j]).live,
                ops@ == head + crate::teardown::spec_free_ops(
                    spec_live_ids(initial_records.subrange(0, i as int))),
            decreases record_count - i,
        {
            proof {
                let pre = initial_records.subrange(0, i as int);
                let post = initial_records.subrange(0, i as int + 1);
                assert(post.drop_last() =~= pre);
                assert(post.last() == initial_records[i as int]);
            }
            if allocator.is_live(i) {
                allocator.release(i);
                ops.push(TeardownOp::FreeAllocation { allocation: i });
                proof {
                    let pre_ids = spec_live_ids(initial_records.subrange(0, i as int));
                    let post_ids = spec_live_ids(initial_records.subrange(0, i as int + 1));
                    assert(post_ids == pre_ids.push(i as usize));
                    assert(pre_ids.push(i as usize).drop_last() =~= pre_ids);
                    assert(pre_ids.push(i as usize).last() == i as usize);
                    assert(ops@ =~= head + crate::teardown::spec_free_ops(post_ids));
                }
            }
            i = i + 1;
        }
        proof {
            assert(initial_records.subrange(0, initial_records.len() as int)
                =~= initial_records);
        }
        ops.push(TeardownOp::DestroyAllocator);
        let mut chain_ops = swapchain_teardown_ops(&swapchain);
        ops.append(&mut chain_ops);
        ops.push(TeardownOp::DestroyDevice);
        ops.push(TeardownOp::DestroySurface { surface: handles.surface });
        if let Some(messenger) = handles.debug_messenger {
            ops.push(TeardownOp::DestroyDebugMessenger { messenger });
        }
        ops.push(TeardownOp::DestroyInstance);
        proof {
            assert(ops@ =~= spec_teardown_ops(
                handles.pipeline,
                handles.pipeline_layout,
                handles.command_pool,
                handles.render_fence,
                handles.image_available_semaphore,
                handles.render_finished_semaphore,
                depth.view,
                spec_live_ids(initial_records),
                swapchain.spec_views(),
                swapchain.swapchain,
                handles.surface,
                handles.debug_messenger,
            ));
        }
        ops
    }
}

/// One full-range draw per uploaded mesh, in upload order.
pub open spec fn spec_draws_of(meshes: Seq<MeshBuffers>) -> Seq<DrawSpec>
    decreases meshes.len(),
{
    if meshes.len() == 0 {
        Seq::empty()
    } else {
        spec_draws_of(meshes.drop_last()).push(spec_draw_of(meshes.last()))
    }
}

/// The full-range draw of one uploaded mesh.
pub open spec fn spec_draw_of(m: MeshBuffers) -> DrawSpec {
    DrawSpec {
        vertex_allocation: m.vertex_allocation,
        vertex_offset: m.vertex_offset,
        index_allocation: m.index_allocation,
        index_offset: m.index_offset,
        index_width: m.index_width,
        index_count: m.index_count,
    }
}

/// The identities of the live allocations, in identity order.
pub open spec fn spec_live_ids(records: Seq<AllocationRecord>) -> Seq<usize>
    decreases records.len(),
{
    if records.len() == 0 {
        Seq::empty()
    } else if records.last().live {
        spec_live_ids(records.drop_last()).push((records.len() - 1) as usize)
    } else {
        spec_live_ids(records.drop_last())
    }
}

} // verus!
