//! The per-frame state machine: wait on the render-complete fence, acquire a
//! presentable image, record the draw commands, submit, present. One frame is
//! in flight at a time; the trace of frame operations is the observable
//! timeline the synchronization laws speak about.

use vstd::prelude::*;

use crate::errors::FrameError;
use crate::mesh::MeshBuffers;
use crate::swapchain::{Extent2d, SwapchainState};

verus! {

/// The synchronization primitives of the single frame in flight: one
/// CPU-GPU fence and two GPU-GPU semaphores, created once and reused every
/// tick, never reallocated.
#[derive(Clone, Copy, PartialEq, Eq, Structural, Debug)]
pub struct FrameSync {
    /// Fence signaled when the whole submitted batch retires on the GPU;
    /// created signaled so the first tick's wait passes at once.
    pub render_fence: u64,
    /// Semaphore signaled when the acquired image is actually available.
    pub image_available_semaphore: u64,
    /// Semaphore signaled when rendering finishes, gating presentation.
    pub render_finished_semaphore: u64,
}

impl FrameSync {
    /// Bundles the driver handles of the fence and the two semaphores.
    pub fn new(render_fence: u64, image_available_semaphore: u64, render_finished_semaphore: u64)
        -> (s: FrameSync)
        ensures
            s == (FrameSync { render_fence, image_available_semaphore, render_finished_semaphore }),
    {
        FrameSync { render_fence, image_available_semaphore, render_finished_semaphore }
    }
}

/// One bind-and-draw of an uploaded mesh inside a tick.
#[derive(Clone, Copy, PartialEq, Eq, Structural, Debug)]
pub struct DrawSpec {
    pub vertex_allocation: usize,
    pub vertex_offset: u64,
    pub index_allocation: usize,
    pub index_offset: u64,
    pub index_width: u32,
    pub index_count: u32,
}

impl DrawSpec {
    /// The draw that covers an uploaded mesh completely.
    pub fn of_mesh(buffers: &MeshBuffers) -> (d: DrawSpec)
        ensures
            d == (DrawSpec {
                vertex_allocation: buffers.vertex_allocation,
                vertex_offset: buffers.vertex_offset,
                index_allocation: buffers.index_allocation,
                index_offset: buffers.index_offset,
                index_width: buffers.index_width,
                index_count: buffers.index_count,
            }),
    {
        DrawSpec {
            vertex_allocation: buffers.vertex_allocation,
            vertex_offset: buffers.vertex_offset,
            index_allocation: buffers.index_allocation,
            index_offset: buffers.index_offset,
            index_width: buffers.index_width,
            index_count: buffers.index_count,
        }
    }
}

/// One operation on the frame timeline, in the order the engine issues them.
#[derive(Clone, Copy, PartialEq, Eq, Structural, Debug)]
pub enum FrameOp {
    /// Block until the render-complete fence of the previous frame signals.
    WaitRenderFence,
    /// Reset the render-complete fence to unsignaled.
    ResetRenderFence,
    /// Reset the command pool, invalidating earlier recordings.
    ResetCommandPool,
    /// Ask the presentation engine for the next image.
    AcquireImage { image_index: u32 },
    /// Begin a one-time-submit command buffer.
    BeginCommands,
    /// Transition the acquired color image into the render-target layout.
    BarrierColorToRenderTarget { image: u64 },
    /// Transition the depth image into the depth-target layout.
    BarrierDepthToDepthTarget { image: u64 },
    /// Begin the dynamic render pass over the color and depth targets.
    BeginRendering { extent: Extent2d, color_view: u64, depth_view: u64 },
    /// Bind the one graphics pipeline.
    BindPipeline { pipeline: u64 },
    /// Bind a mesh's vertex buffer at its offset.
    BindVertexBuffers { allocation: usize, offset: u64 },
    /// Bind a mesh's index buffer at its offset.
    BindIndexBuffer { allocation: usize, offset: u64, index_width: u32 },
    /// Draw the mesh's full index range once.
    DrawIndexed { index_count: u32, instance_count: u32, first_index: u32 },
    /// End the render pass.
    EndRendering,
    /// Transition the color image into the presentable layout.
    BarrierColorToPresent { image: u64 },
    /// End the command buffer.
    EndCommands,
    /// Enqueue the batch: waits on image-available, signals render-finished
    /// and the render-complete fence.
    SubmitQueue,
    /// Request presentation of the image, waiting on render-finished.
    PresentImage { image_index: u32 },
}

/// The states of the per-frame machine; `Failed` is terminal, since a frame
/// error is fatal for this core.
#[derive(Clone, Copy, PartialEq, Eq, Structural, Debug)]
pub enum FramePhase {
    Idle,
    Acquiring,
    Recording,
    Submitted,
    Presenting,
    Failed,
}

/// What the presentation engine answered to an acquire request.
#[derive(Clone, Copy, PartialEq, Eq, Structural, Debug)]
pub enum AcquireOutcome {
    /// The next image is (or will be) ready at this index.
    Ready { image_index: u32 },
    /// The chain no longer matches the surface; recreation is a known gap.
    OutOfDate,
    /// The driver failed the request outright.
    Failure,
}

/// The binds and the one full-range indexed draw of a single mesh.
pub open spec fn spec_draw_ops_one(d: DrawSpec) -> Seq<FrameOp> {
    seq![
        FrameOp::BindVertexBuffers { allocation: d.vertex_allocation, offset: d.vertex_offset },
        FrameOp::BindIndexBuffer {
            allocation: d.index_allocation,
            offset: d.index_offset,
            index_width: d.index_width,
        },
        FrameOp::DrawIndexed { index_count: d.index_count, instance_count: 1, first_index: 0 },
    ]
}

/// The draw section of a recording: every mesh bound and drawn, in order.
pub open spec fn spec_draw_ops(draws: Seq<DrawSpec>) -> Seq<FrameOp>
    decreases draws.len(),
{
    if draws.len() == 0 {
        Seq::empty()
    } else {
        spec_draw_ops(draws.drop_last()) + spec_draw_ops_one(draws.last())
    }
}

/// The full command recording of one tick: layout barriers in, render pass
/// over all meshes, layout barrier out.
pub open spec fn spec_record_ops(
    image: u64,
    view: u64,
    depth_image: u64,
    depth_view: u64,
    extent: Extent2d,
    pipeline: u64,
    draws: Seq<DrawSpec>,
) -> Seq<FrameOp> {
    seq![
        FrameOp::BeginCommands,
        FrameOp::BarrierColorToRenderTarget { image },
        FrameOp::BarrierDepthToDepthTarget { image: depth_image },
        FrameOp::BeginRendering { extent, color_view: view, depth_view },
        FrameOp::BindPipeline { pipeline },
    ] + spec_draw_ops(draws) + seq![
        FrameOp::EndRendering,
        FrameOp::BarrierColorToPresent { image },
        FrameOp::EndCommands,
    ]
}

/// Every operation of one successful tick, in issue order.
pub open spec fn spec_tick_ops(
    image_index: u32,
    image: u64,
    view: u64,
    depth_image: u64,
    depth_view: u64,
    extent: Extent2d,
    pipeline: u64,
    draws: Seq<DrawSpec>,
) -> Seq<FrameOp> {
    seq![
        FrameOp::WaitRenderFence,
        FrameOp::ResetRenderFence,
        FrameOp::ResetCommandPool,
        FrameOp::AcquireImage { image_index },
    ] + spec_record_ops(image, view, depth_image, depth_view, extent, pipeline, draws) + seq![
        FrameOp::SubmitQueue,
        FrameOp::PresentImage { image_index },
    ]
}

/// An operation of the draw section: a buffer bind or an indexed draw.
pub open spec fn spec_is_draw_section_op(op: FrameOp) -> bool {
    op is BindVertexBuffers || op is BindIndexBuffer || op is DrawIndexed
}

pub proof fn lemma_draw_ops_shape(draws: Seq<DrawSpec>)
    ensures
        spec_draw_ops(draws).len() == 3 * draws.len(),
        forall|k: int|
            0 <= k < spec_draw_ops(draws).len()
                ==> spec_is_draw_section_op(#[trigger] spec_draw_ops(draws)[k]),
    decreases draws.len(),
{
    if draws.len() > 0 {
        lemma_draw_ops_shape(draws.drop_last());
        let left = spec_draw_ops(draws.drop_last());
        let right = spec_draw_ops_one(draws.last());
        assert forall|k: int|
            0 <= k < spec_draw_ops(draws).len() implies spec_is_draw_section_op(
            #[trigger] spec_draw_ops(draws)[k]) by {
            if k < left.len() {
                assert(spec_draw_ops(draws)[k] == left[k]);
            } else {
                assert(spec_draw_ops(draws)[k] == right[k - left.len()]);
            }
        }
    }
}

/// Frame liveness within one tick: the render-complete fence wait is the
/// tick's very first operation and its only submit stands second to last,
/// so the wait is satisfied before the submit returns; the whole command
/// recording lies strictly between BeginCommands and EndCommands, inside
/// that span.
pub proof fn lemma_tick_ops_ordering(
    image_index: u32,
    image: u64,
    view: u64,
    depth_image: u64,
    depth_view: u64,
    extent: Extent2d,
    pipeline: u64,
    draws: Seq<DrawSpec>,
)
    ensures
        ({
            let ops = spec_tick_ops(
                image_index, image, view, depth_image, depth_view, extent, pipeline, draws);
            &&& ops.len() == 14 + 3 * draws.len()
            &&& ops[0] is WaitRenderFence
            &&& ops[4] is BeginCommands
            &&& ops[ops.len() - 3] is EndCommands
            &&& ops[ops.len() - 2] is SubmitQueue
            &&& ops[ops.len() - 1] is PresentImage
            &&& forall|k: int| 0 <= k < ops.len() && ops[k] is WaitRenderFence ==> k == 0
            &&& forall|k: int|
                0 <= k < ops.len() && ops[k] is SubmitQueue ==> k == ops.len() - 2
            &&& forall|k: int|
                0 <= k < ops.len() && ops[k] is BeginCommands ==> k == 4
            &&& forall|k: int|
                0 <= k < ops.len() && ops[k] is EndCommands ==> k == ops.len() - 3
        }),
{
    let ops = spec_tick_ops(
        image_index, image, view, depth_image, depth_view, extent, pipeline, draws);
    let head = seq![
        FrameOp::WaitRenderFence,
        FrameOp::ResetRenderFence,
        FrameOp::ResetCommandPool,
        FrameOp::AcquireImage { image_index },
    ];
    let record = spec_record_ops(image, view, depth_image, depth_view, extent, pipeline, draws);
    let tail = seq![FrameOp::SubmitQueue, FrameOp::PresentImage { image_index }];
    let record_head = seq![
        FrameOp::BeginCommands,
        FrameOp::BarrierColorToRenderTarget { image },
        FrameOp::BarrierDepthToDepthTarget { image: depth_image },
        FrameOp::BeginRendering { extent, color_view: view, depth_view },
        FrameOp::BindPipeline { pipeline },
    ];
    let body = spec_draw_ops(draws);
    let record_tail = seq![
        FrameOp::EndRendering,
        FrameOp::BarrierColorToPresent { image },
        FrameOp::EndCommands,
    ];
    lemma_draw_ops_shape(draws);
    assert(record == record_head + body + record_tail);
    assert(ops == head + record + tail);
    assert(ops.len() == 14 + 3 * draws.len());
    assert forall|k: int| 0 <= k < ops.len() implies spec_tick_op_position_class(
        ops, k, draws.len() as int) by {
        if k < 4 {
            assert(ops[k] == head[k]);
        } else if k < 9 + 3 * draws.len() {
            assert(ops[k] == record[k - 4]);
            if k < 9 {
                assert(record[k - 4] == record_head[k - 4]);
            } else {
                assert(record[k - 4] == body[k - 9]);
                assert(spec_is_draw_section_op(body[k - 9]));
            }
        } else if k < 12 + 3 * draws.len() {
            assert(ops[k] == record[k - 4]);
            assert(record[k - 4] == record_tail[k - 9 - 3 * draws.len()]);
        } else {
            assert(ops[k] == tail[k - 12 - 3 * draws.len()]);
        }
    }
    let m = draws.len() as int;
    assert forall|k: int| 0 <= k < ops.len() && ops[k] is WaitRenderFence implies k == 0 by {
        assert(spec_tick_op_position_class(ops, k, m));
    }
    assert forall|k: int|
        0 <= k < ops.len() && ops[k] is SubmitQueue implies k == ops.len() - 2 by {
        assert(spec_tick_op_position_class(ops, k, m));
    }
    assert forall|k: int| 0 <= k < ops.len() && ops[k] is BeginCommands implies k == 4 by {
        assert(spec_tick_op_position_class(ops, k, m));
    }
    assert forall|k: int|
        0 <= k < ops.len() && ops[k] is EndCommands implies k == ops.len() - 3 by {
        assert(spec_tick_op_position_class(ops, k, m));
    }
    assert(ops[0] is WaitRenderFence) by {
        assert(spec_tick_op_position_class(ops, 0, draws.len() as int));
    }
    assert(ops[4] is BeginCommands) by {
        assert(spec_tick_op_position_class(ops, 4, draws.len() as int));
    }
    assert(ops[ops.len() - 3] is EndCommands) by {
        assert(spec_tick_op_position_class(ops, ops.len() - 3, draws.len() as int));
    }
    assert(ops[ops.len() - 2] is SubmitQueue) by {
        assert(spec_tick_op_position_class(ops, ops.len() - 2, draws.len() as int));
    }
    assert(ops[ops.len() - 1] is PresentImage) by {
        assert(spec_tick_op_position_class(ops, ops.len() - 1, draws.len() as int));
    }
}

/// What kind of operation stands at each position of a tick's sequence,
/// with `m` meshes drawn.
pub open spec fn spec_tick_op_position_class(ops: Seq<FrameOp>, k: int, m: int) -> bool {
    if k == 0 {
        ops[k] is WaitRenderFence
    } else if k == 1 {
        ops[k] is ResetRenderFence
    } else if k == 2 {
        ops[k] is ResetCommandPool
    } else if k == 3 {
        ops[k] is AcquireImage
    } else if k == 4 {
        ops[k] is BeginCommands
    } else if k == 5 {
        ops[k] is BarrierColorToRenderTarget
    } else if k == 6 {
        ops[k] is BarrierDepthToDepthTarget
    } else if k == 7 {
        ops[k] is BeginRendering
    } else if k == 8 {
        ops[k] is BindPipeline
    } else if k < 9 + 3 * m {
        spec_is_draw_section_op(ops[k])
    } else if k == 9 + 3 * m {
        ops[k] is EndRendering
    } else if k == 10 + 3 * m {
        ops[k] is BarrierColorToPresent
    } else if k == 11 + 3 * m {
        ops[k] is EndCommands
    } else if k == 12 + 3 * m {
        ops[k] is SubmitQueue
    } else {
        ops[k] is PresentImage
    }
}

/// The operation sequence of some successful tick.
pub open spec fn spec_is_tick_ops(t: Seq<FrameOp>) -> bool {
    exists|
        image_index: u32,
        image: u64,
        view: u64,
        depth_image: u64,
        depth_view: u64,
        extent: Extent2d,
        pipeline: u64,
        draws: Seq<DrawSpec>,
    |
        t == #[trigger] spec_tick_ops(
            image_index, image, view, depth_image, depth_view, extent, pipeline, draws)
}

/// What a successful tick appends to the trace is a tick operation
/// sequence, so the overlap law below applies to any two ticks of a trace.
pub proof fn lemma_tick_ops_witness(
    image_index: u32,
    image: u64,
    view: u64,
    depth_image: u64,
    depth_view: u64,
    extent: Extent2d,
    pipeline: u64,
    draws: Seq<DrawSpec>,
)
    ensures
        spec_is_tick_ops(spec_tick_ops(
            image_index, image, view, depth_image, depth_view, extent, pipeline, draws)),
{
}

/// No two ticks' command recordings overlap in time: when one tick's
/// operations stand wholly before another's in the trace — which the frame
/// machine guarantees, since it appends each tick's operations as one block
/// — the earlier tick's EndCommands comes strictly before the later tick's
/// BeginCommands.
pub proof fn lemma_recordings_do_not_overlap(
    front: Seq<FrameOp>,
    first: Seq<FrameOp>,
    mid: Seq<FrameOp>,
    second: Seq<FrameOp>,
    trace: Seq<FrameOp>,
)
    requires
        spec_is_tick_ops(first),
        spec_is_tick_ops(second),
        trace == front + first + mid + second,
    ensures
        ({
            let first_end = front.len() + first.len() - 3int;
            let second_begin = front.len() + first.len() + mid.len() + 4int;
            &&& trace[first_end] is EndCommands
            &&& trace[second_begin] is BeginCommands
            &&& first_end < second_begin
        }),
{
    let (a1, b1, c1, d1, e1, f1, g1, h1) = choose|
        a: u32,
        b: u64,
        c: u64,
        d: u64,
        e: u64,
        f: Extent2d,
        g: u64,
        h: Seq<DrawSpec>,
    | first == #[trigger] spec_tick_ops(a, b, c, d, e, f, g, h);
    lemma_tick_ops_ordering(a1, b1, c1, d1, e1, f1, g1, h1);
    let (a2, b2, c2, d2, e2, f2, g2, h2) = choose|
        a: u32,
        b: u64,
        c: u64,
        d: u64,
        e: u64,
        f: Extent2d,
        g: u64,
        h: Seq<DrawSpec>,
    | second == #[trigger] spec_tick_ops(a, b, c, d, e, f, g, h);
    lemma_tick_ops_ordering(a2, b2, c2, d2, e2, f2, g2, h2);
    let first_end = front.len() + first.len() - 3int;
    let second_begin = front.len() + first.len() + mid.len() + 4int;
    assert(first.len() >= 14);
    assert(trace[first_end] == first[first.len() - 3]);
    assert(trace[second_begin] == second[4]);
}

/// The per-frame executor: the machine phase, the CPU view of the fence,
/// and the timeline of operations issued so far.
pub struct FrameExecutor {
    pub phase: FramePhase,
    /// Whether the render-complete fence is signaled; true at creation.
    pub fence_signaled: bool,
    /// Whether this tick's command buffer has been recorded.
    pub commands_recorded: bool,
    /// The image index of the current tick, valid from acquire to present.
    pub acquired_index: u32,
    /// Ticks that ran to completion.
    pub ticks_completed: u64,
    /// Every frame operation issued since creation, in order.
    pub trace: Vec<FrameOp>,
}

impl FrameExecutor {
    /// A fresh executor: idle, fence created signaled, nothing recorded.
    pub fn new() -> (e: FrameExecutor)
        ensures
            e.phase is Idle,
            e.fence_signaled,
            !e.commands_recorded,
            e.ticks_completed == 0,
            e.trace@ == Seq::<FrameOp>::empty(),
    {
        FrameExecutor {
            phase: FramePhase::Idle,
            fence_signaled: true,
            commands_recorded: false,
            acquired_index: 0,
            ticks_completed: 0,
            trace: Vec::new(),
        }
    }

    /// Step one of a tick: block until the previous frame's render-complete
    /// fence signals — the wait is bounded only by an effectively infinite
    /// timeout, the sole backpressure on the CPU — then reset the fence and
    /// the command pool, invalidating the previous recording.
    pub fn wait_and_reset(&mut self)
        requires
            old(self).phase is Idle,
        ensures
            final(self).phase is Acquiring,
            !final(self).fence_signaled,
            !final(self).commands_recorded,
            final(self).ticks_completed == old(self).ticks_completed,
            final(self).trace@ == old(self).trace@ + seq![
                FrameOp::WaitRenderFence,
                FrameOp::ResetRenderFence,
                FrameOp::ResetCommandPool,
            ],
    {
        self.trace.push(FrameOp::WaitRenderFence);
        self.fence_signaled = false;
        self.trace.push(FrameOp::ResetRenderFence);
        self.commands_recorded = false;
        self.trace.push(FrameOp::ResetCommandPool);
        self.phase = FramePhase::Acquiring;
        proof {
            assert(self.trace@ =~= old(self).trace@ + seq![
                FrameOp::WaitRenderFence,
                FrameOp::ResetRenderFence,
                FrameOp::ResetCommandPool,
            ]);
        }
    }

    /// Step two: take the presentation engine's answer to the acquire
    /// request. Succeeds exactly when the engine handed back an index that
    /// lies inside the chain; any failure is fatal for the frame.
    pub fn acquire(&mut self, swapchain: &SwapchainState, outcome: AcquireOutcome) -> (r: Result<
        u32,
        FrameError,
    >)
        requires
            old(self).phase is Acquiring,
            swapchain.wf(),
        ensures
            final(self).fence_signaled == old(self).fence_signaled,
            final(self).commands_recorded == old(self).commands_recorded,
            final(self).ticks_completed == old(self).ticks_completed,
            match r {
                Ok(image_index) => {
                    &&& outcome == (AcquireOutcome::Ready { image_index })
                    &&& (image_index as int) < swapchain.spec_images().len()
                    &&& final(self).phase is Recording
                    &&& final(self).acquired_index == image_index
                    &&& final(self).trace@ == old(self).trace@
                        + seq![FrameOp::AcquireImage { image_index }]
                },
                Err(e) => {
                    &&& final(self).phase is Failed
                    &&& final(self).trace@ == old(self).trace@
                    &&& match outcome {
                        AcquireOutcome::Ready { image_index } => e
                            == FrameError::InvalidImageIndex && (image_index as int)
                            >= swapchain.spec_images().len(),
                        AcquireOutcome::OutOfDate => e == FrameError::SwapchainOutOfDate,
                        AcquireOutcome::Failure => e == FrameError::AcquireFailed,
                    }
                },
            },
    {
        match outcome {
            AcquireOutcome::Ready { image_index } => {
                let count = swapchain.image_count();
                if (image_index as usize) < count {
                    self.acquired_index = image_index;
                    self.trace.push(FrameOp::AcquireImage { image_index });
                    self.phase = FramePhase::Recording;
                    proof {
                        assert(self.trace@ =~= old(self).trace@
                            + seq![FrameOp::AcquireImage { image_index }]);
                    }
                    Ok(image_index)
                } else {
                    self.phase = FramePhase::Failed;
                    Err(FrameError::InvalidImageIndex)
                }
            },
            AcquireOutcome::OutOfDate => {
                self.phase = FramePhase::Failed;
                Err(FrameError::SwapchainOutOfDate)
            },
            AcquireOutcome::Failure => {
                self.phase = FramePhase::Failed;
                Err(FrameError::AcquireFailed)
            },
        }
    }

    /// Step three: record the one-time-submit command buffer — barrier the
    /// color and depth targets in, render every uploaded mesh with one
    /// full-range indexed draw each, barrier the color image out to the
    /// presentable layout.
    pub fn record(
        &mut self,
        swapchain: &SwapchainState,
        depth_image: u64,
        depth_view: u64,
        pipeline: u64,
        draws: &Vec<DrawSpec>,
    )
        requires
            old(self).phase is Recording,
            !old(self).commands_recorded,
            swapchain.wf(),
            (old(self).acquired_index as int) < swapchain.spec_images().len(),
        ensures
            final(self).phase is Recording,
            final(self).commands_recorded,
            final(self).fence_signaled == old(self).fence_signaled,
            final(self).acquired_index == old(self).acquired_index,
            final(self).ticks_completed == old(self).ticks_completed,
            final(self).trace@ == old(self).trace@ + spec_record_ops(
                swapchain.spec_images()[old(self).acquired_index as int],
                swapchain.spec_views()[old(self).acquired_index as int],
                depth_image,
                depth_view,
                swapchain.image_extent,
                pipeline,
                draws@,
            ),
    {
        let (image, view) = match swapchain.get_image(self.acquired_index as usize) {
            Ok(pair) => pair,
            Err(_) => {
                return unreached();
            },
        };
        let extent = swapchain.image_extent;
        self.trace.push(FrameOp::BeginCommands);
        self.trace.push(FrameOp::BarrierColorToRenderTarget { image });
        self.trace.push(FrameOp::BarrierDepthToDepthTarget { image: depth_image });
        self.trace.push(FrameOp::BeginRendering { extent, color_view: view, depth_view });
        self.trace.push(FrameOp::BindPipeline { pipeline });
        let ghost mid = self.trace@;
        let mut i: usize = 0;
        while i < draws.len()
            invariant
                i <= draws@.len(),
                self.trace@ == mid + spec_draw_ops(draws@.subrange(0, i as int)),
                self.phase == old(self).phase,
                self.commands_recorded == old(self).commands_recorded,
                self.fence_signaled == old(self).fence_signaled,
                self.acquired_index == old(self).acquired_index,
                self.ticks_completed == old(self).ticks_completed,
            decreases draws@.len() - i,
        {
            let d = draws[i];
            self.trace.push(FrameOp::BindVertexBuffers {
                allocation: d.vertex_allocation,
                offset: d.vertex_offset,
            });
            self.trace.push(FrameOp::BindIndexBuffer {
                allocation: d.index_allocation,
                offset: d.index_offset,
                index_width: d.index_width,
            });
            self.trace.push(FrameOp::DrawIndexed {
                index_count: d.index_count,
                instance_count: 1,
                first_index: 0,
            });
            proof {
                let pre = draws@.subrange(0, i as int);
                let post = draws@.subrange(0, i as int + 1);
                assert(post.drop_last() =~= pre);
                assert(post.last() == draws@[i as int]);
                assert(self.trace@ =~= mid + spec_draw_ops(post));
            }
            i = i + 1;
        }
        proof {
            assert(draws@.subrange(0, draws@.len() as int) =~= draws@);
        }
        self.trace.push(FrameOp::EndRendering);
        self.trace.push(FrameOp::BarrierColorToPresent { image });
        self.trace.push(FrameOp::EndCommands);
        self.commands_recorded = true;
        proof {
            assert(self.trace@ =~= old(self).trace@ + spec_record_ops(
                swapchain.spec_images()[old(self).acquired_index as int],
                swapchain.spec_views()[old(self).acquired_index as int],
                depth_image,
                depth_view,
                swapchain.image_extent,
                pipeline,
                draws@,
            ));
        }
    }

    /// Step four: enqueue the recorded batch on the graphics queue, waiting
    /// on image-available before color output and signaling render-finished
    /// and the render-complete fence on retirement. The driver's verdict
    /// arrives as `submit_ok`; failure is fatal for the frame.
    pub fn submit(&mut self, submit_ok: bool) -> (r: Result<(), FrameError>)
        requires
            old(self).phase is Recording,
            old(self).commands_recorded,
        ensures
            final(self).fence_signaled == old(self).fence_signaled,
            final(self).commands_recorded == old(self).commands_recorded,
            final(self).acquired_index == old(self).acquired_index,
            final(self).ticks_completed == old(self).ticks_completed,
            match r {
                Ok(u) => {
                    &&& submit_ok
                    &&& final(self).phase is Submitted
                    &&& final(self).trace@ == old(self).trace@ + seq![FrameOp::SubmitQueue]
                },
                Err(e) => {
                    &&& !submit_ok
                    &&& e == FrameError::SubmitFailed
                    &&& final(self).phase is Failed
                    &&& final(self).trace@ == old(self).trace@
                },
            },
    {
        if !submit_ok {
            self.phase = FramePhase::Failed;
            return Err(FrameError::SubmitFailed);
        }
        self.trace.push(FrameOp::SubmitQueue);
        self.phase = FramePhase::Submitted;
        proof {
            assert(self.trace@ =~= old(self).trace@ + seq![FrameOp::SubmitQueue]);
        }
        Ok(())
    }

    /// Step five: request presentation of the acquired image on the same
    /// queue, waiting on render-finished. The driver's verdict arrives as
    /// `present_ok`; failure is fatal for the frame.
    pub fn present(&mut self, present_ok: bool) -> (r: Result<(), FrameError>)
        requires
            old(self).phase is Submitted,
        ensures
            final(self).fence_signaled == old(self).fence_signaled,
            final(self).commands_recorded == old(self).commands_recorded,
            final(self).acquired_index == old(self).acquired_index,
            final(self).ticks_completed == old(self).ticks_completed,
            match r {
                Ok(u) => {
                    &&& present_ok
                    &&& final(self).phase is Presenting
                    &&& final(self).trace@ == old(self).trace@ + seq![
                        FrameOp::PresentImage { image_index: old(self).acquired_index },
                    ]
                },
                Err(e) => {
                    &&& !present_ok
                    &&& e == FrameError::PresentFailed
                    &&& final(self).phase is Failed
                    &&& final(self).trace@ == old(self).trace@
                },
            },
    {
        if !present_ok {
            self.phase = FramePhase::Failed;
            return Err(FrameError::PresentFailed);
        }
        self.trace.push(FrameOp::PresentImage { image_index: self.acquired_index });
        self.phase = FramePhase::Presenting;
        proof {
            assert(self.trace@ =~= old(self).trace@ + seq![
                FrameOp::PresentImage { image_index: old(self).acquired_index },
            ]);
        }
        Ok(())
    }

    /// The presentation request is enqueued; the tick is complete and the
    /// machine returns to idle.
    pub fn complete_tick(&mut self)
        requires
            old(self).phase is Presenting,
            old(self).ticks_completed < u64::MAX,
        ensures
            final(self).phase is Idle,
            final(self).fence_signaled == old(self).fence_signaled,
            final(self).commands_recorded == old(self).commands_recorded,
            final(self).ticks_completed == old(self).ticks_completed + 1,
            final(self).trace@ == old(self).trace@,
    {
        self.phase = FramePhase::Idle;
        self.ticks_completed = self.ticks_completed + 1;
    }

    /// The GPU retired the submitted batch: the render-complete fence is
    /// signaled. The host reports this; nothing else signals the fence.
    pub fn gpu_retire(&mut self)
        ensures
            final(self).fence_signaled,
            final(self).phase == old(self).phase,
            final(self).commands_recorded == old(self).commands_recorded,
            final(self).acquired_index == old(self).acquired_index,
            final(self).ticks_completed == old(self).ticks_completed,
            final(self).trace@ == old(self).trace@,
    {
        self.fence_signaled = true;
    }

    /// One whole tick of the frame machine, from fence wait to presentation
    /// request. The driver's answers — the acquire outcome and the submit
    /// and present verdicts — arrive as arguments.
    ///
    /// Succeeds exactly when the acquire handed back an in-range index and
    /// both driver verdicts are positive; then the trace grows by exactly
    /// the tick's operation sequence. Any failure leaves the machine in the
    /// terminal failed phase: no partial-frame recovery is attempted.
    pub fn tick(
        &mut self,
        swapchain: &SwapchainState,
        depth_image: u64,
        depth_view: u64,
        pipeline: u64,
        draws: &Vec<DrawSpec>,
        acquire_outcome: AcquireOutcome,
        submit_ok: bool,
        present_ok: bool,
    ) -> (r: Result<(), FrameError>)
        requires
            old(self).phase is Idle,
            old(self).ticks_completed < u64::MAX,
            swapchain.wf(),
        ensures
            match r {
                Ok(u) => {
                    &&& acquire_outcome matches AcquireOutcome::Ready { image_index }
                        && (image_index as int) < swapchain.spec_images().len()
                        && final(self).trace@ == old(self).trace@ + spec_tick_ops(
                        image_index,
                        swapchain.spec_images()[image_index as int],
                        swapchain.spec_views()[image_index as int],
                        depth_image,
                        depth_view,
                        swapchain.image_extent,
                        pipeline,
                        draws@,
                    )
                    &&& submit_ok
                    &&& present_ok
                    &&& final(self).phase is Idle
                    &&& final(self).ticks_completed == old(self).ticks_completed + 1
                },
                Err(e) => {
                    &&& final(self).phase is Failed
                    &&& final(self).ticks_completed == old(self).ticks_completed
                    &&& !(acquire_outcome matches AcquireOutcome::Ready { image_index }
                        && (image_index as int) < swapchain.spec_images().len() && submit_ok
                        && present_ok)
                },
            },
    {
        self.wait_and_reset();
        let image_index = match self.acquire(swapchain, acquire_outcome) {
            Ok(idx) => idx,
            Err(e) => {
                return Err(e);
            },
        };
        self.record(swapchain, depth_image, depth_view, pipeline, draws);
        match self.submit(submit_ok) {
            Ok(u) => u,
            Err(e) => {
                return Err(e);
            },
        };
        match self.present(present_ok) {
            Ok(u) => u,
            Err(e) => {
                return Err(e);
            },
        };
        self.complete_tick();
        proof {
            assert(self.trace@ =~= old(self).trace@ + spec_tick_ops(
                image_index,
                swapchain.spec_images()[image_index as int],
                swapchain.spec_views()[image_index as int],
                depth_image,
                depth_view,
                swapchain.image_extent,
                pipeline,
                draws@,
            ));
        }
        Ok(())
    }
}

} // verus!
