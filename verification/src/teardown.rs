//! Teardown: the destruction sequence of the whole ownership tree, in
//! reverse creation order, opened by a full device-idle wait so no GPU work
//! is in flight when anything dies.

use vstd::prelude::*;

use crate::swapchain::SwapchainState;

verus! {

/// One destruction step, in the vocabulary of the ownership tree.
#[derive(Clone, Copy, PartialEq, Eq, Structural, Debug)]
pub enum TeardownOp {
    /// Drain all in-flight GPU work; the sole termination synchronization.
    DeviceWaitIdle,
    DestroyPipeline { pipeline: u64 },
    DestroyPipelineLayout { layout: u64 },
    DestroyCommandPool { pool: u64 },
    DestroyFence { fence: u64 },
    DestroySemaphore { semaphore: u64 },
    /// Destroy an image view; views die before what they view.
    DestroyImageView { view: u64 },
    /// Release one allocator-owned allocation, exactly once.
    FreeAllocation { allocation: usize },
    DestroyAllocator,
    /// Destroy the swapchain object; its images belong to the presentation
    /// engine and are never destroyed directly.
    DestroySwapchain { swapchain: u64 },
    DestroyDevice,
    DestroySurface { surface: u64 },
    DestroyDebugMessenger { messenger: u64 },
    DestroyInstance,
}

/// Release steps for the given allocations, in order.
pub open spec fn spec_free_ops(allocations: Seq<usize>) -> Seq<TeardownOp>
    decreases allocations.len(),
{
    if allocations.len() == 0 {
        Seq::empty()
    } else {
        spec_free_ops(allocations.drop_last()).push(
            TeardownOp::FreeAllocation { allocation: allocations.last() })
    }
}

/// Destruction steps for the given image views, in order.
pub open spec fn spec_view_ops(views: Seq<u64>) -> Seq<TeardownOp>
    decreases views.len(),
{
    if views.len() == 0 {
        Seq::empty()
    } else {
        spec_view_ops(views.drop_last()).push(TeardownOp::DestroyImageView { view: views.last() })
    }
}

/// The swapchain's own teardown: every image view, then the swapchain
/// object, never the images themselves. The chain can die and be rebuilt
/// this way without touching the device.
pub open spec fn spec_swapchain_teardown_ops(views: Seq<u64>, swapchain: u64) -> Seq<TeardownOp> {
    spec_view_ops(views).push(TeardownOp::DestroySwapchain { swapchain })
}

/// The whole context's teardown, in reverse creation order: drain the
/// device, then pipeline, synchronization objects and command pool, the
/// depth view, every allocator-owned allocation and the allocator, the
/// swapchain views and the swapchain, the device, the surface, the
/// diagnostics messenger if one exists, and last the instance.
pub open spec fn spec_teardown_ops(
    pipeline: u64,
    pipeline_layout: u64,
    command_pool: u64,
    fence: u64,
    image_available_semaphore: u64,
    render_finished_semaphore: u64,
    depth_view: u64,
    allocations: Seq<usize>,
    views: Seq<u64>,
    swapchain: u64,
    surface: u64,
    debug_messenger: Option<u64>,
) -> Seq<TeardownOp> {
    seq![
        TeardownOp::DeviceWaitIdle,
        TeardownOp::DestroyPipeline { pipeline },
        TeardownOp::DestroyPipelineLayout { layout: pipeline_layout },
        TeardownOp::DestroyCommandPool { pool: command_pool },
        TeardownOp::DestroyFence { fence },
        TeardownOp::DestroySemaphore { semaphore: image_available_semaphore },
        TeardownOp::DestroySemaphore { semaphore: render_finished_semaphore },
        TeardownOp::DestroyImageView { view: depth_view },
    ] + spec_free_ops(allocations) + seq![TeardownOp::DestroyAllocator] + spec_view_ops(views)
        + seq![TeardownOp::DestroySwapchain { swapchain }, TeardownOp::DestroyDevice,
            TeardownOp::DestroySurface { surface }]
        + (match debug_messenger {
            Some(messenger) => seq![TeardownOp::DestroyDebugMessenger { messenger }],
            None => Seq::empty(),
        }) + seq![TeardownOp::DestroyInstance]
}

/// Builds the swapchain's own teardown steps: views first, then the chain.
pub fn swapchain_teardown_ops(swapchain: &SwapchainState) -> (r: Vec<TeardownOp>)
    ensures
        r@ == spec_swapchain_teardown_ops(swapchain.spec_views(), swapchain.swapchain),
{
    let views = swapchain.views();
    let mut out: Vec<TeardownOp> = Vec::new();
    let mut i: usize = 0;
    while i < views.len()
        invariant
            i <= views@.len(),
            views@ == swapchain.spec_views(),
            out@ == spec_view_ops(views@.subrange(0, i as int)),
        decreases views@.len() - i,
    {
        out.push(TeardownOp::DestroyImageView { view: views[i] });
        proof {
            let pre = views@.subrange(0, i as int);
            let post = views@.subrange(0, i as int + 1);
            assert(post.drop_last() =~= pre);
            assert(post.last() == views@[i as int]);
        }
        i = i + 1;
    }
    proof {
        assert(views@.subrange(0, views@.len() as int) =~= views@);
    }
    out.push(TeardownOp::DestroySwapchain { swapchain: swapchain.swapchain });
    out
}

pub proof fn lemma_free_ops_shape(allocations: Seq<usize>)
    ensures
        spec_free_ops(allocations).len() == allocations.len(),
        forall|k: int|
            0 <= k < allocations.len() ==> (#[trigger] spec_free_ops(allocations)[k])
                == (TeardownOp::FreeAllocation { allocation: allocations[k] }),
    decreases allocations.len(),
{
    if allocations.len() > 0 {
        lemma_free_ops_shape(allocations.drop_last());
    }
}

pub proof fn lemma_view_ops_shape(views: Seq<u64>)
    ensures
        spec_view_ops(views).len() == views.len(),
        forall|k: int|
            0 <= k < views.len() ==> (#[trigger] spec_view_ops(views)[k])
                == (TeardownOp::DestroyImageView { view: views[k] }),
    decreases views.len(),
{
    if views.len() > 0 {
        lemma_view_ops_shape(views.drop_last());
    }
}

/// What kind of step stands at each position of the teardown sequence, with
/// `a` allocations, `v` swapchain views and `dbg` saying whether a
/// diagnostics messenger exists.
pub open spec fn spec_teardown_position_class(
    ops: Seq<TeardownOp>,
    k: int,
    a: int,
    v: int,
    dbg: bool,
) -> bool {
    if k == 0 {
        ops[k] is DeviceWaitIdle
    } else if k == 1 {
        ops[k] is DestroyPipeline
    } else if k == 2 {
        ops[k] is DestroyPipelineLayout
    } else if k == 3 {
        ops[k] is DestroyCommandPool
    } else if k == 4 {
        ops[k] is DestroyFence
    } else if k <= 6 {
        ops[k] is DestroySemaphore
    } else if k == 7 {
        ops[k] is DestroyImageView
    } else if k < 8 + a {
        ops[k] is FreeAllocation
    } else if k == 8 + a {
        ops[k] is DestroyAllocator
    } else if k < 9 + a + v {
        ops[k] is DestroyImageView
    } else if k == 9 + a + v {
        ops[k] is DestroySwapchain
    } else if k == 10 + a + v {
        ops[k] is DestroyDevice
    } else if k == 11 + a + v {
        ops[k] is DestroySurface
    } else if dbg && k == 12 + a + v {
        ops[k] is DestroyDebugMessenger
    } else {
        ops[k] is DestroyInstance
    }
}

/// Teardown ordering: the device-idle wait is the first step and the only
/// one; every image view — the depth view and each swapchain view — dies
/// before the swapchain object; and the swapchain dies before the device,
/// the device before the surface, the surface before the instance, which
/// dies last.
pub proof fn lemma_teardown_ordering(
    pipeline: u64,
    pipeline_layout: u64,
    command_pool: u64,
    fence: u64,
    image_available_semaphore: u64,
    render_finished_semaphore: u64,
    depth_view: u64,
    allocations: Seq<usize>,
    views: Seq<u64>,
    swapchain: u64,
    surface: u64,
    debug_messenger: Option<u64>,
)
    ensures
        ({
            let ops = spec_teardown_ops(
                pipeline,
                pipeline_layout,
                command_pool,
                fence,
                image_available_semaphore,
                render_finished_semaphore,
                depth_view,
                allocations,
                views,
                swapchain,
                surface,
                debug_messenger,
            );
            let a = allocations.len() as int;
            let v = views.len() as int;
            &&& ops.len() == (if debug_messenger is Some { 14 + a + v } else { 13 + a + v })
            &&& ops[0] is DeviceWaitIdle
            &&& forall|k: int| 0 < k < ops.len() ==> !((#[trigger] ops[k]) is DeviceWaitIdle)
            &&& ops[9 + a + v] is DestroySwapchain
            &&& forall|k: int|
                0 <= k < ops.len() && ops[k] is DestroySwapchain ==> k == 9 + a + v
            &&& forall|i: int, j: int|
                0 <= i < ops.len() && 0 <= j < ops.len() && (#[trigger] ops[i]) is DestroyImageView
                    && (#[trigger] ops[j]) is DestroySwapchain ==> i < j
            &&& ops[10 + a + v] is DestroyDevice
            &&& ops[11 + a + v] is DestroySurface
            &&& ops[ops.len() - 1] is DestroyInstance
            &&& forall|k: int|
                0 <= k < ops.len() && ops[k] is DestroyInstance ==> k == ops.len() - 1
        }),
{
    let ops = spec_teardown_ops(
        pipeline,
        pipeline_layout,
        command_pool,
        fence,
        image_available_semaphore,
        render_finished_semaphore,
        depth_view,
        allocations,
        views,
        swapchain,
        surface,
        debug_messenger,
    );
    let a = allocations.len() as int;
    let v = views.len() as int;
    let head = seq![
        TeardownOp::DeviceWaitIdle,
        TeardownOp::DestroyPipeline { pipeline },
        TeardownOp::DestroyPipelineLayout { layout: pipeline_layout },
        TeardownOp::DestroyCommandPool { pool: command_pool },
        TeardownOp::DestroyFence { fence },
        TeardownOp::DestroySemaphore { semaphore: image_available_semaphore },
        TeardownOp::DestroySemaphore { semaphore: render_finished_semaphore },
        TeardownOp::DestroyImageView { view: depth_view },
    ];
    let frees = spec_free_ops(allocations);
    let view_ops = spec_view_ops(views);
    let device_part = seq![TeardownOp::DestroySwapchain { swapchain }, TeardownOp::DestroyDevice,
        TeardownOp::DestroySurface { surface }];
    let dbg_part = match debug_messenger {
        Some(messenger) => seq![TeardownOp::DestroyDebugMessenger { messenger }],
        None => Seq::<TeardownOp>::empty(),
    };
    lemma_free_ops_shape(allocations);
    lemma_view_ops_shape(views);
    assert(ops == head + frees + seq![TeardownOp::DestroyAllocator] + view_ops + device_part
        + dbg_part + seq![TeardownOp::DestroyInstance]);
    let dbg = debug_messenger is Some;
    assert forall|k: int| 0 <= k < ops.len() implies spec_teardown_position_class(
        ops, k, a, v, dbg) by {
        if k < 8 {
            assert(ops[k] == head[k]);
        } else if k < 8 + a {
            assert(ops[k] == frees[k - 8]);
        } else if k == 8 + a {
            assert(ops[k] == TeardownOp::DestroyAllocator);
        } else if k < 9 + a + v {
            assert(ops[k] == view_ops[k - 9 - a]);
        } else if k < 12 + a + v {
            assert(ops[k] == device_part[k - 9 - a - v]);
        } else if dbg && k == 12 + a + v {
            assert(ops[k] == dbg_part[0]);
        } else {
            assert(ops[k] == TeardownOp::DestroyInstance);
        }
    }
    assert(spec_teardown_position_class(ops, 0, a, v, dbg));
    assert(spec_teardown_position_class(ops, 9 + a + v, a, v, dbg));
    assert(spec_teardown_position_class(ops, 10 + a + v, a, v, dbg));
    assert(spec_teardown_position_class(ops, 11 + a + v, a, v, dbg));
    assert(spec_teardown_position_class(ops, ops.len() - 1, a, v, dbg));
    assert forall|k: int| 0 < k < ops.len() implies !((#[trigger] ops[k]) is DeviceWaitIdle) by {
        assert(spec_teardown_position_class(ops, k, a, v, dbg));
    }
    assert forall|k: int|
        0 <= k < ops.len() && ops[k] is DestroySwapchain implies k == 9 + a + v by {
        assert(spec_teardown_position_class(ops, k, a, v, dbg));
    }
    assert forall|k: int|
        0 <= k < ops.len() && ops[k] is DestroyInstance implies k == ops.len() - 1 by {
        assert(spec_teardown_position_class(ops, k, a, v, dbg));
    }
    assert forall|i: int, j: int|
        0 <= i < ops.len() && 0 <= j < ops.len() && (#[trigger] ops[i]) is DestroyImageView
            && (#[trigger] ops[j]) is DestroySwapchain implies i < j by {
        assert(spec_teardown_position_class(ops, i, a, v, dbg));
        assert(spec_teardown_position_class(ops, j, a, v, dbg));
    }
}

} // verus!
