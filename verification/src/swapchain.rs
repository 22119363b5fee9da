//! Swapchain negotiation: image count, extent resolution, and the state of
//! the presentable image chain.

use vstd::prelude::*;

use crate::device::SurfaceFormat;
use crate::errors::{FrameError, InitError};

verus! {

/// A list of driver handles kept in a small inline vector, so a chain of
/// the usual three images stays free of heap allocation.
#[verifier::external_body]
pub struct HandleList {
    list: smallvec::SmallVec<[u64; 3]>,
}

/// The handles the list stores, in storage order.
pub uninterp spec fn handles_of(v: HandleList) -> Seq<u64>;

impl HandleList {
    /// Relies on smallvec::SmallVec::new: the constructed vector is empty.
    #[verifier::external_body]
    pub(crate) fn new() -> (v: HandleList)
        ensures
            handles_of(v) == Seq::<u64>::empty(),
    {
        HandleList { list: smallvec::SmallVec::new() }
    }

    /// Relies on smallvec::SmallVec::push: appends the element after the
    /// ones already stored.
    #[verifier::external_body]
    pub(crate) fn push(&mut self, handle: u64)
        ensures
            handles_of(*final(self)) == handles_of(*old(self)).push(handle),
    {
        self.list.push(handle);
    }

    /// Relies on smallvec::SmallVec::len: the number of elements stored.
    #[verifier::external_body]
    pub(crate) fn len(&self) -> (n: usize)
        ensures
            n == handles_of(*self).len(),
    {
        self.list.len()
    }

    /// Relies on smallvec's Index implementation, which indexes the stored
    /// elements like a slice.
    #[verifier::external_body]
    pub(crate) fn get(&self, i: usize) -> (handle: u64)
        requires
            i < handles_of(*self).len(),
        ensures
            handle == handles_of(*self)[i as int],
    {
        self.list[i]
    }
}

/// A pixel extent in two dimensions.
#[derive(Clone, Copy, PartialEq, Eq, Structural, Debug)]
pub struct Extent2d {
    pub width: u32,
    pub height: u32,
}

/// The dimension value a surface reports when its extent is undefined and
/// follows the window size instead.
pub const UNDEFINED_DIMENSION: u32 = 0xffff_ffff;

/// The capability snapshot of a presentable surface that swapchain
/// negotiation reads.
#[derive(Clone, Copy, PartialEq, Eq, Structural, Debug)]
pub struct SurfaceCapabilities {
    /// Fewest images the presentation engine accepts in a chain.
    pub min_image_count: u32,
    /// Most images the presentation engine accepts; `0` means unbounded.
    pub max_image_count: u32,
    /// The fixed surface extent, or `UNDEFINED_DIMENSION` in both dimensions
    /// when the surface follows the window size.
    pub current_extent: Extent2d,
}

/// The image count the chain is created with: one more than the reported
/// minimum, clamped to the reported maximum when that maximum is bounded.
pub open spec fn spec_image_count(caps: SurfaceCapabilities) -> int {
    let requested = caps.min_image_count + 1;
    if caps.max_image_count > 0 && requested > caps.max_image_count {
        caps.max_image_count as int
    } else {
        requested
    }
}

/// Whether the surface reports the sentinel "follow the window" extent.
pub open spec fn spec_extent_undefined(caps: SurfaceCapabilities) -> bool {
    caps.current_extent.width == UNDEFINED_DIMENSION
        && caps.current_extent.height == UNDEFINED_DIMENSION
}

/// The extent the chain is created with: the window size when the surface
/// leaves its extent undefined, the surface's fixed extent otherwise.
pub open spec fn spec_extent(caps: SurfaceCapabilities, window_extent: Extent2d) -> Extent2d {
    if spec_extent_undefined(caps) {
        window_extent
    } else {
        caps.current_extent
    }
}

/// Picks how many images the swapchain is asked for: the reported minimum
/// plus one spare image, kept within the reported maximum when one exists.
pub fn choose_min_image_count(caps: SurfaceCapabilities) -> (count: u32)
    requires
        caps.min_image_count < u32::MAX,
    ensures
        count == spec_image_count(caps),
{
    let requested = caps.min_image_count + 1;
    if caps.max_image_count > 0 && requested > caps.max_image_count {
        caps.max_image_count
    } else {
        requested
    }
}

/// Resolves the extent the swapchain images are created with.
pub fn choose_extent(caps: SurfaceCapabilities, window_extent: Extent2d) -> (extent: Extent2d)
    ensures
        extent == spec_extent(caps, window_extent),
{
    if caps.current_extent.width == UNDEFINED_DIMENSION
        && caps.current_extent.height == UNDEFINED_DIMENSION {
        window_extent
    } else {
        caps.current_extent
    }
}

/// The negotiated image count stays strictly above the reported minimum and
/// within the reported maximum whenever the maximum is bounded and leaves
/// room above the minimum; an unbounded maximum always yields the minimum
/// plus one.
pub proof fn lemma_image_count_bound(caps: SurfaceCapabilities)
    requires
        caps.min_image_count < u32::MAX,
        caps.max_image_count == 0 || caps.max_image_count > caps.min_image_count,
    ensures
        caps.max_image_count > 0 ==> caps.min_image_count < spec_image_count(caps)
            <= caps.max_image_count,
        caps.max_image_count == 0 ==> spec_image_count(caps) == caps.min_image_count + 1,
{
}

/// The resolved extent is the window size exactly when the surface reports
/// the undefined sentinel, and the reported extent otherwise.
pub proof fn lemma_extent_resolution(caps: SurfaceCapabilities, window_extent: Extent2d)
    ensures
        spec_extent_undefined(caps) ==> spec_extent(caps, window_extent) == window_extent,
        !spec_extent_undefined(caps) ==> spec_extent(caps, window_extent) == caps.current_extent,
{
}

/// The chain of presentable images: the swapchain handle, the images the
/// presentation engine owns, and one view per image.
pub struct SwapchainState {
    /// Driver handle of the swapchain object.
    pub swapchain: u64,
    /// Image handles the presentation engine owns; never destroyed directly.
    pub images: HandleList,
    /// One view handle per image, in the same order.
    pub image_views: HandleList,
    /// The extent every image in the chain was created with.
    pub image_extent: Extent2d,
    /// The negotiated surface format of every image in the chain.
    pub format: SurfaceFormat,
    /// The image count the chain was asked for.
    pub requested_count: u32,
}

impl SwapchainState {
    /// The image handles of the chain, in presentation-engine order.
    pub open spec fn spec_images(&self) -> Seq<u64> {
        handles_of(self.images)
    }

    /// The view handles of the chain, one per image, in the same order.
    pub open spec fn spec_views(&self) -> Seq<u64> {
        handles_of(self.image_views)
    }

    /// Well-formedness: one view per image, and at least as many images as
    /// the chain was asked for.
    pub open spec fn wf(&self) -> bool {
        &&& self.spec_images().len() == self.spec_views().len()
        &&& self.spec_images().len() >= self.requested_count
    }

    /// Assembles the swapchain state after the driver created the chain and
    /// one view per image.
    ///
    /// The image and view handles arrive in presentation-engine order.
    /// Fails exactly when the chain does not hold one view per image or
    /// holds fewer images than were requested.
    pub fn new(
        caps: SurfaceCapabilities,
        window_extent: Extent2d,
        format: SurfaceFormat,
        swapchain_handle: u64,
        images: &Vec<u64>,
        image_views: &Vec<u64>,
    ) -> (r: Result<SwapchainState, InitError>)
        requires
            caps.min_image_count < u32::MAX,
        ensures
            match r {
                Ok(s) => {
                    &&& s.wf()
                    &&& s.spec_images() == images@
                    &&& s.spec_views() == image_views@
                    &&& s.swapchain == swapchain_handle
                    &&& s.image_extent == spec_extent(caps, window_extent)
                    &&& s.format == format
                    &&& s.requested_count == spec_image_count(caps)
                    &&& images@.len() == image_views@.len()
                    &&& images@.len() >= spec_image_count(caps)
                },
                Err(e) => e == InitError::SwapchainCreation
                    && (images@.len() != image_views@.len()
                        || images@.len() < spec_image_count(caps)),
            },
    {
        let requested = choose_min_image_count(caps);
        let extent = choose_extent(caps, window_extent);
        if images.len() != image_views.len() || images.len() < requested as usize {
            return Err(InitError::SwapchainCreation);
        }
        let mut image_list = HandleList::new();
        let mut i: usize = 0;
        while i < images.len()
            invariant
                i <= images@.len(),
                handles_of(image_list) == images@.subrange(0, i as int),
            decreases images@.len() - i,
        {
            image_list.push(images[i]);
            proof {
                assert(images@.subrange(0, i as int).push(images@[i as int])
                    =~= images@.subrange(0, i as int + 1));
            }
            i = i + 1;
        }
        proof {
            assert(images@.subrange(0, images@.len() as int) =~= images@);
        }
        let mut view_list = HandleList::new();
        let mut k: usize = 0;
        while k < image_views.len()
            invariant
                k <= image_views@.len(),
                handles_of(view_list) == image_views@.subrange(0, k as int),
            decreases image_views@.len() - k,
        {
            view_list.push(image_views[k]);
            proof {
                assert(image_views@.subrange(0, k as int).push(image_views@[k as int])
                    =~= image_views@.subrange(0, k as int + 1));
            }
            k = k + 1;
        }
        proof {
            assert(image_views@.subrange(0, image_views@.len() as int) =~= image_views@);
        }
        Ok(SwapchainState {
            swapchain: swapchain_handle,
            images: image_list,
            image_views: view_list,
            image_extent: extent,
            format,
            requested_count: requested,
        })
    }

    /// How many presentable images the chain holds.
    pub fn image_count(&self) -> (n: usize)
        ensures
            n == self.spec_images().len(),
    {
        self.images.len()
    }

    /// The image and view for an acquired image index.
    ///
    /// Fails exactly when the index lies outside the chain, which means the
    /// driver broke the acquisition contract.
    pub fn get_image(&self, image_index: usize) -> (r: Result<(u64, u64), FrameError>)
        requires
            self.wf(),
        ensures
            match r {
                Ok(pair) => image_index < self.spec_images().len()
                    && pair.0 == self.spec_images()[image_index as int]
                    && pair.1 == self.spec_views()[image_index as int],
                Err(e) => e == FrameError::InvalidImageIndex
                    && image_index >= self.spec_images().len(),
            },
    {
        let count = self.images.len();
        if image_index >= count {
            return Err(FrameError::InvalidImageIndex);
        }
        let image = self.images.get(image_index);
        let view = self.image_views.get(image_index);
        Ok((image, view))
    }

    /// Copies the view handles out, in chain order, for teardown.
    pub fn views(&self) -> (r: Vec<u64>)
        ensures
            r@ == self.spec_views(),
    {
        let count = self.image_views.len();
        let mut out: Vec<u64> = Vec::new();
        let mut i: usize = 0;
        while i < count
            invariant
                i <= count,
                count == self.spec_views().len(),
                out@ == self.spec_views().subrange(0, i as int),
            decreases count - i,
        {
            let view = self.image_views.get(i);
            out.push(view);
            proof {
                assert(self.spec_views().subrange(0, i as int).push(
                    self.spec_views()[i as int])
                    =~= self.spec_views().subrange(0, i as int + 1));
            }
            i = i + 1;
        }
        proof {
            assert(self.spec_views().subrange(0, self.spec_views().len() as int)
                =~= self.spec_views());
        }
        out
    }
}

} // verus!
