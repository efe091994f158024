use vstd::prelude::*;

use crate::surface::{Extent2D, SurfaceCapabilities};

verus! {

/// 8-bit BGRA with the sRGB transfer function: the one image format used.
pub const FORMAT_B8G8R8A8_SRGB: i32 = 50;

/// The sRGB non-linear color space.
pub const COLOR_SPACE_SRGB_NONLINEAR: i32 = 0;

/// The blocking first-in first-out present mode, which every surface supports.
pub const PRESENT_MODE_FIFO: i32 = 2;

/// The null value of a driver handle.
pub const NULL_HANDLE: u64 = 0;

/// Where a swapchain stands in its lifecycle.
#[derive(Clone, Copy, Debug, PartialEq, Eq, Structural)]
pub enum Phase {
    /// Created, never sized: no chain yet.
    Empty,
    /// A chain with its images and one view per image.
    Sized,
    /// Sized once, then released for a zero-area window or at teardown.
    Paused,
}

/// What the driver is asked for when a chain is created.
#[derive(Clone, Copy, Debug, PartialEq, Eq, Structural)]
pub struct SwapchainRequest {
    pub min_image_count: u32,
    pub format: i32,
    pub color_space: i32,
    pub present_mode: i32,
    pub extent: Extent2D,
    /// The chain that the new one replaces, or the null handle.
    pub old_swapchain: u64,
}

/// What a resize has to do.
#[derive(Clone, Copy, Debug, PartialEq, Eq, Structural)]
pub enum ResizePlan {
    /// The window has zero area: release the chain and create none.
    Pause { extent: Extent2D },
    /// Create a chain from this request.
    Recreate { request: SwapchainRequest },
}

/// One handle to hand back to the driver.
#[derive(Clone, Copy, Debug, PartialEq, Eq, Structural)]
pub enum Release {
    ImageView(u64),
    Chain(u64),
}

/// Handles that their owner gave up and that must be destroyed: the views
/// first, then the chain.
pub struct Retired {
    pub image_views: Vec<u64>,
    pub chain: u64,
}

pub open spec fn release_sequence(image_views: Seq<u64>, chain: u64) -> Seq<Release> {
    image_views.map_values(|v: u64| Release::ImageView(v)) + if chain == NULL_HANDLE {
        Seq::<Release>::empty()
    } else {
        seq![Release::Chain(chain)]
    }
}

impl Retired {
    /// The order of destruction: every image view, then the chain when there is one.
    pub fn release_order(&self) -> (r: Vec<Release>)
        ensures
            r@ == release_sequence(self.image_views@, self.chain),
    {
        let mut out: Vec<Release> = Vec::new();
        let mut i: usize = 0;
        while i < self.image_views.len()
            invariant
                i <= self.image_views@.len(),
                out@ == self.image_views@.take(i as int).map_values(|v: u64| Release::ImageView(v)),
            decreases self.image_views@.len() - i,
        {
            out.push(Release::ImageView(self.image_views[i]));
            i = i + 1;
            proof {
                assert(self.image_views@.take(i as int).drop_last() =~= self.image_views@.take(
                    i - 1,
                ));
                assert(out@ =~= self.image_views@.take(i as int).map_values(
                    |v: u64| Release::ImageView(v),
                ));
            }
        }
        proof {
            assert(self.image_views@.take(i as int) =~= self.image_views@);
        }
        if self.chain != NULL_HANDLE {
            out.push(Release::Chain(self.chain));
        }
        proof {
            assert(out@ =~= release_sequence(self.image_views@, self.chain));
        }
        out
    }
}

/// The state of a swapchain as the contracts see it.
pub struct SwapchainView {
    pub phase: Phase,
    pub desired_image_count: u32,
    pub format: i32,
    pub extent: Extent2D,
    pub handle: u64,
    pub images: Seq<u64>,
    pub image_views: Seq<u64>,
}

/// A new chain whose image views are being created.
pub struct PendingView {
    pub handle: u64,
    pub extent: Extent2D,
    pub images: Seq<u64>,
    pub image_views: Seq<u64>,
}

impl PendingView {
    pub open spec fn wf(self) -> bool {
        &&& self.handle != NULL_HANDLE
        &&& self.image_views.len() <= self.images.len()
    }

    pub open spec fn complete(self) -> bool {
        self.wf() && self.image_views.len() == self.images.len()
    }
}

impl SwapchainView {
    /// One view per image, a chain exactly when sized, and the fixed format.
    pub open spec fn wf(self) -> bool {
        &&& self.format == FORMAT_B8G8R8A8_SRGB
        &&& self.image_views.len() == self.images.len()
        &&& (self.phase == Phase::Sized <==> self.handle != NULL_HANDLE)
        &&& (self.phase != Phase::Sized ==> self.images.len() == 0)
    }

    pub open spec fn plan(self, caps: SurfaceCapabilities, window_size: Extent2D) -> ResizePlan {
        let extent = caps.spec_chosen_extent(window_size);
        if extent.is_zero_area() {
            ResizePlan::Pause { extent }
        } else {
            ResizePlan::Recreate {
                request: SwapchainRequest {
                    min_image_count: self.desired_image_count,
                    format: self.format,
                    color_space: COLOR_SPACE_SRGB_NONLINEAR,
                    present_mode: PRESENT_MODE_FIFO,
                    extent,
                    old_swapchain: self.handle,
                },
            }
        }
    }

    /// Everything released, no chain created.
    pub open spec fn paused(self, extent: Extent2D) -> SwapchainView {
        SwapchainView {
            phase: Phase::Paused,
            extent,
            handle: NULL_HANDLE,
            images: Seq::empty(),
            image_views: Seq::empty(),
            ..self
        }
    }

    /// The pending chain in place of the current one.
    pub open spec fn installed(self, p: PendingView) -> SwapchainView {
        SwapchainView {
            phase: Phase::Sized,
            extent: p.extent,
            handle: p.handle,
            images: p.images,
            image_views: p.image_views,
            ..self
        }
    }
}

/// The chain of presentable images of one window, with a view of each image.
/// The images belong to the driver; the views and the chain belong to this value.
pub struct Swapchain {
    desired_image_count: u32,
    format: i32,
    extent: Extent2D,
    phase: Phase,
    handle: u64,
    images: Vec<u64>,
    image_views: Vec<u64>,
}

impl View for Swapchain {
    type V = SwapchainView;

    closed spec fn view(&self) -> SwapchainView {
        SwapchainView {
            phase: self.phase,
            desired_image_count: self.desired_image_count,
            format: self.format,
            extent: self.extent,
            handle: self.handle,
            images: self.images@,
            image_views: self.image_views@,
        }
    }
}

/// A new chain whose images were fetched and whose views are being created,
/// one per image, in the order of the images.
pub struct PendingChain {
    handle: u64,
    extent: Extent2D,
    images: Vec<u64>,
    image_views: Vec<u64>,
}

impl View for PendingChain {
    type V = PendingView;

    closed spec fn view(&self) -> PendingView {
        PendingView {
            handle: self.handle,
            extent: self.extent,
            images: self.images@,
            image_views: self.image_views@,
        }
    }
}

impl PendingChain {
    /// Starts from the chain `handle` created for `request` and its images.
    pub fn new(request: &SwapchainRequest, handle: u64, images: Vec<u64>) -> (r: PendingChain)
        requires
            handle != NULL_HANDLE,
        ensures
            r@ == (PendingView {
                handle,
                extent: request.extent,
                images: images@,
                image_views: Seq::empty(),
            }),
            r@.wf(),
    {
        PendingChain { handle, extent: request.extent, images, image_views: Vec::new() }
    }

    /// The image whose view comes next, if one is still missing.
    pub fn next_image(&self) -> (r: Option<u64>)
        requires
            self@.wf(),
        ensures
            self@.image_views.len() < self@.images.len() ==> r == Some(
                self@.images[self@.image_views.len() as int],
            ),
            self@.image_views.len() == self@.images.len() ==> r is None,
    {
        if self.image_views.len() < self.images.len() {
            Some(self.images[self.image_views.len()])
        } else {
            None
        }
    }

    /// Records the view just created of the next image.
    pub fn push_view(&mut self, view: u64)
        requires
            old(self)@.wf(),
            old(self)@.image_views.len() < old(self)@.images.len(),
        ensures
            final(self)@ == (PendingView {
                image_views: old(self)@.image_views.push(view),
                ..old(self)@
            }),
            final(self)@.wf(),
    {
        self.image_views.push(view);
    }

    /// Whether every image has its view.
    pub fn is_complete(&self) -> (r: bool)
        requires
            self@.wf(),
        ensures
            r == self@.complete(),
    {
        self.image_views.len() == self.images.len()
    }

    /// Gives up the new chain: the views made so far, then the chain, are to be destroyed.
    pub fn abandon(self) -> (r: Retired)
        ensures
            r.image_views@ == self@.image_views,
            r.chain == self@.handle,
    {
        Retired { image_views: self.image_views, chain: self.handle }
    }
}

impl Swapchain {
    /// A swapchain with no chain yet, sized from the surface's capabilities.
    pub fn new(capabilities: &SurfaceCapabilities, window_size: Extent2D) -> (r: Swapchain)
        requires
            capabilities.well_formed(),
        ensures
            r@ == (SwapchainView {
                phase: Phase::Empty,
                desired_image_count: capabilities.spec_desired_image_count() as u32,
                format: FORMAT_B8G8R8A8_SRGB,
                extent: capabilities.spec_chosen_extent(window_size),
                handle: NULL_HANDLE,
                images: Seq::empty(),
                image_views: Seq::empty(),
            }),
            r@.wf(),
    {
        let r = Swapchain {
            desired_image_count: capabilities.desired_image_count(),
            format: FORMAT_B8G8R8A8_SRGB,
            extent: capabilities.chosen_extent(window_size),
            phase: Phase::Empty,
            handle: NULL_HANDLE,
            images: Vec::new(),
            image_views: Vec::new(),
        };
        proof {
            assert(r.images@ =~= Seq::<u64>::empty());
            assert(r.image_views@ =~= Seq::<u64>::empty());
        }
        r
    }

    /// What a resize to `window_size` must do, given freshly queried capabilities.
    pub fn resize_plan(&self, capabilities: &SurfaceCapabilities, window_size: Extent2D) -> (r:
        ResizePlan)
        ensures
            r == self@.plan(*capabilities, window_size),
            self@.wf() ==> (r matches ResizePlan::Recreate { request } ==> request.format
                == FORMAT_B8G8R8A8_SRGB && request.present_mode == PRESENT_MODE_FIFO
                && !request.extent.is_zero_area()),
    {
        let extent = capabilities.chosen_extent(window_size);
        if extent.has_zero_area() {
            ResizePlan::Pause { extent }
        } else {
            ResizePlan::Recreate {
                request: SwapchainRequest {
                    min_image_count: self.desired_image_count,
                    format: self.format,
                    color_space: COLOR_SPACE_SRGB_NONLINEAR,
                    present_mode: PRESENT_MODE_FIFO,
                    extent,
                    old_swapchain: self.handle,
                },
            }
        }
    }

    /// Releases the views and the chain and creates none.
    pub fn pause(&mut self, extent: Extent2D) -> (r: Retired)
        requires
            old(self)@.wf(),
        ensures
            final(self)@ == old(self)@.paused(extent),
            final(self)@.wf(),
            r.image_views@ == old(self)@.image_views,
            r.chain == old(self)@.handle,
    {
        let mut image_views: Vec<u64> = Vec::new();
        std::mem::swap(&mut image_views, &mut self.image_views);
        self.images = Vec::new();
        let chain = self.handle;
        self.handle = NULL_HANDLE;
        self.phase = Phase::Paused;
        self.extent = extent;
        proof {
            assert(self.images@ =~= Seq::<u64>::empty());
            assert(self.image_views@ =~= Seq::<u64>::empty());
            assert(self@ =~= old(self)@.paused(extent));
        }
        Retired { image_views, chain }
    }

    /// Puts a new chain with all its views in place and hands back the old
    /// views and the old chain, which the new chain replaced.
    pub fn install(&mut self, pending: PendingChain) -> (r: Retired)
        requires
            old(self)@.wf(),
            pending@.complete(),
        ensures
            final(self)@ == old(self)@.installed(pending@),
            final(self)@.wf(),
            r.image_views@ == old(self)@.image_views,
            r.chain == old(self)@.handle,
    {
        let PendingChain { handle, extent, images, image_views } = pending;
        let mut old_views = image_views;
        std::mem::swap(&mut old_views, &mut self.image_views);
        let old_chain = self.handle;
        self.images = images;
        self.handle = handle;
        self.extent = extent;
        self.phase = Phase::Sized;
        proof {
            assert(self@ =~= old(self)@.installed(pending@));
        }
        Retired { image_views: old_views, chain: old_chain }
    }

    /// Releases everything at teardown; a second call releases nothing.
    pub fn teardown(&mut self) -> (r: Retired)
        requires
            old(self)@.wf(),
        ensures
            final(self)@ == old(self)@.paused(old(self)@.extent),
            final(self)@.wf(),
            r.image_views@ == old(self)@.image_views,
            r.chain == old(self)@.handle,
    {
        let extent = self.extent;
        self.pause(extent)
    }

    pub fn phase(&self) -> (r: Phase)
        ensures
            r == self@.phase,
    {
        self.phase
    }

    pub fn desired_image_count(&self) -> (r: u32)
        ensures
            r == self@.desired_image_count,
    {
        self.desired_image_count
    }

    pub fn format(&self) -> (r: i32)
        ensures
            r == self@.format,
    {
        self.format
    }

    pub fn extent(&self) -> (r: Extent2D)
        ensures
            r == self@.extent,
    {
        self.extent
    }

    pub fn handle(&self) -> (r: u64)
        ensures
            r == self@.handle,
    {
        self.handle
    }

    pub fn images(&self) -> (r: &Vec<u64>)
        ensures
            r@ == self@.images,
    {
        &self.images
    }

    pub fn image_views(&self) -> (r: &Vec<u64>)
        ensures
            r@ == self@.image_views,
    {
        &self.image_views
    }
}

/// Resizing twice to the same window size against the same capabilities
/// makes the same decision both times: two pauses leave the same state as
/// one, and two recreations ask the driver for the same images and extent,
/// the second naming the first chain as the one it replaces.
pub proof fn lemma_resize_repeatable(
    s: SwapchainView,
    caps: SurfaceCapabilities,
    window_size: Extent2D,
    first: PendingView,
)
    requires
        s.wf(),
        first.complete(),
    ensures
        s.plan(caps, window_size) matches ResizePlan::Pause { extent } ==> {
            &&& s.paused(extent).plan(caps, window_size) == s.plan(caps, window_size)
            &&& s.paused(extent).paused(extent) == s.paused(extent)
        },
        s.plan(caps, window_size) matches ResizePlan::Recreate { request } ==> (
        first.extent == request.extent ==> {
            let s1 = s.installed(first);
            &&& s1.extent == request.extent
            &&& !s1.extent.is_zero_area()
            &&& s1.wf()
            &&& s1.plan(caps, window_size) == (ResizePlan::Recreate {
                request: SwapchainRequest { old_swapchain: first.handle, ..request },
            })
            &&& forall|second: PendingView|
                second.complete() && second.extent == request.extent ==> s1.installed(
                    second,
                ).extent == s1.extent && s1.installed(second).desired_image_count
                    == s1.desired_image_count
        }),
{
}

/// After a successful resize every image has exactly one view.
pub proof fn lemma_resize_pairs_views(s: SwapchainView, p: PendingView)
    requires
        s.wf(),
        p.complete(),
    ensures
        s.installed(p).wf(),
        s.installed(p).image_views.len() == s.installed(p).images.len(),
        s.installed(p).phase == Phase::Sized,
{
}

/// A resize to a zero-area window pauses the swapchain with nothing left to
/// release, and a later resize to a nonzero size creates a fresh chain that
/// replaces none and leaves the swapchain sized with one view per image.
pub proof fn lemma_pause_then_resume(
    s: SwapchainView,
    caps: SurfaceCapabilities,
    zero_size: Extent2D,
    live_size: Extent2D,
    p: PendingView,
)
    requires
        s.wf(),
        caps.spec_chosen_extent(zero_size).is_zero_area(),
        !caps.spec_chosen_extent(live_size).is_zero_area(),
        p.complete(),
        p.extent == caps.spec_chosen_extent(live_size),
    ensures
        s.plan(caps, zero_size) == (ResizePlan::Pause { extent: caps.spec_chosen_extent(zero_size) }),
        ({
            let s1 = s.paused(caps.spec_chosen_extent(zero_size));
            &&& s1.wf()
            &&& s1.phase == Phase::Paused
            &&& s1.plan(caps, live_size) matches ResizePlan::Recreate { request }
            &&& request.old_swapchain == NULL_HANDLE
            &&& request.extent == caps.spec_chosen_extent(live_size)
            &&& s1.installed(p).wf()
            &&& s1.installed(p).phase == Phase::Sized
            &&& s1.installed(p).extent == caps.spec_chosen_extent(live_size)
            &&& s1.installed(p).image_views.len() == s1.installed(p).images.len()
        }),
{
}

} // verus!
