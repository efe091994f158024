use std::collections::HashSet;

use vk_engine::error::EngineError;
use vk_engine::surface::{Extent2D, SurfaceCapabilities};
use vk_engine::swapchain::{
    PendingChain, Phase, Release, ResizePlan, Retired, Swapchain, COLOR_SPACE_SRGB_NONLINEAR,
    FORMAT_B8G8R8A8_SRGB, NULL_HANDLE, PRESENT_MODE_FIFO,
};

/// A stand-in for the driver that hands out handles and tracks which are alive.
struct MockDriver {
    next: u64,
    images_per_chain: usize,
    fail_view_after: Option<usize>,
    views_made: usize,
    live_chains: HashSet<u64>,
    live_views: HashSet<u64>,
    released: Vec<Release>,
}

impl MockDriver {
    fn new(images_per_chain: usize) -> Self {
        MockDriver {
            next: 1,
            images_per_chain,
            fail_view_after: None,
            views_made: 0,
            live_chains: HashSet::new(),
            live_views: HashSet::new(),
            released: vec![],
        }
    }

    fn fresh(&mut self) -> u64 {
        let h = self.next;
        self.next += 1;
        h
    }

    fn release(&mut self, retired: Retired) {
        for r in retired.release_order() {
            match r {
                Release::ImageView(v) => assert!(self.live_views.remove(&v), "double free"),
                Release::Chain(c) => assert!(self.live_chains.remove(&c), "double free"),
            }
            self.released.push(r);
        }
    }

    fn resize(
        &mut self,
        swapchain: &mut Swapchain,
        caps: &SurfaceCapabilities,
        size: Extent2D,
    ) -> Result<(), EngineError> {
        match swapchain.resize_plan(caps, size) {
            ResizePlan::Pause { extent } => {
                let retired = swapchain.pause(extent);
                self.release(retired);
                Ok(())
            }
            ResizePlan::Recreate { request } => {
                let chain = self.fresh();
                self.live_chains.insert(chain);
                let images: Vec<u64> = (0..self.images_per_chain).map(|_| 1000 + self.fresh()).collect();
                let mut pending = PendingChain::new(&request, chain, images);
                while let Some(_image) = pending.next_image() {
                    if Some(self.views_made) == self.fail_view_after {
                        let abandoned = pending.abandon();
                        self.release(abandoned);
                        return Err(EngineError::ImageViewCreation);
                    }
                    self.views_made += 1;
                    let view = self.fresh();
                    self.live_views.insert(view);
                    pending.push_view(view);
                }
                assert!(pending.is_complete());
                let retired = swapchain.install(pending);
                self.release(retired);
                Ok(())
            }
        }
    }
}

fn window_caps() -> SurfaceCapabilities {
    SurfaceCapabilities {
        min_image_count: 2,
        max_image_count: 0,
        current_extent: Extent2D { width: 0xFFFF_FFFF, height: 0xFFFF_FFFF },
        min_image_extent: Extent2D { width: 1, height: 1 },
        max_image_extent: Extent2D { width: 4096, height: 4096 },
    }
}

#[test]
fn new_swapchain_is_empty() {
    let size = Extent2D { width: 640, height: 480 };
    let s = Swapchain::new(&window_caps(), size);
    assert_eq!(s.phase(), Phase::Empty);
    assert_eq!(s.handle(), NULL_HANDLE);
    assert_eq!(s.format(), FORMAT_B8G8R8A8_SRGB);
    assert_eq!(s.extent(), size);
    assert_eq!(s.desired_image_count(), 3);
    assert!(s.images().is_empty() && s.image_views().is_empty());
}

#[test]
fn resize_plan_requests_fixed_format_and_fifo() {
    let s = Swapchain::new(&window_caps(), Extent2D { width: 1, height: 1 });
    let plan = s.resize_plan(&window_caps(), Extent2D { width: 300, height: 200 });
    match plan {
        ResizePlan::Recreate { request } => {
            assert_eq!(request.min_image_count, 3);
            assert_eq!(request.format, FORMAT_B8G8R8A8_SRGB);
            assert_eq!(request.color_space, COLOR_SPACE_SRGB_NONLINEAR);
            assert_eq!(request.present_mode, PRESENT_MODE_FIFO);
            assert_eq!(request.extent, Extent2D { width: 300, height: 200 });
            assert_eq!(request.old_swapchain, NULL_HANDLE);
        }
        ResizePlan::Pause { .. } => panic!("nonzero size must recreate"),
    }
}

#[test]
fn resize_pairs_every_image_with_a_view() {
    let mut driver = MockDriver::new(3);
    let caps = window_caps();
    let mut s = Swapchain::new(&caps, Extent2D { width: 1, height: 1 });
    driver.resize(&mut s, &caps, Extent2D { width: 800, height: 600 }).unwrap();
    assert_eq!(s.phase(), Phase::Sized);
    assert_eq!(s.images().len(), 3);
    assert_eq!(s.image_views().len(), s.images().len());
    assert_eq!(driver.live_views.len(), 3);
    assert_eq!(driver.live_chains.len(), 1);
}

#[test]
fn resize_twice_with_same_size_is_repeatable() {
    let mut driver = MockDriver::new(3);
    let caps = window_caps();
    let size = Extent2D { width: 800, height: 600 };
    let mut s = Swapchain::new(&caps, size);
    driver.resize(&mut s, &caps, size).unwrap();
    let (count1, extent1, chain1) = (s.images().len(), s.extent(), s.handle());
    match s.resize_plan(&caps, size) {
        ResizePlan::Recreate { request } => assert_eq!(request.old_swapchain, chain1),
        ResizePlan::Pause { .. } => panic!("nonzero size must recreate"),
    }
    driver.resize(&mut s, &caps, size).unwrap();
    assert_eq!(s.images().len(), count1);
    assert_eq!(s.extent(), extent1);
    assert_eq!(s.image_views().len(), s.images().len());
    assert_eq!(driver.live_chains.len(), 1);
    assert!(!driver.live_chains.contains(&chain1));
}

#[test]
fn old_views_are_released_before_old_chain() {
    let mut driver = MockDriver::new(2);
    let caps = window_caps();
    let size = Extent2D { width: 10, height: 10 };
    let mut s = Swapchain::new(&caps, size);
    driver.resize(&mut s, &caps, size).unwrap();
    let old_views = s.image_views().clone();
    let old_chain = s.handle();
    driver.resize(&mut s, &caps, size).unwrap();
    assert_eq!(
        driver.released,
        vec![
            Release::ImageView(old_views[0]),
            Release::ImageView(old_views[1]),
            Release::Chain(old_chain),
        ]
    );
}

#[test]
fn zero_area_pauses_and_nonzero_resumes() {
    let mut driver = MockDriver::new(3);
    let caps = window_caps();
    let mut s = Swapchain::new(&caps, Extent2D { width: 800, height: 600 });
    driver.resize(&mut s, &caps, Extent2D { width: 800, height: 600 }).unwrap();
    driver.resize(&mut s, &caps, Extent2D { width: 0, height: 600 }).unwrap();
    assert_eq!(s.phase(), Phase::Paused);
    assert_eq!(s.handle(), NULL_HANDLE);
    assert!(s.images().is_empty() && s.image_views().is_empty());
    assert!(driver.live_chains.is_empty() && driver.live_views.is_empty());
    match s.resize_plan(&caps, Extent2D { width: 1024, height: 768 }) {
        ResizePlan::Recreate { request } => assert_eq!(request.old_swapchain, NULL_HANDLE),
        ResizePlan::Pause { .. } => panic!("nonzero size must recreate"),
    }
    driver.resize(&mut s, &caps, Extent2D { width: 1024, height: 768 }).unwrap();
    assert_eq!(s.phase(), Phase::Sized);
    assert_eq!(s.extent(), Extent2D { width: 1024, height: 768 });
    assert_eq!(s.image_views().len(), 3);
    assert_eq!(s.images().len(), 3);
}

#[test]
fn zero_area_on_empty_swapchain_is_not_an_error() {
    let mut driver = MockDriver::new(3);
    let caps = window_caps();
    let mut s = Swapchain::new(&caps, Extent2D { width: 0, height: 0 });
    assert!(driver.resize(&mut s, &caps, Extent2D { width: 0, height: 0 }).is_ok());
    assert_eq!(s.phase(), Phase::Paused);
    assert!(driver.released.is_empty());
}

#[test]
fn failed_view_creation_keeps_previous_chain() {
    let mut driver = MockDriver::new(3);
    let caps = window_caps();
    let size = Extent2D { width: 64, height: 64 };
    let mut s = Swapchain::new(&caps, size);
    driver.resize(&mut s, &caps, size).unwrap();
    let chain = s.handle();
    let views = s.image_views().clone();
    driver.fail_view_after = Some(driver.views_made + 1);
    let err = driver.resize(&mut s, &caps, Extent2D { width: 32, height: 32 });
    assert_eq!(err, Err(EngineError::ImageViewCreation));
    assert_eq!(s.handle(), chain);
    assert_eq!(s.image_views(), &views);
    assert_eq!(s.extent(), size);
    assert_eq!(driver.live_chains.len(), 1);
    assert_eq!(driver.live_views.len(), 3);
}

#[test]
fn teardown_releases_views_then_chain_once() {
    let mut driver = MockDriver::new(2);
    let caps = window_caps();
    let size = Extent2D { width: 64, height: 64 };
    let mut s = Swapchain::new(&caps, size);
    driver.resize(&mut s, &caps, size).unwrap();
    let views = s.image_views().clone();
    let chain = s.handle();
    let retired = s.teardown();
    assert_eq!(
        retired.release_order(),
        vec![Release::ImageView(views[0]), Release::ImageView(views[1]), Release::Chain(chain)]
    );
    driver.release(retired);
    let again = s.teardown();
    assert!(again.release_order().is_empty());
    assert!(driver.live_chains.is_empty() && driver.live_views.is_empty());
}

#[test]
fn teardown_of_never_sized_swapchain_releases_nothing() {
    let mut s = Swapchain::new(&window_caps(), Extent2D { width: 5, height: 5 });
    assert!(s.teardown().release_order().is_empty());
}

#[test]
fn sentinel_extent_drives_resize_from_window_size() {
    let caps = window_caps();
    let s = Swapchain::new(&caps, Extent2D { width: 1280, height: 720 });
    assert_eq!(s.extent(), Extent2D { width: 1280, height: 720 });
    match s.resize_plan(&caps, Extent2D { width: 1920, height: 1080 }) {
        ResizePlan::Recreate { request } => {
            assert_eq!(request.extent, Extent2D { width: 1920, height: 1080 })
        }
        ResizePlan::Pause { .. } => panic!("nonzero size must recreate"),
    }
}
