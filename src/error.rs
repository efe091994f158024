use vstd::prelude::*;

verus! {

/// Failures of the graphics core, one variant per class of API call.
#[derive(Clone, Copy, Debug, PartialEq, Eq, Structural)]
pub enum EngineError {
    InstanceCreation,
    NoSuitableDevice,
    DeviceCreation,
    SurfaceQuery,
    NoSurfaceSupport,
    SwapchainCreation,
    ImageViewCreation,
}

} // verus!
