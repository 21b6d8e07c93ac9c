//! Adapter selection for the graphics context.
//!
//! The context owns the device and queue; both handles live with the host
//! glue.  What this layer decides is whether a candidate adapter satisfies
//! the capability requirement of the workflow about to run: the compute
//! workflow demands compute-shader support, the render workflow does not.

use vstd::prelude::*;

verus! {

/// Why the graphics context could not be created.
#[derive(Clone, Copy, Debug, PartialEq, Eq, Structural)]
pub enum StartupError {
    /// No adapter satisfies the capability requirement.
    UnsupportedAdapter,
    /// The adapter refused to create a device/queue pair.
    DeviceRequest,
}

/// The capabilities of a candidate adapter that the requirement reads.
#[derive(Clone, Copy, Debug, PartialEq, Eq, Structural)]
pub struct AdapterCapabilities {
    /// Whether the adapter can run compute kernels.
    pub compute_shaders: bool,
}

/// Accepts or rejects a candidate adapter: it passes exactly when compute
/// shaders are either not required or supported; otherwise context creation
/// aborts with `UnsupportedAdapter`.
pub fn validate_adapter(capabilities: &AdapterCapabilities, require_compute: bool) -> (result:
    Result<(), StartupError>)
    ensures
        result is Ok <==> (!require_compute || capabilities.compute_shaders),
        result is Err ==> result == Result::<(), StartupError>::Err(
            StartupError::UnsupportedAdapter,
        ),
{
    if require_compute && !capabilities.compute_shaders {
        Err(StartupError::UnsupportedAdapter)
    } else {
        Ok(())
    }
}

} // verus!
