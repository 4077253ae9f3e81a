//! The device collaborator: the native device, identified by its raw handle, that images and
//! views are created on and destroyed through.
use vstd::prelude::*;

verus! {

/// The state of a logical device that images and views share.
pub struct DeviceShared {
    native_device: u64,
}

impl DeviceShared {
    /// The native device handle.
    pub closed spec fn spec_native(&self) -> u64 {
        self.native_device
    }

    pub fn new(native_device: u64) -> (r: DeviceShared)
        ensures
            r.spec_native() == native_device,
    {
        DeviceShared { native_device }
    }

    pub fn native(&self) -> (r: u64)
        ensures
            r == self.spec_native(),
    {
        self.native_device
    }
}

} // verus!
