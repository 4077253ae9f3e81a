//! The image collaborator: a native image handle together with a shared
//! reference to the device that owns it.
use std::rc::Rc;
use std::sync::Arc;
use vstd::prelude::*;
use crate::device::DeviceShared;

verus! {

/// The internal state of an image, shared by the image and its views.
pub struct ImageShared {
    shared_device: Arc<DeviceShared>,
    native_image: u64,
}

impl ImageShared {
    /// The device the image was created on.
    pub closed spec fn spec_device(&self) -> DeviceShared {
        *self.shared_device
    }

    /// The native image handle.
    pub closed spec fn spec_native(&self) -> u64 {
        self.native_image
    }

    pub fn new(shared_device: Arc<DeviceShared>, native_image: u64) -> (r: ImageShared)
        ensures
            r.spec_device() == *shared_device,
            r.spec_native() == native_image,
    {
        ImageShared { shared_device, native_image }
    }

    /// Another share of the owning device.
    pub fn device(&self) -> (r: Arc<DeviceShared>)
        ensures
            *r == self.spec_device(),
    {
        Arc::clone(&self.shared_device)
    }

    pub fn native(&self) -> (r: u64)
        ensures
            r == self.spec_native(),
    {
        self.native_image
    }
}

/// The application-facing image: a handle over its shared internal state.
pub struct Image {
    shared_image: Rc<ImageShared>,
}

impl Image {
    /// The image's internal state.
    pub closed spec fn spec_shared(&self) -> ImageShared {
        *self.shared_image
    }

    /// Wraps a native image created on `shared_device`.
    pub fn new(shared_device: Arc<DeviceShared>, native_image: u64) -> (r: Image)
        ensures
            r.spec_shared().spec_device() == *shared_device,
            r.spec_shared().spec_native() == native_image,
    {
        Image { shared_image: Rc::new(ImageShared::new(shared_device, native_image)) }
    }

    /// Another share of the image's internal state.
    pub fn shared(&self) -> (r: Rc<ImageShared>)
        ensures
            *r == self.spec_shared(),
    {
        Rc::clone(&self.shared_image)
    }

    pub fn native(&self) -> (r: u64)
        ensures
            r == self.spec_shared().spec_native(),
    {
        self.shared_image.native()
    }
}

} // verus!
