//! Image views: the configuration builder, the shared view state, and the
//! public handle.
//!
//! Creating a view is done in two steps around the native call: `request`
//! computes exactly what the native "create image view" call is given, and
//! `new` turns that call's outcome into a view or an error. Destruction is
//! the mirror image: the last handle to go hands back the shared state,
//! whose `release_request` names what the native "destroy image view" call
//! is given.
use std::rc::Rc;
use std::sync::Arc;
use vstd::prelude::*;
use ash::vk::{Format, ImageAspectFlags, ImageSubresourceRange, ImageViewType};
use crate::device::DeviceShared;
use crate::error::Error;
use crate::image::{Image, ImageShared};
use crate::native::{aspect_mask_of, format_of, view_type_of};

verus! {

/// The model of a view configuration.
pub struct ViewConfig {
    pub format: Format,
    pub image_view_type: ImageViewType,
    pub aspect_mask: ImageAspectFlags,
    pub layer_count: u32,
    pub level_count: u32,
}

/// The configuration whose fields are all zero: undefined format,
/// 1D view type, empty aspect mask, no layers and no levels.
pub open spec fn zero_config() -> ViewConfig {
    ViewConfig {
        format: format_of(0),
        image_view_type: view_type_of(0),
        aspect_mask: aspect_mask_of(0),
        layer_count: 0,
        level_count: 0,
    }
}

/// Specifies how to create an [`ImageView`].
#[derive(Clone, Copy, Debug)]
pub struct ImageViewInfo {
    format: Format,
    image_view_type: ImageViewType,
    aspect_mask: ImageAspectFlags,
    layer_count: u32,
    level_count: u32,
}

impl View for ImageViewInfo {
    type V = ViewConfig;

    closed spec fn view(&self) -> ViewConfig {
        ViewConfig {
            format: self.format,
            image_view_type: self.image_view_type,
            aspect_mask: self.aspect_mask,
            layer_count: self.layer_count,
            level_count: self.level_count,
        }
    }
}

impl Default for ImageViewInfo {
    fn default() -> (r: ImageViewInfo)
        ensures
            r@ == zero_config(),
    {
        ImageViewInfo::new()
    }
}

impl ImageViewInfo {
    /// A configuration with every field zero: undefined format, 1D view
    /// type, empty aspect mask, no layers and no levels.
    pub fn new() -> (r: ImageViewInfo)
        ensures
            r@ == zero_config(),
    {
        ImageViewInfo {
            format: Format::from_raw(0),
            image_view_type: ImageViewType::from_raw(0),
            aspect_mask: ImageAspectFlags::from_raw(0),
            layer_count: 0,
            level_count: 0,
        }
    }

    pub fn format(self, format: Format) -> (r: Self)
        ensures
            r@ == (ViewConfig { format, ..self@ }),
    {
        ImageViewInfo { format, ..self }
    }

    pub fn image_view_type(self, image_view_type: ImageViewType) -> (r: Self)
        ensures
            r@ == (ViewConfig { image_view_type, ..self@ }),
    {
        ImageViewInfo { image_view_type, ..self }
    }

    pub fn aspect_mask(self, aspect_mask: ImageAspectFlags) -> (r: Self)
        ensures
            r@ == (ViewConfig { aspect_mask, ..self@ }),
    {
        ImageViewInfo { aspect_mask, ..self }
    }

    pub fn layer_count(self, layer_count: u32) -> (r: Self)
        ensures
            r@ == (ViewConfig { layer_count, ..self@ }),
    {
        ImageViewInfo { layer_count, ..self }
    }

    pub fn level_count(self, level_count: u32) -> (r: Self)
        ensures
            r@ == (ViewConfig { level_count, ..self@ }),
    {
        ImageViewInfo { level_count, ..self }
    }
}

/// What the native "create image view" call is given: the device it is
/// issued on, the image viewed, and the translated configuration.
pub struct ViewRequest {
    pub device: u64,
    pub image: u64,
    pub format: Format,
    pub view_type: ImageViewType,
    pub subresource_range: ImageSubresourceRange,
}

/// The request that creates a view of `image` as `config` describes: the
/// aspect mask, layer count and level count become a subresource range
/// that starts at the first layer and the first level.
pub open spec fn create_request(image: ImageShared, config: ViewConfig) -> ViewRequest {
    ViewRequest {
        device: image.spec_device().spec_native(),
        image: image.spec_native(),
        format: config.format,
        view_type: config.image_view_type,
        subresource_range: ImageSubresourceRange {
            aspect_mask: config.aspect_mask,
            base_mip_level: 0,
            level_count: config.level_count,
            base_array_layer: 0,
            layer_count: config.layer_count,
        },
    }
}

/// What the native "destroy image view" call is given.
pub struct ReleaseRequest {
    pub device: u64,
    pub view: u64,
}

/// The request that destroys the view whose shared state is `view`.
pub open spec fn release_of(view: ImageViewShared) -> ReleaseRequest {
    ReleaseRequest { device: view.spec_device().spec_native(), view: view.spec_native() }
}

/// The state that every handle of one view shares. It keeps the image's
/// internal state and the device alive for as long as it exists.
pub struct ImageViewShared {
    shared_image: Rc<ImageShared>,
    shared_device: Arc<DeviceShared>,
    native_view: u64,
}

impl ImageViewShared {
    /// The native view handle.
    pub closed spec fn spec_native(&self) -> u64 {
        self.native_view
    }

    /// The internal state of the owning image.
    pub closed spec fn spec_image(&self) -> ImageShared {
        *self.shared_image
    }

    /// The owning device.
    pub closed spec fn spec_device(&self) -> DeviceShared {
        *self.shared_device
    }

    /// The request for the native creation of a view of `shared_image`.
    pub fn request(shared_image: &ImageShared, info: &ImageViewInfo) -> (r: ViewRequest)
        ensures
            r == create_request(*shared_image, info@),
    {
        let shared_device = shared_image.device();
        let subresource_range = ImageSubresourceRange {
            aspect_mask: info.aspect_mask,
            base_mip_level: 0,
            level_count: info.level_count,
            base_array_layer: 0,
            layer_count: info.layer_count,
        };
        ViewRequest {
            device: shared_device.native(),
            image: shared_image.native(),
            format: info.format,
            view_type: info.image_view_type,
            subresource_range,
        }
    }

    /// The view state for the outcome of the native creation call: on
    /// success it holds the new handle and shares of the image's state and
    /// of its device; on failure nothing is kept and the status code is
    /// reported.
    pub fn new(shared_image: Rc<ImageShared>, created: Result<u64, ash::vk::Result>) -> (r: Result<
        Self,
        Error,
    >)
        ensures
            match created {
                Ok(view) => r matches Ok(s) && s.spec_native() == view && s.spec_image()
                    == *shared_image && s.spec_device() == shared_image.spec_device(),
                Err(code) => r == Err::<Self, Error>(Error::Native(code)),
            },
    {
        match created {
            Ok(native_view) => {
                let shared_device = shared_image.device();
                Ok(ImageViewShared { shared_image, shared_device, native_view })
            },
            Err(code) => Err(Error::Native(code)),
        }
    }

    pub fn native(&self) -> (r: u64)
        ensures
            r == self.spec_native(),
    {
        self.native_view
    }

    /// Another share of the owning image's state.
    pub fn image(&self) -> (r: Rc<ImageShared>)
        ensures
            *r == self.spec_image(),
    {
        Rc::clone(&self.shared_image)
    }

    /// The request for the native destruction of this view: the view handle
    /// and the device it was created on, and nothing of the image.
    pub fn release_request(&self) -> (r: ReleaseRequest)
        ensures
            r == release_of(*self),
    {
        ReleaseRequest { device: self.shared_device.native(), view: self.native_view }
    }
}

/// View of an [`Image`]: a cheaply cloned handle over shared view state.
/// Clones share the state and never duplicate the native view.
pub struct ImageView {
    shared_view: Rc<ImageViewShared>,
}

impl Clone for ImageView {
    /// Another handle over the same view state; no native call is made.
    fn clone(&self) -> (r: Self)
        ensures
            r.spec_shared() == self.spec_shared(),
    {
        ImageView { shared_view: Rc::clone(&self.shared_view) }
    }
}

impl ImageView {
    /// The view state this handle shares.
    pub closed spec fn spec_shared(&self) -> ImageViewShared {
        *self.shared_view
    }

    /// The request for the native creation of a view of `image`.
    pub fn request(image: &Image, info: &ImageViewInfo) -> (r: ViewRequest)
        ensures
            r == create_request(image.spec_shared(), info@),
    {
        let shared_image = image.shared();
        ImageViewShared::request(&shared_image, info)
    }

    /// The first handle of a view of `image`, from the outcome of the native
    /// creation call; a failure is reported as is.
    pub fn new(image: &Image, created: Result<u64, ash::vk::Result>) -> (r: Result<Self, Error>)
        ensures
            match created {
                Ok(view) => r matches Ok(v) && v.spec_shared().spec_native() == view
                    && v.spec_shared().spec_image() == image.spec_shared()
                    && v.spec_shared().spec_device() == image.spec_shared().spec_device(),
                Err(code) => r == Err::<Self, Error>(Error::Native(code)),
            },
    {
        match ImageViewShared::new(image.shared(), created) {
            Ok(shared_view) => Ok(ImageView { shared_view: Rc::new(shared_view) }),
            Err(e) => Err(e),
        }
    }

    /// Another share of the view state.
    pub fn shared(&self) -> (r: Rc<ImageViewShared>)
        ensures
            *r == self.spec_shared(),
    {
        Rc::clone(&self.shared_view)
    }

    /// The native view handle.
    pub fn native(&self) -> (r: u64)
        ensures
            r == self.spec_shared().spec_native(),
    {
        self.shared_view.native()
    }

    /// The native handle of the owning image.
    pub fn native_image(&self) -> (r: u64)
        ensures
            r == self.spec_shared().spec_image().spec_native(),
    {
        self.shared_view.shared_image.native()
    }

    /// Gives up this handle. The last handle of a view gets the view state
    /// back, whose `release_request` is then to be carried out; every other
    /// handle gets `None`.
    pub fn release(self) -> (r: Option<ImageViewShared>)
        ensures
            r matches Some(s) ==> s == self.spec_shared(),
    {
        Rc::into_inner(self.shared_view)
    }
}

/// A view made from the outcome of the creation request for `image` refers
/// to the image and the device that the request named: its native image is
/// the request's image, and the request that destroys it goes to the
/// request's device and names the view alone, not the image. The creation
/// request for a further view of the same image is the same as for this one.
pub proof fn lemma_view_follows_request(image: Image, info: ImageViewInfo, view: ImageView)
    requires
        view.spec_shared().spec_image() == image.spec_shared(),
        view.spec_shared().spec_device() == image.spec_shared().spec_device(),
    ensures
        view.spec_shared().spec_image().spec_native() == create_request(image.spec_shared(), info@).image,
        release_of(view.spec_shared()).device == create_request(image.spec_shared(), info@).device,
        release_of(view.spec_shared()).view == view.spec_shared().spec_native(),
        create_request(view.spec_shared().spec_image(), info@) == create_request(
            image.spec_shared(),
            info@,
        ),
{
}

/// A view that `ImageView::new` made from a native handle `handle` of
/// `image` (that is what its `ensures` gives on `Ok(handle)`) has `handle`
/// as its native view, non-zero when the handle is, and the image's native
/// handle as its native image. Nothing else enters: a view made after
/// earlier views of the same image were released is alike.
pub proof fn lemma_created_view_is_live(image: Image, handle: u64, view: ImageView)
    requires
        handle != 0,
        view.spec_shared().spec_native() == handle,
        view.spec_shared().spec_image() == image.spec_shared(),
    ensures
        view.spec_shared().spec_native() != 0,
        view.spec_shared().spec_image().spec_native() == image.spec_shared().spec_native(),
        release_of(view.spec_shared()).view == handle,
{
}

/// Two handles over equal view state have the same native view, the same
/// image and the same destroy request; `clone` yields such a handle.
pub proof fn lemma_clones_share_state(view: ImageView, copy: ImageView)
    requires
        copy.spec_shared() == view.spec_shared(),
    ensures
        copy.spec_shared().spec_native() == view.spec_shared().spec_native(),
        copy.spec_shared().spec_image() == view.spec_shared().spec_image(),
        release_of(copy.spec_shared()) == release_of(view.spec_shared()),
{
}

} // verus!
