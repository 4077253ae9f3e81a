use std::sync::Arc;

use ash::vk::{Format, ImageAspectFlags, ImageViewType};
use imageview::device::DeviceShared;
use imageview::error::Error;
use imageview::image::Image;
use imageview::imageview::{ImageView, ImageViewInfo, ImageViewShared};

const DEVICE: u64 = 0xd0;
const IMAGE: u64 = 0x1a;

fn color_image() -> Image {
    Image::new(Arc::new(DeviceShared::new(DEVICE)), IMAGE)
}

fn color_info() -> ImageViewInfo {
    ImageViewInfo::new()
        .aspect_mask(ImageAspectFlags::COLOR)
        .format(Format::R8_UNORM)
        .image_view_type(ImageViewType::TYPE_2D)
        .layer_count(1)
        .level_count(1)
}

#[test]
fn crate_image_view() {
    let image = color_image();
    let image_view_info = color_info();
    let request = ImageView::request(&image, &image_view_info);
    assert_eq!(request.device, DEVICE);
    assert_eq!(request.image, IMAGE);
    assert_eq!(request.format, Format::R8_UNORM);
    assert_eq!(request.view_type, ImageViewType::TYPE_2D);
    let view = ImageView::new(&image, Ok(0x77)).expect("view");
    assert_eq!(view.native(), 0x77);
    assert_eq!(view.native_image(), IMAGE);
    let shared = view.release().expect("last handle");
    let release = shared.release_request();
    assert_eq!(release.device, DEVICE);
    assert_eq!(release.view, 0x77);
    drop(shared);
    assert_eq!(image.native(), IMAGE);
    drop(image);
}

#[test]
fn new_info_is_zeroed() {
    let image = color_image();
    let request = ImageView::request(&image, &ImageViewInfo::new());
    assert_eq!(request.format, Format::UNDEFINED);
    assert_eq!(request.view_type, ImageViewType::TYPE_1D);
    assert_eq!(request.subresource_range.aspect_mask, ImageAspectFlags::empty());
    assert_eq!(request.subresource_range.layer_count, 0);
    assert_eq!(request.subresource_range.level_count, 0);
    let request = ImageView::request(&image, &ImageViewInfo::default());
    assert_eq!(request.format, Format::UNDEFINED);
    assert_eq!(request.subresource_range.layer_count, 0);
}

#[test]
fn request_translates_the_configuration() {
    let image = color_image();
    let info = ImageViewInfo::new()
        .aspect_mask(ImageAspectFlags::DEPTH | ImageAspectFlags::STENCIL)
        .format(Format::D24_UNORM_S8_UINT)
        .image_view_type(ImageViewType::TYPE_2D_ARRAY)
        .layer_count(6)
        .level_count(4);
    let request = ImageView::request(&image, &info);
    assert_eq!(request.format, Format::D24_UNORM_S8_UINT);
    assert_eq!(request.view_type, ImageViewType::TYPE_2D_ARRAY);
    let range = request.subresource_range;
    assert_eq!(range.aspect_mask, ImageAspectFlags::DEPTH | ImageAspectFlags::STENCIL);
    assert_eq!(range.layer_count, 6);
    assert_eq!(range.level_count, 4);
    assert_eq!(range.base_array_layer, 0);
    assert_eq!(range.base_mip_level, 0);
}

#[test]
fn later_setter_overrides_earlier() {
    let image = color_image();
    let info = color_info().layer_count(3).format(Format::R8G8B8A8_SRGB);
    let request = ImageView::request(&image, &info);
    assert_eq!(request.subresource_range.layer_count, 3);
    assert_eq!(request.subresource_range.level_count, 1);
    assert_eq!(request.format, Format::R8G8B8A8_SRGB);
    assert_eq!(request.view_type, ImageViewType::TYPE_2D);
}

#[test]
fn failed_creation_reports_the_code() {
    let image = color_image();
    let result = ImageView::new(&image, Err(ash::vk::Result::ERROR_FORMAT_NOT_SUPPORTED));
    match result {
        Err(Error::Native(code)) => assert_eq!(code, ash::vk::Result::ERROR_FORMAT_NOT_SUPPORTED),
        Ok(_) => panic!("a failed native call gave a view"),
    }
    let shared = ImageViewShared::new(image.shared(), Err(ash::vk::Result::ERROR_OUT_OF_DEVICE_MEMORY));
    assert!(matches!(shared, Err(Error::Native(ash::vk::Result::ERROR_OUT_OF_DEVICE_MEMORY))));
}

#[test]
fn clones_release_once() {
    let image = color_image();
    let view = ImageView::new(&image, Ok(0x55)).expect("view");
    let second = view.clone();
    let third = second.clone();
    assert_eq!(second.native(), 0x55);
    assert_eq!(third.native_image(), IMAGE);
    let mut released = 0;
    for handle in [view, second, third] {
        if let Some(shared) = handle.release() {
            assert_eq!(shared.release_request().view, 0x55);
            released += 1;
        }
    }
    assert_eq!(released, 1);
}

#[test]
fn releasing_a_view_keeps_image_and_device() {
    let image = color_image();
    let info = color_info();
    let first_request = ImageView::request(&image, &info);
    let view = ImageView::new(&image, Ok(0x90)).expect("view");
    let shared = view.release().expect("last handle");
    assert_eq!(shared.release_request().device, DEVICE);
    assert_eq!(shared.image().native(), IMAGE);
    drop(shared);
    assert_eq!(image.native(), IMAGE);
    assert_eq!(image.shared().device().native(), DEVICE);
    let second_request = ImageView::request(&image, &info);
    assert_eq!(second_request.image, first_request.image);
    assert_eq!(second_request.device, first_request.device);
    let second = ImageView::new(&image, Ok(0x91)).expect("second view");
    assert_eq!(second.native(), 0x91);
}

#[test]
fn reads_are_stable() {
    let image = color_image();
    let view = ImageView::new(&image, Ok(0x42)).expect("view");
    assert_eq!(view.native(), view.native());
    assert_eq!(view.native_image(), view.native_image());
    assert_eq!(view.shared().native(), 0x42);
    assert_eq!(view.shared().native(), view.native());
}

#[test]
fn view_keeps_image_state_alive() {
    let view = {
        let image = color_image();
        ImageView::new(&image, Ok(0x33)).expect("view")
    };
    assert_eq!(view.native_image(), IMAGE);
    assert_eq!(view.shared().release_request().device, DEVICE);
}
