//! Declarations of the ash types that the library carries through.
use vstd::prelude::*;

verus! {

/// `ash::vk::Format`: a pixel format, carried through unread.
#[verifier::external_type_specification]
#[verifier::external_body]
pub struct ExFormat(ash::vk::Format);

/// `ash::vk::ImageViewType`: the dimensionality of a view, carried through unread.
#[verifier::external_type_specification]
#[verifier::external_body]
pub struct ExImageViewType(ash::vk::ImageViewType);

/// `ash::vk::ImageAspectFlags`: the aspects a view exposes, carried through unread.
#[verifier::external_type_specification]
#[verifier::external_body]
pub struct ExImageAspectFlags(ash::vk::ImageAspectFlags);

/// `ash::vk::ImageSubresourceRange`: a plain struct whose fields are all public.
#[verifier::external_type_specification]
pub struct ExImageSubresourceRange(ash::vk::ImageSubresourceRange);

/// `ash::vk::Result`: a status code returned by a native call.
#[verifier::external_type_specification]
#[verifier::external_body]
pub struct ExResult(ash::vk::Result);

/// The format whose raw value is `raw`.
pub uninterp spec fn format_of(raw: i32) -> ash::vk::Format;

/// The view type whose raw value is `raw`.
pub uninterp spec fn view_type_of(raw: i32) -> ash::vk::ImageViewType;

/// The aspect mask whose raw bits are `raw`.
pub uninterp spec fn aspect_mask_of(raw: u32) -> ash::vk::ImageAspectFlags;

/// Relies on `Format::from_raw`, which wraps the raw value: equal raw
/// values give equal formats.
pub assume_specification[ ash::vk::Format::from_raw ](x: i32) -> (r: ash::vk::Format)
    ensures
        r == format_of(x),
;

/// Relies on `ImageViewType::from_raw`, which wraps the raw value: equal raw
/// values give equal view types.
pub assume_specification[ ash::vk::ImageViewType::from_raw ](x: i32) -> (r: ash::vk::ImageViewType)
    ensures
        r == view_type_of(x),
;

/// Relies on `ImageAspectFlags::from_raw`, which wraps the raw bits: equal
/// raw bits give equal masks.
pub assume_specification[ ash::vk::ImageAspectFlags::from_raw ](x: ash::vk::Flags) -> (r: ash::vk::ImageAspectFlags)
    ensures
        r == aspect_mask_of(x),
;

} // verus!
