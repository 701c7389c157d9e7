use std::sync::Arc;
use vstd::prelude::*;
use crate::format::Format;
use crate::image::Image;
use crate::layout::Layout;
use crate::sampler::Sampler;
use crate::sys::{Dimensions, UnsafeImage, UnsafeImageView};
use crate::tracking::TrackedImage;

verus! {

/// Trait for types that represent image views.
///
/// A view shows an image, or a part of one, in a format of its own. It refers to the image
/// and does not own it.
pub trait ImageView {
    /// The image that the view belongs to.
    spec fn raw_parent(&self) -> UnsafeImage;

    /// The image view that this value stands for.
    spec fn raw_view(&self) -> UnsafeImageView;

    /// The type of the image that the view belongs to.
    type Parent: Image + ?Sized;

    /// Returns the image that the view belongs to.
    fn parent(&self) -> (r: &Self::Parent)
        ensures
            r.raw_image() == self.raw_parent(),
    ;

    /// Returns the dimensions of the image view.
    fn dimensions(&self) -> Dimensions;

    /// Returns the image view that this value stands for.
    fn inner(&self) -> (r: &UnsafeImageView)
        ensures
            *r == self.raw_view(),
    ;

    /// Returns the format of this view. This can be different from the parent's format.
    fn format(&self) -> (r: Format)
        ensures
            r == self.raw_view().format,
    {
        self.inner().format()
    }

    /// Returns the number of samples of the view, which is that of its image.
    fn samples(&self) -> (r: u32)
        ensures
            r == self.raw_parent().samples,
    {
        self.parent().samples()
    }

    /// Returns the layout that the image has to be in when the view is bound as a storage
    /// image.
    fn descriptor_set_storage_image_layout(&self) -> Layout;

    /// Returns the layout that the image has to be in when the view is bound together with a
    /// sampler.
    fn descriptor_set_combined_image_sampler_layout(&self) -> Layout;

    /// Returns the layout that the image has to be in when the view is bound as a sampled
    /// image.
    fn descriptor_set_sampled_image_layout(&self) -> Layout;

    /// Returns the layout that the image has to be in when the view is bound as an input
    /// attachment.
    fn descriptor_set_input_attachment_layout(&self) -> Layout;

    /// Returns true if the view doesn't use components swizzling.
    fn identity_swizzle(&self) -> bool;

    /// Returns true if the given sampler can be used with this image view.
    ///
    /// Unless an implementation checks the sampler against the format of the view, every
    /// sampler is let through: a `true` is then no proof that sampling is valid.
    fn can_be_sampled(&self, sampler: &Sampler) -> (r: bool)
        default_ensures
            r,
    {
        true
    }
}

impl<'a, T: ImageView + ?Sized> ImageView for &'a T {
    open spec fn raw_parent(&self) -> UnsafeImage {
        (**self).raw_parent()
    }

    open spec fn raw_view(&self) -> UnsafeImageView {
        (**self).raw_view()
    }

    type Parent = T::Parent;

    fn parent(&self) -> (r: &T::Parent)
        ensures
            call_ensures(T::parent, (*self,), r),
    {
        (**self).parent()
    }

    fn inner(&self) -> (r: &UnsafeImageView) {
        (**self).inner()
    }

    fn dimensions(&self) -> (r: Dimensions)
        ensures
            call_ensures(T::dimensions, (*self,), r),
    {
        (**self).dimensions()
    }

    fn descriptor_set_storage_image_layout(&self) -> (r: Layout)
        ensures
            call_ensures(T::descriptor_set_storage_image_layout, (*self,), r),
    {
        (**self).descriptor_set_storage_image_layout()
    }

    fn descriptor_set_combined_image_sampler_layout(&self) -> (r: Layout)
        ensures
            call_ensures(T::descriptor_set_combined_image_sampler_layout, (*self,), r),
    {
        (**self).descriptor_set_combined_image_sampler_layout()
    }

    fn descriptor_set_sampled_image_layout(&self) -> (r: Layout)
        ensures
            call_ensures(T::descriptor_set_sampled_image_layout, (*self,), r),
    {
        (**self).descriptor_set_sampled_image_layout()
    }

    fn descriptor_set_input_attachment_layout(&self) -> (r: Layout)
        ensures
            call_ensures(T::descriptor_set_input_attachment_layout, (*self,), r),
    {
        (**self).descriptor_set_input_attachment_layout()
    }

    fn identity_swizzle(&self) -> (r: bool)
        ensures
            call_ensures(T::identity_swizzle, (*self,), r),
    {
        (**self).identity_swizzle()
    }

    fn can_be_sampled(&self, sampler: &Sampler) -> (r: bool)
        ensures
            call_ensures(T::can_be_sampled, (*self, sampler), r),
    {
        (**self).can_be_sampled(sampler)
    }
}

impl<T: ImageView + ?Sized> ImageView for Arc<T> {
    open spec fn raw_parent(&self) -> UnsafeImage {
        (**self).raw_parent()
    }

    open spec fn raw_view(&self) -> UnsafeImageView {
        (**self).raw_view()
    }

    type Parent = T::Parent;

    fn parent(&self) -> (r: &T::Parent)
        ensures
            call_ensures(T::parent, (&**self,), r),
    {
        (**self).parent()
    }

    fn inner(&self) -> (r: &UnsafeImageView) {
        (**self).inner()
    }

    fn dimensions(&self) -> (r: Dimensions)
        ensures
            call_ensures(T::dimensions, (&**self,), r),
    {
        (**self).dimensions()
    }

    fn descriptor_set_storage_image_layout(&self) -> (r: Layout)
        ensures
            call_ensures(T::descriptor_set_storage_image_layout, (&**self,), r),
    {
        (**self).descriptor_set_storage_image_layout()
    }

    fn descriptor_set_combined_image_sampler_layout(&self) -> (r: Layout)
        ensures
            call_ensures(T::descriptor_set_combined_image_sampler_layout, (&**self,), r),
    {
        (**self).descriptor_set_combined_image_sampler_layout()
    }

    fn descriptor_set_sampled_image_layout(&self) -> (r: Layout)
        ensures
            call_ensures(T::descriptor_set_sampled_image_layout, (&**self,), r),
    {
        (**self).descriptor_set_sampled_image_layout()
    }

    fn descriptor_set_input_attachment_layout(&self) -> (r: Layout)
        ensures
            call_ensures(T::descriptor_set_input_attachment_layout, (&**self,), r),
    {
        (**self).descriptor_set_input_attachment_layout()
    }

    fn identity_swizzle(&self) -> (r: bool)
        ensures
            call_ensures(T::identity_swizzle, (&**self,), r),
    {
        (**self).identity_swizzle()
    }

    fn can_be_sampled(&self, sampler: &Sampler) -> (r: bool)
        ensures
            call_ensures(T::can_be_sampled, (&**self, sampler), r),
    {
        (**self).can_be_sampled(sampler)
    }
}

/// Trait for image views whose image can be used while commands are recorded: it leads from
/// the view to that image.
pub trait TrackedImageView<States>: ImageView {
    /// The type of the image that the view belongs to.
    type Image: TrackedImage<States>;

    /// Returns the image that the view belongs to.
    fn image(&self) -> (r: &Self::Image)
        ensures
            r.raw_image() == self.raw_parent(),
    ;
}

impl<'a, S, T: TrackedImageView<S> + ?Sized> TrackedImageView<S> for &'a T {
    type Image = T::Image;

    fn image(&self) -> (r: &Self::Image)
        ensures
            call_ensures(T::image, (*self,), r),
    {
        (**self).image()
    }
}

impl<S, T: TrackedImageView<S> + ?Sized> TrackedImageView<S> for Arc<T> {
    type Image = T::Image;

    fn image(&self) -> (r: &Self::Image)
        ensures
            call_ensures(T::image, (&**self,), r),
    {
        (**self).image()
    }
}

/// Trait for image views that can be used as an attachment of a render pass.
pub trait AttachmentImageView: ImageView {
    /// Whether the view can be used by a render pass that takes it in `initial_layout` and
    /// leaves it in `final_layout`.
    fn accept(&self, initial_layout: Layout, final_layout: Layout) -> bool;
}

/// A view of an image that it borrows: the view cannot outlive the image.
#[derive(Debug)]
pub struct BorrowedImageView<'a, I: Image> {
    /// The image that the view belongs to.
    pub image: &'a I,
    /// The image view of the device.
    pub view: UnsafeImageView,
    pub dimensions: Dimensions,
    /// Whether the view leaves the order of the components as it is.
    pub identity_swizzle: bool,
    /// The layout for binding the view as a storage image.
    pub storage_image_layout: Layout,
    /// The layout for binding the view together with a sampler.
    pub combined_image_sampler_layout: Layout,
    /// The layout for binding the view as a sampled image.
    pub sampled_image_layout: Layout,
    /// The layout for binding the view as an input attachment.
    pub input_attachment_layout: Layout,
}

impl<'a, I: Image> ImageView for BorrowedImageView<'a, I> {
    type Parent = I;

    open spec fn raw_parent(&self) -> UnsafeImage {
        self.image.raw_image()
    }

    open spec fn raw_view(&self) -> UnsafeImageView {
        self.view
    }

    fn parent(&self) -> (r: &I)
        ensures
            r == self.image,
    {
        self.image
    }

    fn dimensions(&self) -> (r: Dimensions)
        ensures
            r == self.dimensions,
    {
        self.dimensions
    }

    fn inner(&self) -> (r: &UnsafeImageView) {
        &self.view
    }

    fn descriptor_set_storage_image_layout(&self) -> (r: Layout)
        ensures
            r == self.storage_image_layout,
    {
        self.storage_image_layout
    }

    fn descriptor_set_combined_image_sampler_layout(&self) -> (r: Layout)
        ensures
            r == self.combined_image_sampler_layout,
    {
        self.combined_image_sampler_layout
    }

    fn descriptor_set_sampled_image_layout(&self) -> (r: Layout)
        ensures
            r == self.sampled_image_layout,
    {
        self.sampled_image_layout
    }

    fn descriptor_set_input_attachment_layout(&self) -> (r: Layout)
        ensures
            r == self.input_attachment_layout,
    {
        self.input_attachment_layout
    }

    fn identity_swizzle(&self) -> (r: bool)
        ensures
            r == self.identity_swizzle,
    {
        self.identity_swizzle
    }
}

impl<'a, S, I: TrackedImage<S>> TrackedImageView<S> for BorrowedImageView<'a, I> {
    type Image = I;

    fn image(&self) -> (r: &I)
        ensures
            r == self.image,
    {
        self.image
    }
}

} // verus!
