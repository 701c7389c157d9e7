use std::sync::Arc;
use vstd::prelude::*;
use crate::format::{ClearValue, Format};
use crate::sys::{ImageDimensions, UnsafeImage};

verus! {

/// Whether images of this format hold color: the format is a floating-point or an integer
/// format.
pub open spec fn color_format(format: Format) -> bool {
    format.spec_is_float() || format.spec_is_uint() || format.spec_is_sint()
}

/// Whether images of this format hold a depth: the format is a depth or a depth-stencil
/// format.
pub open spec fn depth_format(format: Format) -> bool {
    format.spec_is_depth() || format.spec_is_depth_stencil()
}

/// Whether images of this format hold a stencil: the format is a stencil or a depth-stencil
/// format.
pub open spec fn stencil_format(format: Format) -> bool {
    format.spec_is_stencil() || format.spec_is_depth_stencil()
}

/// Trait for types that represent images.
///
/// An implementation says which image of the device it stands for. Every other query is
/// answered from that image.
pub trait Image {
    /// The image that this value stands for.
    spec fn raw_image(&self) -> UnsafeImage;

    /// Returns the image that this value stands for.
    fn inner(&self) -> (r: &UnsafeImage)
        ensures
            *r == self.raw_image(),
    ;

    /// Returns the format of this image.
    fn format(&self) -> (r: Format)
        ensures
            r == self.raw_image().format,
    {
        self.inner().format()
    }

    /// Returns true if the image is a color image.
    fn has_color(&self) -> (r: bool)
        ensures
            r == color_format(self.raw_image().format),
    {
        let format = self.format();
        format.is_float() || format.is_uint() || format.is_sint()
    }

    /// Returns true if the image has a depth component. In other words, if it is a depth or a
    /// depth-stencil format.
    fn has_depth(&self) -> (r: bool)
        ensures
            r == depth_format(self.raw_image().format),
    {
        let format = self.format();
        format.is_depth() || format.is_depth_stencil()
    }

    /// Returns true if the image has a stencil component. In other words, if it is a stencil
    /// or a depth-stencil format.
    fn has_stencil(&self) -> (r: bool)
        ensures
            r == stencil_format(self.raw_image().format),
    {
        let format = self.format();
        format.is_stencil() || format.is_depth_stencil()
    }

    /// Returns the number of samples of this image.
    fn samples(&self) -> (r: u32)
        ensures
            r == self.raw_image().samples,
    {
        self.inner().samples()
    }

    /// Returns the dimensions of the image.
    fn dimensions(&self) -> (r: ImageDimensions)
        ensures
            r == self.raw_image().dimensions,
    {
        self.inner().dimensions()
    }

    /// Returns true if the image can be used as a source for blits.
    fn supports_blit_source(&self) -> (r: bool)
        ensures
            r == self.raw_image().blit_source,
    {
        self.inner().supports_blit_source()
    }

    /// Returns true if the image can be used as a destination for blits.
    fn supports_blit_destination(&self) -> (r: bool)
        ensures
            r == self.raw_image().blit_destination,
    {
        self.inner().supports_blit_destination()
    }
}

impl Image for UnsafeImage {
    open spec fn raw_image(&self) -> UnsafeImage {
        *self
    }

    fn inner(&self) -> (r: &UnsafeImage) {
        self
    }
}

impl<I: Image + ?Sized> Image for Arc<I> {
    open spec fn raw_image(&self) -> UnsafeImage {
        (**self).raw_image()
    }

    fn inner(&self) -> (r: &UnsafeImage) {
        (**self).inner()
    }
}

impl<'a, I: Image + ?Sized> Image for &'a I {
    open spec fn raw_image(&self) -> UnsafeImage {
        (**self).raw_image()
    }

    fn inner(&self) -> (r: &UnsafeImage) {
        (**self).inner()
    }
}

/// Extension trait for images. Checks whether the value `T` can be used as a clear value for
/// the given image.
pub trait ImageClearValue<T>: Image {
    /// The clear value that `value` stands for on this image, if it can be used on it.
    fn decode(&self, value: T) -> Option<ClearValue>;
}

/// Extension trait for images whose pixels can be read or written as values of type `P`.
pub trait ImageContent<P>: Image {
    /// Checks whether pixels of type `P` match the format of the image.
    fn matches_format(&self) -> bool;
}

} // verus!
