use vstd::prelude::*;
use crate::format::Format;

verus! {

/// The extent of an image.
#[derive(Clone, Copy, Debug, PartialEq, Eq, Hash, Structural)]
pub struct ImageDimensions {
    pub width: u32,
    pub height: u32,
    pub depth: u32,
    /// Number of array layers.
    pub array_layers: u32,
    /// Number of mipmap levels.
    pub mipmap_levels: u32,
}

/// The extent of an image view.
#[derive(Clone, Copy, Debug, PartialEq, Eq, Hash, Structural)]
pub struct Dimensions {
    pub width: u32,
    pub height: u32,
    pub depth: u32,
    /// Number of array layers that the view spans.
    pub array_layers: u32,
}

/// What the library knows of an image of the device: the handle that identifies it, and the
/// properties that were fixed when it was created.
#[derive(Clone, Copy, Debug, PartialEq, Eq, Hash, Structural)]
pub struct UnsafeImage {
    pub handle: u64,
    pub format: Format,
    /// Number of samples of each pixel.
    pub samples: u32,
    pub dimensions: ImageDimensions,
    /// Whether the image can be the source of a blit.
    pub blit_source: bool,
    /// Whether the image can be the destination of a blit.
    pub blit_destination: bool,
}

impl UnsafeImage {
    /// The handle of the image: the key under which its usage is tracked.
    pub fn key(&self) -> (r: u64)
        ensures
            r == self.handle,
    {
        self.handle
    }

    /// The format of the image.
    pub fn format(&self) -> (r: Format)
        ensures
            r == self.format,
    {
        self.format
    }

    /// The number of samples of each pixel.
    pub fn samples(&self) -> (r: u32)
        ensures
            r == self.samples,
    {
        self.samples
    }

    /// The extent of the image.
    pub fn dimensions(&self) -> (r: ImageDimensions)
        ensures
            r == self.dimensions,
    {
        self.dimensions
    }

    /// Whether the image can be the source of a blit.
    pub fn supports_blit_source(&self) -> (r: bool)
        ensures
            r == self.blit_source,
    {
        self.blit_source
    }

    /// Whether the image can be the destination of a blit.
    pub fn supports_blit_destination(&self) -> (r: bool)
        ensures
            r == self.blit_destination,
    {
        self.blit_destination
    }
}

/// What the library knows of an image view of the device: its handle and its format, which
/// may differ from the format of the image that it views.
#[derive(Clone, Copy, Debug, PartialEq, Eq, Hash, Structural)]
pub struct UnsafeImageView {
    pub handle: u64,
    pub format: Format,
}

impl UnsafeImageView {
    /// The format of the view.
    pub fn format(&self) -> (r: Format)
        ensures
            r == self.format,
    {
        self.format
    }
}

} // verus!
