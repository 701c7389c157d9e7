use vstd::prelude::*;

verus! {

/// The class of a pixel format: the kind of data that one pixel holds.
#[derive(Clone, Copy, Debug, PartialEq, Eq, Hash, Structural)]
pub enum FormatTy {
    Float,
    Uint,
    Sint,
    Depth,
    Stencil,
    DepthStencil,
}

/// A pixel format: its number in the hardware interface, and its class.
#[derive(Clone, Copy, Debug, PartialEq, Eq, Hash, Structural)]
pub struct Format {
    pub code: u32,
    pub ty: FormatTy,
}

impl Format {
    /// Whether the format is a floating-point format.
    pub open spec fn spec_is_float(&self) -> bool {
        self.ty == FormatTy::Float
    }

    /// Whether the format is an unsigned integer format.
    pub open spec fn spec_is_uint(&self) -> bool {
        self.ty == FormatTy::Uint
    }

    /// Whether the format is a signed integer format.
    pub open spec fn spec_is_sint(&self) -> bool {
        self.ty == FormatTy::Sint
    }

    /// Whether the format is a depth format.
    pub open spec fn spec_is_depth(&self) -> bool {
        self.ty == FormatTy::Depth
    }

    /// Whether the format is a stencil format.
    pub open spec fn spec_is_stencil(&self) -> bool {
        self.ty == FormatTy::Stencil
    }

    /// Whether the format is a format of depth and stencil together.
    pub open spec fn spec_is_depth_stencil(&self) -> bool {
        self.ty == FormatTy::DepthStencil
    }

    /// The class of the format.
    pub fn ty(&self) -> (r: FormatTy)
        ensures
            r == self.ty,
    {
        self.ty
    }

    /// Whether the format is a floating-point format.
    #[verifier::when_used_as_spec(spec_is_float)]
    pub fn is_float(&self) -> (r: bool)
        ensures
            r == self.spec_is_float(),
    {
        self.ty == FormatTy::Float
    }

    /// Whether the format is an unsigned integer format.
    #[verifier::when_used_as_spec(spec_is_uint)]
    pub fn is_uint(&self) -> (r: bool)
        ensures
            r == self.spec_is_uint(),
    {
        self.ty == FormatTy::Uint
    }

    /// Whether the format is a signed integer format.
    #[verifier::when_used_as_spec(spec_is_sint)]
    pub fn is_sint(&self) -> (r: bool)
        ensures
            r == self.spec_is_sint(),
    {
        self.ty == FormatTy::Sint
    }

    /// Whether the format is a depth format.
    #[verifier::when_used_as_spec(spec_is_depth)]
    pub fn is_depth(&self) -> (r: bool)
        ensures
            r == self.spec_is_depth(),
    {
        self.ty == FormatTy::Depth
    }

    /// Whether the format is a stencil format.
    #[verifier::when_used_as_spec(spec_is_stencil)]
    pub fn is_stencil(&self) -> (r: bool)
        ensures
            r == self.spec_is_stencil(),
    {
        self.ty == FormatTy::Stencil
    }

    /// Whether the format is a format of depth and stencil together.
    #[verifier::when_used_as_spec(spec_is_depth_stencil)]
    pub fn is_depth_stencil(&self) -> (r: bool)
        ensures
            r == self.spec_is_depth_stencil(),
    {
        self.ty == FormatTy::DepthStencil
    }
}

/// The value that an image is cleared to.
///
/// Floating-point components are held as the bit patterns of their single-precision
/// encoding.
#[derive(Clone, Copy, Debug, PartialEq, Eq, Hash)]
pub enum ClearValue {
    /// The image is not cleared.
    Unset,
    /// Four floating-point components, each as its bit pattern.
    Float([u32; 4]),
    Int([i32; 4]),
    Uint([u32; 4]),
    /// A depth, as its bit pattern.
    Depth(u32),
    Stencil(u32),
    /// A depth, as its bit pattern, and a stencil value.
    DepthStencil((u32, u32)),
}

} // verus!
