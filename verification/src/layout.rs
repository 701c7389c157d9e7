use vstd::prelude::*;

verus! {

/// Memory layout that an image is in, or has to be in, for a kind of use.
#[derive(Clone, Copy, Debug, PartialEq, Eq, Hash, Structural)]
pub enum Layout {
    /// The content is unspecified; a transition away from this layout may discard it.
    Undefined,
    General,
    ColorAttachmentOptimal,
    DepthStencilAttachmentOptimal,
    DepthStencilReadOnlyOptimal,
    ShaderReadOnlyOptimal,
    TransferSrcOptimal,
    TransferDstOptimal,
    Preinitialized,
    PresentSrc,
}

} // verus!
