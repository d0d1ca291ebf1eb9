//! Pixel formats and image layouts, as far as render passes look at them.
use vstd::prelude::*;

verus! {

/// Broad class of a pixel format.
#[derive(Debug, Clone, Copy, PartialEq, Eq, Structural)]
pub enum FormatTy {
    Float,
    Uint,
    Sint,
    Depth,
    Stencil,
    DepthStencil,
    Compressed,
}

/// Pixel format of an image.
#[derive(Debug, Clone, Copy, PartialEq, Eq, Structural)]
pub enum Format {
    R8G8B8A8Unorm,
    R8G8B8A8Srgb,
    B8G8R8A8Unorm,
    B8G8R8A8Srgb,
    R16G16B16A16Sfloat,
    R32G32B32A32Sfloat,
    R32Uint,
    R32Sint,
    D16Unorm,
    D32Sfloat,
    S8Uint,
    D16UnormS8Uint,
    D24UnormS8Uint,
    D32SfloatS8Uint,
    Bc1RgbUnormBlock,
}

impl Format {
    /// The class that a format belongs to.
    pub open spec fn spec_ty(self) -> FormatTy {
        match self {
            Format::R8G8B8A8Unorm => FormatTy::Float,
            Format::R8G8B8A8Srgb => FormatTy::Float,
            Format::B8G8R8A8Unorm => FormatTy::Float,
            Format::B8G8R8A8Srgb => FormatTy::Float,
            Format::R16G16B16A16Sfloat => FormatTy::Float,
            Format::R32G32B32A32Sfloat => FormatTy::Float,
            Format::R32Uint => FormatTy::Uint,
            Format::R32Sint => FormatTy::Sint,
            Format::D16Unorm => FormatTy::Depth,
            Format::D32Sfloat => FormatTy::Depth,
            Format::S8Uint => FormatTy::Stencil,
            Format::D16UnormS8Uint => FormatTy::DepthStencil,
            Format::D24UnormS8Uint => FormatTy::DepthStencil,
            Format::D32SfloatS8Uint => FormatTy::DepthStencil,
            Format::Bc1RgbUnormBlock => FormatTy::Compressed,
        }
    }

    /// Returns the class of this format.
    pub fn ty(&self) -> (r: FormatTy)
        ensures
            r == self.spec_ty(),
    {
        match self {
            Format::R8G8B8A8Unorm => FormatTy::Float,
            Format::R8G8B8A8Srgb => FormatTy::Float,
            Format::B8G8R8A8Unorm => FormatTy::Float,
            Format::B8G8R8A8Srgb => FormatTy::Float,
            Format::R16G16B16A16Sfloat => FormatTy::Float,
            Format::R32G32B32A32Sfloat => FormatTy::Float,
            Format::R32Uint => FormatTy::Uint,
            Format::R32Sint => FormatTy::Sint,
            Format::D16Unorm => FormatTy::Depth,
            Format::D32Sfloat => FormatTy::Depth,
            Format::S8Uint => FormatTy::Stencil,
            Format::D16UnormS8Uint => FormatTy::DepthStencil,
            Format::D24UnormS8Uint => FormatTy::DepthStencil,
            Format::D32SfloatS8Uint => FormatTy::DepthStencil,
            Format::Bc1RgbUnormBlock => FormatTy::Compressed,
        }
    }
}

/// Whether a format class can back a depth and/or stencil attachment.
pub open spec fn is_depth_stencil_ty(t: FormatTy) -> bool {
    t == FormatTy::Depth || t == FormatTy::Stencil || t == FormatTy::DepthStencil
}

/// Memory arrangement that an image is in.
#[derive(Debug, Clone, Copy, PartialEq, Eq, Structural)]
pub enum ImageLayout {
    Undefined,
    General,
    ColorAttachmentOptimal,
    DepthStencilAttachmentOptimal,
    DepthStencilReadOnlyOptimal,
    ShaderReadOnlyOptimal,
    TransferSrcOptimal,
    TransferDstOptimal,
    Preinitialized,
    PresentSrc,
}

} // verus!
