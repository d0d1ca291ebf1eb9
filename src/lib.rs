//! Render-pass descriptions, their derived queries, compatibility checks,
//! attachment-list validation and subpass handles.
pub mod format;
pub mod desc;
pub mod render_pass;
pub mod descriptor;
pub mod compat;
pub mod subpass;
pub mod attachments;
pub mod framebuffer;

pub use attachments::{
    AttachmentImageView, BoundAttachmentList, FramebufferCreationError, ImageUsage,
    IncompatibleAttachmentReason, RenderPassDescAttachmentsList,
};
pub use compat::{
    RenderPassCompatible, RenderPassSubpassInterface, ShaderInterface, ShaderInterfaceDef,
    ShaderInterfaceDefEntry,
};
pub use desc::{
    LayoutAttachmentDescription, LayoutPassDependencyDescription, LayoutPassDescription, LoadOp,
    StoreOp,
};
pub use descriptor::{RenderPassDescError, RenderPassDescriptor};
pub use format::{Format, FormatTy, ImageLayout};
pub use framebuffer::{Framebuffer, FramebufferAbstract, FramebufferRef, FramebufferRenderPass};
pub use render_pass::{
    RenderPassDesc, RenderPassDescAttachments, RenderPassDescDependencies, RenderPassDescSubpasses,
};
pub use subpass::Subpass;
