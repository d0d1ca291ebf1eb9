//! Framebuffers: a render pass, its checked attachments and dimensions.
use vstd::prelude::*;

use crate::attachments::{
    attachments_list_error, AttachmentImageView, BoundAttachmentList, FramebufferCreationError,
    RenderPassDescAttachmentsList,
};
use crate::render_pass::RenderPassDesc;

verus! {

/// Objects that hold a framebuffer of known dimensions.
pub trait FramebufferRef {
    /// Width, height and layers, in that order.
    spec fn spec_dimensions(&self) -> Seq<u32>;

    /// Returns the width, height and array layers of the framebuffer.
    fn dimensions(&self) -> (r: [u32; 3])
        ensures
            r@ == self.spec_dimensions(),
    ;

    /// Returns the width of the framebuffer in pixels.
    fn width(&self) -> (r: u32)
        ensures
            r == self.spec_dimensions()[0],
    {
        let d = self.dimensions();
        d[0]
    }

    /// Returns the height of the framebuffer in pixels.
    fn height(&self) -> (r: u32)
        ensures
            r == self.spec_dimensions()[1],
    {
        let d = self.dimensions();
        d[1]
    }

    /// Returns the number of layers of the framebuffer.
    fn layers(&self) -> (r: u32)
        ensures
            r == self.spec_dimensions()[2],
    {
        let d = self.dimensions();
        d[2]
    }
}

/// Gives access to the render pass a framebuffer was created with.
pub trait FramebufferRenderPass {
    /// Type of the render pass.
    type RenderPass: RenderPassDesc;

    /// Returns the render pass the framebuffer was created with.
    fn render_pass(&self) -> &Self::RenderPass;
}

/// Everything a framebuffer offers.
pub trait FramebufferAbstract: FramebufferRef + FramebufferRenderPass {

}

impl<T: FramebufferRef + FramebufferRenderPass> FramebufferAbstract for T {

}

/// A render pass bound to a checked list of image views, with dimensions.
#[derive(Debug)]
pub struct Framebuffer<R: RenderPassDesc> {
    render_pass: R,
    dimensions: [u32; 3],
    attachments: BoundAttachmentList,
}

impl<R: RenderPassDesc> Framebuffer<R> {
    /// The render pass.
    pub closed spec fn desc(&self) -> R {
        self.render_pass
    }

    /// The image views, in slot order.
    pub closed spec fn attachments_view(&self) -> Seq<AttachmentImageView> {
        self.attachments.view()
    }

    /// Checks `list` against the attachment slots of `render_pass` and builds a
    /// framebuffer from them; fails as `check_attachments_list` does.
    pub fn new(render_pass: R, dimensions: [u32; 3], list: Vec<AttachmentImageView>) -> (r: Result<
        Framebuffer<R>,
        FramebufferCreationError,
    >)
        ensures
            match r {
                Ok(f) => {
                    &&& attachments_list_error(
                        render_pass.attachments_view(),
                        render_pass.subpasses_view(),
                        list@,
                    ) is None
                    &&& f.desc() == render_pass
                    &&& f.spec_dimensions() == dimensions@
                    &&& f.attachments_view() == list@
                },
                Err(e) => attachments_list_error(
                    render_pass.attachments_view(),
                    render_pass.subpasses_view(),
                    list@,
                ) == Some(e),
            },
    {
        match render_pass.check_attachments_list(list) {
            Ok(attachments) => Ok(Framebuffer { render_pass, dimensions, attachments }),
            Err(e) => Err(e),
        }
    }

    /// Returns the checked image views.
    pub fn attachments(&self) -> (r: &BoundAttachmentList)
        ensures
            r.view() == self.attachments_view(),
    {
        &self.attachments
    }
}

impl<R: RenderPassDesc> FramebufferRef for Framebuffer<R> {
    closed spec fn spec_dimensions(&self) -> Seq<u32> {
        self.dimensions@
    }

    fn dimensions(&self) -> (r: [u32; 3]) {
        self.dimensions
    }
}

impl<R: RenderPassDesc> FramebufferRenderPass for Framebuffer<R> {
    type RenderPass = R;

    fn render_pass(&self) -> (r: &R)
        ensures
            *r == self.desc(),
    {
        &self.render_pass
    }
}

} // verus!
