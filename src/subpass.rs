//! Handle on one subpass of a render pass, checked to exist.
use vstd::prelude::*;

use crate::render_pass::{
    spec_has_depth, spec_has_depth_stencil_attachment, spec_has_stencil, spec_has_writable_depth,
    spec_has_writable_stencil, spec_num_color_attachments, spec_num_samples, RenderPassDesc,
};

verus! {

/// A render pass together with the index of one of its subpasses. The index is
/// checked when the handle is made, and the description cannot change, so the
/// subpass exists for the whole life of the handle.
#[derive(Debug)]
pub struct Subpass<L: RenderPassDesc> {
    render_pass: L,
    subpass_id: u32,
}

impl<L: RenderPassDesc> Subpass<L> {
    /// The render pass the handle refers to.
    pub closed spec fn desc(&self) -> L {
        self.render_pass
    }

    /// The index of the subpass within the render pass.
    pub closed spec fn id(&self) -> u32 {
        self.subpass_id
    }

    /// Returns the render pass of this subpass.
    pub fn render_pass(&self) -> (r: &L)
        ensures
            *r == self.desc(),
    {
        &self.render_pass
    }

    /// Returns the index of this subpass within the render pass.
    pub fn index(&self) -> (r: u32)
        ensures
            r == self.id(),
    {
        self.subpass_id
    }

    /// Splits the handle into its render pass and subpass index.
    pub fn into_parts(self) -> (r: (L, u32))
        ensures
            r.0 == self.desc(),
            r.1 == self.id(),
    {
        (self.render_pass, self.subpass_id)
    }
}

impl<L: RenderPassDesc> Subpass<L> {
    #[verifier::type_invariant]
    spec fn inv(&self) -> bool {
        (self.subpass_id as int) < self.render_pass.subpasses_view().len()
    }

    /// Returns a handle on subpass `id` of `render_pass`, or `None` if the render
    /// pass has no such subpass.
    pub fn from(render_pass: L, id: u32) -> (r: Option<Subpass<L>>)
        ensures
            r is Some <==> (id as int) < render_pass.subpasses_view().len(),
            r matches Some(s) ==> s.desc() == render_pass && s.id() == id,
    {
        if (id as usize) < render_pass.num_subpasses() {
            Some(Subpass { render_pass: render_pass, subpass_id: id })
        } else {
            None
        }
    }

    /// Returns the number of color attachments in this subpass.
    pub fn num_color_attachments(&self) -> (r: u32)
        ensures
            spec_num_color_attachments(self.desc().subpasses_view(), self.id() as int) == Some(r),
    {
        proof {
            use_type_invariant(self);
        }
        self.render_pass.num_color_attachments(self.subpass_id).unwrap()
    }

    /// Returns true if the subpass has a depth or depth-stencil attachment.
    pub fn has_depth(&self) -> (r: bool)
        ensures
            spec_has_depth(self.desc().attachments_view(), self.desc().subpasses_view(), self.id() as int)
                == Some(r),
    {
        proof {
            use_type_invariant(self);
        }
        self.render_pass.has_depth(self.subpass_id).unwrap()
    }

    /// Returns true if the subpass has a depth or depth-stencil attachment whose
    /// layout is not `DepthStencilReadOnlyOptimal`.
    pub fn has_writable_depth(&self) -> (r: bool)
        ensures
            spec_has_writable_depth(
                self.desc().attachments_view(),
                self.desc().subpasses_view(),
                self.id() as int,
            ) == Some(r),
    {
        proof {
            use_type_invariant(self);
        }
        self.render_pass.has_writable_depth(self.subpass_id).unwrap()
    }

    /// Returns true if the subpass has a stencil or depth-stencil attachment.
    pub fn has_stencil(&self) -> (r: bool)
        ensures
            spec_has_stencil(self.desc().attachments_view(), self.desc().subpasses_view(), self.id() as int)
                == Some(r),
    {
        proof {
            use_type_invariant(self);
        }
        self.render_pass.has_stencil(self.subpass_id).unwrap()
    }

    /// Returns true if the subpass has a stencil or depth-stencil attachment whose
    /// layout is not `DepthStencilReadOnlyOptimal`.
    pub fn has_writable_stencil(&self) -> (r: bool)
        ensures
            spec_has_writable_stencil(
                self.desc().attachments_view(),
                self.desc().subpasses_view(),
                self.id() as int,
            ) == Some(r),
    {
        proof {
            use_type_invariant(self);
        }
        self.render_pass.has_writable_stencil(self.subpass_id).unwrap()
    }

    /// Returns true if the subpass has any color or depth/stencil attachment.
    pub fn has_color_or_depth_stencil_attachment(&self) -> (r: bool)
        ensures
            r == (self.desc().subpasses_view()[self.id() as int].color_attachments.len() >= 1
                || spec_has_depth_stencil_attachment(
                self.desc().attachments_view(),
                self.desc().subpasses_view(),
                self.id() as int,
            ) != Some((false, false))),
    {
        proof {
            use_type_invariant(self);
        }
        let _n = self.render_pass.num_subpasses();
        proof {
            assert(crate::desc::valid_subpass(
                self.desc().attachments_view(),
                self.desc().subpasses_view()[self.id() as int],
            ));
        }
        let (depth, stencil) = self.render_pass.has_depth_stencil_attachment(self.subpass_id).unwrap();
        self.num_color_attachments() >= 1 || depth || stencil
    }

    /// Returns the number of samples of the color and/or depth/stencil
    /// attachments, or `None` if the subpass has no such attachment.
    pub fn num_samples(&self) -> (r: Option<u32>)
        ensures
            r == spec_num_samples(
                self.desc().attachments_view(),
                self.desc().subpasses_view(),
                self.id() as int,
            ),
    {
        self.render_pass.num_samples(self.subpass_id)
    }
}

} // verus!
