//! The abstract render-pass description and the facts derived from it.
use vstd::prelude::*;

use crate::desc::{
    valid_description, LayoutAttachmentDescription, LayoutPassDependencyDescription,
    LayoutPassDescription, SubpassView,
};
use crate::format::{FormatTy, ImageLayout};

verus! {

/// Entry `i` of `s`, or `None` when `i` is out of range.
pub open spec fn entry_at<T>(s: Seq<T>, i: int) -> Option<T> {
    if 0 <= i < s.len() {
        Some(s[i])
    } else {
        None
    }
}

/// Number of color attachments of subpass `i`.
pub open spec fn spec_num_color_attachments(subs: Seq<SubpassView>, i: int) -> Option<u32> {
    if 0 <= i < subs.len() {
        Some(subs[i].color_attachments.len() as u32)
    } else {
        None
    }
}

/// Sample count of the first color attachment of subpass `i`, or else of its
/// depth/stencil attachment.
pub open spec fn spec_num_samples(
    atts: Seq<LayoutAttachmentDescription>,
    subs: Seq<SubpassView>,
    i: int,
) -> Option<u32> {
    if 0 <= i < subs.len() {
        let p = subs[i];
        if p.color_attachments.len() > 0 {
            Some(atts[p.color_attachments[0].0 as int].samples)
        } else {
            match p.depth_stencil {
                Some(r) => Some(atts[r.0 as int].samples),
                None => None,
            }
        }
    } else {
        None
    }
}

/// Depth and stencil aspects of a format class.
pub open spec fn aspects_of(t: FormatTy) -> (bool, bool) {
    match t {
        FormatTy::Depth => (true, false),
        FormatTy::Stencil => (false, true),
        FormatTy::DepthStencil => (true, true),
        _ => (false, false),
    }
}

/// Whether subpass `i` has a depth aspect and a stencil aspect.
pub open spec fn spec_has_depth_stencil_attachment(
    atts: Seq<LayoutAttachmentDescription>,
    subs: Seq<SubpassView>,
    i: int,
) -> Option<(bool, bool)> {
    if 0 <= i < subs.len() {
        match subs[i].depth_stencil {
            Some(r) => Some(aspects_of(atts[r.0 as int].format.spec_ty())),
            None => Some((false, false)),
        }
    } else {
        None
    }
}

/// The depth/stencil attachment of subpass `i` is used read-only.
pub open spec fn depth_stencil_read_only(subs: Seq<SubpassView>, i: int) -> bool {
    match subs[i].depth_stencil {
        Some(r) => r.1 == ImageLayout::DepthStencilReadOnlyOptimal,
        None => false,
    }
}

pub open spec fn spec_has_depth(
    atts: Seq<LayoutAttachmentDescription>,
    subs: Seq<SubpassView>,
    i: int,
) -> Option<bool> {
    match spec_has_depth_stencil_attachment(atts, subs, i) {
        Some(f) => Some(f.0),
        None => None,
    }
}

pub open spec fn spec_has_stencil(
    atts: Seq<LayoutAttachmentDescription>,
    subs: Seq<SubpassView>,
    i: int,
) -> Option<bool> {
    match spec_has_depth_stencil_attachment(atts, subs, i) {
        Some(f) => Some(f.1),
        None => None,
    }
}

pub open spec fn spec_has_writable_depth(
    atts: Seq<LayoutAttachmentDescription>,
    subs: Seq<SubpassView>,
    i: int,
) -> Option<bool> {
    match spec_has_depth_stencil_attachment(atts, subs, i) {
        Some(f) => Some(f.0 && !depth_stencil_read_only(subs, i)),
        None => None,
    }
}

pub open spec fn spec_has_writable_stencil(
    atts: Seq<LayoutAttachmentDescription>,
    subs: Seq<SubpassView>,
    i: int,
) -> Option<bool> {
    match spec_has_depth_stencil_attachment(atts, subs, i) {
        Some(f) => Some(f.1 && !depth_stencil_read_only(subs, i)),
        None => None,
    }
}

/// Every derived query on a subpass index past the last subpass answers `None`.
pub proof fn lemma_out_of_range_queries(
    atts: Seq<LayoutAttachmentDescription>,
    subs: Seq<SubpassView>,
    i: int,
)
    requires
        i >= subs.len(),
    ensures
        spec_num_color_attachments(subs, i) is None,
        spec_num_samples(atts, subs, i) is None,
        spec_has_depth_stencil_attachment(atts, subs, i) is None,
        spec_has_depth(atts, subs, i) is None,
        spec_has_stencil(atts, subs, i) is None,
        spec_has_writable_depth(atts, subs, i) is None,
        spec_has_writable_stencil(atts, subs, i) is None,
{
}

fn aspects(t: FormatTy) -> (r: (bool, bool))
    ensures
        r == aspects_of(t),
{
    match t {
        FormatTy::Depth => (true, false),
        FormatTy::Stencil => (false, true),
        FormatTy::DepthStencil => (true, true),
        _ => (false, false),
    }
}

/// Description of a render pass: its attachments, subpasses and dependencies.
///
/// Every implementation promises, through the contracts of `num_attachments`
/// and `num_subpasses`, that the description obeys the structural rules of
/// `valid_description`, and returns the same values every time it is asked.
/// The derived queries are defined once here; an implementation that replaces
/// one is still held to the same result.
pub trait RenderPassDesc {
    /// The attachments, in order.
    spec fn attachments_view(&self) -> Seq<LayoutAttachmentDescription>;

    /// The subpasses, in order.
    spec fn subpasses_view(&self) -> Seq<SubpassView>;

    /// The dependencies, in order.
    spec fn dependencies_view(&self) -> Seq<LayoutPassDependencyDescription>;

    /// Returns the number of attachments of the render pass.
    fn num_attachments(&self) -> (r: usize)
        ensures
            r == self.attachments_view().len(),
            valid_description(self.attachments_view(), self.subpasses_view()),
    ;

    /// Returns the description of an attachment, or `None` if `num` is out of range.
    fn attachment(&self, num: usize) -> (r: Option<LayoutAttachmentDescription>)
        ensures
            r == entry_at(self.attachments_view(), num as int),
    ;

    /// Returns the number of subpasses of the render pass.
    fn num_subpasses(&self) -> (r: usize)
        ensures
            r == self.subpasses_view().len(),
            valid_description(self.attachments_view(), self.subpasses_view()),
    ;

    /// Returns the description of a subpass, or `None` if `num` is out of range.
    fn subpass(&self, num: usize) -> (r: Option<LayoutPassDescription>)
        ensures
            match r {
                Some(p) => num < self.subpasses_view().len() && p@ == self.subpasses_view()[num as int],
                None => num >= self.subpasses_view().len(),
            },
    ;

    /// Returns the number of dependencies of the render pass.
    fn num_dependencies(&self) -> (r: usize)
        ensures
            r == self.dependencies_view().len(),
    ;

    /// Returns the description of a dependency, or `None` if `num` is out of range.
    fn dependency(&self, num: usize) -> (r: Option<LayoutPassDependencyDescription>)
        ensures
            r == entry_at(self.dependencies_view(), num as int),
    ;

    /// Returns a cursor over the attachments, starting at the first.
    fn attachments(&self) -> (r: RenderPassDescAttachments<'_, Self>)
        where Self: Sized,
        ensures
            r.render_pass() == self,
            r.position() == 0,
    {
        RenderPassDescAttachments { render_pass: self, num: 0 }
    }

    /// Returns a cursor over the subpasses, starting at the first.
    fn subpasses(&self) -> (r: RenderPassDescSubpasses<'_, Self>)
        where Self: Sized,
        ensures
            r.render_pass() == self,
            r.position() == 0,
    {
        RenderPassDescSubpasses { render_pass: self, num: 0 }
    }

    /// Returns a cursor over the dependencies, starting at the first.
    fn dependencies(&self) -> (r: RenderPassDescDependencies<'_, Self>)
        where Self: Sized,
        ensures
            r.render_pass() == self,
            r.position() == 0,
    {
        RenderPassDescDependencies { render_pass: self, num: 0 }
    }

    /// Returns the number of color attachments of a subpass, or `None` if out of range.
    fn num_color_attachments(&self, subpass: u32) -> (r: Option<u32>)
        ensures
            r == spec_num_color_attachments(self.subpasses_view(), subpass as int),
    {
        let _n = self.num_subpasses();
        match self.subpass(subpass as usize) {
            Some(p) => Some(p.color_attachments.len() as u32),
            None => None,
        }
    }

    /// Returns the number of samples of the attachments of a subpass: that of its
    /// first color attachment, else that of its depth/stencil attachment. Returns
    /// `None` if out of range or if the subpass has neither.
    fn num_samples(&self, subpass: u32) -> (r: Option<u32>)
        ensures
            r == spec_num_samples(self.attachments_view(), self.subpasses_view(), subpass as int),
    {
        let _n = self.num_subpasses();
        match self.subpass(subpass as usize) {
            Some(p) => {
                proof {
                    assert(crate::desc::valid_subpass(self.attachments_view(), p@));
                }
                if p.color_attachments.len() > 0 {
                    let a = self.attachment(p.color_attachments[0].0).unwrap();
                    Some(a.samples)
                } else {
                    match p.depth_stencil {
                        Some(r) => {
                            let a = self.attachment(r.0).unwrap();
                            Some(a.samples)
                        },
                        None => None,
                    }
                }
            },
            None => None,
        }
    }

    /// Returns whether a subpass has a depth aspect and whether it has a stencil
    /// aspect, or `None` if out of range.
    fn has_depth_stencil_attachment(&self, subpass: u32) -> (r: Option<(bool, bool)>)
        ensures
            r == spec_has_depth_stencil_attachment(
                self.attachments_view(),
                self.subpasses_view(),
                subpass as int,
            ),
    {
        let _n = self.num_subpasses();
        match self.subpass(subpass as usize) {
            Some(p) => {
                proof {
                    assert(crate::desc::valid_subpass(self.attachments_view(), p@));
                }
                match p.depth_stencil {
                    Some(r) => {
                        let a = self.attachment(r.0).unwrap();
                        Some(aspects(a.format.ty()))
                    },
                    None => Some((false, false)),
                }
            },
            None => None,
        }
    }

    /// Returns true if a subpass has a depth or depth-stencil attachment.
    fn has_depth(&self, subpass: u32) -> (r: Option<bool>)
        ensures
            r == spec_has_depth(self.attachments_view(), self.subpasses_view(), subpass as int),
    {
        match self.has_depth_stencil_attachment(subpass) {
            Some(f) => Some(f.0),
            None => None,
        }
    }

    /// Returns true if a subpass has a depth or depth-stencil attachment whose
    /// layout is not `DepthStencilReadOnlyOptimal`.
    fn has_writable_depth(&self, subpass: u32) -> (r: Option<bool>)
        ensures
            r == spec_has_writable_depth(
                self.attachments_view(),
                self.subpasses_view(),
                subpass as int,
            ),
    {
        match self.has_depth_stencil_attachment(subpass) {
            Some(f) => Some(f.0 && !self.depth_stencil_is_read_only(subpass)),
            None => None,
        }
    }

    /// Returns true if a subpass has a stencil or depth-stencil attachment.
    fn has_stencil(&self, subpass: u32) -> (r: Option<bool>)
        ensures
            r == spec_has_stencil(self.attachments_view(), self.subpasses_view(), subpass as int),
    {
        match self.has_depth_stencil_attachment(subpass) {
            Some(f) => Some(f.1),
            None => None,
        }
    }

    /// Returns true if a subpass has a stencil or depth-stencil attachment whose
    /// layout is not `DepthStencilReadOnlyOptimal`.
    fn has_writable_stencil(&self, subpass: u32) -> (r: Option<bool>)
        ensures
            r == spec_has_writable_stencil(
                self.attachments_view(),
                self.subpasses_view(),
                subpass as int,
            ),
    {
        match self.has_depth_stencil_attachment(subpass) {
            Some(f) => Some(f.1 && !self.depth_stencil_is_read_only(subpass)),
            None => None,
        }
    }

    /// Returns true if subpass `subpass` exists and uses its depth/stencil
    /// attachment in the `DepthStencilReadOnlyOptimal` layout.
    fn depth_stencil_is_read_only(&self, subpass: u32) -> (r: bool)
        ensures
            r == ((subpass as int) < self.subpasses_view().len() && depth_stencil_read_only(
                self.subpasses_view(),
                subpass as int,
            )),
    {
        match self.subpass(subpass as usize) {
            Some(p) => match p.depth_stencil {
                Some(r) => r.1 == ImageLayout::DepthStencilReadOnlyOptimal,
                None => false,
            },
            None => false,
        }
    }
}

/// A shared reference to a description is a description: every method forwards
/// to the referenced value.
impl<'a, T: RenderPassDesc> RenderPassDesc for &'a T {
    open spec fn attachments_view(&self) -> Seq<LayoutAttachmentDescription> {
        (**self).attachments_view()
    }

    open spec fn subpasses_view(&self) -> Seq<SubpassView> {
        (**self).subpasses_view()
    }

    open spec fn dependencies_view(&self) -> Seq<LayoutPassDependencyDescription> {
        (**self).dependencies_view()
    }

    fn num_attachments(&self) -> (r: usize) {
        (**self).num_attachments()
    }

    fn attachment(&self, num: usize) -> (r: Option<LayoutAttachmentDescription>) {
        (**self).attachment(num)
    }

    fn num_subpasses(&self) -> (r: usize) {
        let r = (**self).num_subpasses();
        proof {
            assert(valid_description((**self).attachments_view(), (**self).subpasses_view()));
            assert(self.attachments_view() == (**self).attachments_view());
            assert(self.subpasses_view() == (**self).subpasses_view());
            assert(valid_description(self.attachments_view(), self.subpasses_view()));
        }
        r
    }

    fn subpass(&self, num: usize) -> (r: Option<LayoutPassDescription>) {
        (**self).subpass(num)
    }

    fn num_dependencies(&self) -> (r: usize) {
        (**self).num_dependencies()
    }

    fn dependency(&self, num: usize) -> (r: Option<LayoutPassDependencyDescription>) {
        (**self).dependency(num)
    }
}

/// A shared pointer to a description is a description: every method forwards
/// to the pointed-to value.
impl<T: RenderPassDesc> RenderPassDesc for std::sync::Arc<T> {
    open spec fn attachments_view(&self) -> Seq<LayoutAttachmentDescription> {
        (**self).attachments_view()
    }

    open spec fn subpasses_view(&self) -> Seq<SubpassView> {
        (**self).subpasses_view()
    }

    open spec fn dependencies_view(&self) -> Seq<LayoutPassDependencyDescription> {
        (**self).dependencies_view()
    }

    fn num_attachments(&self) -> (r: usize) {
        (**self).num_attachments()
    }

    fn attachment(&self, num: usize) -> (r: Option<LayoutAttachmentDescription>) {
        (**self).attachment(num)
    }

    fn num_subpasses(&self) -> (r: usize) {
        let r = (**self).num_subpasses();
        proof {
            assert(valid_description((**self).attachments_view(), (**self).subpasses_view()));
            assert(self.attachments_view() == (**self).attachments_view());
            assert(self.subpasses_view() == (**self).subpasses_view());
            assert(valid_description(self.attachments_view(), self.subpasses_view()));
        }
        r
    }

    fn subpass(&self, num: usize) -> (r: Option<LayoutPassDescription>) {
        (**self).subpass(num)
    }

    fn num_dependencies(&self) -> (r: usize) {
        (**self).num_dependencies()
    }

    fn dependency(&self, num: usize) -> (r: Option<LayoutPassDependencyDescription>) {
        (**self).dependency(num)
    }
}

/// Cursor over the attachments of a render-pass description.
#[derive(Debug)]
pub struct RenderPassDescAttachments<'a, R> {
    render_pass: &'a R,
    num: usize,
}

impl<'a, R> RenderPassDescAttachments<'a, R> {
    /// The description walked over.
    pub closed spec fn render_pass(&self) -> &'a R {
        self.render_pass
    }

    /// Index of the next attachment to hand out.
    pub closed spec fn position(&self) -> nat {
        self.num as nat
    }
}

impl<'a, R: RenderPassDesc> RenderPassDescAttachments<'a, R> {
    /// Returns the next attachment, or `None` once all have been handed out.
    pub fn next(&mut self) -> (r: Option<LayoutAttachmentDescription>)
        ensures
            final(self).render_pass() == old(self).render_pass(),
            r == entry_at(old(self).render_pass().attachments_view(), old(self).position() as int),
            r is Some ==> final(self).position() == old(self).position() + 1,
            r is None ==> final(self).position() == old(self).position(),
    {
        if self.num < self.render_pass.num_attachments() {
            let n = self.num;
            self.num = n + 1;
            Some(self.render_pass.attachment(n).unwrap())
        } else {
            None
        }
    }
}

/// Cursor over the subpasses of a render-pass description.
#[derive(Debug)]
pub struct RenderPassDescSubpasses<'a, R> {
    render_pass: &'a R,
    num: usize,
}

impl<'a, R> RenderPassDescSubpasses<'a, R> {
    /// The description walked over.
    pub closed spec fn render_pass(&self) -> &'a R {
        self.render_pass
    }

    /// Index of the next subpass to hand out.
    pub closed spec fn position(&self) -> nat {
        self.num as nat
    }
}

impl<'a, R: RenderPassDesc> RenderPassDescSubpasses<'a, R> {
    /// Returns the next subpass, or `None` once all have been handed out.
    pub fn next(&mut self) -> (r: Option<LayoutPassDescription>)
        ensures
            final(self).render_pass() == old(self).render_pass(),
            match r {
                Some(p) => {
                    &&& old(self).position() < old(self).render_pass().subpasses_view().len()
                    &&& p@ == old(self).render_pass().subpasses_view()[old(self).position() as int]
                    &&& final(self).position() == old(self).position() + 1
                },
                None => {
                    &&& old(self).position() >= old(self).render_pass().subpasses_view().len()
                    &&& final(self).position() == old(self).position()
                },
            },
    {
        if self.num < self.render_pass.num_subpasses() {
            let n = self.num;
            self.num = n + 1;
            Some(self.render_pass.subpass(n).unwrap())
        } else {
            None
        }
    }
}

/// Cursor over the dependencies of a render-pass description.
#[derive(Debug)]
pub struct RenderPassDescDependencies<'a, R> {
    render_pass: &'a R,
    num: usize,
}

impl<'a, R> RenderPassDescDependencies<'a, R> {
    /// The description walked over.
    pub closed spec fn render_pass(&self) -> &'a R {
        self.render_pass
    }

    /// Index of the next dependency to hand out.
    pub closed spec fn position(&self) -> nat {
        self.num as nat
    }
}

impl<'a, R: RenderPassDesc> RenderPassDescDependencies<'a, R> {
    /// Returns the next dependency, or `None` once all have been handed out.
    pub fn next(&mut self) -> (r: Option<LayoutPassDependencyDescription>)
        ensures
            final(self).render_pass() == old(self).render_pass(),
            r == entry_at(old(self).render_pass().dependencies_view(), old(self).position() as int),
            r is Some ==> final(self).position() == old(self).position() + 1,
            r is None ==> final(self).position() == old(self).position(),
    {
        if self.num < self.render_pass.num_dependencies() {
            let n = self.num;
            self.num = n + 1;
            Some(self.render_pass.dependency(n).unwrap())
        } else {
            None
        }
    }
}

} // verus!
