//! Descriptions of attachments, subpasses and dependencies, and the
//! structural rules a render-pass description obeys.
use vstd::prelude::*;

use crate::format::{is_depth_stencil_ty, Format, ImageLayout};

verus! {

/// What happens to an attachment at the end of the render pass.
#[derive(Debug, Clone, Copy, PartialEq, Eq, Structural)]
pub enum StoreOp {
    /// The content is written back to memory.
    Store,
    /// The content is left undefined.
    DontCare,
}

/// What happens to an attachment at the start of the render pass.
#[derive(Debug, Clone, Copy, PartialEq, Eq, Structural)]
pub enum LoadOp {
    /// The previous content is loaded from memory.
    Load,
    /// The content is filled with a uniform value given when drawing starts.
    Clear,
    /// The content is undefined.
    DontCare,
}

/// Describes an attachment that will be used in a render pass.
#[derive(Debug, Clone, Copy, PartialEq, Eq, Structural)]
pub struct LayoutAttachmentDescription {
    /// Format of the image that is going to be bound.
    pub format: Format,
    /// Number of samples of the image that is going to be bound.
    pub samples: u32,
    /// What to do with the attachment at the start of the render pass.
    pub load: LoadOp,
    /// What to do with the attachment at the end of the render pass.
    pub store: StoreOp,
    /// Layout that the image is in at the start of the render pass.
    pub initial_layout: ImageLayout,
    /// Layout that the image is transitioned to at the end of the render pass.
    pub final_layout: ImageLayout,
}

impl LayoutAttachmentDescription {
    /// Render-pass compatibility of two attachments: same format and sample count.
    pub open spec fn spec_compatible(self, other: Self) -> bool {
        self.format == other.format && self.samples == other.samples
    }

    /// Returns true if this attachment is compatible with another one, that is if
    /// both have the same format and the same number of samples.
    pub fn is_compatible_with(&self, other: &LayoutAttachmentDescription) -> (r: bool)
        ensures
            r == self.spec_compatible(*other),
    {
        self.format == other.format && self.samples == other.samples
    }
}

/// Reference from a subpass to an attachment: its index and required layout.
pub type AttachmentRef = (usize, ImageLayout);

/// Describes one of the passes of a render pass.
#[derive(Debug, Clone)]
pub struct LayoutPassDescription {
    /// Indices and layouts of attachments to use as color attachments.
    pub color_attachments: Vec<AttachmentRef>,
    /// Index and layout of the attachment to use as depth-stencil attachment.
    pub depth_stencil: Option<AttachmentRef>,
    /// Indices and layouts of attachments to use as input attachments.
    pub input_attachments: Vec<AttachmentRef>,
    /// If not empty, each color attachment is resolved into the entry at the
    /// same position of this list.
    pub resolve_attachments: Vec<AttachmentRef>,
    /// Indices of attachments whose content is preserved during this pass.
    pub preserve_attachments: Vec<usize>,
}

/// Mathematical view of a subpass description.
pub struct SubpassView {
    pub color_attachments: Seq<AttachmentRef>,
    pub depth_stencil: Option<AttachmentRef>,
    pub input_attachments: Seq<AttachmentRef>,
    pub resolve_attachments: Seq<AttachmentRef>,
    pub preserve_attachments: Seq<usize>,
}

impl View for LayoutPassDescription {
    type V = SubpassView;

    open spec fn view(&self) -> SubpassView {
        SubpassView {
            color_attachments: self.color_attachments@,
            depth_stencil: self.depth_stencil,
            input_attachments: self.input_attachments@,
            resolve_attachments: self.resolve_attachments@,
            preserve_attachments: self.preserve_attachments@,
        }
    }
}

fn copy_refs(v: &Vec<AttachmentRef>) -> (r: Vec<AttachmentRef>)
    ensures
        r@ == v@,
{
    let mut r: Vec<AttachmentRef> = Vec::new();
    let mut i: usize = 0;
    while i < v.len()
        invariant
            i <= v@.len(),
            r@ == v@.subrange(0, i as int),
        decreases v@.len() - i,
    {
        r.push(v[i]);
        i += 1;
    }
    assert(r@ =~= v@);
    r
}

fn copy_indices(v: &Vec<usize>) -> (r: Vec<usize>)
    ensures
        r@ == v@,
{
    let mut r: Vec<usize> = Vec::new();
    let mut i: usize = 0;
    while i < v.len()
        invariant
            i <= v@.len(),
            r@ == v@.subrange(0, i as int),
        decreases v@.len() - i,
    {
        r.push(v[i]);
        i += 1;
    }
    assert(r@ =~= v@);
    r
}

impl LayoutPassDescription {
    /// Returns a copy of this description.
    pub fn duplicate(&self) -> (r: LayoutPassDescription)
        ensures
            r@ == self@,
    {
        LayoutPassDescription {
            color_attachments: copy_refs(&self.color_attachments),
            depth_stencil: self.depth_stencil,
            input_attachments: copy_refs(&self.input_attachments),
            resolve_attachments: copy_refs(&self.resolve_attachments),
            preserve_attachments: copy_indices(&self.preserve_attachments),
        }
    }
}

/// Describes a dependency between two passes of a render pass.
#[derive(Debug, Clone, Copy, PartialEq, Eq, Structural)]
pub struct LayoutPassDependencyDescription {
    /// Index of the subpass that writes the data that `destination_subpass` uses.
    pub source_subpass: usize,
    /// Index of the subpass that reads the data that `source_subpass` wrote.
    pub destination_subpass: usize,
    /// Pipeline stages of the source that must finish before the destination starts.
    pub src_stages: u32,
    /// Pipeline stages of the destination that wait for the source.
    pub dst_stages: u32,
    /// How the source subpass accesses the shared attachments.
    pub src_access: u32,
    /// How the destination subpass accesses the shared attachments.
    pub dst_access: u32,
    /// If true, the destination may start on a region of pixels as soon as the
    /// source has finished that region.
    pub by_region: bool,
}

/// `n` is a power of two (1, 2, 4, ...).
pub open spec fn is_power_of_two(n: nat) -> bool
    decreases n,
{
    if n <= 1 {
        n == 1
    } else {
        n % 2 == 0 && is_power_of_two(n / 2)
    }
}

/// An attachment description on its own is valid when its sample count is a
/// power of two.
pub open spec fn valid_attachment(a: LayoutAttachmentDescription) -> bool {
    is_power_of_two(a.samples as nat)
}

/// Every reference of the list points at an existing attachment.
pub open spec fn refs_in_range(refs: Seq<AttachmentRef>, n: nat) -> bool {
    forall|j: int| 0 <= j < refs.len() ==> (#[trigger] refs[j]).0 < n
}

/// No reference of the list points at attachment `a`.
pub open spec fn refs_avoid(refs: Seq<AttachmentRef>, a: usize) -> bool {
    forall|j: int| 0 <= j < refs.len() ==> (#[trigger] refs[j]).0 != a
}

/// Every attachment that the list references has `s` samples.
pub open spec fn refs_have_samples(
    atts: Seq<LayoutAttachmentDescription>,
    refs: Seq<AttachmentRef>,
    s: u32,
) -> bool {
    forall|j: int| 0 <= j < refs.len() ==> atts[(#[trigger] refs[j]).0 as int].samples == s
}

/// The depth/stencil reference, if any, points at an existing attachment whose
/// format has a depth and/or stencil aspect.
pub open spec fn depth_stencil_valid(
    atts: Seq<LayoutAttachmentDescription>,
    ds: Option<AttachmentRef>,
) -> bool {
    match ds {
        Some(r) => r.0 < atts.len() && is_depth_stencil_ty(atts[r.0 as int].format.spec_ty()),
        None => true,
    }
}

/// Resolve rule: a non-empty resolve list is as long as the color list, every
/// resolve target has one sample and every color attachment more than one.
pub open spec fn resolve_valid(atts: Seq<LayoutAttachmentDescription>, p: SubpassView) -> bool {
    p.resolve_attachments.len() > 0 ==> {
        &&& p.resolve_attachments.len() == p.color_attachments.len()
        &&& forall|j: int|
            0 <= j < p.resolve_attachments.len() ==> atts[(#[trigger] p.resolve_attachments[j]).0 as int].samples
                == 1
        &&& forall|j: int|
            0 <= j < p.color_attachments.len() ==> atts[(#[trigger] p.color_attachments[j]).0 as int].samples
                > 1
    }
}

/// No preserved attachment is used in any other role of the subpass.
pub open spec fn preserve_disjoint(p: SubpassView) -> bool {
    forall|j: int|
        0 <= j < p.preserve_attachments.len() ==> {
            let a = #[trigger] p.preserve_attachments[j];
            &&& refs_avoid(p.color_attachments, a)
            &&& refs_avoid(p.input_attachments, a)
            &&& refs_avoid(p.resolve_attachments, a)
            &&& match p.depth_stencil {
                Some(r) => r.0 != a,
                None => true,
            }
        }
}

/// All color and depth/stencil attachments of the subpass share one sample count.
pub open spec fn samples_consistent(atts: Seq<LayoutAttachmentDescription>, p: SubpassView) -> bool {
    p.color_attachments.len() > 0 ==> {
        let s = atts[p.color_attachments[0].0 as int].samples;
        &&& refs_have_samples(atts, p.color_attachments, s)
        &&& match p.depth_stencil {
            Some(r) => atts[r.0 as int].samples == s,
            None => true,
        }
    }
}

/// Structural rules of one subpass against the attachments of its render pass.
pub open spec fn valid_subpass(atts: Seq<LayoutAttachmentDescription>, p: SubpassView) -> bool {
    &&& p.color_attachments.len() <= u32::MAX
    &&& refs_in_range(p.color_attachments, atts.len())
    &&& refs_in_range(p.input_attachments, atts.len())
    &&& refs_in_range(p.resolve_attachments, atts.len())
    &&& forall|j: int|
        0 <= j < p.preserve_attachments.len() ==> #[trigger] p.preserve_attachments[j] < atts.len()
    &&& depth_stencil_valid(atts, p.depth_stencil)
    &&& resolve_valid(atts, p)
    &&& preserve_disjoint(p)
    &&& samples_consistent(atts, p)
}

/// Structural rules of a whole render-pass description.
pub open spec fn valid_description(
    atts: Seq<LayoutAttachmentDescription>,
    subs: Seq<SubpassView>,
) -> bool {
    &&& forall|i: int| 0 <= i < atts.len() ==> valid_attachment(#[trigger] atts[i])
    &&& forall|i: int| 0 <= i < subs.len() ==> valid_subpass(atts, #[trigger] subs[i])
}

/// In a valid description, every subpass with a non-empty resolve list has as
/// many resolve attachments as color attachments, every resolve target has one
/// sample and every color attachment more than one.
pub proof fn lemma_resolve_rule(
    atts: Seq<LayoutAttachmentDescription>,
    subs: Seq<SubpassView>,
    i: int,
)
    requires
        valid_description(atts, subs),
        0 <= i < subs.len(),
        subs[i].resolve_attachments.len() > 0,
    ensures
        subs[i].resolve_attachments.len() == subs[i].color_attachments.len(),
        forall|j: int|
            0 <= j < subs[i].resolve_attachments.len() ==> atts[(#[trigger] subs[i].resolve_attachments[j]).0 as int].samples
                == 1,
        forall|j: int|
            0 <= j < subs[i].color_attachments.len() ==> atts[(#[trigger] subs[i].color_attachments[j]).0 as int].samples
                > 1,
{
    assert(valid_subpass(atts, subs[i]));
}

} // verus!
