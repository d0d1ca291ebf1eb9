//! A render-pass description held in memory, checked when it is built.
use vstd::prelude::*;

use crate::desc::{
    depth_stencil_valid, is_power_of_two, preserve_disjoint, refs_avoid, refs_have_samples,
    refs_in_range, resolve_valid, samples_consistent, valid_attachment, valid_description,
    valid_subpass, AttachmentRef, LayoutAttachmentDescription, LayoutPassDependencyDescription,
    LayoutPassDescription, SubpassView,
};
use crate::format::FormatTy;
use crate::render_pass::RenderPassDesc;

verus! {

/// Views of a sequence of subpass descriptions.
pub open spec fn subpass_views(subs: Seq<LayoutPassDescription>) -> Seq<SubpassView> {
    subs.map_values(|p: LayoutPassDescription| p@)
}

/// Why a render-pass description was refused.
#[derive(Debug, Clone, Copy, PartialEq, Eq, Structural)]
pub enum RenderPassDescError {
    /// The attachment at this index has a sample count that is not a power of two.
    InvalidAttachment { index: usize },
    /// The subpass at this index breaks one of the structural rules.
    InvalidSubpass { index: usize },
}

/// What `RenderPassDescriptor::new` answers for the given lists.
pub open spec fn descriptor_check(
    atts: Seq<LayoutAttachmentDescription>,
    subs: Seq<SubpassView>,
) -> Option<RenderPassDescError> {
    if exists|i: int| 0 <= i < atts.len() && !valid_attachment(#[trigger] atts[i]) {
        let i = choose|i: int|
            0 <= i < atts.len() && !valid_attachment(#[trigger] atts[i]) && forall|k: int|
                0 <= k < i ==> valid_attachment(#[trigger] atts[k]);
        Some(RenderPassDescError::InvalidAttachment { index: i as usize })
    } else if exists|i: int| 0 <= i < subs.len() && !valid_subpass(atts, #[trigger] subs[i]) {
        let i = choose|i: int|
            0 <= i < subs.len() && !valid_subpass(atts, #[trigger] subs[i]) && forall|k: int|
                0 <= k < i ==> valid_subpass(atts, #[trigger] subs[k]);
        Some(RenderPassDescError::InvalidSubpass { index: i as usize })
    } else {
        None
    }
}

/// A render-pass description that owns its attachments, subpasses and
/// dependencies, and obeys the structural rules from construction on.
#[derive(Debug)]
pub struct RenderPassDescriptor {
    attachments: Vec<LayoutAttachmentDescription>,
    subpasses: Vec<LayoutPassDescription>,
    dependencies: Vec<LayoutPassDependencyDescription>,
}

fn check_power_of_two(n: u32) -> (r: bool)
    ensures
        r == is_power_of_two(n as nat),
{
    if n == 0 {
        return false;
    }
    let mut m: u32 = n;
    while m > 1 && m % 2 == 0
        invariant
            m >= 1,
            is_power_of_two(m as nat) == is_power_of_two(n as nat),
        decreases m,
    {
        m = m / 2;
    }
    m == 1
}

fn check_refs_in_range(refs: &Vec<AttachmentRef>, n: usize) -> (r: bool)
    ensures
        r == refs_in_range(refs@, n as nat),
{
    let mut i: usize = 0;
    while i < refs.len()
        invariant
            i <= refs@.len(),
            forall|j: int| 0 <= j < i ==> (#[trigger] refs@[j]).0 < n,
        decreases refs@.len() - i,
    {
        if refs[i].0 >= n {
            return false;
        }
        i += 1;
    }
    true
}

fn check_indices_in_range(v: &Vec<usize>, n: usize) -> (r: bool)
    ensures
        r == forall|j: int| 0 <= j < v@.len() ==> #[trigger] v@[j] < n,
{
    let mut i: usize = 0;
    while i < v.len()
        invariant
            i <= v@.len(),
            forall|j: int| 0 <= j < i ==> #[trigger] v@[j] < n,
        decreases v@.len() - i,
    {
        if v[i] >= n {
            return false;
        }
        i += 1;
    }
    true
}

pub(crate) fn check_refs_avoid(refs: &Vec<AttachmentRef>, a: usize) -> (r: bool)
    ensures
        r == refs_avoid(refs@, a),
{
    let mut i: usize = 0;
    while i < refs.len()
        invariant
            i <= refs@.len(),
            forall|j: int| 0 <= j < i ==> (#[trigger] refs@[j]).0 != a,
        decreases refs@.len() - i,
    {
        if refs[i].0 == a {
            return false;
        }
        i += 1;
    }
    true
}

fn check_refs_samples(atts: &Vec<LayoutAttachmentDescription>, refs: &Vec<AttachmentRef>, s: u32) -> (r: bool)
    requires
        refs_in_range(refs@, atts@.len()),
    ensures
        r == refs_have_samples(atts@, refs@, s),
{
    let mut i: usize = 0;
    while i < refs.len()
        invariant
            i <= refs@.len(),
            refs_in_range(refs@, atts@.len()),
            forall|j: int| 0 <= j < i ==> atts@[(#[trigger] refs@[j]).0 as int].samples == s,
        decreases refs@.len() - i,
    {
        if atts[refs[i].0].samples != s {
            return false;
        }
        i += 1;
    }
    true
}

fn check_depth_stencil(atts: &Vec<LayoutAttachmentDescription>, ds: Option<AttachmentRef>) -> (r: bool)
    ensures
        r == depth_stencil_valid(atts@, ds),
{
    match ds {
        Some(d) => {
            if d.0 >= atts.len() {
                false
            } else {
                let t = atts[d.0].format.ty();
                t == FormatTy::Depth || t == FormatTy::Stencil || t == FormatTy::DepthStencil
            }
        },
        None => true,
    }
}

fn check_resolve(atts: &Vec<LayoutAttachmentDescription>, p: &LayoutPassDescription) -> (r: bool)
    requires
        refs_in_range(p.color_attachments@, atts@.len()),
        refs_in_range(p.resolve_attachments@, atts@.len()),
    ensures
        r == resolve_valid(atts@, p@),
{
    if p.resolve_attachments.len() == 0 {
        return true;
    }
    if p.resolve_attachments.len() != p.color_attachments.len() {
        return false;
    }
    let mut i: usize = 0;
    while i < p.resolve_attachments.len()
        invariant
            i <= p.resolve_attachments@.len(),
            p.resolve_attachments@.len() == p.color_attachments@.len(),
            refs_in_range(p.color_attachments@, atts@.len()),
            refs_in_range(p.resolve_attachments@, atts@.len()),
            forall|j: int|
                0 <= j < i ==> atts@[(#[trigger] p.resolve_attachments@[j]).0 as int].samples == 1,
            forall|j: int|
                0 <= j < i ==> atts@[(#[trigger] p.color_attachments@[j]).0 as int].samples > 1,
        decreases p.resolve_attachments@.len() - i,
    {
        if atts[p.resolve_attachments[i].0].samples != 1 {
            return false;
        }
        if atts[p.color_attachments[i].0].samples <= 1 {
            return false;
        }
        i += 1;
    }
    true
}

fn check_preserve(p: &LayoutPassDescription) -> (r: bool)
    ensures
        r == preserve_disjoint(p@),
{
    let mut i: usize = 0;
    while i < p.preserve_attachments.len()
        invariant
            i <= p.preserve_attachments@.len(),
            forall|j: int|
                0 <= j < i ==> {
                    let a = #[trigger] p.preserve_attachments@[j];
                    &&& refs_avoid(p.color_attachments@, a)
                    &&& refs_avoid(p.input_attachments@, a)
                    &&& refs_avoid(p.resolve_attachments@, a)
                    &&& match p.depth_stencil {
                        Some(r) => r.0 != a,
                        None => true,
                    }
                },
        decreases p.preserve_attachments@.len() - i,
    {
        let a = p.preserve_attachments[i];
        let ds_ok = match p.depth_stencil {
            Some(r) => r.0 != a,
            None => true,
        };
        if !(check_refs_avoid(&p.color_attachments, a) && check_refs_avoid(&p.input_attachments, a)
            && check_refs_avoid(&p.resolve_attachments, a) && ds_ok) {
            assert(p@.preserve_attachments[i as int] == a);
            assert(!preserve_disjoint(p@));
            return false;
        }
        i += 1;
    }
    true
}

fn check_samples(atts: &Vec<LayoutAttachmentDescription>, p: &LayoutPassDescription) -> (r: bool)
    requires
        refs_in_range(p.color_attachments@, atts@.len()),
        depth_stencil_valid(atts@, p.depth_stencil),
    ensures
        r == samples_consistent(atts@, p@),
{
    if p.color_attachments.len() == 0 {
        return true;
    }
    let s = atts[p.color_attachments[0].0].samples;
    let ds_ok = match p.depth_stencil {
        Some(d) => atts[d.0].samples == s,
        None => true,
    };
    check_refs_samples(atts, &p.color_attachments, s) && ds_ok
}

/// Returns true if subpass `p` obeys the structural rules against `atts`.
pub fn check_subpass(atts: &Vec<LayoutAttachmentDescription>, p: &LayoutPassDescription) -> (r: bool)
    ensures
        r == valid_subpass(atts@, p@),
{
    let n = atts.len();
    if p.color_attachments.len() > 0xffff_ffff {
        return false;
    }
    if !check_refs_in_range(&p.color_attachments, n) {
        return false;
    }
    if !check_refs_in_range(&p.input_attachments, n) {
        return false;
    }
    if !check_refs_in_range(&p.resolve_attachments, n) {
        return false;
    }
    if !check_indices_in_range(&p.preserve_attachments, n) {
        return false;
    }
    if !check_depth_stencil(atts, p.depth_stencil) {
        return false;
    }
    check_resolve(atts, p) && check_preserve(p) && check_samples(atts, p)
}

impl RenderPassDescriptor {
    #[verifier::type_invariant]
    spec fn inv(&self) -> bool {
        valid_description(self.attachments@, subpass_views(self.subpasses@))
    }

    /// Builds a description from its attachments, subpasses and dependencies.
    /// Fails on the first attachment, then the first subpass, that breaks the
    /// structural rules.
    pub fn new(
        attachments: Vec<LayoutAttachmentDescription>,
        subpasses: Vec<LayoutPassDescription>,
        dependencies: Vec<LayoutPassDependencyDescription>,
    ) -> (r: Result<RenderPassDescriptor, RenderPassDescError>)
        ensures
            r is Ok <==> valid_description(attachments@, subpass_views(subpasses@)),
            match r {
                Ok(d) => {
                    &&& d.attachments_view() == attachments@
                    &&& d.subpasses_view() == subpass_views(subpasses@)
                    &&& d.dependencies_view() == dependencies@
                },
                Err(e) => Some(e) == descriptor_check(attachments@, subpass_views(subpasses@)),
            },
    {
        let ghost subs = subpass_views(subpasses@);
        let mut i: usize = 0;
        while i < attachments.len()
            invariant
                i <= attachments@.len(),
                forall|k: int| 0 <= k < i ==> valid_attachment(#[trigger] attachments@[k]),
            decreases attachments@.len() - i,
        {
            if !check_power_of_two(attachments[i].samples) {
                proof {
                    assert(!valid_attachment(attachments@[i as int]) && forall|k: int|
                        0 <= k < i ==> valid_attachment(#[trigger] attachments@[k]));
                    let w = choose|w: int|
                        0 <= w < attachments@.len() && !valid_attachment(#[trigger] attachments@[w])
                            && forall|k: int| 0 <= k < w ==> valid_attachment(#[trigger] attachments@[k]);
                    assert(w == i) by {
                        if w < i {
                        } else if w > i {
                            assert(valid_attachment(attachments@[i as int]));
                        }
                    }
                }
                return Err(RenderPassDescError::InvalidAttachment { index: i });
            }
            i += 1;
        }
        let mut j: usize = 0;
        while j < subpasses.len()
            invariant
                j <= subpasses@.len(),
                subs == subpass_views(subpasses@),
                forall|k: int| 0 <= k < attachments@.len() ==> valid_attachment(#[trigger] attachments@[k]),
                forall|k: int| 0 <= k < j ==> valid_subpass(attachments@, #[trigger] subs[k]),
            decreases subpasses@.len() - j,
        {
            if !check_subpass(&attachments, &subpasses[j]) {
                proof {
                    assert(!valid_subpass(attachments@, subs[j as int]) && forall|k: int|
                        0 <= k < j ==> valid_subpass(attachments@, #[trigger] subs[k]));
                    let w = choose|w: int|
                        0 <= w < subs.len() && !valid_subpass(attachments@, #[trigger] subs[w])
                            && forall|k: int| 0 <= k < w ==> valid_subpass(attachments@, #[trigger] subs[k]);
                    assert(w == j) by {
                        if w < j {
                        } else if w > j {
                            assert(valid_subpass(attachments@, subs[j as int]));
                        }
                    }
                }
                return Err(RenderPassDescError::InvalidSubpass { index: j });
            }
            j += 1;
        }
        Ok(RenderPassDescriptor { attachments, subpasses, dependencies })
    }
}

impl RenderPassDesc for RenderPassDescriptor {
    closed spec fn attachments_view(&self) -> Seq<LayoutAttachmentDescription> {
        self.attachments@
    }

    closed spec fn subpasses_view(&self) -> Seq<SubpassView> {
        subpass_views(self.subpasses@)
    }

    closed spec fn dependencies_view(&self) -> Seq<LayoutPassDependencyDescription> {
        self.dependencies@
    }

    fn num_attachments(&self) -> (r: usize) {
        proof {
            use_type_invariant(self);
        }
        self.attachments.len()
    }

    fn attachment(&self, num: usize) -> (r: Option<LayoutAttachmentDescription>) {
        if num < self.attachments.len() {
            Some(self.attachments[num])
        } else {
            None
        }
    }

    fn num_subpasses(&self) -> (r: usize) {
        proof {
            use_type_invariant(self);
            assert(valid_description(self.attachments@, subpass_views(self.subpasses@)));
            assert(valid_description(self.attachments_view(), self.subpasses_view()));
        }
        self.subpasses.len()
    }

    fn subpass(&self, num: usize) -> (r: Option<LayoutPassDescription>) {
        if num < self.subpasses.len() {
            Some(self.subpasses[num].duplicate())
        } else {
            None
        }
    }

    fn num_dependencies(&self) -> (r: usize) {
        self.dependencies.len()
    }

    fn dependency(&self, num: usize) -> (r: Option<LayoutPassDependencyDescription>) {
        if num < self.dependencies.len() {
            Some(self.dependencies[num])
        } else {
            None
        }
    }
}

} // verus!
