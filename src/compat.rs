//! Compatibility of a render pass with another render pass, and of a subpass
//! with the outputs a fragment shader declares.
use vstd::prelude::*;

use crate::desc::{LayoutAttachmentDescription, SubpassView};
use crate::format::Format;
use crate::render_pass::RenderPassDesc;

verus! {

/// Two attachment lists are compatible when they have the same length and the
/// attachments at each position have the same format and sample count.
pub open spec fn attachments_compatible(
    a: Seq<LayoutAttachmentDescription>,
    b: Seq<LayoutAttachmentDescription>,
) -> bool {
    &&& a.len() == b.len()
    &&& forall|i: int| 0 <= i < a.len() ==> (#[trigger] a[i]).spec_compatible(b[i])
}

/// Checks whether a render pass is compatible with another, as the graphics
/// API's render-pass compatibility rule defines it: only the attachments count,
/// position by position.
pub trait RenderPassCompatible<Other: RenderPassDesc>: RenderPassDesc {
    /// Returns `true` if this render pass is compatible with `other`.
    fn is_compatible_with(&self, other: &Other) -> (r: bool)
        ensures
            r == attachments_compatible(self.attachments_view(), other.attachments_view()),
    ;
}

impl<A: RenderPassDesc, B: RenderPassDesc> RenderPassCompatible<B> for A {
    fn is_compatible_with(&self, other: &B) -> (r: bool) {
        let n = self.num_attachments();
        if n != other.num_attachments() {
            return false;
        }
        let mut i: usize = 0;
        while i < n
            invariant
                n == self.attachments_view().len(),
                n == other.attachments_view().len(),
                i <= n,
                forall|k: int|
                    0 <= k < i ==> (#[trigger] self.attachments_view()[k]).spec_compatible(
                        other.attachments_view()[k],
                    ),
            decreases n - i,
        {
            let a = self.attachment(i).unwrap();
            let b = other.attachment(i).unwrap();
            if !a.is_compatible_with(&b) {
                return false;
            }
            i += 1;
        }
        true
    }
}

/// One output declared by a fragment shader: a range of locations
/// `location_start..location_end` and the format written there.
#[derive(Debug, Clone, Copy, PartialEq, Eq, Structural)]
pub struct ShaderInterfaceDefEntry {
    pub location_start: u32,
    pub location_end: u32,
    pub format: Format,
}

/// Declared inputs or outputs of a shader stage.
pub trait ShaderInterfaceDef {
    /// The declared entries, in order.
    spec fn elements_view(&self) -> Seq<ShaderInterfaceDefEntry>;

    /// Returns the declared entries.
    fn elements(&self) -> (r: Vec<ShaderInterfaceDefEntry>)
        ensures
            r@ == self.elements_view(),
    ;
}

/// A shader interface held as a list of entries.
#[derive(Debug, Clone)]
pub struct ShaderInterface {
    entries: Vec<ShaderInterfaceDefEntry>,
}

impl ShaderInterface {
    /// Builds an interface from its entries.
    pub fn new(entries: Vec<ShaderInterfaceDefEntry>) -> (r: ShaderInterface)
        ensures
            r.elements_view() == entries@,
    {
        ShaderInterface { entries }
    }
}

impl ShaderInterfaceDef for ShaderInterface {
    closed spec fn elements_view(&self) -> Seq<ShaderInterfaceDefEntry> {
        self.entries@
    }

    fn elements(&self) -> (r: Vec<ShaderInterfaceDefEntry>) {
        let mut r: Vec<ShaderInterfaceDefEntry> = Vec::new();
        let mut i: usize = 0;
        while i < self.entries.len()
            invariant
                i <= self.entries@.len(),
                r@ == self.entries@.subrange(0, i as int),
            decreases self.entries@.len() - i,
        {
            r.push(self.entries[i]);
            i += 1;
        }
        assert(r@ =~= self.entries@);
        r
    }
}

/// Every location of the entry's range names a color attachment of a subpass
/// with `n` of them.
pub open spec fn entry_fits(e: ShaderInterfaceDefEntry, n: nat) -> bool {
    e.location_start < e.location_end ==> e.location_end <= n
}

/// Subpass `i` exists and has a color attachment for every declared location.
pub open spec fn subpass_accepts(
    subs: Seq<SubpassView>,
    i: int,
    elems: Seq<ShaderInterfaceDefEntry>,
) -> bool {
    &&& 0 <= i < subs.len()
    &&& forall|k: int| 0 <= k < elems.len() ==> entry_fits(#[trigger] elems[k], subs[i].color_attachments.len())
}

/// Checks whether a subpass of a render pass accepts the outputs of a fragment
/// shader: every declared location must map to a color attachment of the
/// subpass, by position.
pub trait RenderPassSubpassInterface<Other: ShaderInterfaceDef>: RenderPassDesc {
    /// Returns `true` if subpass `subpass` accepts the outputs declared by
    /// `other`; `false` if it does not or if the subpass is out of range.
    fn is_compatible_with(&self, subpass: u32, other: &Other) -> (r: bool)
        ensures
            r == subpass_accepts(self.subpasses_view(), subpass as int, other.elements_view()),
    ;
}

impl<A: RenderPassDesc, B: ShaderInterfaceDef> RenderPassSubpassInterface<B> for A {
    fn is_compatible_with(&self, subpass: u32, other: &B) -> (r: bool) {
        let pass_descr = match self.subpass(subpass as usize) {
            Some(s) => s,
            None => return false,
        };
        let n = pass_descr.color_attachments.len();
        let elems = other.elements();
        let mut k: usize = 0;
        while k < elems.len()
            invariant
                k <= elems@.len(),
                elems@ == other.elements_view(),
                n == self.subpasses_view()[subpass as int].color_attachments.len(),
                forall|j: int| 0 <= j < k ==> entry_fits(#[trigger] elems@[j], n as nat),
            decreases elems@.len() - k,
        {
            let e = elems[k];
            if e.location_start < e.location_end && (e.location_end as usize) > n {
                assert(!entry_fits(elems@[k as int], n as nat));
                return false;
            }
            k += 1;
        }
        true
    }
}

/// A render pass is compatible with itself.
pub proof fn lemma_compatible_with_itself<D: RenderPassDesc>(d: &D)
    ensures
        attachments_compatible(d.attachments_view(), d.attachments_view()),
{
}

/// Two render passes whose attachments agree position by position in format
/// and sample count are compatible, whatever their subpasses and dependencies.
pub proof fn lemma_compatibility_ignores_structure<A: RenderPassDesc, B: RenderPassDesc>(
    a: &A,
    b: &B,
)
    requires
        a.attachments_view().len() == b.attachments_view().len(),
        forall|i: int|
            0 <= i < a.attachments_view().len() ==> {
                &&& (#[trigger] a.attachments_view()[i]).format == b.attachments_view()[i].format
                &&& a.attachments_view()[i].samples == b.attachments_view()[i].samples
            },
    ensures
        attachments_compatible(a.attachments_view(), b.attachments_view()),
{
}

} // verus!
