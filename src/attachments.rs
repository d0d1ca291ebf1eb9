//! Validation of a concrete list of image views against the attachment slots
//! of a render pass.
use vstd::prelude::*;

use crate::desc::{refs_avoid, AttachmentRef, LayoutAttachmentDescription, SubpassView};
use crate::descriptor::check_refs_avoid;
use crate::format::Format;
use crate::render_pass::RenderPassDesc;

verus! {

/// Ways an image may be used, as declared when it was created.
#[derive(Debug, Clone, Copy, PartialEq, Eq, Structural)]
pub struct ImageUsage {
    pub color_attachment: bool,
    pub depth_stencil_attachment: bool,
    pub input_attachment: bool,
}

/// What the image provider tells of one concrete image view.
#[derive(Debug, Clone, Copy, PartialEq, Eq, Structural)]
pub struct AttachmentImageView {
    /// Identifier of the image view, handed on to framebuffer creation.
    pub handle: u64,
    pub format: Format,
    pub samples: u32,
    pub usage: ImageUsage,
    /// Number of mipmap levels that the view exposes.
    pub mip_levels: u32,
    /// The view maps each component to itself.
    pub identity_swizzle: bool,
}

/// The rule that a concrete attachment broke.
#[derive(Debug, Clone, Copy, PartialEq, Eq, Structural)]
pub enum IncompatibleAttachmentReason {
    FormatMismatch,
    SamplesMismatch,
    MissingColorAttachmentUsage,
    MissingDepthStencilAttachmentUsage,
    MissingInputAttachmentUsage,
    MipLevelsMismatch,
    NotIdentitySwizzled,
}

/// Why a list of attachments does not fit a render pass.
#[derive(Debug, Clone, Copy, PartialEq, Eq, Structural)]
pub enum FramebufferCreationError {
    /// The list does not hold one image view per attachment slot.
    AttachmentsCountMismatch { expected: usize, obtained: usize },
    /// The image view for `slot` breaks `reason`.
    IncompatibleAttachment { slot: usize, reason: IncompatibleAttachmentReason },
}

/// Some subpass uses attachment `a` as a color or resolve attachment.
pub open spec fn used_as_color(subs: Seq<SubpassView>, a: usize) -> bool {
    exists|s: int|
        0 <= s < subs.len() && !(refs_avoid((#[trigger] subs[s]).color_attachments, a) && refs_avoid(
            subs[s].resolve_attachments,
            a,
        ))
}

/// The depth/stencil reference points at attachment `a`.
pub open spec fn depth_stencil_is(ds: Option<AttachmentRef>, a: usize) -> bool {
    match ds {
        Some(r) => r.0 == a,
        None => false,
    }
}

/// Some subpass uses attachment `a` as its depth/stencil attachment.
pub open spec fn used_as_depth_stencil(subs: Seq<SubpassView>, a: usize) -> bool {
    exists|s: int|
        0 <= s < subs.len() && depth_stencil_is((#[trigger] subs[s]).depth_stencil, a)
}

/// Some subpass uses attachment `a` as an input attachment.
pub open spec fn used_as_input(subs: Seq<SubpassView>, a: usize) -> bool {
    exists|s: int| 0 <= s < subs.len() && !refs_avoid((#[trigger] subs[s]).input_attachments, a)
}

/// The first rule that image view `v` breaks for an attachment slot described by
/// `att` and used as color, depth/stencil and input attachment as `roles` says.
pub open spec fn slot_failure(
    att: LayoutAttachmentDescription,
    roles: (bool, bool, bool),
    v: AttachmentImageView,
) -> Option<IncompatibleAttachmentReason> {
    if v.format != att.format {
        Some(IncompatibleAttachmentReason::FormatMismatch)
    } else if v.samples != att.samples {
        Some(IncompatibleAttachmentReason::SamplesMismatch)
    } else if roles.0 && !v.usage.color_attachment {
        Some(IncompatibleAttachmentReason::MissingColorAttachmentUsage)
    } else if roles.1 && !v.usage.depth_stencil_attachment {
        Some(IncompatibleAttachmentReason::MissingDepthStencilAttachmentUsage)
    } else if roles.2 && !v.usage.input_attachment {
        Some(IncompatibleAttachmentReason::MissingInputAttachmentUsage)
    } else if v.mip_levels != 1 {
        Some(IncompatibleAttachmentReason::MipLevelsMismatch)
    } else if !v.identity_swizzle {
        Some(IncompatibleAttachmentReason::NotIdentitySwizzled)
    } else {
        None
    }
}

/// Roles of attachment `a` over all subpasses.
pub open spec fn slot_roles(subs: Seq<SubpassView>, a: usize) -> (bool, bool, bool) {
    (used_as_color(subs, a), used_as_depth_stencil(subs, a), used_as_input(subs, a))
}

/// Image view `i` of `list` breaks a rule of its slot.
pub open spec fn slot_fails(
    atts: Seq<LayoutAttachmentDescription>,
    subs: Seq<SubpassView>,
    list: Seq<AttachmentImageView>,
    i: int,
) -> bool {
    slot_failure(atts[i], slot_roles(subs, i as usize), list[i]) is Some
}

/// The error that checking `list` against the render pass gives, if any: a
/// count mismatch first, else the first slot that fails, with its first rule.
pub open spec fn attachments_list_error(
    atts: Seq<LayoutAttachmentDescription>,
    subs: Seq<SubpassView>,
    list: Seq<AttachmentImageView>,
) -> Option<FramebufferCreationError> {
    if list.len() != atts.len() {
        Some(
            FramebufferCreationError::AttachmentsCountMismatch {
                expected: atts.len() as usize,
                obtained: list.len() as usize,
            },
        )
    } else if exists|i: int| 0 <= i < list.len() && #[trigger] slot_fails(atts, subs, list, i) {
        let i = choose|i: int|
            0 <= i < list.len() && #[trigger] slot_fails(atts, subs, list, i) && forall|k: int|
                0 <= k < i ==> !#[trigger] slot_fails(atts, subs, list, k);
        Some(
            FramebufferCreationError::IncompatibleAttachment {
                slot: i as usize,
                reason: slot_failure(atts[i], slot_roles(subs, i as usize), list[i])->Some_0,
            },
        )
    } else {
        None
    }
}

/// A list of image views checked against a render pass, one per attachment
/// slot, in slot order.
#[derive(Debug)]
pub struct BoundAttachmentList {
    attachments: Vec<AttachmentImageView>,
}

impl BoundAttachmentList {
    /// The image views, in slot order.
    pub closed spec fn view(&self) -> Seq<AttachmentImageView> {
        self.attachments@
    }

    /// Returns the number of bound image views.
    pub fn len(&self) -> (r: usize)
        ensures
            r == self.view().len(),
    {
        self.attachments.len()
    }

    /// Returns the image view bound to slot `i`, or `None` if out of range.
    pub fn get(&self, i: usize) -> (r: Option<AttachmentImageView>)
        ensures
            r == crate::render_pass::entry_at(self.view(), i as int),
    {
        if i < self.attachments.len() {
            Some(self.attachments[i])
        } else {
            None
        }
    }
}

fn check_slot(
    att: LayoutAttachmentDescription,
    roles: (bool, bool, bool),
    v: AttachmentImageView,
) -> (r: Option<IncompatibleAttachmentReason>)
    ensures
        r == slot_failure(att, roles, v),
{
    if v.format != att.format {
        Some(IncompatibleAttachmentReason::FormatMismatch)
    } else if v.samples != att.samples {
        Some(IncompatibleAttachmentReason::SamplesMismatch)
    } else if roles.0 && !v.usage.color_attachment {
        Some(IncompatibleAttachmentReason::MissingColorAttachmentUsage)
    } else if roles.1 && !v.usage.depth_stencil_attachment {
        Some(IncompatibleAttachmentReason::MissingDepthStencilAttachmentUsage)
    } else if roles.2 && !v.usage.input_attachment {
        Some(IncompatibleAttachmentReason::MissingInputAttachmentUsage)
    } else if v.mip_levels != 1 {
        Some(IncompatibleAttachmentReason::MipLevelsMismatch)
    } else if !v.identity_swizzle {
        Some(IncompatibleAttachmentReason::NotIdentitySwizzled)
    } else {
        None
    }
}

/// Returns the roles in which the subpasses of `rp` use attachment `a`.
pub fn attachment_roles<R: RenderPassDesc>(rp: &R, a: usize) -> (r: (bool, bool, bool))
    ensures
        r == slot_roles(rp.subpasses_view(), a),
{
    let ghost subs = rp.subpasses_view();
    let n = rp.num_subpasses();
    let mut color = false;
    let mut depth = false;
    let mut input = false;
    let mut k: usize = 0;
    while k < n
        invariant
            n == subs.len(),
            subs == rp.subpasses_view(),
            k <= n,
            color == exists|s: int|
                0 <= s < k && !(refs_avoid((#[trigger] subs[s]).color_attachments, a) && refs_avoid(
                    subs[s].resolve_attachments,
                    a,
                )),
            depth == exists|s: int|
                0 <= s < k && depth_stencil_is((#[trigger] subs[s]).depth_stencil, a),
            input == exists|s: int| 0 <= s < k && !refs_avoid((#[trigger] subs[s]).input_attachments, a),
        decreases n - k,
    {
        let p = rp.subpass(k).unwrap();
        let c = !(check_refs_avoid(&p.color_attachments, a) && check_refs_avoid(&p.resolve_attachments, a));
        let d = match p.depth_stencil {
            Some(r) => r.0 == a,
            None => false,
        };
        let i = !check_refs_avoid(&p.input_attachments, a);
        proof {
            assert(p@ == subs[k as int]);
            if c {
                assert(0 <= k < k + 1 && !(refs_avoid(subs[k as int].color_attachments, a) && refs_avoid(subs[k as int].resolve_attachments, a)));
            }
            if d {
                assert(0 <= k < k + 1 && depth_stencil_is(subs[k as int].depth_stencil, a));
            }
            if i {
                assert(0 <= k < k + 1 && !refs_avoid(subs[k as int].input_attachments, a));
            }
        }
        color = color || c;
        depth = depth || d;
        input = input || i;
        k += 1;
    }
    (color, depth, input)
}

/// Checks a list of image views against the attachment slots of a render pass.
/// Each view must have the slot's format and sample count, the usage that the
/// slot's roles need, exactly one mipmap level and identity swizzling.
pub trait RenderPassDescAttachmentsList: RenderPassDesc {
    /// Returns the list bound in slot order, or the count mismatch or the first
    /// slot and rule that fail.
    fn check_attachments_list(&self, list: Vec<AttachmentImageView>) -> (r: Result<
        BoundAttachmentList,
        FramebufferCreationError,
    >)
        ensures
            match r {
                Ok(b) => {
                    &&& attachments_list_error(self.attachments_view(), self.subpasses_view(), list@) is None
                    &&& b.view() == list@
                },
                Err(e) => attachments_list_error(self.attachments_view(), self.subpasses_view(), list@)
                    == Some(e),
            },
    ;
}

impl<T: RenderPassDesc> RenderPassDescAttachmentsList for T {
    fn check_attachments_list(&self, list: Vec<AttachmentImageView>) -> (r: Result<
        BoundAttachmentList,
        FramebufferCreationError,
    >) {
        let ghost atts = self.attachments_view();
        let ghost subs = self.subpasses_view();
        let n = self.num_attachments();
        if list.len() != n {
            return Err(
                FramebufferCreationError::AttachmentsCountMismatch {
                    expected: n,
                    obtained: list.len(),
                },
            );
        }
        let mut i: usize = 0;
        while i < n
            invariant
                n == atts.len(),
                n == list@.len(),
                atts == self.attachments_view(),
                subs == self.subpasses_view(),
                i <= n,
                forall|k: int| 0 <= k < i ==> !#[trigger] slot_fails(atts, subs, list@, k),
            decreases n - i,
        {
            let att = self.attachment(i).unwrap();
            let roles = attachment_roles(self, i);
            match check_slot(att, roles, list[i]) {
                Some(reason) => {
                    proof {
                        assert(slot_fails(atts, subs, list@, i as int));
                        let w = choose|w: int|
                            0 <= w < list@.len() && #[trigger] slot_fails(atts, subs, list@, w)
                                && forall|k: int| 0 <= k < w ==> !#[trigger] slot_fails(atts, subs, list@, k);
                        assert(w == i) by {
                            if w > i {
                                assert(!slot_fails(atts, subs, list@, i as int));
                            }
                        }
                    }
                    return Err(FramebufferCreationError::IncompatibleAttachment { slot: i, reason });
                },
                None => {},
            }
            i += 1;
        }
        Ok(BoundAttachmentList { attachments: list })
    }
}

} // verus!
