use render_pass_desc::{
    Format, FormatTy, ImageLayout, LayoutAttachmentDescription, LayoutPassDependencyDescription,
    LayoutPassDescription, LoadOp, RenderPassDesc, RenderPassDescError, RenderPassDescriptor,
    StoreOp, Subpass,
};
use std::sync::Arc;

fn attachment(format: Format, samples: u32) -> LayoutAttachmentDescription {
    LayoutAttachmentDescription {
        format,
        samples,
        load: LoadOp::Clear,
        store: StoreOp::Store,
        initial_layout: ImageLayout::Undefined,
        final_layout: ImageLayout::ColorAttachmentOptimal,
    }
}

fn pass(
    color: Vec<(usize, ImageLayout)>,
    depth_stencil: Option<(usize, ImageLayout)>,
) -> LayoutPassDescription {
    LayoutPassDescription {
        color_attachments: color,
        depth_stencil,
        input_attachments: vec![],
        resolve_attachments: vec![],
        preserve_attachments: vec![],
    }
}

fn single_color() -> RenderPassDescriptor {
    RenderPassDescriptor::new(
        vec![attachment(Format::R8G8B8A8Unorm, 1)],
        vec![pass(vec![(0, ImageLayout::ColorAttachmentOptimal)], None)],
        vec![],
    )
    .unwrap()
}

fn color_and_read_only_depth() -> RenderPassDescriptor {
    RenderPassDescriptor::new(
        vec![attachment(Format::R8G8B8A8Unorm, 1), attachment(Format::D24UnormS8Uint, 1)],
        vec![pass(
            vec![(0, ImageLayout::ColorAttachmentOptimal)],
            Some((1, ImageLayout::DepthStencilReadOnlyOptimal)),
        )],
        vec![],
    )
    .unwrap()
}

#[test]
fn single_color_attachment_has_no_depth_or_stencil() {
    let d = single_color();
    assert_eq!(d.has_depth(0), Some(false));
    assert_eq!(d.has_stencil(0), Some(false));
    assert_eq!(d.num_color_attachments(0), Some(1));
    assert_eq!(d.has_depth_stencil_attachment(0), Some((false, false)));
    assert_eq!(d.num_samples(0), Some(1));
}

#[test]
fn read_only_depth_stencil_is_not_writable() {
    let d = color_and_read_only_depth();
    assert_eq!(d.has_depth(0), Some(true));
    assert_eq!(d.has_writable_depth(0), Some(false));
    assert_eq!(d.has_stencil(0), Some(true));
    assert_eq!(d.has_writable_stencil(0), Some(false));
    assert_eq!(d.has_depth_stencil_attachment(0), Some((true, true)));
}

#[test]
fn writable_depth_only_attachment() {
    let d = RenderPassDescriptor::new(
        vec![attachment(Format::D32Sfloat, 4)],
        vec![pass(vec![], Some((0, ImageLayout::DepthStencilAttachmentOptimal)))],
        vec![],
    )
    .unwrap();
    assert_eq!(d.has_depth(0), Some(true));
    assert_eq!(d.has_writable_depth(0), Some(true));
    assert_eq!(d.has_stencil(0), Some(false));
    assert_eq!(d.has_writable_stencil(0), Some(false));
    assert_eq!(d.num_samples(0), Some(4));
}

#[test]
fn stencil_only_attachment() {
    let d = RenderPassDescriptor::new(
        vec![attachment(Format::S8Uint, 1)],
        vec![pass(vec![], Some((0, ImageLayout::DepthStencilAttachmentOptimal)))],
        vec![],
    )
    .unwrap();
    assert_eq!(d.has_depth_stencil_attachment(0), Some((false, true)));
    assert_eq!(d.has_writable_stencil(0), Some(true));
}

#[test]
fn out_of_range_subpass_queries_are_none() {
    let d = color_and_read_only_depth();
    assert_eq!(d.num_color_attachments(1), None);
    assert_eq!(d.num_samples(1), None);
    assert_eq!(d.has_depth_stencil_attachment(1), None);
    assert_eq!(d.has_depth(1), None);
    assert_eq!(d.has_writable_depth(7), None);
    assert_eq!(d.has_stencil(u32::MAX), None);
    assert_eq!(d.has_writable_stencil(1), None);
    assert!(d.subpass(1).is_none());
    assert!(d.attachment(2).is_none());
    assert!(d.dependency(0).is_none());
}

#[test]
fn num_samples_prefers_color_then_depth() {
    let d = RenderPassDescriptor::new(
        vec![attachment(Format::R8G8B8A8Unorm, 2), attachment(Format::D16Unorm, 2)],
        vec![
            pass(vec![(0, ImageLayout::ColorAttachmentOptimal)], Some((1, ImageLayout::General))),
            pass(vec![], Some((1, ImageLayout::General))),
            pass(vec![], None),
        ],
        vec![],
    )
    .unwrap();
    assert_eq!(d.num_samples(0), Some(2));
    assert_eq!(d.num_samples(1), Some(2));
    assert_eq!(d.num_samples(2), None);
    assert_eq!(d.num_color_attachments(2), Some(0));
}

#[test]
fn accessors_return_what_was_given() {
    let dep = LayoutPassDependencyDescription {
        source_subpass: 0,
        destination_subpass: 1,
        src_stages: 0x400,
        dst_stages: 0x80,
        src_access: 0x100,
        dst_access: 0x20,
        by_region: true,
    };
    let d = RenderPassDescriptor::new(
        vec![attachment(Format::B8G8R8A8Srgb, 1)],
        vec![
            pass(vec![(0, ImageLayout::ColorAttachmentOptimal)], None),
            LayoutPassDescription {
                color_attachments: vec![],
                depth_stencil: None,
                input_attachments: vec![(0, ImageLayout::ShaderReadOnlyOptimal)],
                resolve_attachments: vec![],
                preserve_attachments: vec![],
            },
        ],
        vec![dep],
    )
    .unwrap();
    assert_eq!(d.num_attachments(), 1);
    assert_eq!(d.num_subpasses(), 2);
    assert_eq!(d.num_dependencies(), 1);
    assert_eq!(d.attachment(0), Some(attachment(Format::B8G8R8A8Srgb, 1)));
    assert_eq!(d.dependency(0), Some(dep));
    let p = d.subpass(1).unwrap();
    assert_eq!(p.input_attachments, vec![(0, ImageLayout::ShaderReadOnlyOptimal)]);
    assert!(p.color_attachments.is_empty());
}

#[test]
fn cursors_walk_every_entry_once() {
    let d = color_and_read_only_depth();
    let mut atts = d.attachments();
    assert_eq!(atts.next().map(|a| a.format), Some(Format::R8G8B8A8Unorm));
    assert_eq!(atts.next().map(|a| a.format), Some(Format::D24UnormS8Uint));
    assert!(atts.next().is_none());
    assert!(atts.next().is_none());
    let mut subs = d.subpasses();
    assert_eq!(subs.next().map(|p| p.color_attachments.len()), Some(1));
    assert!(subs.next().is_none());
    let mut deps = d.dependencies();
    assert!(deps.next().is_none());
}

#[test]
fn resolve_list_shorter_than_color_list_is_refused() {
    let r = RenderPassDescriptor::new(
        vec![
            attachment(Format::R8G8B8A8Unorm, 4),
            attachment(Format::R8G8B8A8Unorm, 4),
            attachment(Format::R8G8B8A8Unorm, 1),
        ],
        vec![LayoutPassDescription {
            color_attachments: vec![
                (0, ImageLayout::ColorAttachmentOptimal),
                (1, ImageLayout::ColorAttachmentOptimal),
            ],
            depth_stencil: None,
            input_attachments: vec![],
            resolve_attachments: vec![(2, ImageLayout::ColorAttachmentOptimal)],
            preserve_attachments: vec![],
        }],
        vec![],
    );
    assert_eq!(r.unwrap_err(), RenderPassDescError::InvalidSubpass { index: 0 });
}

#[test]
fn resolve_from_single_sampled_color_is_refused() {
    let r = RenderPassDescriptor::new(
        vec![attachment(Format::R8G8B8A8Unorm, 1), attachment(Format::R8G8B8A8Unorm, 1)],
        vec![
            pass(vec![(0, ImageLayout::ColorAttachmentOptimal)], None),
            LayoutPassDescription {
                color_attachments: vec![(0, ImageLayout::ColorAttachmentOptimal)],
                depth_stencil: None,
                input_attachments: vec![],
                resolve_attachments: vec![(1, ImageLayout::ColorAttachmentOptimal)],
                preserve_attachments: vec![],
            },
        ],
        vec![],
    );
    assert_eq!(r.unwrap_err(), RenderPassDescError::InvalidSubpass { index: 1 });
}

#[test]
fn resolve_into_multisampled_target_is_refused() {
    let r = RenderPassDescriptor::new(
        vec![attachment(Format::R8G8B8A8Unorm, 4), attachment(Format::R8G8B8A8Unorm, 2)],
        vec![LayoutPassDescription {
            color_attachments: vec![(0, ImageLayout::ColorAttachmentOptimal)],
            depth_stencil: None,
            input_attachments: vec![],
            resolve_attachments: vec![(1, ImageLayout::ColorAttachmentOptimal)],
            preserve_attachments: vec![],
        }],
        vec![],
    );
    assert_eq!(r.unwrap_err(), RenderPassDescError::InvalidSubpass { index: 0 });
}

#[test]
fn valid_resolve_is_accepted() {
    let r = RenderPassDescriptor::new(
        vec![attachment(Format::R8G8B8A8Unorm, 4), attachment(Format::R8G8B8A8Unorm, 1)],
        vec![LayoutPassDescription {
            color_attachments: vec![(0, ImageLayout::ColorAttachmentOptimal)],
            depth_stencil: None,
            input_attachments: vec![],
            resolve_attachments: vec![(1, ImageLayout::ColorAttachmentOptimal)],
            preserve_attachments: vec![],
        }],
        vec![],
    );
    assert!(r.is_ok());
    assert_eq!(r.unwrap().num_samples(0), Some(4));
}

#[test]
fn sample_count_not_power_of_two_is_refused() {
    let r = RenderPassDescriptor::new(
        vec![attachment(Format::R8G8B8A8Unorm, 1), attachment(Format::R8G8B8A8Unorm, 3)],
        vec![pass(vec![(0, ImageLayout::ColorAttachmentOptimal)], None)],
        vec![],
    );
    assert_eq!(r.unwrap_err(), RenderPassDescError::InvalidAttachment { index: 1 });
    let r = RenderPassDescriptor::new(vec![attachment(Format::R8G8B8A8Unorm, 0)], vec![], vec![]);
    assert_eq!(r.unwrap_err(), RenderPassDescError::InvalidAttachment { index: 0 });
}

#[test]
fn out_of_range_reference_is_refused() {
    let r = RenderPassDescriptor::new(
        vec![attachment(Format::R8G8B8A8Unorm, 1)],
        vec![pass(vec![(1, ImageLayout::ColorAttachmentOptimal)], None)],
        vec![],
    );
    assert_eq!(r.unwrap_err(), RenderPassDescError::InvalidSubpass { index: 0 });
}

#[test]
fn color_format_as_depth_stencil_is_refused() {
    let r = RenderPassDescriptor::new(
        vec![attachment(Format::R8G8B8A8Unorm, 1)],
        vec![pass(vec![], Some((0, ImageLayout::DepthStencilAttachmentOptimal)))],
        vec![],
    );
    assert_eq!(r.unwrap_err(), RenderPassDescError::InvalidSubpass { index: 0 });
}

#[test]
fn preserved_attachment_used_elsewhere_is_refused() {
    let r = RenderPassDescriptor::new(
        vec![attachment(Format::R8G8B8A8Unorm, 1)],
        vec![LayoutPassDescription {
            color_attachments: vec![(0, ImageLayout::ColorAttachmentOptimal)],
            depth_stencil: None,
            input_attachments: vec![],
            resolve_attachments: vec![],
            preserve_attachments: vec![0],
        }],
        vec![],
    );
    assert_eq!(r.unwrap_err(), RenderPassDescError::InvalidSubpass { index: 0 });
}

#[test]
fn mixed_sample_counts_are_refused() {
    let r = RenderPassDescriptor::new(
        vec![attachment(Format::R8G8B8A8Unorm, 2), attachment(Format::D16Unorm, 4)],
        vec![pass(
            vec![(0, ImageLayout::ColorAttachmentOptimal)],
            Some((1, ImageLayout::DepthStencilAttachmentOptimal)),
        )],
        vec![],
    );
    assert_eq!(r.unwrap_err(), RenderPassDescError::InvalidSubpass { index: 0 });
}

#[test]
fn subpass_handle_round_trip() {
    let d = color_and_read_only_depth();
    let s = Subpass::from(&d, 0).unwrap();
    assert_eq!(s.index(), 0);
    assert!(std::ptr::eq(*s.render_pass(), &d));
    assert!(Subpass::from(&d, 1).is_none());
    let (rp, id) = s.into_parts();
    assert!(std::ptr::eq(rp, &d));
    assert_eq!(id, 0);
}

#[test]
fn subpass_handle_queries() {
    let d = Arc::new(color_and_read_only_depth());
    let s = Subpass::from(d.clone(), 0).unwrap();
    assert_eq!(s.num_color_attachments(), 1);
    assert!(s.has_depth());
    assert!(!s.has_writable_depth());
    assert!(s.has_stencil());
    assert!(!s.has_writable_stencil());
    assert!(s.has_color_or_depth_stencil_attachment());
    assert_eq!(s.num_samples(), Some(1));
    assert!(Arc::ptr_eq(s.render_pass(), &d));
}

#[test]
fn subpass_without_attachments() {
    let d = RenderPassDescriptor::new(vec![], vec![pass(vec![], None)], vec![]).unwrap();
    let s = Subpass::from(&d, 0).unwrap();
    assert!(!s.has_color_or_depth_stencil_attachment());
    assert_eq!(s.num_samples(), None);
    assert_eq!(s.num_color_attachments(), 0);
    assert!(!s.has_depth());
}

#[test]
fn subpass_with_depth_only_has_attachment() {
    let d = RenderPassDescriptor::new(
        vec![attachment(Format::D16Unorm, 1)],
        vec![pass(vec![], Some((0, ImageLayout::DepthStencilAttachmentOptimal)))],
        vec![],
    )
    .unwrap();
    let s = Subpass::from(&d, 0).unwrap();
    assert!(s.has_color_or_depth_stencil_attachment());
    assert!(s.has_writable_depth());
}

#[test]
fn format_classes() {
    assert_eq!(Format::R8G8B8A8Unorm.ty(), FormatTy::Float);
    assert_eq!(Format::R32Uint.ty(), FormatTy::Uint);
    assert_eq!(Format::R32Sint.ty(), FormatTy::Sint);
    assert_eq!(Format::D32Sfloat.ty(), FormatTy::Depth);
    assert_eq!(Format::S8Uint.ty(), FormatTy::Stencil);
    assert_eq!(Format::D32SfloatS8Uint.ty(), FormatTy::DepthStencil);
    assert_eq!(Format::Bc1RgbUnormBlock.ty(), FormatTy::Compressed);
}
