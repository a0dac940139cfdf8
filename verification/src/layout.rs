//! The render-target layout: the immutable description of the attachments,
//! their load/store behavior and layout transitions, the single subpass, and
//! the two external dependencies that keep the GPU from writing color or
//! depth before the presentation engine has relinquished the image.

use vstd::prelude::*;

use crate::errors::DeviceError;

verus! {

/// The image formats this engine distinguishes.
#[derive(Clone, Copy, PartialEq, Eq, Structural, Debug)]
pub enum Format {
    B8g8r8a8Srgb,
    B8g8r8a8Unorm,
    R8g8b8a8Srgb,
    R8g8b8a8Unorm,
    D32Sfloat,
    D24UnormS8Uint,
}

impl Format {
    /// A format usable for the depth attachment.
    pub open spec fn is_depth_format(self) -> bool {
        self is D32Sfloat || self is D24UnormS8Uint
    }

    pub fn is_depth(&self) -> (b: bool)
        ensures
            b == self.is_depth_format(),
    {
        matches!(self, Format::D32Sfloat | Format::D24UnormS8Uint)
    }
}

/// A format pair the layout accepts: a color format for the color slot and
/// a depth format for the depth slot.
pub open spec fn valid_format_pair(color_format: Format, depth_format: Format) -> bool {
    !color_format.is_depth_format() && depth_format.is_depth_format()
}

#[derive(Clone, Copy, PartialEq, Eq, Structural, Debug)]
pub enum LoadOp {
    Clear,
    Load,
    DontCare,
}

#[derive(Clone, Copy, PartialEq, Eq, Structural, Debug)]
pub enum StoreOp {
    Store,
    DontCare,
}

/// The image layouts an attachment moves through.
#[derive(Clone, Copy, PartialEq, Eq, Structural, Debug)]
pub enum ImageLayout {
    Undefined,
    ColorAttachmentOptimal,
    DepthStencilAttachmentOptimal,
    PresentSrc,
}

/// The pipeline stages the layout's dependencies order.
#[derive(Clone, Copy, PartialEq, Eq, Structural, Debug)]
pub enum StageMask {
    ColorAttachmentOutput,
    /// Both the early and the late fragment-test stages.
    FragmentTests,
}

#[derive(Clone, Copy, PartialEq, Eq, Structural, Debug)]
pub enum AccessMask {
    NoAccess,
    ColorAttachmentWrite,
    DepthStencilAttachmentWrite,
}

/// One attachment: format, sample count, load/store behavior and the layout
/// transition it undergoes over the pass.
#[derive(Clone, Copy, PartialEq, Eq, Structural, Debug)]
pub struct AttachmentDescription {
    pub format: Format,
    pub samples: u32,
    pub load_op: LoadOp,
    pub store_op: StoreOp,
    pub stencil_load_op: LoadOp,
    pub stencil_store_op: StoreOp,
    pub initial_layout: ImageLayout,
    pub final_layout: ImageLayout,
}

/// A subpass's reference into the attachment list.
#[derive(Clone, Copy, PartialEq, Eq, Structural, Debug)]
pub struct AttachmentReference {
    pub attachment: usize,
    pub layout: ImageLayout,
}

/// One subpass: which attachments it writes color to and which one it uses
/// for depth.
#[derive(Debug)]
pub struct SubpassDescription {
    pub color_attachments: Vec<AttachmentReference>,
    pub depth_attachment: Option<AttachmentReference>,
}

/// An execution dependency from the implicit external producer into a
/// subpass, ordering the named stages and accesses.
#[derive(Clone, Copy, PartialEq, Eq, Structural, Debug)]
pub struct SubpassDependency {
    pub src_is_external: bool,
    pub dst_subpass: usize,
    pub src_stage: StageMask,
    pub src_access: AccessMask,
    pub dst_stage: StageMask,
    pub dst_access: AccessMask,
}

/// The immutable render-target layout: built once at startup, never mutated,
/// destroyed last among the objects that reference it.
#[derive(Debug)]
pub struct RenderTargetLayout {
    pub color_format: Format,
    pub depth_format: Format,
    pub attachments: Vec<AttachmentDescription>,
    pub subpasses: Vec<SubpassDescription>,
    pub dependencies: Vec<SubpassDependency>,
}

/// The color attachment this engine always uses: cleared on load, stored,
/// and handed to the presentation engine at the end of the pass.
pub open spec fn color_attachment_spec(color_format: Format) -> AttachmentDescription {
    AttachmentDescription {
        format: color_format,
        samples: 1,
        load_op: LoadOp::Clear,
        store_op: StoreOp::Store,
        stencil_load_op: LoadOp::DontCare,
        stencil_store_op: StoreOp::DontCare,
        initial_layout: ImageLayout::Undefined,
        final_layout: ImageLayout::PresentSrc,
    }
}

/// The depth attachment: cleared on load, kept in the depth-optimal layout.
pub open spec fn depth_attachment_spec(depth_format: Format) -> AttachmentDescription {
    AttachmentDescription {
        format: depth_format,
        samples: 1,
        load_op: LoadOp::Clear,
        store_op: StoreOp::Store,
        stencil_load_op: LoadOp::Clear,
        stencil_store_op: StoreOp::DontCare,
        initial_layout: ImageLayout::Undefined,
        final_layout: ImageLayout::DepthStencilAttachmentOptimal,
    }
}

/// The external dependency that holds color-attachment writes of subpass 0
/// until the acquire semaphore has been satisfied at the same stage.
pub open spec fn color_dependency_spec() -> SubpassDependency {
    SubpassDependency {
        src_is_external: true,
        dst_subpass: 0,
        src_stage: StageMask::ColorAttachmentOutput,
        src_access: AccessMask::NoAccess,
        dst_stage: StageMask::ColorAttachmentOutput,
        dst_access: AccessMask::ColorAttachmentWrite,
    }
}

/// The external dependency that holds the fragment-test stages of subpass 0
/// so depth writes cannot begin before the image is available.
pub open spec fn depth_dependency_spec() -> SubpassDependency {
    SubpassDependency {
        src_is_external: true,
        dst_subpass: 0,
        src_stage: StageMask::FragmentTests,
        src_access: AccessMask::NoAccess,
        dst_stage: StageMask::FragmentTests,
        dst_access: AccessMask::DepthStencilAttachmentWrite,
    }
}

impl RenderTargetLayout {
    /// Internal consistency: every attachment a subpass or the layout's
    /// format fields name exists in the attachment list, and the depth
    /// attachment carries the depth image's format.
    pub open spec fn wf(self) -> bool {
        &&& valid_format_pair(self.color_format, self.depth_format)
        &&& self.attachments@.len() == 2
        &&& self.attachments@[0].format == self.color_format
        &&& self.attachments@[1].format == self.depth_format
        &&& forall|i: int, j: int|
            0 <= i < self.subpasses@.len() && 0 <= j < self.subpasses@[i].color_attachments@.len()
                ==> (#[trigger] self.subpasses@[i].color_attachments@[j]).attachment
                    < self.attachments@.len()
        &&& forall|i: int|
            0 <= i < self.subpasses@.len()
                ==> ((#[trigger] self.subpasses@[i]).depth_attachment matches Some(r)
                    ==> r.attachment < self.attachments@.len())
        &&& forall|i: int|
            0 <= i < self.dependencies@.len()
                ==> (#[trigger] self.dependencies@[i]).dst_subpass < self.subpasses@.len()
    }

    /// The one fixed structure this engine builds: two attachments (color
    /// then depth), one subpass that declares exactly one color and one
    /// depth attachment, and the two external dependencies.
    pub open spec fn is_engine_layout(self, color_format: Format, depth_format: Format) -> bool {
        &&& self.color_format == color_format
        &&& self.depth_format == depth_format
        &&& self.attachments@ == seq![
            color_attachment_spec(color_format),
            depth_attachment_spec(depth_format),
        ]
        &&& self.subpasses@.len() == 1
        &&& self.subpasses@[0].color_attachments@ == seq![
            (AttachmentReference { attachment: 0, layout: ImageLayout::ColorAttachmentOptimal }),
        ]
        &&& self.subpasses@[0].depth_attachment == Some(
            AttachmentReference { attachment: 1, layout: ImageLayout::DepthStencilAttachmentOptimal },
        )
        &&& self.dependencies@ == seq![color_dependency_spec(), depth_dependency_spec()]
    }

    /// Builds the engine's render-target description from the swapchain's
    /// chosen color format and the depth image's format. Succeeds exactly on
    /// valid format pairs; a layout built from one has two attachments, and
    /// its single subpass declares exactly one color and one depth
    /// attachment.
    pub fn build(color_format: Format, depth_format: Format) -> (r: Result<
        RenderTargetLayout,
        DeviceError,
    >)
        ensures
            r is Ok <==> valid_format_pair(color_format, depth_format),
            r matches Ok(layout) ==> layout.is_engine_layout(color_format, depth_format),
            r matches Ok(layout) ==> layout.wf(),
            r matches Err(e) ==> e == DeviceError::UnsupportedFormatPair,
    {
        if color_format.is_depth() || !depth_format.is_depth() {
            return Err(DeviceError::UnsupportedFormatPair);
        }
        let mut attachments: Vec<AttachmentDescription> = Vec::new();
        attachments.push(AttachmentDescription {
            format: color_format,
            samples: 1,
            load_op: LoadOp::Clear,
            store_op: StoreOp::Store,
            stencil_load_op: LoadOp::DontCare,
            stencil_store_op: StoreOp::DontCare,
            initial_layout: ImageLayout::Undefined,
            final_layout: ImageLayout::PresentSrc,
        });
        attachments.push(AttachmentDescription {
            format: depth_format,
            samples: 1,
            load_op: LoadOp::Clear,
            store_op: StoreOp::Store,
            stencil_load_op: LoadOp::Clear,
            stencil_store_op: StoreOp::DontCare,
            initial_layout: ImageLayout::Undefined,
            final_layout: ImageLayout::DepthStencilAttachmentOptimal,
        });

        let mut color_refs: Vec<AttachmentReference> = Vec::new();
        color_refs.push(AttachmentReference {
            attachment: 0,
            layout: ImageLayout::ColorAttachmentOptimal,
        });
        let mut subpasses: Vec<SubpassDescription> = Vec::new();
        subpasses.push(SubpassDescription {
            color_attachments: color_refs,
            depth_attachment: Some(
                AttachmentReference {
                    attachment: 1,
                    layout: ImageLayout::DepthStencilAttachmentOptimal,
                },
            ),
        });

        let mut dependencies: Vec<SubpassDependency> = Vec::new();
        dependencies.push(SubpassDependency {
            src_is_external: true,
            dst_subpass: 0,
            src_stage: StageMask::ColorAttachmentOutput,
            src_access: AccessMask::NoAccess,
            dst_stage: StageMask::ColorAttachmentOutput,
            dst_access: AccessMask::ColorAttachmentWrite,
        });
        dependencies.push(SubpassDependency {
            src_is_external: true,
            dst_subpass: 0,
            src_stage: StageMask::FragmentTests,
            src_access: AccessMask::NoAccess,
            dst_stage: StageMask::FragmentTests,
            dst_access: AccessMask::DepthStencilAttachmentWrite,
        });

        let layout = RenderTargetLayout {
            color_format,
            depth_format,
            attachments,
            subpasses,
            dependencies,
        };
        proof {
            assert(layout.attachments@ =~= seq![
                color_attachment_spec(color_format),
                depth_attachment_spec(depth_format),
            ]);
            assert(layout.subpasses@[0].color_attachments@ =~= seq![
                (AttachmentReference {
                    attachment: 0,
                    layout: ImageLayout::ColorAttachmentOptimal,
                }),
            ]);
            assert(layout.dependencies@ =~= seq![
                color_dependency_spec(),
                depth_dependency_spec(),
            ]);
        }
        Ok(layout)
    }
}

} // verus!
