//! Image layout transitions: the access and pipeline-stage masks of the
//! memory barrier for each supported transition.
use vstd::prelude::*;

verus! {

/// The layouts an image moves between.
#[derive(Clone, Copy, PartialEq, Eq, Structural, Debug, Hash)]
pub enum ImageLayout {
    Undefined,
    TransferDst,
    ColorAttachment,
    ShaderReadOnly,
    PresentSrc,
}

/// Access and pipeline-stage masks of an image memory barrier, as the
/// graphics API's flag bits.
#[derive(Clone, Copy, PartialEq, Eq, Structural, Debug, Hash)]
pub struct BarrierMasks {
    pub src_access: u32,
    pub dst_access: u32,
    pub src_stage: u32,
    pub dst_stage: u32,
}

/// Access flag: no access.
pub const ACCESS_NONE: u32 = 0;
/// Access flag: shader reads.
pub const ACCESS_SHADER_READ: u32 = 0x20;
/// Access flag: transfer writes.
pub const ACCESS_TRANSFER_WRITE: u32 = 0x1000;
/// Pipeline stage: top of pipe.
pub const STAGE_TOP_OF_PIPE: u32 = 0x1;
/// Pipeline stage: fragment shader.
pub const STAGE_FRAGMENT_SHADER: u32 = 0x80;
/// Pipeline stage: color attachment output.
pub const STAGE_COLOR_ATTACHMENT_OUTPUT: u32 = 0x400;
/// Pipeline stage: transfer.
pub const STAGE_TRANSFER: u32 = 0x1000;
/// Pipeline stage: bottom of pipe.
pub const STAGE_BOTTOM_OF_PIPE: u32 = 0x2000;

impl ImageLayout {
    /// The graphics API's code for this layout.
    pub open spec fn spec_vulkan_code(self) -> i32 {
        match self {
            ImageLayout::Undefined => 0,
            ImageLayout::TransferDst => 7,
            ImageLayout::ColorAttachment => 2,
            ImageLayout::ShaderReadOnly => 5,
            ImageLayout::PresentSrc => 1000001002,
        }
    }

    /// The graphics API's code for this layout.
    pub fn vulkan_code(&self) -> (r: i32)
        ensures
            r == self.spec_vulkan_code(),
    {
        match self {
            ImageLayout::Undefined => 0,
            ImageLayout::TransferDst => 7,
            ImageLayout::ColorAttachment => 2,
            ImageLayout::ShaderReadOnly => 5,
            ImageLayout::PresentSrc => 1000001002,
        }
    }
}

/// The barrier masks of the transition from `old` to `new`; only four
/// transitions are supported: undefined to transfer destination, undefined
/// to color attachment, transfer destination to shader read-only, and color
/// attachment to presentation.
pub open spec fn spec_barrier_masks(old: ImageLayout, new: ImageLayout) -> Option<BarrierMasks> {
    match (old, new) {
        (ImageLayout::Undefined, ImageLayout::TransferDst) => Some(BarrierMasks {
            src_access: ACCESS_NONE,
            dst_access: ACCESS_TRANSFER_WRITE,
            src_stage: STAGE_TOP_OF_PIPE,
            dst_stage: STAGE_TRANSFER,
        }),
        (ImageLayout::Undefined, ImageLayout::ColorAttachment) => Some(BarrierMasks {
            src_access: ACCESS_NONE,
            dst_access: ACCESS_NONE,
            src_stage: STAGE_TOP_OF_PIPE,
            dst_stage: STAGE_COLOR_ATTACHMENT_OUTPUT,
        }),
        (ImageLayout::TransferDst, ImageLayout::ShaderReadOnly) => Some(BarrierMasks {
            src_access: ACCESS_TRANSFER_WRITE,
            dst_access: ACCESS_SHADER_READ,
            src_stage: STAGE_TRANSFER,
            dst_stage: STAGE_FRAGMENT_SHADER,
        }),
        (ImageLayout::ColorAttachment, ImageLayout::PresentSrc) => Some(BarrierMasks {
            src_access: ACCESS_NONE,
            dst_access: ACCESS_NONE,
            src_stage: STAGE_COLOR_ATTACHMENT_OUTPUT,
            dst_stage: STAGE_BOTTOM_OF_PIPE,
        }),
        _ => None,
    }
}

/// The barrier masks of the transition from `old` to `new`, or `None` for a
/// transition that is not supported, which callers treat as a configuration
/// error.
pub fn barrier_masks(old: ImageLayout, new: ImageLayout) -> (r: Option<BarrierMasks>)
    ensures
        r == spec_barrier_masks(old, new),
{
    match (old, new) {
        (ImageLayout::Undefined, ImageLayout::TransferDst) => Some(BarrierMasks {
            src_access: ACCESS_NONE,
            dst_access: ACCESS_TRANSFER_WRITE,
            src_stage: STAGE_TOP_OF_PIPE,
            dst_stage: STAGE_TRANSFER,
        }),
        (ImageLayout::Undefined, ImageLayout::ColorAttachment) => Some(BarrierMasks {
            src_access: ACCESS_NONE,
            dst_access: ACCESS_NONE,
            src_stage: STAGE_TOP_OF_PIPE,
            dst_stage: STAGE_COLOR_ATTACHMENT_OUTPUT,
        }),
        (ImageLayout::TransferDst, ImageLayout::ShaderReadOnly) => Some(BarrierMasks {
            src_access: ACCESS_TRANSFER_WRITE,
            dst_access: ACCESS_SHADER_READ,
            src_stage: STAGE_TRANSFER,
            dst_stage: STAGE_FRAGMENT_SHADER,
        }),
        (ImageLayout::ColorAttachment, ImageLayout::PresentSrc) => Some(BarrierMasks {
            src_access: ACCESS_NONE,
            dst_access: ACCESS_NONE,
            src_stage: STAGE_COLOR_ATTACHMENT_OUTPUT,
            dst_stage: STAGE_BOTTOM_OF_PIPE,
        }),
        _ => None,
    }
}

} // verus!
