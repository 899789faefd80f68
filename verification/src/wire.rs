//! Fixed-layout request/response records of the device protocol.
//!
//! Every request and every response starts with a [`CtrlHdr`] whose
//! `hdr_type` carries a command or response code. A response's code
//! must be inspected before the rest of the payload is trusted;
//! [`check_response`] is that inspection.

use crate::geom::Rect;
use vstd::prelude::*;

verus! {

/// 2D command codes.
pub const CMD_GET_DISPLAY_INFO: u32 = 0x0100;

pub const CMD_RESOURCE_CREATE_2D: u32 = 0x0101;

pub const CMD_RESOURCE_UNREF: u32 = 0x0102;

pub const CMD_SET_SCANOUT: u32 = 0x0103;

pub const CMD_RESOURCE_FLUSH: u32 = 0x0104;

pub const CMD_TRANSFER_TO_HOST_2D: u32 = 0x0105;

pub const CMD_RESOURCE_ATTACH_BACKING: u32 = 0x0106;

pub const CMD_RESOURCE_DETACH_BACKING: u32 = 0x0107;

pub const CMD_GET_CAPSET_INFO: u32 = 0x0108;

pub const CMD_GET_CAPSET: u32 = 0x0109;

pub const CMD_GET_EDID: u32 = 0x010A;

/// Cursor command codes.
pub const CMD_UPDATE_CURSOR: u32 = 0x0300;

pub const CMD_MOVE_CURSOR: u32 = 0x0301;

/// Success response codes.
pub const RESP_OK_NODATA: u32 = 0x1100;

pub const RESP_OK_DISPLAY_INFO: u32 = 0x1101;

pub const RESP_OK_CAPSET_INFO: u32 = 0x1102;

pub const RESP_OK_CAPSET: u32 = 0x1103;

pub const RESP_OK_EDID: u32 = 0x1104;

/// Error response codes.
pub const RESP_ERR_UNSPEC: u32 = 0x1200;

pub const RESP_ERR_OUT_OF_MEMORY: u32 = 0x1201;

pub const RESP_ERR_INVALID_SCANOUT_ID: u32 = 0x1202;

pub const RESP_ERR_INVALID_RESOURCE_ID: u32 = 0x1203;

pub const RESP_ERR_INVALID_CONTEXT_ID: u32 = 0x1204;

pub const RESP_ERR_INVALID_PARAMETER: u32 = 0x1205;

/// Pixel format codes the device understands, 8 bits per channel,
/// named low byte first. This driver always creates its resource as
/// [`FORMAT_R8G8B8A8`]: red in the low byte, alpha in the high byte.
pub const FORMAT_B8G8R8A8: u32 = 1;

pub const FORMAT_B8G8R8X8: u32 = 2;

pub const FORMAT_A8R8G8B8: u32 = 3;

pub const FORMAT_X8R8G8B8: u32 = 4;

pub const FORMAT_R8G8B8A8: u32 = 67;

pub const FORMAT_X8B8G8R8: u32 = 68;

pub const FORMAT_A8B8G8R8: u32 = 121;

pub const FORMAT_R8G8B8X8: u32 = 134;

/// The device reports at most this many scanouts (displays).
pub const MAX_SCANOUTS: usize = 16;

/// The fixed id of the single screen resource the driver creates.
/// Resource id zero means "none", so any non-zero value serves.
pub const SCREEN_RID: u32 = 42;

/// The header every request and response starts with.
#[derive(Clone, Copy, PartialEq, Eq, Structural, Debug)]
pub struct CtrlHdr {
    pub hdr_type: u32,
    pub flags: u32,
    pub fence_id: u64,
    pub ctx_id: u32,
    pub padding: u32,
}

impl CtrlHdr {
    /// A header carrying a command or response code and nothing else.
    pub fn with_type(hdr_type: u32) -> (r: CtrlHdr)
        ensures
            r == (CtrlHdr { hdr_type, flags: 0, fence_id: 0, ctx_id: 0, padding: 0 }),
    {
        CtrlHdr { hdr_type, flags: 0, fence_id: 0, ctx_id: 0, padding: 0 }
    }
}

/// One entry of the display-info response: the rectangle of one
/// possible display output, and whether that output is enabled.
#[derive(Clone, Copy, PartialEq, Eq, Structural, Debug)]
pub struct DisplayInfoEntry {
    pub r: Rect,
    pub enabled: u32,
    pub flags: u32,
}

impl DisplayInfoEntry {
    pub fn zeroed() -> (e: DisplayInfoEntry)
        ensures
            e == (DisplayInfoEntry { r: Rect { x: 0, y: 0, width: 0, height: 0 }, enabled: 0, flags: 0 }),
    {
        DisplayInfoEntry { r: Rect::zeroed(), enabled: 0, flags: 0 }
    }
}

/// The display-info response: a header and one entry per possible
/// scanout, enabled or not.
pub struct RespDisplayInfo {
    pub hdr: CtrlHdr,
    pub pmodes: Vec<DisplayInfoEntry>,
}

impl RespDisplayInfo {
    /// The response record always carries exactly [`MAX_SCANOUTS`]
    /// entries.
    pub open spec fn wf(self) -> bool {
        self.pmodes.len() == MAX_SCANOUTS
    }

    /// An all-zero response, ready for the device to fill.
    pub fn zeroed() -> (r: RespDisplayInfo)
        ensures
            r.wf(),
            r.hdr == (CtrlHdr { hdr_type: 0, flags: 0, fence_id: 0, ctx_id: 0, padding: 0 }),
            forall|i: int| 0 <= i < MAX_SCANOUTS ==> r.pmodes[i] == (DisplayInfoEntry {
                r: Rect { x: 0, y: 0, width: 0, height: 0 },
                enabled: 0,
                flags: 0,
            }),
    {
        let mut pmodes: Vec<DisplayInfoEntry> = Vec::new();
        let mut i: usize = 0;
        while i < MAX_SCANOUTS
            invariant
                i <= MAX_SCANOUTS,
                pmodes.len() == i,
                forall|j: int| 0 <= j < i ==> pmodes[j] == (DisplayInfoEntry {
                    r: Rect { x: 0, y: 0, width: 0, height: 0 },
                    enabled: 0,
                    flags: 0,
                }),
            decreases MAX_SCANOUTS - i,
        {
            pmodes.push(DisplayInfoEntry::zeroed());
            i = i + 1;
        }
        RespDisplayInfo { hdr: CtrlHdr { hdr_type: 0, flags: 0, fence_id: 0, ctx_id: 0, padding: 0 }, pmodes }
    }
}

/// Request to create a 2D resource of the given size and format,
/// under a caller-chosen non-zero resource id.
#[derive(Clone, Copy, PartialEq, Eq, Structural, Debug)]
pub struct ResourceCreate2d {
    pub hdr: CtrlHdr,
    pub resource_id: u32,
    pub format: u32,
    pub width: u32,
    pub height: u32,
}

/// Request to attach backing memory to a resource. Followed on the
/// wire by `nr_entries` [`MemEntry`] records.
#[derive(Clone, Copy, PartialEq, Eq, Structural, Debug)]
pub struct ResourceAttachBacking {
    pub hdr: CtrlHdr,
    pub resource_id: u32,
    pub nr_entries: u32,
}

/// Request to detach a resource's backing memory.
#[derive(Clone, Copy, PartialEq, Eq, Structural, Debug)]
pub struct ResourceDetachBacking {
    pub hdr: CtrlHdr,
    pub resource_id: u32,
    pub padding: u32,
}

/// One region of driver memory the device may read from: a physical
/// address and a byte length.
#[derive(Clone, Copy, PartialEq, Eq, Structural, Debug)]
pub struct MemEntry {
    pub addr: u64,
    pub length: u32,
    pub padding: u32,
}

/// Request to bind a resource to a scanout over a rectangle.
#[derive(Clone, Copy, PartialEq, Eq, Structural, Debug)]
pub struct SetScanout {
    pub hdr: CtrlHdr,
    pub r: Rect,
    pub scanout_id: u32,
    pub resource_id: u32,
}

/// Request to DMA a rectangle of backing memory into a resource.
#[derive(Clone, Copy, PartialEq, Eq, Structural, Debug)]
pub struct TransferToHost2d {
    pub hdr: CtrlHdr,
    pub r: Rect,
    pub offset: u64,
    pub resource_id: u32,
    pub padding: u32,
}

/// Request to composite a rectangle of a resource onto its scanout.
#[derive(Clone, Copy, PartialEq, Eq, Structural, Debug)]
pub struct ResourceFlush {
    pub hdr: CtrlHdr,
    pub r: Rect,
    pub resource_id: u32,
    pub padding: u32,
}

/// Checks that `hdr` carries the `expected` response code; any other
/// code is a protocol error.
pub fn check_response(hdr: &CtrlHdr, expected: u32) -> (r: Result<(), i32>)
    ensures
        r is Ok <==> hdr.hdr_type == expected,
        r is Err ==> r == Result::<(), i32>::Err(-1i32),
{
    if hdr.hdr_type == expected {
        Ok(())
    } else {
        Err(-1)
    }
}

} // verus!
