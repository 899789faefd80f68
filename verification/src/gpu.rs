//! Device state and the resource/scanout/mode lifecycle.
//!
//! The driver owns one mode at a time: the fixed 80 by 25 text mode
//! (mode number 0), or one graphics mode per enabled display entry
//! (mode number `n` drives scanout `n - 1`). Entering a graphics
//! mode creates a device resource sized to the display entry,
//! allocates and attaches a frame buffer, and binds the resource to
//! the scanout; each step is one device transaction.
//!
//! The device transactions themselves run outside this crate: each
//! step function here hands back the exact wire record to submit and
//! consumes the response header, so the unverified transport only
//! moves buffers. A step function checks its response and either
//! advances the state or reports the protocol error and leaves the
//! state as it was.

use crate::framebuffer::{rect_contains, FrameBuffer};
use crate::geom::{Coordinate, Rect};
use crate::pixel::{BitBlitOp, Pixel};
use crate::wire::{
    check_response, CtrlHdr, DisplayInfoEntry, MemEntry, RespDisplayInfo, ResourceAttachBacking,
    ResourceCreate2d, ResourceFlush, SetScanout, TransferToHost2d, CMD_GET_DISPLAY_INFO,
    CMD_RESOURCE_ATTACH_BACKING, CMD_RESOURCE_CREATE_2D, CMD_RESOURCE_FLUSH, CMD_SET_SCANOUT,
    CMD_TRANSFER_TO_HOST_2D, FORMAT_R8G8B8A8, MAX_SCANOUTS, RESP_OK_DISPLAY_INFO, RESP_OK_NODATA,
    SCREEN_RID,
};
use vstd::prelude::*;

verus! {

/// The fixed text mode's dimensions, in character cells.
pub const TEXT_WIDTH: u32 = 80;

pub const TEXT_HEIGHT: u32 = 25;

/// Character cells of one text screen (and of its saved snapshot).
pub const TEXT_CELLS: usize = 2000;

/// Flag in a [`VideoMode`] saying the device offers a mouse cursor.
pub const HAS_MOUSE_CURSOR: u64 = 1;

/// A channel-offset entry meaning "this channel does not exist".
pub const NO_CHANNEL: u8 = 0xFF;

/// What kind of mode a [`VideoMode`] describes.
#[derive(Clone, Copy, PartialEq, Eq, Structural, Debug)]
pub enum VideoModeType {
    Text,
    Graphics,
}

/// One selectable video mode, as handed to the kernel's graphics
/// subsystem: its kind, dimensions, channel layout, capability flags,
/// cursor dimensions, and an opaque selector (`mode_data`) that
/// [`VirtioGpu::set_mode_begin`] decodes.
#[derive(Clone, Copy, PartialEq, Eq, Debug)]
pub struct VideoMode {
    pub mode_type: VideoModeType,
    pub width: u32,
    pub height: u32,
    pub channel_offset: [u8; 4],
    pub flags: u64,
    pub mouse_cursor_width: u32,
    pub mouse_cursor_height: u32,
    pub mode_data: usize,
}

/// The driver's current mode: text, or graphics on display entry
/// `n - 1` for a mode number `n >= 1`.
#[derive(Clone, Copy, PartialEq, Eq, Structural, Debug)]
pub enum CurModeType {
    Text,
    Graphics(usize),
}

impl CurModeType {
    /// The mode for a mode number: 0 is text, anything else graphics.
    pub fn from_usize(n: usize) -> (m: CurModeType)
        ensures
            m == (if n == 0 {
                CurModeType::Text
            } else {
                CurModeType::Graphics(n)
            }),
    {
        match n {
            0 => CurModeType::Text,
            _ => CurModeType::Graphics(n),
        }
    }

    /// The mode number of a mode.
    pub fn to_usize(&self) -> (n: usize)
        ensures
            n == self.spec_num(),
    {
        match self {
            CurModeType::Text => 0,
            CurModeType::Graphics(n) => *n,
        }
    }

    /// The mode number of a mode.
    pub open spec fn spec_num(self) -> usize {
        match self {
            CurModeType::Text => 0,
            CurModeType::Graphics(n) => n,
        }
    }
}

/// The indices below `k` of the display entries a device reported
/// enabled, in ascending order: these are the scanouts a graphics
/// mode can drive.
pub open spec fn enabled_scanouts(disp: Seq<DisplayInfoEntry>, k: int) -> Seq<int>
    decreases k,
{
    if k <= 0 {
        Seq::empty()
    } else {
        enabled_scanouts(disp, k - 1) + (if disp[k - 1].enabled != 0 {
            seq![k - 1]
        } else {
            Seq::empty()
        })
    }
}

/// Every listed scanout index is a real, enabled entry below `k`.
pub proof fn lemma_enabled_scanouts_range(disp: Seq<DisplayInfoEntry>, k: int)
    ensures
        enabled_scanouts(disp, k).len() <= (if k >= 0 {
            k
        } else {
            0
        }),
        forall|m: int|
            0 <= m < enabled_scanouts(disp, k).len() ==> 0 <= #[trigger] enabled_scanouts(
                disp,
                k,
            )[m] < k && disp[enabled_scanouts(disp, k)[m]].enabled != 0,
    decreases (if k >= 0 {
        k
    } else {
        0
    }),
{
    if k > 0 {
        lemma_enabled_scanouts_range(disp, k - 1);
    }
}

/// Looking at more entries only extends the list of enabled scanouts.
pub proof fn lemma_enabled_scanouts_prefix(disp: Seq<DisplayInfoEntry>, j: int, k: int)
    requires
        0 <= j <= k,
    ensures
        enabled_scanouts(disp, j).len() <= enabled_scanouts(disp, k).len(),
        forall|m: int|
            0 <= m < enabled_scanouts(disp, j).len() ==> #[trigger] enabled_scanouts(disp, k)[m]
                == enabled_scanouts(disp, j)[m],
    decreases k - j,
{
    if j < k {
        lemma_enabled_scanouts_prefix(disp, j, k - 1);
    }
}

/// How many output slots a mode listing may fill: one fewer than
/// offered, and at most 15 however many slots there are (so indexing
/// never leaves the 16-entry display cache).
pub open spec fn modes_limit(slots: int) -> int {
    if slots > 16 {
        15
    } else {
        slots - 1
    }
}

/// How many slots a mode listing fills when the first `i` display
/// entries are considered: the text mode plus one per enabled entry,
/// capped by the slot limit.
pub open spec fn spec_modes_count_upto(slots: int, disp: Seq<DisplayInfoEntry>, i: int) -> int {
    let c = 1 + enabled_scanouts(disp, i).len() as int;
    if c <= modes_limit(slots) {
        c
    } else {
        modes_limit(slots)
    }
}

/// How many slots a mode listing fills.
pub open spec fn spec_modes_count(slots: int, disp: Seq<DisplayInfoEntry>) -> int {
    spec_modes_count_upto(slots, disp, MAX_SCANOUTS as int)
}

/// What asking for the available modes can come to: too few output
/// slots (fewer than two, rejected before anything else); a request
/// to submit first, because the display cache is empty; or the count
/// of slots filled.
#[derive(Clone, Copy, PartialEq, Eq, Structural, Debug)]
pub enum ModesOutcome {
    TooFewSlots,
    NeedDisplayInfo(CtrlHdr),
    Filled(usize),
}

/// The first thing a mode switch does, once the driver has decided
/// the switch is possible: restore the saved text screen (the switch
/// to text mode is then already complete — no device transaction
/// happens), or submit a resource-create request and walk the
/// graphics-switch steps.
#[derive(Clone, Copy, PartialEq, Eq, Structural, Debug)]
pub enum SetModeAction {
    RestoreText,
    CreateResource(ResourceCreate2d),
}

/// The whole device state the driver keeps: the display-info cache,
/// the current mode, the frame buffer with its bounding boxes, and
/// the saved text screen.
pub struct VirtioGpu {
    /// Whether `disp_info` has been fetched from the device.
    pub have_disp_info: bool,
    /// The cached display-info entries, one per possible scanout.
    pub disp_info: Vec<DisplayInfoEntry>,
    /// The mode the device is in.
    pub cur_mode: CurModeType,
    /// The pixel store backing the screen resource; present from the
    /// moment a graphics switch allocates it.
    pub frame_buffer: Option<FrameBuffer>,
    /// The frame buffer's bounding box (origin zero).
    pub frame_box: Rect,
    /// The sub-box of the frame outside which drawing is suppressed.
    pub clipping_box: Rect,
    /// The 80 by 25 text screen saved when leaving text mode.
    pub text_snapshot: Vec<u16>,
}

impl VirtioGpu {
    /// The state invariant: the caches have their fixed sizes, the
    /// boxes nest (clipping box within the zero-origin frame box),
    /// the frame buffer when present matches the frame box, and an
    /// active graphics mode points at a real display entry whose
    /// dimensions the frame buffer has.
    pub open spec fn wf(self) -> bool {
        &&& self.disp_info.len() == MAX_SCANOUTS
        &&& self.text_snapshot.len() == TEXT_CELLS
        &&& self.frame_box.x == 0
        &&& self.frame_box.y == 0
        &&& self.clipping_box.x + self.clipping_box.width <= self.frame_box.width
        &&& self.clipping_box.y + self.clipping_box.height <= self.frame_box.height
        &&& match self.frame_buffer {
            Some(fb) => fb.wf() && fb.width == self.frame_box.width && fb.height
                == self.frame_box.height && fb.pixels.len() * 4 <= u32::MAX,
            None => true,
        }
        &&& match self.cur_mode {
            CurModeType::Graphics(n) => {
                &&& 1 <= n <= MAX_SCANOUTS
                &&& self.have_disp_info
                &&& self.frame_buffer is Some
                &&& self.frame_box.width == self.disp_info[n - 1].r.width
                &&& self.frame_box.height == self.disp_info[n - 1].r.height
            },
            CurModeType::Text => true,
        }
    }

    /// A fresh device: text mode, nothing cached, no frame buffer.
    pub fn new() -> (g: VirtioGpu)
        ensures
            g.wf(),
            g.cur_mode == CurModeType::Text,
            !g.have_disp_info,
            g.frame_buffer is None,
            g.frame_box == (Rect { x: 0, y: 0, width: 0, height: 0 }),
            g.clipping_box == (Rect { x: 0, y: 0, width: 0, height: 0 }),
            forall|i: int| 0 <= i < TEXT_CELLS ==> g.text_snapshot[i] == 0,
    {
        let mut text_snapshot: Vec<u16> = Vec::new();
        let mut i: usize = 0;
        while i < TEXT_CELLS
            invariant
                i <= TEXT_CELLS,
                text_snapshot.len() == i,
                forall|j: int| 0 <= j < i ==> text_snapshot[j] == 0,
            decreases TEXT_CELLS - i,
        {
            text_snapshot.push(0);
            i = i + 1;
        }
        VirtioGpu {
            have_disp_info: false,
            disp_info: RespDisplayInfo::zeroed().pmodes,
            cur_mode: CurModeType::Text,
            frame_buffer: None,
            frame_box: Rect::zeroed(),
            clipping_box: Rect::zeroed(),
            text_snapshot,
        }
    }

    /// The [`VideoMode`] describing mode `m` of this device: the
    /// fixed text mode, or the cached dimensions of the display entry
    /// a graphics mode drives.
    pub open spec fn spec_gen_mode(self, m: CurModeType) -> VideoMode {
        match m {
            CurModeType::Text => VideoMode {
                mode_type: VideoModeType::Text,
                width: TEXT_WIDTH,
                height: TEXT_HEIGHT,
                channel_offset: [0u8, 1u8, NO_CHANNEL, NO_CHANNEL],
                flags: 0,
                mouse_cursor_width: 0,
                mouse_cursor_height: 0,
                mode_data: 0,
            },
            CurModeType::Graphics(n) => VideoMode {
                mode_type: VideoModeType::Graphics,
                width: self.disp_info[n - 1].r.width,
                height: self.disp_info[n - 1].r.height,
                channel_offset: [0u8, 1u8, 2u8, 3u8],
                flags: HAS_MOUSE_CURSOR,
                mouse_cursor_width: 64,
                mouse_cursor_height: 64,
                mode_data: n,
            },
        }
    }

    /// Builds the [`VideoMode`] record for mode `m`.
    pub fn gen_mode(&self, m: CurModeType) -> (r: VideoMode)
        requires
            self.wf(),
            m matches CurModeType::Graphics(n) ==> 1 <= n <= MAX_SCANOUTS,
        ensures
            r == self.spec_gen_mode(m),
    {
        match m {
            CurModeType::Text => VideoMode {
                mode_type: VideoModeType::Text,
                width: TEXT_WIDTH,
                height: TEXT_HEIGHT,
                channel_offset: [0u8, 1u8, NO_CHANNEL, NO_CHANNEL],
                flags: 0,
                mouse_cursor_width: 0,
                mouse_cursor_height: 0,
                mode_data: 0,
            },
            CurModeType::Graphics(n) => {
                let e = self.disp_info[n - 1];
                VideoMode {
                    mode_type: VideoModeType::Graphics,
                    width: e.r.width,
                    height: e.r.height,
                    channel_offset: [0u8, 1u8, 2u8, 3u8],
                    flags: HAS_MOUSE_CURSOR,
                    mouse_cursor_width: 64,
                    mouse_cursor_height: 64,
                    mode_data: n,
                }
            },
        }
    }

    /// The mode the device is in, without touching the device.
    pub fn get_mode(&self) -> (r: VideoMode)
        requires
            self.wf(),
        ensures
            r == self.spec_gen_mode(self.cur_mode),
    {
        self.gen_mode(self.cur_mode)
    }

    /// Whether the device is in text mode (so a caller knows to save
    /// the text screen before switching).
    pub fn in_text_mode(&self) -> (r: bool)
        ensures
            r == (self.cur_mode == CurModeType::Text),
    {
        match self.cur_mode {
            CurModeType::Text => true,
            CurModeType::Graphics(_) => false,
        }
    }

    /// Begins display discovery: the request to submit, or nothing
    /// when the cache is already filled.
    pub fn update_modes_begin(&self) -> (r: Option<CtrlHdr>)
        ensures
            self.have_disp_info ==> r is None,
            !self.have_disp_info ==> r == Some(
                CtrlHdr { hdr_type: CMD_GET_DISPLAY_INFO, flags: 0, fence_id: 0, ctx_id: 0, padding: 0 },
            ),
    {
        if self.have_disp_info {
            None
        } else {
            Some(CtrlHdr::with_type(CMD_GET_DISPLAY_INFO))
        }
    }

    /// Completes display discovery from the device's response: caches
    /// every entry (enabled or not) if the response code is right,
    /// and otherwise reports the protocol error and caches nothing.
    /// A second completion after a successful one changes nothing.
    pub fn update_modes_complete(&mut self, resp: &RespDisplayInfo) -> (r: Result<(), i32>)
        requires
            old(self).wf(),
            resp.wf(),
        ensures
            final(self).wf(),
            old(self).have_disp_info ==> r is Ok && *final(self) == *old(self),
            !old(self).have_disp_info && resp.hdr.hdr_type == RESP_OK_DISPLAY_INFO ==> {
                &&& r is Ok
                &&& final(self).have_disp_info
                &&& final(self).disp_info@ == resp.pmodes@
                &&& final(self).cur_mode == old(self).cur_mode
                &&& final(self).frame_buffer == old(self).frame_buffer
                &&& final(self).frame_box == old(self).frame_box
                &&& final(self).clipping_box == old(self).clipping_box
                &&& final(self).text_snapshot == old(self).text_snapshot
            },
            !old(self).have_disp_info && resp.hdr.hdr_type != RESP_OK_DISPLAY_INFO ==> r == Result::<
                (),
                i32,
            >::Err(-1i32) && *final(self) == *old(self),
    {
        if self.have_disp_info {
            return Ok(());
        }
        check_response(&resp.hdr, RESP_OK_DISPLAY_INFO)?;
        let mut cache: Vec<DisplayInfoEntry> = Vec::new();
        let mut i: usize = 0;
        while i < resp.pmodes.len()
            invariant
                i <= resp.pmodes.len(),
                cache.len() == i,
                forall|j: int| 0 <= j < i ==> cache[j] == resp.pmodes[j],
            decreases resp.pmodes.len() - i,
        {
            cache.push(resp.pmodes[i]);
            i = i + 1;
        }
        proof {
            assert(cache@ =~= resp.pmodes@);
        }
        self.disp_info = cache;
        self.have_disp_info = true;
        Ok(())
    }

    /// Lists the available modes into the caller's slots: slot 0 is
    /// always the text mode, then one graphics mode per enabled
    /// display entry in entry order, until the slots (less a reserved
    /// last slot) run out. Fewer than two slots are rejected before
    /// anything else; an empty display cache asks the caller to run
    /// discovery first. Untouched slots keep their contents.
    pub fn get_available_modes(&self, modes: &mut Vec<VideoMode>) -> (r: ModesOutcome)
        requires
            self.wf(),
        ensures
            final(modes).len() == old(modes).len(),
            old(modes).len() < 2 ==> r == ModesOutcome::TooFewSlots && final(modes)@ == old(
                modes,
            )@,
            old(modes).len() >= 2 && !self.have_disp_info ==> r == ModesOutcome::NeedDisplayInfo(
                CtrlHdr { hdr_type: CMD_GET_DISPLAY_INFO, flags: 0, fence_id: 0, ctx_id: 0, padding: 0 },
            ) && final(modes)@ == old(modes)@,
            old(modes).len() >= 2 && self.have_disp_info ==> {
                let count = spec_modes_count(old(modes).len() as int, self.disp_info@);
                let en = enabled_scanouts(self.disp_info@, MAX_SCANOUTS as int);
                &&& r == ModesOutcome::Filled(count as usize)
                &&& final(modes)[0] == self.spec_gen_mode(CurModeType::Text)
                &&& forall|k: int|
                    1 <= k < count ==> final(modes)[k] == self.spec_gen_mode(
                        CurModeType::Graphics((en[k - 1] + 1) as usize),
                    )
                &&& forall|k: int|
                    count <= k < final(modes).len() ==> final(modes)[k] == old(modes)[k]
            },
    {
        if modes.len() < 2 {
            return ModesOutcome::TooFewSlots;
        }
        if !self.have_disp_info {
            return ModesOutcome::NeedDisplayInfo(CtrlHdr::with_type(CMD_GET_DISPLAY_INFO));
        }
        let ghost modes0 = modes@;
        let limit: usize = if modes.len() > 16 {
            15
        } else {
            modes.len() - 1
        };
        let text_mode = self.gen_mode(CurModeType::Text);
        modes[0] = text_mode;
        let mut cur: usize = 1;
        let mut i: usize = 0;
        while i < MAX_SCANOUTS
            invariant
                self.wf(),
                self.have_disp_info,
                i <= MAX_SCANOUTS,
                modes.len() == modes0.len(),
                modes0.len() >= 2,
                limit == modes_limit(modes0.len() as int),
                1 <= cur,
                cur == spec_modes_count_upto(modes0.len() as int, self.disp_info@, i as int),
                modes[0] == self.spec_gen_mode(CurModeType::Text),
                forall|k: int|
                    1 <= k < cur ==> modes[k] == self.spec_gen_mode(
                        CurModeType::Graphics(
                            (enabled_scanouts(self.disp_info@, i as int)[k - 1] + 1) as usize,
                        ),
                    ),
                forall|k: int| cur <= k < modes.len() ==> modes[k] == modes0[k],
            ensures
                modes.len() == modes0.len(),
                cur == spec_modes_count(modes0.len() as int, self.disp_info@),
                modes[0] == self.spec_gen_mode(CurModeType::Text),
                forall|k: int|
                    1 <= k < cur ==> modes[k] == self.spec_gen_mode(
                        CurModeType::Graphics(
                            (enabled_scanouts(self.disp_info@, MAX_SCANOUTS as int)[k - 1]
                                + 1) as usize,
                        ),
                    ),
                forall|k: int| cur <= k < modes.len() ==> modes[k] == modes0[k],
            decreases MAX_SCANOUTS - i,
        {
            proof {
                lemma_enabled_scanouts_range(self.disp_info@, i as int);
            }
            if cur >= limit {
                proof {
                    lemma_enabled_scanouts_prefix(self.disp_info@, i as int, MAX_SCANOUTS as int);
                }
                break ;
            }
            let ghost en_i = enabled_scanouts(self.disp_info@, i as int);
            if self.disp_info[i].enabled != 0 {
                let m = self.gen_mode(CurModeType::Graphics(i + 1));
                modes[cur] = m;
                cur = cur + 1;
                proof {
                    assert(enabled_scanouts(self.disp_info@, i as int + 1) =~= en_i + seq![
                        i as int,
                    ]);
                }
            } else {
                proof {
                    assert(enabled_scanouts(self.disp_info@, i as int + 1) =~= en_i);
                }
            }
            i = i + 1;
        }
        proof {
            lemma_enabled_scanouts_prefix(self.disp_info@, 0, MAX_SCANOUTS as int);
        }
        ModesOutcome::Filled(cur)
    }

    /// Stores the text screen a caller captured from the VGA buffer,
    /// so a later switch back to text mode can restore it.
    pub fn save_text(&mut self, snap: Vec<u16>)
        requires
            old(self).wf(),
            snap.len() == TEXT_CELLS,
        ensures
            final(self).wf(),
            final(self).text_snapshot == snap,
            final(self).have_disp_info == old(self).have_disp_info,
            final(self).disp_info == old(self).disp_info,
            final(self).cur_mode == old(self).cur_mode,
            final(self).frame_buffer == old(self).frame_buffer,
            final(self).frame_box == old(self).frame_box,
            final(self).clipping_box == old(self).clipping_box,
    {
        self.text_snapshot = snap;
    }

    /// Decides a mode switch. A switch is only possible from text
    /// mode: leaving an active graphics mode is not implemented and
    /// fails cleanly, whatever the target. From text mode, target 0
    /// restores the saved text screen with no device transaction, and
    /// a graphics target starts the create/attach/scanout sequence,
    /// sized from the cached display entry — so the cache must be
    /// filled first.
    pub fn set_mode_begin(&self, mode: &VideoMode) -> (r: Result<SetModeAction, i32>)
        requires
            self.wf(),
            mode.mode_data <= MAX_SCANOUTS,
        ensures
            self.cur_mode != CurModeType::Text ==> r == Result::<SetModeAction, i32>::Err(-1i32),
            self.cur_mode == CurModeType::Text && mode.mode_data == 0 ==> r == Result::<
                SetModeAction,
                i32,
            >::Ok(SetModeAction::RestoreText),
            self.cur_mode == CurModeType::Text && mode.mode_data >= 1 && !self.have_disp_info ==> r
                == Result::<SetModeAction, i32>::Err(-1i32),
            self.cur_mode == CurModeType::Text && mode.mode_data >= 1 && self.have_disp_info ==> r
                == Result::<SetModeAction, i32>::Ok(
                SetModeAction::CreateResource(
                    ResourceCreate2d {
                        hdr: CtrlHdr {
                            hdr_type: CMD_RESOURCE_CREATE_2D,
                            flags: 0,
                            fence_id: 0,
                            ctx_id: 0,
                            padding: 0,
                        },
                        resource_id: SCREEN_RID,
                        format: FORMAT_R8G8B8A8,
                        width: self.disp_info[mode.mode_data - 1].r.width,
                        height: self.disp_info[mode.mode_data - 1].r.height,
                    },
                ),
            ),
    {
        match self.cur_mode {
            CurModeType::Graphics(_) => Err(-1),
            CurModeType::Text => {
                if mode.mode_data == 0 {
                    Ok(SetModeAction::RestoreText)
                } else if !self.have_disp_info {
                    Err(-1)
                } else {
                    let e = self.disp_info[mode.mode_data - 1];
                    Ok(
                        SetModeAction::CreateResource(
                            ResourceCreate2d {
                                hdr: CtrlHdr::with_type(CMD_RESOURCE_CREATE_2D),
                                resource_id: SCREEN_RID,
                                format: FORMAT_R8G8B8A8,
                                width: e.r.width,
                                height: e.r.height,
                            },
                        ),
                    )
                }
            },
        }
    }

    /// Second step of a graphics switch, after the resource-create
    /// response arrives: checks it, allocates the frame buffer sized
    /// to display entry `n - 1` (all black), makes the frame and
    /// clipping boxes that full rectangle, and hands back the
    /// attach-backing request. A failed response, a switch not
    /// started from text mode with a filled cache, or a frame that
    /// cannot be allocated or described on the wire changes nothing
    /// and reports the failure.
    pub fn set_mode_graphics_created(&mut self, n: usize, resp: &CtrlHdr) -> (r: Result<
        ResourceAttachBacking,
        i32,
    >)
        requires
            old(self).wf(),
            1 <= n <= MAX_SCANOUTS,
        ensures
            final(self).wf(),
            r is Err ==> *final(self) == *old(self),
            r is Err ==> r == Result::<ResourceAttachBacking, i32>::Err(-1i32),
            r is Ok <==> (resp.hdr_type == RESP_OK_NODATA && old(self).cur_mode == CurModeType::Text
                && old(self).have_disp_info && old(self).disp_info[n - 1].r.width * old(
                self,
            ).disp_info[n - 1].r.height * 4 <= u32::MAX),
            (resp.hdr_type == RESP_OK_NODATA && old(self).cur_mode == CurModeType::Text && old(self).have_disp_info && old(self).disp_info[n - 1].r.width * old(self).disp_info[n
                - 1].r.height * 4 <= u32::MAX) ==> {
                let w = old(self).disp_info[n - 1].r.width;
                let h = old(self).disp_info[n - 1].r.height;
                &&& r == Result::<ResourceAttachBacking, i32>::Ok(
                    ResourceAttachBacking {
                        hdr: CtrlHdr {
                            hdr_type: CMD_RESOURCE_ATTACH_BACKING,
                            flags: 0,
                            fence_id: 0,
                            ctx_id: 0,
                            padding: 0,
                        },
                        resource_id: SCREEN_RID,
                        nr_entries: 1,
                    },
                )
                &&& final(self).frame_buffer is Some
                &&& final(self).frame_buffer->Some_0.width == w
                &&& final(self).frame_buffer->Some_0.height == h
                &&& final(self).frame_buffer->Some_0.pixels@ == Seq::new(
                    (w * h) as nat,
                    |i: int| Pixel { raw: 0 },
                )
                &&& final(self).frame_box == (Rect { x: 0, y: 0, width: w, height: h })
                &&& final(self).clipping_box == (Rect { x: 0, y: 0, width: w, height: h })
                &&& final(self).cur_mode == old(self).cur_mode
                &&& final(self).have_disp_info == old(self).have_disp_info
                &&& final(self).disp_info == old(self).disp_info
                &&& final(self).text_snapshot == old(self).text_snapshot
            },
    {
        check_response(resp, RESP_OK_NODATA)?;
        match self.cur_mode {
            CurModeType::Graphics(_) => {
                return Err(-1);
            },
            CurModeType::Text => {},
        }
        if !self.have_disp_info {
            return Err(-1);
        }
        let e = self.disp_info[n - 1];
        let w = e.r.width;
        let h = e.r.height;
        proof {
            assert(w as int * h as int <= u32::MAX as int * u32::MAX as int) by (nonlinear_arith)
                requires
                    w <= u32::MAX && h <= u32::MAX,
            ;
            assert(w as int * h as int >= 0) by (nonlinear_arith)
                requires
                    w >= 0 && h >= 0,
            ;
        }
        let pixel_count: u64 = w as u64 * h as u64;
        if pixel_count > (u32::MAX / 4) as u64 {
            return Err(-1);
        }
        let fb = FrameBuffer::new_black(w, h);
        proof {
            assert(fb.pixels@ =~= Seq::new((w * h) as nat, |i: int| Pixel { raw: 0 }));
        }
        self.frame_buffer = Some(fb);
        self.frame_box = Rect { x: 0, y: 0, width: w, height: h };
        self.clipping_box = Rect { x: 0, y: 0, width: w, height: h };
        Ok(
            ResourceAttachBacking {
                hdr: CtrlHdr::with_type(CMD_RESOURCE_ATTACH_BACKING),
                resource_id: SCREEN_RID,
                nr_entries: 1,
            },
        )
    }

    /// The one memory entry an attach-backing request carries: the
    /// frame buffer's address — which only the caller, who owns the
    /// allocation's placement, can know — and its byte length. The
    /// address must stay valid for as long as the resource exists,
    /// not just for the transaction.
    pub fn attach_entry(&self, addr: u64) -> (r: Result<MemEntry, i32>)
        requires
            self.wf(),
        ensures
            self.frame_buffer is None ==> r == Result::<MemEntry, i32>::Err(-1i32),
            self.frame_buffer is Some ==> r == Result::<MemEntry, i32>::Ok(
                MemEntry {
                    addr,
                    length: (self.frame_buffer->Some_0.pixels.len() * 4) as u32,
                    padding: 0,
                },
            ),
    {
        match &self.frame_buffer {
            None => Err(-1),
            Some(fb) => Ok(
                MemEntry { addr, length: (fb.pixels.len() * 4) as u32, padding: 0 },
            ),
        }
    }

    /// Third step of a graphics switch, after the attach-backing
    /// response arrives: checks it and hands back the request binding
    /// the screen resource to scanout `n - 1` over display entry
    /// `n - 1`'s rectangle.
    pub fn set_mode_graphics_attached(&self, n: usize, resp: &CtrlHdr) -> (r: Result<
        SetScanout,
        i32,
    >)
        requires
            self.wf(),
            1 <= n <= MAX_SCANOUTS,
        ensures
            resp.hdr_type != RESP_OK_NODATA ==> r == Result::<SetScanout, i32>::Err(-1i32),
            resp.hdr_type == RESP_OK_NODATA ==> r == Result::<SetScanout, i32>::Ok(
                SetScanout {
                    hdr: CtrlHdr {
                        hdr_type: CMD_SET_SCANOUT,
                        flags: 0,
                        fence_id: 0,
                        ctx_id: 0,
                        padding: 0,
                    },
                    r: self.disp_info[n - 1].r,
                    scanout_id: (n - 1) as u32,
                    resource_id: SCREEN_RID,
                },
            ),
    {
        check_response(resp, RESP_OK_NODATA)?;
        Ok(
            SetScanout {
                hdr: CtrlHdr::with_type(CMD_SET_SCANOUT),
                r: self.disp_info[n - 1].r,
                scanout_id: (n - 1) as u32,
                resource_id: SCREEN_RID,
            },
        )
    }

    /// Last step of a graphics switch, after the set-scanout response
    /// arrives: checks it and records the new mode. The frame buffer
    /// must be the one the switch allocated (sized to display entry
    /// `n - 1`); anything else reports failure and changes nothing.
    pub fn set_mode_graphics_finish(&mut self, n: usize, resp: &CtrlHdr) -> (r: Result<(), i32>)
        requires
            old(self).wf(),
            1 <= n <= MAX_SCANOUTS,
        ensures
            final(self).wf(),
            r is Err ==> *final(self) == *old(self) && r == Result::<(), i32>::Err(-1i32),
            r is Ok <==> (resp.hdr_type == RESP_OK_NODATA && old(self).have_disp_info && old(
                self,
            ).frame_buffer is Some && old(self).frame_box.width == old(self).disp_info[n
                - 1].r.width && old(self).frame_box.height == old(self).disp_info[n - 1].r.height),
            (resp.hdr_type == RESP_OK_NODATA && old(self).have_disp_info && old(self).frame_buffer is Some && old(self).frame_box.width == old(self).disp_info[n
                - 1].r.width && old(self).frame_box.height == old(self).disp_info[n - 1].r.height)
                ==> {
                &&& r is Ok
                &&& final(self).cur_mode == CurModeType::Graphics(n)
                &&& final(self).have_disp_info == old(self).have_disp_info
                &&& final(self).disp_info == old(self).disp_info
                &&& final(self).frame_buffer == old(self).frame_buffer
                &&& final(self).frame_box == old(self).frame_box
                &&& final(self).clipping_box == old(self).clipping_box
                &&& final(self).text_snapshot == old(self).text_snapshot
            },
    {
        check_response(resp, RESP_OK_NODATA)?;
        if !self.have_disp_info {
            return Err(-1);
        }
        let e = self.disp_info[n - 1];
        let fb_ok = match &self.frame_buffer {
            Some(_) => true,
            None => false,
        };
        if !fb_ok || self.frame_box.width != e.r.width || self.frame_box.height != e.r.height {
            return Err(-1);
        }
        self.cur_mode = CurModeType::Graphics(n);
        Ok(())
    }

    /// Begins a flush: in text mode there is nothing to do; in a
    /// graphics mode, the request telling the device to DMA the
    /// scanout's rectangle out of the frame buffer.
    pub fn flush_begin(&self) -> (r: Option<TransferToHost2d>)
        requires
            self.wf(),
        ensures
            self.cur_mode == CurModeType::Text ==> r is None,
            self.cur_mode matches CurModeType::Graphics(n) ==> r == Some(
                TransferToHost2d {
                    hdr: CtrlHdr {
                        hdr_type: CMD_TRANSFER_TO_HOST_2D,
                        flags: 0,
                        fence_id: 0,
                        ctx_id: 0,
                        padding: 0,
                    },
                    r: self.disp_info[n - 1].r,
                    offset: 0,
                    resource_id: SCREEN_RID,
                    padding: 0,
                },
            ),
    {
        match self.cur_mode {
            CurModeType::Text => None,
            CurModeType::Graphics(n) => Some(
                TransferToHost2d {
                    hdr: CtrlHdr::with_type(CMD_TRANSFER_TO_HOST_2D),
                    r: self.disp_info[n - 1].r,
                    offset: 0,
                    resource_id: SCREEN_RID,
                    padding: 0,
                },
            ),
        }
    }

    /// Continues a flush after the transfer response: checks it and
    /// hands back the request compositing the resource onto the
    /// scanout. Fails on a bad response, or when no flush can be in
    /// flight because the device is in text mode.
    pub fn flush_transferred(&self, resp: &CtrlHdr) -> (r: Result<ResourceFlush, i32>)
        requires
            self.wf(),
        ensures
            resp.hdr_type != RESP_OK_NODATA ==> r == Result::<ResourceFlush, i32>::Err(-1i32),
            resp.hdr_type == RESP_OK_NODATA && self.cur_mode == CurModeType::Text ==> r == Result::<
                ResourceFlush,
                i32,
            >::Err(-1i32),
            resp.hdr_type == RESP_OK_NODATA && self.cur_mode != CurModeType::Text ==> r == Result::<
                ResourceFlush,
                i32,
            >::Ok(
                ResourceFlush {
                    hdr: CtrlHdr {
                        hdr_type: CMD_RESOURCE_FLUSH,
                        flags: 0,
                        fence_id: 0,
                        ctx_id: 0,
                        padding: 0,
                    },
                    r: self.disp_info[self.cur_mode.spec_num() - 1].r,
                    resource_id: SCREEN_RID,
                    padding: 0,
                },
            ),
    {
        check_response(resp, RESP_OK_NODATA)?;
        match self.cur_mode {
            CurModeType::Text => Err(-1),
            CurModeType::Graphics(n) => Ok(
                ResourceFlush {
                    hdr: CtrlHdr::with_type(CMD_RESOURCE_FLUSH),
                    r: self.disp_info[n - 1].r,
                    resource_id: SCREEN_RID,
                    padding: 0,
                },
            ),
        }
    }

    /// Ends a flush: the user sees the frame exactly when this
    /// response, too, reports success.
    pub fn flush_finish(&self, resp: &CtrlHdr) -> (r: Result<(), i32>)
        ensures
            r is Ok <==> resp.hdr_type == RESP_OK_NODATA,
            r is Err ==> r == Result::<(), i32>::Err(-1i32),
    {
        check_response(resp, RESP_OK_NODATA)
    }

    /// The frame buffer (meaningful only while one is present).
    pub open spec fn spec_fb(self) -> FrameBuffer
        recommends
            self.frame_buffer is Some,
    {
        self.frame_buffer->Some_0
    }

    /// The two states agree on everything except possibly the stored
    /// pixels: drawing never changes anything else.
    pub open spec fn same_but_pixels(self, other: VirtioGpu) -> bool {
        &&& self.have_disp_info == other.have_disp_info
        &&& self.disp_info == other.disp_info
        &&& self.cur_mode == other.cur_mode
        &&& self.frame_box == other.frame_box
        &&& self.clipping_box == other.clipping_box
        &&& self.text_snapshot == other.text_snapshot
        &&& (self.frame_buffer is Some <==> other.frame_buffer is Some)
        &&& (self.frame_buffer is Some ==> self.spec_fb().width == other.spec_fb().width
            && self.spec_fb().height == other.spec_fb().height)
    }

    /// Confines drawing to `rect`, which must lie within the frame
    /// box so clipped writes stay in bounds; `None` resets the
    /// clipping box to the whole frame.
    pub fn graphics_set_clipping_box(&mut self, rect: Option<&Rect>) -> (r: Result<(), i32>)
        requires
            old(self).wf(),
        ensures
            final(self).wf(),
            final(self).have_disp_info == old(self).have_disp_info,
            final(self).disp_info == old(self).disp_info,
            final(self).cur_mode == old(self).cur_mode,
            final(self).frame_buffer == old(self).frame_buffer,
            final(self).frame_box == old(self).frame_box,
            final(self).text_snapshot == old(self).text_snapshot,
            rect is None ==> r is Ok && final(self).clipping_box == old(self).frame_box,
            rect matches Some(b) ==> {
                &&& (b.x + b.width <= old(self).frame_box.width && b.y + b.height <= old(self).frame_box.height) ==> (r is Ok && final(self).clipping_box == *b)
                &&& !(b.x + b.width <= old(self).frame_box.width && b.y + b.height <= old(self).frame_box.height) ==> (r == Result::<(), i32>::Err(-1i32) && final(self).clipping_box == old(self).clipping_box)
            },
    {
        match rect {
            None => {
                self.clipping_box = self.frame_box;
                Ok(())
            },
            Some(b) => {
                let fits = b.x as u64 + b.width as u64 <= self.frame_box.width as u64 && b.y as u64
                    + b.height as u64 <= self.frame_box.height as u64;
                if fits {
                    self.clipping_box = *b;
                    Ok(())
                } else {
                    Err(-1)
                }
            },
        }
    }

    /// Draws one pixel (plain copy) at `location` if it lies in the
    /// clipping box; outside it nothing changes. Fails in text mode,
    /// where there is no frame buffer to draw into.
    pub fn graphics_draw_pixel(&mut self, location: &Coordinate, pixel: &Pixel) -> (r: Result<
        (),
        i32,
    >)
        requires
            old(self).wf(),
        ensures
            final(self).wf(),
            final(self).same_but_pixels(*old(self)),
            old(self).cur_mode == CurModeType::Text ==> r == Result::<(), i32>::Err(-1i32) && *final(self) == *old(self),
            old(self).cur_mode != CurModeType::Text ==> {
                &&& r is Ok
                &&& (crate::geom::spec_in_rect(old(self).clipping_box, *location) ==> final(self).spec_fb().pixels@ == old(self).spec_fb().pixels@.update(
                    old(self).spec_fb().sidx(location.x as int, location.y as int),
                    Pixel {
                        raw: crate::pixel::spec_apply(
                            old(self).spec_fb().spix(location.x as int, location.y as int).raw,
                            pixel.raw,
                            BitBlitOp::Copy,
                        ),
                    },
                ))
                &&& (!crate::geom::spec_in_rect(old(self).clipping_box, *location) ==> final(self).spec_fb().pixels@ == old(self).spec_fb().pixels@)
            },
    {
        match self.cur_mode {
            CurModeType::Text => Err(-1),
            CurModeType::Graphics(_) => {
                let clip = self.clipping_box;
                match &mut self.frame_buffer {
                    Some(fb) => {
                        fb.clip_apply(&clip, location, pixel, BitBlitOp::Copy);
                        Ok(())
                    },
                    None => {
                        proof {
                            assert(false);
                        }
                        Err(-1)
                    },
                }
            },
        }
    }

    /// Draws the line from `start` to `end` (both endpoints included)
    /// in the given pixel, each point clipped. Fails in text mode.
    pub fn graphics_draw_line(
        &mut self,
        start: &Coordinate,
        end: &Coordinate,
        pixel: &Pixel,
    ) -> (r: Result<(), i32>)
        requires
            old(self).wf(),
        ensures
            final(self).wf(),
            final(self).same_but_pixels(*old(self)),
            old(self).cur_mode == CurModeType::Text ==> r == Result::<(), i32>::Err(-1i32) && *final(self) == *old(self),
            old(self).cur_mode != CurModeType::Text ==> r is Ok && final(self).spec_fb().pixels@
                == crate::line::draw_points(
                old(self).spec_fb().pixels@,
                old(self).spec_fb().width as int,
                old(self).clipping_box,
                crate::line::line_points_of(*start, *end),
                *pixel,
            ),
    {
        match self.cur_mode {
            CurModeType::Text => Err(-1),
            CurModeType::Graphics(_) => {
                let clip = self.clipping_box;
                match &mut self.frame_buffer {
                    Some(fb) => {
                        fb.draw_line(&clip, start, end, pixel);
                        Ok(())
                    },
                    None => {
                        proof {
                            assert(false);
                        }
                        Err(-1)
                    },
                }
            },
        }
    }

    /// Draws the closed polygon through `coords`: one line per
    /// consecutive pair and a closing line from the last coordinate
    /// back to the first — never fewer edges than coordinates. Fails
    /// in text mode.
    pub fn graphics_draw_poly(&mut self, coords: &Vec<Coordinate>, pixel: &Pixel) -> (r: Result<
        (),
        i32,
    >)
        requires
            old(self).wf(),
        ensures
            final(self).wf(),
            final(self).same_but_pixels(*old(self)),
            old(self).cur_mode == CurModeType::Text ==> r == Result::<(), i32>::Err(-1i32) && *final(self) == *old(self),
            old(self).cur_mode != CurModeType::Text ==> r is Ok && final(self).spec_fb().pixels@
                == crate::line::draw_points(
                old(self).spec_fb().pixels@,
                old(self).spec_fb().width as int,
                old(self).clipping_box,
                crate::line::poly_points(coords@, coords@.len()),
                *pixel,
            ),
    {
        match self.cur_mode {
            CurModeType::Text => Err(-1),
            CurModeType::Graphics(_) => {
                let clip = self.clipping_box;
                match &mut self.frame_buffer {
                    Some(fb) => {
                        fb.draw_poly(&clip, coords, pixel);
                        Ok(())
                    },
                    None => {
                        proof {
                            assert(false);
                        }
                        Err(-1)
                    },
                }
            },
        }
    }

    /// Fills the `rect`-shaped box with `pixel` under `op`, clipped
    /// per pixel. Fails in text mode.
    pub fn graphics_fill_box_with_pixel(
        &mut self,
        rect: &Rect,
        pixel: &Pixel,
        op: BitBlitOp,
    ) -> (r: Result<(), i32>)
        requires
            old(self).wf(),
            rect.bounded(),
        ensures
            final(self).wf(),
            final(self).same_but_pixels(*old(self)),
            old(self).cur_mode == CurModeType::Text ==> r == Result::<(), i32>::Err(-1i32) && *final(self) == *old(self),
            old(self).cur_mode != CurModeType::Text ==> {
                &&& r is Ok
                &&& forall|x: int, y: int|
                    0 <= x < final(self).spec_fb().width && 0 <= y < final(self).spec_fb().height
                        ==> #[trigger] final(self).spec_fb().spix(x, y) == (if rect_contains(
                        *rect,
                        x,
                        y,
                    ) && rect_contains(old(self).clipping_box, x, y) {
                        Pixel {
                            raw: crate::pixel::spec_apply(
                                old(self).spec_fb().spix(x, y).raw,
                                pixel.raw,
                                op,
                            ),
                        }
                    } else {
                        old(self).spec_fb().spix(x, y)
                    })
            },
    {
        match self.cur_mode {
            CurModeType::Text => Err(-1),
            CurModeType::Graphics(_) => {
                let clip = self.clipping_box;
                match &mut self.frame_buffer {
                    Some(fb) => {
                        fb.fill_box_with_pixel(&clip, rect, pixel, op);
                        Ok(())
                    },
                    None => {
                        proof {
                            assert(false);
                        }
                        Err(-1)
                    },
                }
            },
        }
    }

    /// Fills the `rect`-shaped box by tiling `bitmap` over it under
    /// `op`, clipped per pixel. Fails in text mode, and on a bitmap
    /// with no pixels (there is nothing to tile).
    pub fn graphics_fill_box_with_bitmap(
        &mut self,
        rect: &Rect,
        bitmap: &crate::framebuffer::Bitmap,
        op: BitBlitOp,
    ) -> (r: Result<(), i32>)
        requires
            old(self).wf(),
            rect.bounded(),
            bitmap.wf(),
        ensures
            final(self).wf(),
            final(self).same_but_pixels(*old(self)),
            old(self).cur_mode == CurModeType::Text ==> r == Result::<(), i32>::Err(-1i32) && *final(self) == *old(self),
            old(self).cur_mode != CurModeType::Text && (bitmap.width == 0 || bitmap.height == 0) ==> r
                == Result::<(), i32>::Err(-1i32) && *final(self) == *old(self),
            old(self).cur_mode != CurModeType::Text && bitmap.width > 0 && bitmap.height > 0 ==> {
                &&& r is Ok
                &&& forall|x: int, y: int|
                    0 <= x < final(self).spec_fb().width && 0 <= y < final(self).spec_fb().height
                        ==> #[trigger] final(self).spec_fb().spix(x, y) == (if rect_contains(
                        *rect,
                        x,
                        y,
                    ) && rect_contains(old(self).clipping_box, x, y) {
                        Pixel {
                            raw: crate::pixel::spec_apply(
                                old(self).spec_fb().spix(x, y).raw,
                                bitmap.sample(*rect, x, y).raw,
                                op,
                            ),
                        }
                    } else {
                        old(self).spec_fb().spix(x, y)
                    })
            },
    {
        match self.cur_mode {
            CurModeType::Text => Err(-1),
            CurModeType::Graphics(_) => {
                if bitmap.width == 0 || bitmap.height == 0 {
                    return Err(-1);
                }
                let clip = self.clipping_box;
                match &mut self.frame_buffer {
                    Some(fb) => {
                        fb.fill_box_with_bitmap(&clip, rect, bitmap, op);
                        Ok(())
                    },
                    None => {
                        proof {
                            assert(false);
                        }
                        Err(-1)
                    },
                }
            },
        }
    }

    /// Copies the `src` box onto the `dest` box under `op`, tiling
    /// the source, stopping the whole copy at the first coordinate
    /// outside the clipping box. Fails in text mode, and on a source
    /// box with no pixels (there is nothing to tile).
    pub fn graphics_copy_box(&mut self, src: &Rect, dest: &Rect, op: BitBlitOp) -> (r: Result<
        (),
        i32,
    >)
        requires
            old(self).wf(),
            src.bounded(),
            dest.bounded(),
        ensures
            final(self).wf(),
            final(self).same_but_pixels(*old(self)),
            old(self).cur_mode == CurModeType::Text ==> r == Result::<(), i32>::Err(-1i32) && *final(self) == *old(self),
            old(self).cur_mode != CurModeType::Text && (src.width == 0 || src.height == 0) ==> r
                == Result::<(), i32>::Err(-1i32) && *final(self) == *old(self),
            old(self).cur_mode != CurModeType::Text && src.width > 0 && src.height > 0 ==> r is Ok
                && final(self).spec_fb().pixels@ == crate::framebuffer::copy_box_steps(
                old(self).spec_fb().pixels@,
                old(self).spec_fb().width as int,
                *src,
                *dest,
                op,
                crate::framebuffer::copy_steps_taken(
                    *src,
                    *dest,
                    old(self).clipping_box,
                    (dest.width * dest.height) as nat,
                ),
            ),
    {
        match self.cur_mode {
            CurModeType::Text => Err(-1),
            CurModeType::Graphics(_) => {
                if src.width == 0 || src.height == 0 {
                    return Err(-1);
                }
                let clip = self.clipping_box;
                match &mut self.frame_buffer {
                    Some(fb) => {
                        fb.copy_box(&clip, src, dest, op);
                        Ok(())
                    },
                    None => {
                        proof {
                            assert(false);
                        }
                        Err(-1)
                    },
                }
            },
        }
    }
}

/// One text-mode character cell: a symbol and its attribute byte.
#[derive(Clone, Copy, PartialEq, Eq, Structural, Debug)]
pub struct TextChar {
    pub symbol: u8,
    pub attribute: u8,
}

impl VirtioGpu {
    /// Text-mode character drawing is not implemented by this core:
    /// callers get a failure result.
    pub fn text_set_char(&self, location: &Coordinate, val: &TextChar) -> (r: Result<(), i32>)
        ensures
            r == Result::<(), i32>::Err(-1i32),
    {
        Err(-1)
    }

    /// Text-mode cursor placement is not implemented by this core.
    pub fn text_set_cursor(&self, location: &Coordinate, flags: u32) -> (r: Result<(), i32>)
        ensures
            r == Result::<(), i32>::Err(-1i32),
    {
        Err(-1)
    }

    /// Clipping to a region (a set of rectangles) is not implemented
    /// by this core; only the single clipping box is.
    pub fn graphics_set_clipping_region(&self, region: &Vec<Rect>) -> (r: Result<(), i32>)
        ensures
            r == Result::<(), i32>::Err(-1i32),
    {
        Err(-1)
    }

    /// Text drawing into a graphics frame is not implemented by this
    /// core.
    pub fn graphics_draw_text(&self, location: &Coordinate, text: &str) -> (r: Result<(), i32>)
        ensures
            r == Result::<(), i32>::Err(-1i32),
    {
        Err(-1)
    }

    /// Mouse-cursor image updates are not implemented by this core.
    pub fn graphics_set_cursor_bitmap(&self, bitmap: &crate::framebuffer::Bitmap) -> (r: Result<
        (),
        i32,
    >)
        ensures
            r == Result::<(), i32>::Err(-1i32),
    {
        Err(-1)
    }

    /// Mouse-cursor movement is not implemented by this core.
    pub fn graphics_set_cursor(&self, location: &Coordinate) -> (r: Result<(), i32>)
        ensures
            r == Result::<(), i32>::Err(-1i32),
    {
        Err(-1)
    }
}

/// After a switch to graphics mode `n`, the mode the driver reports
/// has the width and height of cached display entry `n - 1`, and the
/// frame buffer holds exactly `width * height` pixels.
pub proof fn lemma_mode_dimensions(g: VirtioGpu, n: usize)
    requires
        g.wf(),
        g.cur_mode == CurModeType::Graphics(n),
    ensures
        g.spec_gen_mode(g.cur_mode).width == g.disp_info[n - 1].r.width,
        g.spec_gen_mode(g.cur_mode).height == g.disp_info[n - 1].r.height,
        g.frame_buffer is Some,
        g.spec_fb().pixels.len() == g.spec_gen_mode(g.cur_mode).width * g.spec_gen_mode(
            g.cur_mode,
        ).height,
{
}

} // verus!
