use virtio_gpu::geom::{Coordinate, Rect};
use virtio_gpu::gpu::{
    CurModeType, ModesOutcome, SetModeAction, VideoMode, VideoModeType, VirtioGpu, TEXT_CELLS,
};
use virtio_gpu::pixel::Pixel;
use virtio_gpu::wire::{
    CtrlHdr, DisplayInfoEntry, RespDisplayInfo, CMD_GET_DISPLAY_INFO, CMD_RESOURCE_ATTACH_BACKING,
    CMD_RESOURCE_CREATE_2D, CMD_RESOURCE_FLUSH, CMD_SET_SCANOUT, CMD_TRANSFER_TO_HOST_2D,
    FORMAT_R8G8B8A8, RESP_ERR_UNSPEC, RESP_OK_DISPLAY_INFO, RESP_OK_NODATA, SCREEN_RID,
};

fn display_info(sizes: &[(u32, u32)]) -> RespDisplayInfo {
    let mut resp = RespDisplayInfo::zeroed();
    resp.hdr = CtrlHdr::with_type(RESP_OK_DISPLAY_INFO);
    for (i, &(w, h)) in sizes.iter().enumerate() {
        resp.pmodes[i] = DisplayInfoEntry {
            r: Rect { x: 0, y: 0, width: w, height: h },
            enabled: 1,
            flags: 0,
        };
    }
    resp
}

fn ok_hdr() -> CtrlHdr {
    CtrlHdr::with_type(RESP_OK_NODATA)
}

fn discovered(sizes: &[(u32, u32)]) -> VirtioGpu {
    let mut gpu = VirtioGpu::new();
    let req = gpu.update_modes_begin().expect("fresh device has no display info");
    assert_eq!(req.hdr_type, CMD_GET_DISPLAY_INFO);
    gpu.update_modes_complete(&display_info(sizes)).unwrap();
    gpu
}

fn graphics_mode(gpu: &VirtioGpu, n: usize) -> VideoMode {
    let mut m = gpu.get_mode();
    m.mode_data = n;
    m
}

fn switch_to_graphics(gpu: &mut VirtioGpu, n: usize) {
    let target = graphics_mode(gpu, n);
    let action = gpu.set_mode_begin(&target).unwrap();
    let create = match action {
        SetModeAction::CreateResource(c) => c,
        SetModeAction::RestoreText => panic!("expected a graphics switch"),
    };
    assert_eq!(create.hdr.hdr_type, CMD_RESOURCE_CREATE_2D);
    assert_eq!(create.resource_id, SCREEN_RID);
    assert_eq!(create.format, FORMAT_R8G8B8A8);
    let attach = gpu.set_mode_graphics_created(n, &ok_hdr()).unwrap();
    assert_eq!(attach.hdr.hdr_type, CMD_RESOURCE_ATTACH_BACKING);
    assert_eq!(attach.nr_entries, 1);
    let entry = gpu.attach_entry(0x1000).unwrap();
    assert_eq!(entry.addr, 0x1000);
    let scanout = gpu.set_mode_graphics_attached(n, &ok_hdr()).unwrap();
    assert_eq!(scanout.hdr.hdr_type, CMD_SET_SCANOUT);
    assert_eq!(scanout.scanout_id, (n - 1) as u32);
    gpu.set_mode_graphics_finish(n, &ok_hdr()).unwrap();
}

#[test]
fn one_slot_fails_without_touching_the_device() {
    // even with nothing discovered, the slot check comes first: no
    // request is asked for
    let gpu = VirtioGpu::new();
    let mut slots = vec![gpu.get_mode(); 1];
    assert_eq!(gpu.get_available_modes(&mut slots), ModesOutcome::TooFewSlots);
}

#[test]
fn three_enabled_scanouts_give_four_modes() {
    let gpu = discovered(&[(640, 480), (800, 600), (1024, 768)]);
    let mut slots = vec![gpu.get_mode(); 8];
    assert_eq!(gpu.get_available_modes(&mut slots), ModesOutcome::Filled(4));
    assert_eq!(slots[0].mode_type, VideoModeType::Text);
    assert_eq!((slots[0].width, slots[0].height), (80, 25));
    assert_eq!(slots[0].mode_data, 0);
    assert_eq!((slots[1].width, slots[1].height), (640, 480));
    assert_eq!(slots[1].mode_data, 1);
    assert_eq!((slots[2].width, slots[2].height), (800, 600));
    assert_eq!((slots[3].width, slots[3].height), (1024, 768));
    assert_eq!(slots[3].mode_type, VideoModeType::Graphics);
}

#[test]
fn fewer_slots_fill_fewer_modes_but_always_text_first() {
    let gpu = discovered(&[(640, 480), (800, 600), (1024, 768)]);
    let mut slots = vec![gpu.get_mode(); 3];
    assert_eq!(gpu.get_available_modes(&mut slots), ModesOutcome::Filled(2));
    assert_eq!(slots[0].mode_type, VideoModeType::Text);
    assert_eq!((slots[1].width, slots[1].height), (640, 480));
}

#[test]
fn modes_need_display_info_first() {
    let gpu = VirtioGpu::new();
    let mut slots = vec![gpu.get_mode(); 4];
    match gpu.get_available_modes(&mut slots) {
        ModesOutcome::NeedDisplayInfo(req) => assert_eq!(req.hdr_type, CMD_GET_DISPLAY_INFO),
        other => panic!("expected a discovery request, got {:?}", other),
    }
}

#[test]
fn bad_display_info_response_caches_nothing() {
    let mut gpu = VirtioGpu::new();
    let mut resp = display_info(&[(640, 480)]);
    resp.hdr = CtrlHdr::with_type(RESP_ERR_UNSPEC);
    assert_eq!(gpu.update_modes_complete(&resp), Err(-1));
    assert!(gpu.update_modes_begin().is_some());
}

#[test]
fn discovery_is_cached_after_one_round() {
    let gpu = discovered(&[(640, 480)]);
    assert!(gpu.update_modes_begin().is_none());
}

#[test]
fn set_mode_text_while_in_text_mode_is_a_wire_free_success() {
    let mut gpu = VirtioGpu::new();
    assert!(gpu.in_text_mode());
    let snapshot = vec![0x0720u16; TEXT_CELLS];
    gpu.save_text(snapshot.clone());
    let target = gpu.get_mode();
    assert_eq!(target.mode_data, 0);
    // the only action is restoring the saved text screen: no request
    // record of any kind comes back
    assert_eq!(gpu.set_mode_begin(&target), Ok(SetModeAction::RestoreText));
    assert!(gpu.in_text_mode());
    assert_eq!(gpu.text_snapshot, snapshot);
    // and it stays that way however often it is repeated
    assert_eq!(gpu.set_mode_begin(&target), Ok(SetModeAction::RestoreText));
}

#[test]
fn graphics_switch_reports_the_entry_dimensions() {
    let mut gpu = discovered(&[(640, 480), (320, 200)]);
    switch_to_graphics(&mut gpu, 2);
    let mode = gpu.get_mode();
    assert_eq!(mode.mode_type, VideoModeType::Graphics);
    assert_eq!((mode.width, mode.height), (320, 200));
    assert_eq!(mode.mode_data, 2);
    let fb = gpu.frame_buffer.as_ref().unwrap();
    assert_eq!(fb.pixels.len(), 320 * 200);
    // the fresh frame is opaque black
    assert_eq!(fb.pixel_at(0, 0), Pixel { raw: 0 });
    assert_eq!(fb.pixel_at(319, 199), Pixel { raw: 0 });
}

#[test]
fn switching_out_of_graphics_mode_fails_cleanly() {
    let mut gpu = discovered(&[(64, 64)]);
    switch_to_graphics(&mut gpu, 1);
    let text = graphics_mode(&gpu, 0);
    assert_eq!(gpu.set_mode_begin(&text), Err(-1));
    let other = graphics_mode(&gpu, 1);
    assert_eq!(gpu.set_mode_begin(&other), Err(-1));
    assert_eq!(gpu.cur_mode, CurModeType::Graphics(1));
}

#[test]
fn graphics_switch_needs_display_info() {
    let gpu = VirtioGpu::new();
    let mut target = gpu.get_mode();
    target.mode_data = 1;
    assert_eq!(gpu.set_mode_begin(&target), Err(-1));
}

#[test]
fn failed_create_response_aborts_the_switch() {
    let mut gpu = discovered(&[(64, 64)]);
    let bad = CtrlHdr::with_type(RESP_ERR_UNSPEC);
    assert_eq!(gpu.set_mode_graphics_created(1, &bad), Err(-1));
    assert!(gpu.in_text_mode());
    assert!(gpu.frame_buffer.is_none());
}

#[test]
fn failed_scanout_response_leaves_the_mode_unset() {
    let mut gpu = discovered(&[(64, 64)]);
    gpu.set_mode_graphics_created(1, &ok_hdr()).unwrap();
    let bad = CtrlHdr::with_type(RESP_ERR_UNSPEC);
    assert_eq!(gpu.set_mode_graphics_finish(1, &bad), Err(-1));
    // no rollback: the frame buffer stays allocated, but the mode is
    // still text
    assert!(gpu.in_text_mode());
    assert!(gpu.frame_buffer.is_some());
}

#[test]
fn attach_entry_needs_a_frame_buffer() {
    let gpu = VirtioGpu::new();
    assert_eq!(gpu.attach_entry(0x2000), Err(-1));
}

#[test]
fn attach_entry_describes_the_whole_frame() {
    let mut gpu = discovered(&[(64, 32)]);
    gpu.set_mode_graphics_created(1, &ok_hdr()).unwrap();
    let entry = gpu.attach_entry(0xABCD_0000).unwrap();
    assert_eq!(entry.addr, 0xABCD_0000);
    assert_eq!(entry.length, 64 * 32 * 4);
}

#[test]
fn flush_is_a_no_op_in_text_mode() {
    let gpu = VirtioGpu::new();
    assert!(gpu.flush_begin().is_none());
}

#[test]
fn flush_runs_transfer_then_resource_flush() {
    let mut gpu = discovered(&[(64, 64)]);
    switch_to_graphics(&mut gpu, 1);
    let xfer = gpu.flush_begin().unwrap();
    assert_eq!(xfer.hdr.hdr_type, CMD_TRANSFER_TO_HOST_2D);
    assert_eq!(xfer.resource_id, SCREEN_RID);
    assert_eq!((xfer.r.width, xfer.r.height), (64, 64));
    let flush = gpu.flush_transferred(&ok_hdr()).unwrap();
    assert_eq!(flush.hdr.hdr_type, CMD_RESOURCE_FLUSH);
    assert_eq!(flush.resource_id, SCREEN_RID);
    assert_eq!(gpu.flush_finish(&ok_hdr()), Ok(()));
}

#[test]
fn flush_reports_either_failed_half_as_one_failure() {
    let mut gpu = discovered(&[(64, 64)]);
    switch_to_graphics(&mut gpu, 1);
    let bad = CtrlHdr::with_type(RESP_ERR_UNSPEC);
    assert_eq!(gpu.flush_transferred(&bad), Err(-1));
    assert_eq!(gpu.flush_finish(&bad), Err(-1));
}

#[test]
fn unsupported_operations_report_failure() {
    let gpu = VirtioGpu::new();
    let loc = Coordinate { x: 0, y: 0 };
    assert_eq!(
        gpu.text_set_char(&loc, &virtio_gpu::gpu::TextChar { symbol: b'a', attribute: 7 }),
        Err(-1)
    );
    assert_eq!(gpu.text_set_cursor(&loc, 0), Err(-1));
    assert_eq!(gpu.graphics_set_clipping_region(&vec![]), Err(-1));
    assert_eq!(gpu.graphics_draw_text(&loc, "hello"), Err(-1));
    let bm = virtio_gpu::framebuffer::Bitmap::new_black(1, 1);
    assert_eq!(gpu.graphics_set_cursor_bitmap(&bm), Err(-1));
    assert_eq!(gpu.graphics_set_cursor(&loc), Err(-1));
}

#[test]
fn mode_numbers_round_trip() {
    assert_eq!(CurModeType::from_usize(0), CurModeType::Text);
    assert_eq!(CurModeType::from_usize(3), CurModeType::Graphics(3));
    assert_eq!(CurModeType::from_usize(0).to_usize(), 0);
    assert_eq!(CurModeType::from_usize(5).to_usize(), 5);
}

#[test]
fn many_slots_still_reserve_the_last_entry() {
    // 16 enabled scanouts, plenty of slots: the listing caps itself
    // at 15 filled entries (text + 14 graphics), reserving the last
    // entry of its 16-slot indexing window
    let sizes: Vec<(u32, u32)> = (0..16).map(|i| (100 + i, 100 + i)).collect();
    let gpu = discovered(&sizes);
    let mut slots = vec![gpu.get_mode(); 20];
    assert_eq!(gpu.get_available_modes(&mut slots), ModesOutcome::Filled(15));
    assert_eq!(slots[0].mode_type, VideoModeType::Text);
    assert_eq!((slots[14].width, slots[14].height), (113, 113));
}
