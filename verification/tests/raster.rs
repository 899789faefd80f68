use virtio_gpu::framebuffer::{clip_apply_with_blit, draw_pixel, Bitmap, FrameBuffer};
use virtio_gpu::geom::{in_rect, Coordinate, Rect};
use virtio_gpu::pixel::{BitBlitOp, Pixel};

fn rect(x: u32, y: u32, width: u32, height: u32) -> Rect {
    Rect { x, y, width, height }
}

fn at(x: u32, y: u32) -> Coordinate {
    Coordinate { x, y }
}

#[test]
fn in_rect_is_inclusive_exclusive() {
    let r = rect(2, 3, 4, 5);
    assert!(in_rect(&r, &at(2, 3)));
    assert!(in_rect(&r, &at(5, 7)));
    assert!(!in_rect(&r, &at(6, 3)));
    assert!(!in_rect(&r, &at(2, 8)));
    assert!(!in_rect(&r, &at(1, 3)));
    assert!(!in_rect(&r, &at(0, 0)));
}

#[test]
fn clip_apply_leaves_outside_pixel_unchanged() {
    let clip = rect(0, 0, 4, 4);
    let mut old = Pixel { raw: 0xAAAAAAAA };
    let new = Pixel { raw: 0x55555555 };
    clip_apply_with_blit(&clip, &at(4, 0), &mut old, &new, BitBlitOp::Xor);
    assert_eq!(old.raw, 0xAAAAAAAA);
    clip_apply_with_blit(&clip, &at(0, 7), &mut old, &new, BitBlitOp::Xor);
    assert_eq!(old.raw, 0xAAAAAAAA);
}

#[test]
fn clip_apply_applies_inside_exactly_once() {
    let clip = rect(0, 0, 4, 4);
    let mut old = Pixel { raw: 0xAAAAAAAA };
    let new = Pixel { raw: 0x55555555 };
    clip_apply_with_blit(&clip, &at(3, 3), &mut old, &new, BitBlitOp::Xor);
    assert_eq!(old.raw, 0xFFFFFFFF);
}

#[test]
fn draw_pixel_copies_inside_clip() {
    let clip = rect(0, 0, 2, 2);
    let mut old = Pixel { raw: 1 };
    draw_pixel(&clip, &at(1, 1), &mut old, &Pixel { raw: 2 });
    assert_eq!(old.raw, 2);
    draw_pixel(&clip, &at(2, 1), &mut old, &Pixel { raw: 3 });
    assert_eq!(old.raw, 2);
}

fn black_fb(w: u32, h: u32) -> FrameBuffer {
    FrameBuffer::new_black(w, h)
}

fn colored_count(fb: &FrameBuffer, color: u32) -> usize {
    let mut n = 0;
    for y in 0..fb.height {
        for x in 0..fb.width {
            if fb.pixel_at(x, y).raw == color {
                n += 1;
            }
        }
    }
    n
}

#[test]
fn horizontal_line_touches_exactly_its_six_pixels() {
    let mut fb = black_fb(8, 8);
    let clip = rect(0, 0, 8, 8);
    fb.draw_line(&clip, &at(0, 0), &at(5, 0), &Pixel { raw: 0xDEADBEEF });
    for x in 0..6 {
        assert_eq!(fb.pixel_at(x, 0).raw, 0xDEADBEEF);
    }
    assert_eq!(colored_count(&fb, 0xDEADBEEF), 6);
}

#[test]
fn degenerate_line_touches_exactly_one_pixel() {
    let mut fb = black_fb(8, 8);
    let clip = rect(0, 0, 8, 8);
    fb.draw_line(&clip, &at(3, 4), &at(3, 4), &Pixel { raw: 7 });
    assert_eq!(fb.pixel_at(3, 4).raw, 7);
    assert_eq!(colored_count(&fb, 7), 1);
}

#[test]
fn line_is_clipped_per_point() {
    let mut fb = black_fb(8, 8);
    let clip = rect(0, 0, 3, 8);
    fb.draw_line(&clip, &at(0, 2), &at(7, 2), &Pixel { raw: 9 });
    for x in 0..3 {
        assert_eq!(fb.pixel_at(x, 2).raw, 9);
    }
    assert_eq!(colored_count(&fb, 9), 3);
}

#[test]
fn triangle_draws_all_three_edges() {
    let mut fb = black_fb(8, 8);
    let clip = rect(0, 0, 8, 8);
    let coords = vec![at(1, 1), at(6, 1), at(1, 6)];
    fb.draw_poly(&clip, &coords, &Pixel { raw: 5 });
    // edge (1,1) -> (6,1)
    for x in 1..7 {
        assert_eq!(fb.pixel_at(x, 1).raw, 5);
    }
    // edge (6,1) -> (1,6): the perfect diagonal
    for i in 0..6 {
        assert_eq!(fb.pixel_at(6 - i, 1 + i).raw, 5);
    }
    // closing edge (1,6) -> (1,1)
    for y in 1..7 {
        assert_eq!(fb.pixel_at(1, y).raw, 5);
    }
    // and nothing else: 6 + 6 + 6 minus the 3 shared corners
    assert_eq!(colored_count(&fb, 5), 15);
}

#[test]
fn fill_box_fills_exactly_the_clipped_box() {
    let mut fb = black_fb(8, 8);
    let clip = rect(0, 0, 5, 5);
    fb.fill_box_with_pixel(&clip, &rect(3, 3, 4, 4), &Pixel { raw: 2 }, BitBlitOp::Copy);
    for y in 0..8 {
        for x in 0..8 {
            let inside = (3..5).contains(&x) && (3..5).contains(&y);
            assert_eq!(fb.pixel_at(x, y).raw, if inside { 2 } else { 0 });
        }
    }
}

#[test]
fn fill_box_applies_operator_to_old_value() {
    let mut fb = black_fb(4, 4);
    let clip = rect(0, 0, 4, 4);
    fb.fill_box_with_pixel(&clip, &rect(0, 0, 4, 4), &Pixel { raw: 0x01010101 }, BitBlitOp::Copy);
    fb.fill_box_with_pixel(&clip, &rect(0, 0, 2, 2), &Pixel { raw: 0x02020202 }, BitBlitOp::Plus);
    assert_eq!(fb.pixel_at(0, 0).raw, 0x03030303);
    assert_eq!(fb.pixel_at(1, 1).raw, 0x03030303);
    assert_eq!(fb.pixel_at(2, 2).raw, 0x01010101);
}

#[test]
fn bitmap_fill_tiles_the_bitmap() {
    let mut fb = black_fb(4, 4);
    let clip = rect(0, 0, 4, 4);
    let mut bm = Bitmap::new_black(2, 2);
    bm.set_pixel(0, 0, Pixel { raw: 10 });
    bm.set_pixel(1, 0, Pixel { raw: 20 });
    bm.set_pixel(0, 1, Pixel { raw: 30 });
    bm.set_pixel(1, 1, Pixel { raw: 40 });
    fb.fill_box_with_bitmap(&clip, &rect(0, 0, 4, 4), &bm, BitBlitOp::Copy);
    for y in 0..4 {
        for x in 0..4 {
            let expect = match (x % 2, y % 2) {
                (0, 0) => 10,
                (1, 0) => 20,
                (0, 1) => 30,
                _ => 40,
            };
            assert_eq!(fb.pixel_at(x, y).raw, expect);
        }
    }
}

#[test]
fn bitmap_pixel_lookup_checks_bounds() {
    let bm = Bitmap::new_black(2, 3);
    assert_eq!(bm.get_bitmap_pixel(1, 2), Some(Pixel { raw: 0 }));
    assert_eq!(bm.get_bitmap_pixel(2, 0), None);
    assert_eq!(bm.get_bitmap_pixel(0, 3), None);
}

#[test]
fn copy_box_onto_itself_changes_nothing() {
    let mut fb = black_fb(8, 8);
    let clip = rect(0, 0, 8, 8);
    // paint something non-uniform first
    fb.draw_line(&clip, &at(0, 0), &at(7, 7), &Pixel { raw: 0xABCD });
    fb.fill_box_with_pixel(&clip, &rect(2, 1, 3, 2), &Pixel { raw: 0x77 }, BitBlitOp::Copy);
    let before: Vec<u32> = (0..8)
        .flat_map(|y| (0..8).map(move |x| (x, y)))
        .map(|(x, y)| fb.pixel_at(x, y).raw)
        .collect();
    let b = rect(1, 1, 5, 6);
    fb.copy_box(&clip, &b, &b, BitBlitOp::Copy);
    let after: Vec<u32> = (0..8)
        .flat_map(|y| (0..8).map(move |x| (x, y)))
        .map(|(x, y)| fb.pixel_at(x, y).raw)
        .collect();
    assert_eq!(before, after);
}

#[test]
fn copy_box_copies_and_tiles_the_source() {
    let mut fb = black_fb(8, 8);
    let clip = rect(0, 0, 8, 8);
    fb.fill_box_with_pixel(&clip, &rect(0, 0, 1, 1), &Pixel { raw: 3 }, BitBlitOp::Copy);
    fb.fill_box_with_pixel(&clip, &rect(1, 0, 1, 1), &Pixel { raw: 4 }, BitBlitOp::Copy);
    // source box is the two pixels (0,0)=3, (1,0)=4; destination tiles them
    fb.copy_box(&clip, &rect(0, 0, 2, 1), &rect(4, 4, 4, 2), BitBlitOp::Copy);
    for y in 4..6 {
        assert_eq!(fb.pixel_at(4, y).raw, 3);
        assert_eq!(fb.pixel_at(5, y).raw, 4);
        assert_eq!(fb.pixel_at(6, y).raw, 3);
        assert_eq!(fb.pixel_at(7, y).raw, 4);
    }
}

#[test]
fn copy_box_stops_at_the_first_coordinate_outside_clip() {
    let mut fb = black_fb(8, 8);
    let full = rect(0, 0, 8, 8);
    fb.fill_box_with_pixel(&full, &rect(0, 0, 2, 2), &Pixel { raw: 6 }, BitBlitOp::Copy);
    // the clip admits destination column 4 but not column 5: the copy
    // walks column 4 fully, then stops for good at column 5
    let clip = rect(0, 0, 5, 8);
    fb.copy_box(&clip, &rect(0, 0, 2, 2), &rect(4, 0, 2, 2), BitBlitOp::Copy);
    assert_eq!(fb.pixel_at(4, 0).raw, 6);
    assert_eq!(fb.pixel_at(4, 1).raw, 6);
    assert_eq!(fb.pixel_at(5, 0).raw, 0);
    assert_eq!(fb.pixel_at(5, 1).raw, 0);
}

#[test]
fn empty_polygon_draws_nothing() {
    let mut fb = black_fb(4, 4);
    let clip = rect(0, 0, 4, 4);
    fb.draw_poly(&clip, &vec![], &Pixel { raw: 1 });
    assert_eq!(colored_count(&fb, 1), 0);
    assert_eq!(colored_count(&fb, 0), 16);
}

#[test]
fn single_point_polygon_draws_its_point() {
    let mut fb = black_fb(4, 4);
    let clip = rect(0, 0, 4, 4);
    fb.draw_poly(&clip, &vec![at(2, 2)], &Pixel { raw: 1 });
    assert_eq!(fb.pixel_at(2, 2).raw, 1);
    assert_eq!(colored_count(&fb, 1), 1);
}
