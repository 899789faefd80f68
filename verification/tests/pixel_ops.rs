use virtio_gpu::pixel::{apply_with_blit, BitBlitOp, Pixel};

fn apply(a: u32, b: u32, op: BitBlitOp) -> u32 {
    let mut old = Pixel { raw: a };
    let new = Pixel { raw: b };
    apply_with_blit(&mut old, &new, op);
    old.raw
}

#[test]
fn copy_overwrites() {
    assert_eq!(apply(0x11223344, 0x0F0F0F0F, BitBlitOp::Copy), 0x0F0F0F0F);
}

#[test]
fn not_is_complement_of_new_pixel() {
    assert_eq!(apply(0x11223344, 0x0F0F0F0F, BitBlitOp::Not), 0xF0F0F0F0);
    // independent of the stored pixel
    assert_eq!(apply(0xFFFFFFFF, 0x0F0F0F0F, BitBlitOp::Not), 0xF0F0F0F0);
    assert_eq!(apply(0x00000000, 0x0F0F0F0F, BitBlitOp::Not), 0xF0F0F0F0);
}

#[test]
fn bitwise_ops_exact() {
    assert_eq!(apply(0x11223344, 0x0F0F0F0F, BitBlitOp::And), 0x01020304);
    assert_eq!(apply(0x11223344, 0x0F0F0F0F, BitBlitOp::Or), 0x1F2F3F4F);
    assert_eq!(apply(0x11223344, 0x0F0F0F0F, BitBlitOp::Xor), 0x1E2D3C4B);
    assert_eq!(apply(0x11223344, 0x0F0F0F0F, BitBlitOp::Nand), !0x01020304u32);
    assert_eq!(apply(0x11223344, 0x0F0F0F0F, BitBlitOp::Nor), !0x1F2F3F4Fu32);
    assert_eq!(apply(0x11223344, 0x0F0F0F0F, BitBlitOp::Xnor), !0x1E2D3C4Bu32);
}

#[test]
fn nand_is_not_of_and() {
    let a = 0xA5C3E718u32;
    let b = 0x3C69F00Fu32;
    let and = apply(a, b, BitBlitOp::And);
    assert_eq!(apply(a, b, BitBlitOp::Nand), apply(a, and, BitBlitOp::Not));
}

#[test]
fn nor_is_not_of_or() {
    let a = 0xA5C3E718u32;
    let b = 0x3C69F00Fu32;
    let or = apply(a, b, BitBlitOp::Or);
    assert_eq!(apply(a, b, BitBlitOp::Nor), apply(a, or, BitBlitOp::Not));
}

#[test]
fn plus_saturates_per_channel() {
    // channel sums below 255 add plainly
    assert_eq!(apply(0x11223344, 0x0F0F0F0F, BitBlitOp::Plus), 0x20314253);
    // a 0xFF channel stays 0xFF instead of wrapping
    assert_eq!(apply(0xFF00FF00, 0x01010101, BitBlitOp::Plus), 0xFF01FF01);
    assert_eq!(apply(0xFFFFFFFF, 0xFFFFFFFF, BitBlitOp::Plus), 0xFFFFFFFF);
}

#[test]
fn minus_saturates_per_channel() {
    assert_eq!(apply(0x11223344, 0x0F0F0F0F, BitBlitOp::Minus), 0x02132435);
    // a channel never goes below zero
    assert_eq!(apply(0x00FF0010, 0x01010120, BitBlitOp::Minus), 0x00FE0000);
}

#[test]
fn multiply_saturates_per_channel() {
    assert_eq!(apply(0x02020202, 0x03030303, BitBlitOp::Multiply), 0x06060606);
    // 0x10 * 0x10 = 0x100 saturates to 0xFF
    assert_eq!(apply(0x10101010, 0x10101010, BitBlitOp::Multiply), 0xFFFFFFFF);
    assert_eq!(apply(0x10020401, 0x10100000, BitBlitOp::Multiply), 0xFF200000);
}

#[test]
fn divide_is_integer_division_per_channel() {
    assert_eq!(apply(0x40404040, 0x02020202, BitBlitOp::Divide), 0x20202020);
    // integer division truncates: 7 / 2 = 3
    assert_eq!(apply(0x07070707, 0x02020202, BitBlitOp::Divide), 0x03030303);
}

#[test]
fn divide_by_zero_channel_yields_255() {
    assert_eq!(apply(0x12345678, 0x00000000, BitBlitOp::Divide), 0xFFFFFFFF);
    // only the zero channels turn 255
    assert_eq!(apply(0x40404040, 0x02000200, BitBlitOp::Divide), 0x20FF20FF);
}

#[test]
fn channels_round_trip() {
    let p = Pixel::from_channels(0x44, 0x33, 0x22, 0x11);
    assert_eq!(p.raw, 0x11223344);
    assert_eq!(p.channel(0), 0x44);
    assert_eq!(p.channel(1), 0x33);
    assert_eq!(p.channel(2), 0x22);
    assert_eq!(p.channel(3), 0x11);
    assert_eq!(Pixel::black().raw, 0);
}
