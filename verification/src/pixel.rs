//! The 32-bit pixel value and the per-pixel combination operators.
//!
//! A pixel is a single 32-bit quantity that can also be read as four
//! independent 8-bit channels (channel `i` is byte `i`, low byte
//! first). The bitwise blit operators act on the whole raw value;
//! the arithmetic ones act per channel with saturation, and a
//! division by a zero channel yields 255 for that channel.

use vstd::arithmetic::div_mod::lemma_fundamental_div_mod_converse;
use vstd::prelude::*;

verus! {

/// A frame-buffer pixel: one 32-bit value, four 8-bit channels.
#[derive(Clone, Copy, PartialEq, Eq, Structural, Debug)]
pub struct Pixel {
    pub raw: u32,
}

/// The pixel combination operator applied when drawing: the stored
/// pixel becomes `op(stored, incoming)`.
#[derive(Clone, Copy, PartialEq, Eq, Structural, Debug)]
pub enum BitBlitOp {
    Copy,
    Not,
    And,
    Or,
    Nand,
    Nor,
    Xor,
    Xnor,
    Plus,
    Minus,
    Multiply,
    Divide,
}

impl BitBlitOp {
    /// The operators that work per 8-bit channel rather than on the
    /// raw 32-bit value.
    pub open spec fn is_channelwise(self) -> bool {
        self is Plus || self is Minus || self is Multiply || self is Divide
    }
}

/// Channel `i` of a raw pixel value: byte `i`, low byte first.
pub open spec fn chan(raw: u32, i: int) -> int
    recommends
        0 <= i < 4,
{
    if i == 0 {
        raw as int % 256
    } else if i == 1 {
        (raw as int / 256) % 256
    } else if i == 2 {
        (raw as int / 65536) % 256
    } else {
        (raw as int / 16777216) % 256
    }
}

/// Four channel values packed back into one raw value.
pub open spec fn pack(c0: int, c1: int, c2: int, c3: int) -> int {
    c0 + 256 * c1 + 65536 * c2 + 16777216 * c3
}

/// Saturating per-channel addition: `min(255, x + y)`.
pub open spec fn chan_plus(x: int, y: int) -> int {
    if x + y > 255 {
        255
    } else {
        x + y
    }
}

/// Saturating per-channel subtraction: `max(0, x - y)`.
pub open spec fn chan_minus(x: int, y: int) -> int {
    if x - y < 0 {
        0
    } else {
        x - y
    }
}

/// Saturating per-channel multiplication: `min(255, x * y)`.
pub open spec fn chan_multiply(x: int, y: int) -> int {
    if x * y > 255 {
        255
    } else {
        x * y
    }
}

/// Per-channel division; a zero divisor yields 255.
pub open spec fn chan_divide(x: int, y: int) -> int {
    if y == 0 {
        255
    } else {
        x / y
    }
}

/// One channel of an arithmetic blit operator.
pub open spec fn chan_op(op: BitBlitOp, x: int, y: int) -> int
    recommends
        op.is_channelwise(),
{
    match op {
        BitBlitOp::Plus => chan_plus(x, y),
        BitBlitOp::Minus => chan_minus(x, y),
        BitBlitOp::Multiply => chan_multiply(x, y),
        _ => chan_divide(x, y),
    }
}

/// What a blit operator computes: the new stored value from the old
/// stored value `a` and the incoming value `b`.
pub open spec fn spec_apply(a: u32, b: u32, op: BitBlitOp) -> u32 {
    match op {
        BitBlitOp::Copy => b,
        BitBlitOp::Not => !b,
        BitBlitOp::And => a & b,
        BitBlitOp::Or => a | b,
        BitBlitOp::Nand => !(a & b),
        BitBlitOp::Nor => !(a | b),
        BitBlitOp::Xor => a ^ b,
        BitBlitOp::Xnor => !(a ^ b),
        _ => pack(
            chan_op(op, chan(a, 0), chan(b, 0)),
            chan_op(op, chan(a, 1), chan(b, 1)),
            chan_op(op, chan(a, 2), chan(b, 2)),
            chan_op(op, chan(a, 3), chan(b, 3)),
        ) as u32,
    }
}

/// Every channel of a raw value lies in `[0, 255]`.
pub proof fn lemma_chan_bounds(raw: u32, i: int)
    requires
        0 <= i < 4,
    ensures
        0 <= chan(raw, i) <= 255,
{
}

/// Packing four channel values stays within `u32` and unpacks to the
/// same channels.
pub proof fn lemma_pack_chan(c0: int, c1: int, c2: int, c3: int)
    requires
        0 <= c0 < 256,
        0 <= c1 < 256,
        0 <= c2 < 256,
        0 <= c3 < 256,
    ensures
        0 <= pack(c0, c1, c2, c3) <= u32::MAX,
        chan(pack(c0, c1, c2, c3) as u32, 0) == c0,
        chan(pack(c0, c1, c2, c3) as u32, 1) == c1,
        chan(pack(c0, c1, c2, c3) as u32, 2) == c2,
        chan(pack(c0, c1, c2, c3) as u32, 3) == c3,
{
    let p = pack(c0, c1, c2, c3);
    assert(p <= 255 + 256 * 255 + 65536 * 255 + 16777216 * 255);
    let q0 = c1 + 256 * c2 + 65536 * c3;
    lemma_fundamental_div_mod_converse(p, 256, q0, c0);
    let q1 = c2 + 256 * c3;
    lemma_fundamental_div_mod_converse(q0, 256, q1, c1);
    lemma_fundamental_div_mod_converse(p, 65536, q1, c0 + 256 * c1);
    lemma_fundamental_div_mod_converse(q1, 256, c3, c2);
    lemma_fundamental_div_mod_converse(p, 16777216, c3, c0 + 256 * c1 + 65536 * c2);
}

impl Pixel {
    /// An all-zero pixel: opaque black in the one format the driver
    /// uses.
    pub fn black() -> (p: Pixel)
        ensures
            p.raw == 0,
    {
        Pixel { raw: 0 }
    }

    /// Reads channel `i` of this pixel.
    pub fn channel(&self, i: usize) -> (c: u8)
        requires
            i < 4,
        ensures
            c as int == chan(self.raw, i as int),
    {
        if i == 0 {
            (self.raw % 256) as u8
        } else if i == 1 {
            ((self.raw / 256) % 256) as u8
        } else if i == 2 {
            ((self.raw / 65536) % 256) as u8
        } else {
            assert(self.raw as int / 16777216 < 256);
            (self.raw / 16777216) as u8
        }
    }

    /// Builds a pixel from its four channels.
    pub fn from_channels(c0: u8, c1: u8, c2: u8, c3: u8) -> (p: Pixel)
        ensures
            p.raw as int == pack(c0 as int, c1 as int, c2 as int, c3 as int),
            chan(p.raw, 0) == c0 as int,
            chan(p.raw, 1) == c1 as int,
            chan(p.raw, 2) == c2 as int,
            chan(p.raw, 3) == c3 as int,
    {
        proof {
            lemma_pack_chan(c0 as int, c1 as int, c2 as int, c3 as int);
        }
        Pixel { raw: c0 as u32 + 256 * (c1 as u32) + 65536 * (c2 as u32) + 16777216 * (c3 as u32) }
    }
}

/// One channel of an arithmetic blit operator, executably.
fn chan_op_exec(op: BitBlitOp, x: u8, y: u8) -> (r: u8)
    requires
        op.is_channelwise(),
    ensures
        r as int == chan_op(op, x as int, y as int),
{
    match op {
        BitBlitOp::Plus => x.saturating_add(y),
        BitBlitOp::Minus => x.saturating_sub(y),
        BitBlitOp::Multiply => {
            proof {
                assert((x as int) * (y as int) <= 255 * 255) by (nonlinear_arith)
                    requires
                        x <= 255 && y <= 255,
                ;
            }
            let m = (x as u32) * (y as u32);
            if m > 255 {
                255
            } else {
                m as u8
            }
        },
        _ => {
            if y == 0 {
                255
            } else {
                x / y
            }
        },
    }
}

/// Computes `oldpixel = op(oldpixel, newpixel)`.
pub fn apply_with_blit(oldpixel: &mut Pixel, newpixel: &Pixel, op: BitBlitOp)
    ensures
        final(oldpixel).raw == spec_apply(old(oldpixel).raw, newpixel.raw, op),
{
    match op {
        BitBlitOp::Copy => {
            oldpixel.raw = newpixel.raw;
        },
        BitBlitOp::Not => {
            oldpixel.raw = !newpixel.raw;
        },
        BitBlitOp::And => {
            oldpixel.raw = oldpixel.raw & newpixel.raw;
        },
        BitBlitOp::Or => {
            oldpixel.raw = oldpixel.raw | newpixel.raw;
        },
        BitBlitOp::Nand => {
            oldpixel.raw = !(oldpixel.raw & newpixel.raw);
        },
        BitBlitOp::Nor => {
            oldpixel.raw = !(oldpixel.raw | newpixel.raw);
        },
        BitBlitOp::Xor => {
            oldpixel.raw = oldpixel.raw ^ newpixel.raw;
        },
        BitBlitOp::Xnor => {
            oldpixel.raw = !(oldpixel.raw ^ newpixel.raw);
        },
        _ => {
            let c0 = chan_op_exec(op, oldpixel.channel(0), newpixel.channel(0));
            let c1 = chan_op_exec(op, oldpixel.channel(1), newpixel.channel(1));
            let c2 = chan_op_exec(op, oldpixel.channel(2), newpixel.channel(2));
            let c3 = chan_op_exec(op, oldpixel.channel(3), newpixel.channel(3));
            *oldpixel = Pixel::from_channels(c0, c1, c2, c3);
        },
    }
}

/// The `Not` operator yields the bitwise complement of the incoming
/// pixel's raw value, whatever the stored pixel was; and `Nand` and
/// `Nor` are `Not` applied to the result of `And` and `Or`.
pub proof fn lemma_bitwise_composition(a: Pixel, b: Pixel)
    ensures
        spec_apply(a.raw, b.raw, BitBlitOp::Not) == !b.raw,
        forall|a2: Pixel|
            spec_apply(a2.raw, b.raw, BitBlitOp::Not) == spec_apply(a.raw, b.raw, BitBlitOp::Not),
        spec_apply(a.raw, b.raw, BitBlitOp::Nand) == spec_apply(
            a.raw,
            spec_apply(a.raw, b.raw, BitBlitOp::And),
            BitBlitOp::Not,
        ),
        spec_apply(a.raw, b.raw, BitBlitOp::Nor) == spec_apply(
            a.raw,
            spec_apply(a.raw, b.raw, BitBlitOp::Or),
            BitBlitOp::Not,
        ),
{
}

/// The arithmetic operators work channel by channel: addition,
/// subtraction and multiplication saturate at the ends of `[0, 255]`,
/// division by a zero channel yields 255, and no channel of the
/// result ever leaves `[0, 255]`.
#[verifier::rlimit(60)]
pub proof fn lemma_arithmetic_channelwise(a: Pixel, b: Pixel, i: int)
    requires
        0 <= i < 4,
    ensures
        chan(spec_apply(a.raw, b.raw, BitBlitOp::Plus), i) == chan_plus(
            chan(a.raw, i),
            chan(b.raw, i),
        ),
        chan(spec_apply(a.raw, b.raw, BitBlitOp::Minus), i) == chan_minus(
            chan(a.raw, i),
            chan(b.raw, i),
        ),
        chan(spec_apply(a.raw, b.raw, BitBlitOp::Multiply), i) == chan_multiply(
            chan(a.raw, i),
            chan(b.raw, i),
        ),
        chan(spec_apply(a.raw, b.raw, BitBlitOp::Divide), i) == chan_divide(
            chan(a.raw, i),
            chan(b.raw, i),
        ),
        forall|op: BitBlitOp|
            op.is_channelwise() ==> 0 <= #[trigger] chan(
                spec_apply(a.raw, b.raw, op),
                i,
            ) <= 255,
{
    lemma_arith_one(BitBlitOp::Plus, a.raw, b.raw, i);
    lemma_arith_one(BitBlitOp::Minus, a.raw, b.raw, i);
    lemma_arith_one(BitBlitOp::Multiply, a.raw, b.raw, i);
    lemma_arith_one(BitBlitOp::Divide, a.raw, b.raw, i);
    assert forall|op: BitBlitOp| op.is_channelwise() implies 0 <= #[trigger] chan(
        spec_apply(a.raw, b.raw, op),
        i,
    ) <= 255 by {
        lemma_arith_one(op, a.raw, b.raw, i);
    }
}

/// One arithmetic operator read back channel by channel.
proof fn lemma_arith_one(op: BitBlitOp, a: u32, b: u32, i: int)
    requires
        op.is_channelwise(),
        0 <= i < 4,
    ensures
        chan(spec_apply(a, b, op), i) == chan_op(op, chan(a, i), chan(b, i)),
        0 <= chan(spec_apply(a, b, op), i) <= 255,
{
    lemma_chan_op_bounds(op, a, b);
    lemma_pack_chan(
        chan_op(op, chan(a, 0), chan(b, 0)),
        chan_op(op, chan(a, 1), chan(b, 1)),
        chan_op(op, chan(a, 2), chan(b, 2)),
        chan_op(op, chan(a, 3), chan(b, 3)),
    );
}

/// Each channel of an arithmetic operator's result lies in `[0, 255]`.
proof fn lemma_chan_op_bounds(op: BitBlitOp, a: u32, b: u32)
    requires
        op.is_channelwise(),
    ensures
        forall|j: int|
            0 <= j < 4 ==> 0 <= #[trigger] chan_op(op, chan(a, j), chan(b, j)) < 256,
{
    assert forall|j: int| 0 <= j < 4 implies 0 <= #[trigger] chan_op(op, chan(a, j), chan(b, j))
        < 256 by {
        lemma_chan_bounds(a, j);
        lemma_chan_bounds(b, j);
        let x = chan(a, j);
        let y = chan(b, j);
        if op is Multiply {
            assert(x * y >= 0) by (nonlinear_arith)
                requires
                    x >= 0 && y >= 0,
            ;
        }
        if op is Divide && y != 0 {
            assert(0 <= x / y <= x) by (nonlinear_arith)
                requires
                    x >= 0 && y > 0,
            ;
        }
    }
}

} // verus!
