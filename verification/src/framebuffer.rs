//! The driver-owned pixel store and the clipped rasterization
//! primitives.
//!
//! All drawing acts only within a caller-supplied clipping rectangle:
//! a pixel outside it is left untouched, never an error. The clipping
//! rectangle handed to these functions must lie within the frame
//! (the resource & mode manager maintains that invariant), so every
//! clipped write is in bounds.

use crate::geom::{in_rect, spec_in_rect, Coordinate, Rect};
use crate::pixel::{apply_with_blit, spec_apply, BitBlitOp, Pixel};
use vstd::prelude::*;

verus! {

/// Applies `op` only if `location` is within the `clipping_box`;
/// outside it the stored pixel is left bitwise unchanged.
pub fn clip_apply_with_blit(
    clipping_box: &Rect,
    location: &Coordinate,
    oldpixel: &mut Pixel,
    newpixel: &Pixel,
    op: BitBlitOp,
)
    ensures
        spec_in_rect(*clipping_box, *location) ==> final(oldpixel).raw == spec_apply(
            old(oldpixel).raw,
            newpixel.raw,
            op,
        ),
        !spec_in_rect(*clipping_box, *location) ==> *final(oldpixel) == *old(oldpixel),
{
    if in_rect(clipping_box, location) {
        apply_with_blit(oldpixel, newpixel, op);
    }
}

/// Draws `newpixel` over `oldpixel` (plain copy), with clipping.
pub fn draw_pixel(
    clipping_box: &Rect,
    location: &Coordinate,
    oldpixel: &mut Pixel,
    newpixel: &Pixel,
)
    ensures
        spec_in_rect(*clipping_box, *location) ==> *final(oldpixel) == *newpixel,
        !spec_in_rect(*clipping_box, *location) ==> *final(oldpixel) == *old(oldpixel),
{
    clip_apply_with_blit(clipping_box, location, oldpixel, newpixel, BitBlitOp::Copy);
}

/// The driver's frame buffer: a pixel for every coordinate of a
/// `width` by `height` frame, row by row, top row first.
pub struct FrameBuffer {
    pub width: u32,
    pub height: u32,
    pub pixels: Vec<Pixel>,
}

/// A coordinate pair lies within a rectangle (the same containment
/// as [`spec_in_rect`], over unbounded integers).
pub open spec fn rect_contains(r: Rect, x: int, y: int) -> bool {
    r.x <= x < r.x + r.width && r.y <= y < r.y + r.height
}

impl FrameBuffer {
    /// There is exactly one stored pixel per frame coordinate.
    pub open spec fn wf(self) -> bool {
        self.pixels.len() == self.width * self.height
    }

    /// The clipping rectangle lies within this frame, so clipped
    /// writes are in bounds. The frame's own box has origin zero.
    pub open spec fn clip_ok(self, clip: Rect) -> bool {
        clip.x + clip.width <= self.width && clip.y + clip.height <= self.height
    }

    /// Where coordinate `(x, y)` is stored.
    pub open spec fn sidx(self, x: int, y: int) -> int {
        y * self.width + x
    }

    /// The stored pixel at `(x, y)`.
    pub open spec fn spix(self, x: int, y: int) -> Pixel {
        self.pixels[self.sidx(x, y)]
    }

    /// An all-black frame buffer of the given size, which must have
    /// one allocatable pixel per coordinate.
    pub fn new_black(width: u32, height: u32) -> (fb: FrameBuffer)
        requires
            width * height <= usize::MAX,
        ensures
            fb.wf(),
            fb.width == width,
            fb.height == height,
            forall|i: int| 0 <= i < fb.pixels.len() ==> fb.pixels[i] == (Pixel { raw: 0 }),
    {
        proof {
            assert((width as int) * (height as int) >= 0) by (nonlinear_arith);
        }
        let n = (width as u64 * height as u64) as usize;
        let pixels = vec![Pixel { raw: 0 }; n];
        FrameBuffer { width, height, pixels }
    }

    /// Reads the pixel at `(x, y)`.
    pub fn pixel_at(&self, x: u32, y: u32) -> (p: Pixel)
        requires
            self.wf(),
            x < self.width,
            y < self.height,
        ensures
            p == self.spix(x as int, y as int),
    {
        proof {
            lemma_index_bound(x as int, y as int, self.width as int, self.height as int);
        }
        let i = (y as usize) * (self.width as usize) + (x as usize);
        self.pixels[i]
    }

    /// Applies `op` at `location` if it is within `clip`; otherwise
    /// leaves the buffer untouched.
    pub fn clip_apply(&mut self, clip: &Rect, location: &Coordinate, newpixel: &Pixel, op: BitBlitOp)
        requires
            old(self).wf(),
            old(self).clip_ok(*clip),
        ensures
            final(self).wf(),
            final(self).width == old(self).width,
            final(self).height == old(self).height,
            spec_in_rect(*clip, *location) ==> final(self).pixels@ == old(self).pixels@.update(
                old(self).sidx(location.x as int, location.y as int),
                Pixel {
                    raw: spec_apply(
                        old(self).spix(location.x as int, location.y as int).raw,
                        newpixel.raw,
                        op,
                    ),
                },
            ),
            !spec_in_rect(*clip, *location) ==> final(self).pixels@ == old(self).pixels@,
    {
        if in_rect(clip, location) {
            proof {
                lemma_index_bound(
                    location.x as int,
                    location.y as int,
                    self.width as int,
                    self.height as int,
                );
            }
            let i = (location.y as usize) * (self.width as usize) + (location.x as usize);
            let mut p = self.pixels[i];
            apply_with_blit(&mut p, newpixel, op);
            self.pixels[i] = p;
        }
    }
    /// Fills the `rect`-shaped box with `pixel` under `op`: every
    /// coordinate of the box that also lies in `clip` is combined
    /// exactly once; every other coordinate keeps its pixel.
    pub fn fill_box_with_pixel(&mut self, clip: &Rect, rect: &Rect, pixel: &Pixel, op: BitBlitOp)
        requires
            old(self).wf(),
            old(self).clip_ok(*clip),
            rect.bounded(),
        ensures
            final(self).wf(),
            final(self).width == old(self).width,
            final(self).height == old(self).height,
            forall|x: int, y: int|
                0 <= x < final(self).width && 0 <= y < final(self).height
                    ==> #[trigger] final(self).spix(x, y) == (if rect_contains(*rect, x, y)
                    && rect_contains(*clip, x, y) {
                    Pixel { raw: spec_apply(old(self).spix(x, y).raw, pixel.raw, op) }
                } else {
                    old(self).spix(x, y)
                }),
    {
        let ghost fb0 = *self;
        let mut i: u32 = 0;
        while i < rect.width
            invariant
                self.wf(),
                self.width == fb0.width,
                self.height == fb0.height,
                fb0.wf(),
                fb0.clip_ok(*clip),
                rect.bounded(),
                i <= rect.width,
                forall|x: int, y: int|
                    0 <= x < self.width && 0 <= y < self.height ==> #[trigger] self.spix(x, y) == (
                    if rect_contains(*rect, x, y) && x < rect.x + i && rect_contains(
                        *clip,
                        x,
                        y,
                    ) {
                        Pixel { raw: spec_apply(fb0.spix(x, y).raw, pixel.raw, op) }
                    } else {
                        fb0.spix(x, y)
                    }),
            decreases rect.width - i,
        {
            let mut j: u32 = 0;
            while j < rect.height
                invariant
                    self.wf(),
                    self.width == fb0.width,
                    self.height == fb0.height,
                    fb0.wf(),
                    fb0.clip_ok(*clip),
                    rect.bounded(),
                    i < rect.width,
                    j <= rect.height,
                    forall|x: int, y: int|
                        0 <= x < self.width && 0 <= y < self.height ==> #[trigger] self.spix(x, y) == (
                        if rect_contains(*rect, x, y) && (x < rect.x + i || (x == rect.x + i && y
                            < rect.y + j)) && rect_contains(*clip, x, y) {
                            Pixel { raw: spec_apply(fb0.spix(x, y).raw, pixel.raw, op) }
                        } else {
                            fb0.spix(x, y)
                        }),
                decreases rect.height - j,
            {
                let location = Coordinate { x: rect.x + i, y: rect.y + j };
                let ghost prev = *self;
                self.clip_apply(clip, &location, pixel, op);
                proof {
                    lemma_fill_step(
                        prev,
                        *self,
                        fb0,
                        *clip,
                        *rect,
                        (|x: int, y: int| *pixel),
                        op,
                        i as int,
                        j as int,
                    );
                }
                j = j + 1;
            }
            i = i + 1;
        }
    }

    /// Fills the `rect`-shaped box by tiling `bitmap` over it: the
    /// coordinate at offset `(i, j)` into the box samples the bitmap
    /// at `(i mod width, j mod height)`. Sampling and clipping are
    /// per pixel, exactly as in a plain box fill.
    pub fn fill_box_with_bitmap(&mut self, clip: &Rect, rect: &Rect, bitmap: &Bitmap, op: BitBlitOp)
        requires
            old(self).wf(),
            old(self).clip_ok(*clip),
            rect.bounded(),
            bitmap.wf(),
            bitmap.width > 0,
            bitmap.height > 0,
        ensures
            final(self).wf(),
            final(self).width == old(self).width,
            final(self).height == old(self).height,
            forall|x: int, y: int|
                0 <= x < final(self).width && 0 <= y < final(self).height
                    ==> #[trigger] final(self).spix(x, y) == (if rect_contains(*rect, x, y)
                    && rect_contains(*clip, x, y) {
                    Pixel {
                        raw: spec_apply(
                            old(self).spix(x, y).raw,
                            bitmap.sample(*rect, x, y).raw,
                            op,
                        ),
                    }
                } else {
                    old(self).spix(x, y)
                }),
    {
        let ghost fb0 = *self;
        let ghost src = |x: int, y: int| bitmap.sample(*rect, x, y);
        let mut i: u32 = 0;
        while i < rect.width
            invariant
                self.wf(),
                self.width == fb0.width,
                self.height == fb0.height,
                fb0.wf(),
                fb0.clip_ok(*clip),
                rect.bounded(),
                bitmap.wf(),
                bitmap.width > 0,
                bitmap.height > 0,
                src == (|x: int, y: int| bitmap.sample(*rect, x, y)),
                i <= rect.width,
                forall|x: int, y: int|
                    0 <= x < self.width && 0 <= y < self.height ==> #[trigger] self.spix(x, y) == (
                    if rect_contains(*rect, x, y) && x < rect.x + i && rect_contains(
                        *clip,
                        x,
                        y,
                    ) {
                        Pixel { raw: spec_apply(fb0.spix(x, y).raw, src(x, y).raw, op) }
                    } else {
                        fb0.spix(x, y)
                    }),
            decreases rect.width - i,
        {
            let mut j: u32 = 0;
            while j < rect.height
                invariant
                    self.wf(),
                    self.width == fb0.width,
                    self.height == fb0.height,
                    fb0.wf(),
                    fb0.clip_ok(*clip),
                    rect.bounded(),
                    bitmap.wf(),
                    bitmap.width > 0,
                    bitmap.height > 0,
                    src == (|x: int, y: int| bitmap.sample(*rect, x, y)),
                    i < rect.width,
                    j <= rect.height,
                    forall|x: int, y: int|
                        0 <= x < self.width && 0 <= y < self.height ==> #[trigger] self.spix(x, y)
                            == (if rect_contains(*rect, x, y) && (x < rect.x + i || (x == rect.x
                            + i && y < rect.y + j)) && rect_contains(*clip, x, y) {
                            Pixel { raw: spec_apply(fb0.spix(x, y).raw, src(x, y).raw, op) }
                        } else {
                            fb0.spix(x, y)
                        }),
                decreases rect.height - j,
            {
                let location = Coordinate { x: rect.x + i, y: rect.y + j };
                let sample = bitmap.pixel_at(i % bitmap.width, j % bitmap.height);
                proof {
                    assert(src(location.x as int, location.y as int) == sample);
                }
                let ghost prev = *self;
                self.clip_apply(clip, &location, &sample, op);
                proof {
                    lemma_fill_step(prev, *self, fb0, *clip, *rect, src, op, i as int, j as int);
                }
                j = j + 1;
            }
            i = i + 1;
        }
    }
    /// Copies `src`-box pixels onto the `dest` box, tiling the source
    /// when the destination is larger, combining under `op`, step by
    /// step down each destination column. The first step whose source
    /// or destination coordinate leaves `clip` stops the whole copy
    /// (unlike the per-pixel clipping of the fills); overlap is
    /// handled step by step, later steps seeing earlier writes.
    pub fn copy_box(&mut self, clip: &Rect, src: &Rect, dest: &Rect, op: BitBlitOp)
        requires
            old(self).wf(),
            old(self).clip_ok(*clip),
            src.bounded(),
            dest.bounded(),
            src.width > 0,
            src.height > 0,
        ensures
            final(self).wf(),
            final(self).width == old(self).width,
            final(self).height == old(self).height,
            final(self).pixels@ == copy_box_steps(
                old(self).pixels@,
                old(self).width as int,
                *src,
                *dest,
                op,
                copy_steps_taken(*src, *dest, *clip, (dest.width * dest.height) as nat),
            ),
    {
        let ghost fb0 = *self;
        proof {
            assert(dest.width as int * dest.height as int <= u32::MAX as int * u32::MAX as int)
                by (nonlinear_arith)
                requires
                    dest.width <= u32::MAX && dest.height <= u32::MAX,
            ;
        }
        let total: u64 = dest.width as u64 * dest.height as u64;
        let mut n: u64 = 0;
        while n < total
            invariant_except_break
                self.wf(),
                self.width == fb0.width,
                self.height == fb0.height,
                fb0.wf(),
                fb0.clip_ok(*clip),
                src.bounded(),
                dest.bounded(),
                src.width > 0,
                src.height > 0,
                n <= total,
                total == dest.width * dest.height,
                copy_steps_taken(*src, *dest, *clip, n as nat) == n as nat,
                self.pixels@ == copy_box_steps(fb0.pixels@, fb0.width as int, *src, *dest, op, n as nat),
            ensures
                self.wf(),
                self.width == fb0.width,
                self.height == fb0.height,
                self.pixels@ == copy_box_steps(
                    fb0.pixels@,
                    fb0.width as int,
                    *src,
                    *dest,
                    op,
                    copy_steps_taken(*src, *dest, *clip, (dest.width * dest.height) as nat),
                ),
            decreases total - n,
        {
            proof {
                assert(dest.height > 0) by (nonlinear_arith)
                    requires
                        n < total && total == dest.width * dest.height && n >= 0,
                ;
                lemma_div_bound(n as int, dest.width as int, dest.height as int);
            }
            let i = (n / dest.height as u64) as u32;
            let j = (n % dest.height as u64) as u32;
            let dest_loc = Coordinate { x: dest.x + i, y: dest.y + j };
            let src_loc = Coordinate { x: src.x + i % src.width, y: src.y + j % src.height };
            if !in_rect(clip, &dest_loc) || !in_rect(clip, &src_loc) {
                proof {
                    assert(!copy_step_ok(*src, *dest, *clip, n as int));
                    lemma_steps_taken_stopped(*src, *dest, *clip, n as nat, total as nat);
                }
                break ;
            }
            let p = self.pixel_at(src_loc.x, src_loc.y);
            let ghost prev = *self;
            self.clip_apply(clip, &dest_loc, &p, op);
            proof {
                assert(copy_step_ok(*src, *dest, *clip, n as int));
                lemma_index_bound(
                    src_loc.x as int,
                    src_loc.y as int,
                    fb0.width as int,
                    fb0.height as int,
                );
                lemma_index_bound(
                    dest_loc.x as int,
                    dest_loc.y as int,
                    fb0.width as int,
                    fb0.height as int,
                );
                assert(self.pixels@ == copy_box_steps(
                    fb0.pixels@,
                    fb0.width as int,
                    *src,
                    *dest,
                    op,
                    (n + 1) as nat,
                ));
            }
            n = n + 1;
        }
    }
}

/// A tileable pixel pattern: a pixel for every coordinate of a
/// `width` by `height` grid, row by row, like a frame buffer.
pub struct Bitmap {
    pub width: u32,
    pub height: u32,
    pub pixels: Vec<Pixel>,
}

impl Bitmap {
    /// There is exactly one stored pixel per grid coordinate.
    pub open spec fn wf(self) -> bool {
        self.pixels.len() == self.width * self.height
    }

    /// The stored pixel at `(x, y)`.
    pub open spec fn spix(self, x: int, y: int) -> Pixel {
        self.pixels[y * self.width + x]
    }

    /// What the bitmap contributes at frame coordinate `(x, y)` when
    /// tiled over a box anchored at `rect`'s origin.
    pub open spec fn sample(self, rect: Rect, x: int, y: int) -> Pixel {
        self.spix((x - rect.x) % (self.width as int), (y - rect.y) % (self.height as int))
    }

    /// An all-black bitmap of the given size.
    pub fn new_black(width: u32, height: u32) -> (b: Bitmap)
        requires
            width * height <= usize::MAX,
        ensures
            b.wf(),
            b.width == width,
            b.height == height,
            forall|i: int| 0 <= i < b.pixels.len() ==> b.pixels[i] == (Pixel { raw: 0 }),
    {
        proof {
            assert((width as int) * (height as int) >= 0) by (nonlinear_arith);
        }
        let n = (width as u64 * height as u64) as usize;
        let pixels = vec![Pixel { raw: 0 }; n];
        Bitmap { width, height, pixels }
    }

    /// Reads the pixel at `(x, y)`, if that coordinate lies within
    /// the bitmap.
    pub fn get_bitmap_pixel(&self, x: u32, y: u32) -> (p: Option<Pixel>)
        requires
            self.wf(),
        ensures
            x < self.width && y < self.height ==> p == Some(self.spix(x as int, y as int)),
            !(x < self.width && y < self.height) ==> p is None,
    {
        if x >= self.width || y >= self.height {
            None
        } else {
            proof {
                lemma_index_bound(x as int, y as int, self.width as int, self.height as int);
            }
            let i = (y as usize) * (self.width as usize) + (x as usize);
            Some(self.pixels[i])
        }
    }

    /// Reads the pixel at `(x, y)`.
    pub fn pixel_at(&self, x: u32, y: u32) -> (p: Pixel)
        requires
            self.wf(),
            x < self.width,
            y < self.height,
        ensures
            p == self.spix(x as int, y as int),
    {
        proof {
            lemma_index_bound(x as int, y as int, self.width as int, self.height as int);
        }
        let i = (y as usize) * (self.width as usize) + (x as usize);
        self.pixels[i]
    }

    /// Overwrites the pixel at `(x, y)`.
    pub fn set_pixel(&mut self, x: u32, y: u32, p: Pixel)
        requires
            old(self).wf(),
            x < old(self).width,
            y < old(self).height,
        ensures
            final(self).wf(),
            final(self).width == old(self).width,
            final(self).height == old(self).height,
            final(self).pixels@ == old(self).pixels@.update(
                y as int * old(self).width + x as int,
                p,
            ),
    {
        proof {
            lemma_index_bound(x as int, y as int, self.width as int, self.height as int);
        }
        let i = (y as usize) * (self.width as usize) + (x as usize);
        self.pixels[i] = p;
    }
}

/// One write of a box fill keeps the box fill's column-by-column
/// invariant: the coordinate just combined takes its final value and
/// every other coordinate is untouched.
proof fn lemma_fill_step(
    prev: FrameBuffer,
    cur: FrameBuffer,
    fb0: FrameBuffer,
    clip: Rect,
    rect: Rect,
    src: spec_fn(int, int) -> Pixel,
    op: BitBlitOp,
    i: int,
    j: int,
)
    requires
        prev.wf(),
        fb0.wf(),
        prev.width == fb0.width,
        prev.height == fb0.height,
        cur.width == prev.width,
        cur.height == prev.height,
        fb0.clip_ok(clip),
        rect.bounded(),
        0 <= i < rect.width,
        0 <= j < rect.height,
        forall|x: int, y: int|
            0 <= x < prev.width && 0 <= y < prev.height ==> #[trigger] prev.spix(x, y) == (if rect_contains(
                rect,
                x,
                y,
            ) && (x < rect.x + i || (x == rect.x + i && y < rect.y + j)) && rect_contains(
                clip,
                x,
                y,
            ) {
                Pixel { raw: spec_apply(fb0.spix(x, y).raw, src(x, y).raw, op) }
            } else {
                fb0.spix(x, y)
            }),
        rect_contains(clip, rect.x + i, rect.y + j) ==> cur.pixels@ == prev.pixels@.update(
            prev.sidx(rect.x + i, rect.y + j),
            Pixel {
                raw: spec_apply(
                    prev.spix(rect.x + i, rect.y + j).raw,
                    src(rect.x + i, rect.y + j).raw,
                    op,
                ),
            },
        ),
        !rect_contains(clip, rect.x + i, rect.y + j) ==> cur.pixels@ == prev.pixels@,
    ensures
        cur.wf(),
        forall|x: int, y: int|
            0 <= x < cur.width && 0 <= y < cur.height ==> #[trigger] cur.spix(x, y) == (if rect_contains(
                rect,
                x,
                y,
            ) && (x < rect.x + i || (x == rect.x + i && y < rect.y + j + 1)) && rect_contains(
                clip,
                x,
                y,
            ) {
                Pixel { raw: spec_apply(fb0.spix(x, y).raw, src(x, y).raw, op) }
            } else {
                fb0.spix(x, y)
            }),
{
    let cx = rect.x + i;
    let cy = rect.y + j;
    assert(cur.pixels.len() == cur.pixels@.len());
    assert(prev.pixels.len() == prev.pixels@.len());
    if rect_contains(clip, cx, cy) {
        lemma_index_bound(cx, cy, fb0.width as int, fb0.height as int);
        assert(0 <= prev.sidx(cx, cy) < prev.pixels@.len());
    }
    assert(cur.pixels@.len() == prev.pixels@.len());
    assert forall|x: int, y: int| 0 <= x < cur.width && 0 <= y < cur.height implies #[trigger] cur.spix(x, y)
        == (if rect_contains(rect, x, y) && (x < rect.x + i || (x == rect.x + i && y < rect.y + j
        + 1)) && rect_contains(clip, x, y) {
        Pixel { raw: spec_apply(fb0.spix(x, y).raw, src(x, y).raw, op) }
    } else {
        fb0.spix(x, y)
    }) by {
        assert(prev.spix(x, y) == (if rect_contains(rect, x, y) && (x < rect.x + i || (x == rect.x
            + i && y < rect.y + j)) && rect_contains(clip, x, y) {
            Pixel { raw: spec_apply(fb0.spix(x, y).raw, src(x, y).raw, op) }
        } else {
            fb0.spix(x, y)
        }));
        if rect_contains(clip, cx, cy) {
            lemma_index_bound(cx, cy, fb0.width as int, fb0.height as int);
            lemma_index_bound(x, y, fb0.width as int, fb0.height as int);
            assert(prev.spix(cx, cy) == fb0.spix(cx, cy));
            if !(x == cx && y == cy) {
                if prev.sidx(x, y) == prev.sidx(cx, cy) {
                    lemma_index_injective(fb0.width as int, x, y, cx, cy);
                }
                assert(cur.pixels@[prev.sidx(x, y)] == prev.pixels@[prev.sidx(x, y)]);
            }
        }
    }
}

/// The destination coordinate of step `n` of a box copy: steps walk
/// the destination box column by column, `n = i * dest.height + j`
/// for column offset `i` and row offset `j`.
pub open spec fn copy_dest(dest: Rect, n: int) -> (int, int) {
    (dest.x + n / (dest.height as int), dest.y + n % (dest.height as int))
}

/// The source coordinate of step `n` of a box copy: the source box
/// tiled over the destination box.
pub open spec fn copy_src(src: Rect, dest: Rect, n: int) -> (int, int) {
    (
        src.x + (n / (dest.height as int)) % (src.width as int),
        src.y + (n % (dest.height as int)) % (src.height as int),
    )
}

/// Step `n` of a box copy proceeds only if both its destination and
/// its source coordinate lie in the clipping rectangle; the first
/// step that fails this stops the whole copy.
pub open spec fn copy_step_ok(src: Rect, dest: Rect, clip: Rect, n: int) -> bool {
    rect_contains(clip, copy_dest(dest, n).0, copy_dest(dest, n).1) && rect_contains(
        clip,
        copy_src(src, dest, n).0,
        copy_src(src, dest, n).1,
    )
}

/// The buffer contents after the first `n` steps of a box copy, each
/// step combining the then-current source pixel into the destination
/// pixel under `op`. Overlapping boxes therefore see earlier steps'
/// writes, exactly as the step-by-step code does.
pub open spec fn copy_box_steps(
    fb: Seq<Pixel>,
    w: int,
    src: Rect,
    dest: Rect,
    op: BitBlitOp,
    n: nat,
) -> Seq<Pixel>
    decreases n,
{
    if n == 0 {
        fb
    } else {
        let prev = copy_box_steps(fb, w, src, dest, op, (n - 1) as nat);
        let d = copy_dest(dest, n - 1);
        let s = copy_src(src, dest, n - 1);
        let didx = d.1 * w + d.0;
        let sidx = s.1 * w + s.0;
        prev.update(didx, Pixel { raw: spec_apply(prev[didx].raw, prev[sidx].raw, op) })
    }
}

/// How many of the first `n` steps of a box copy run before the
/// early exit: all of them, up to the first whose coordinates leave
/// the clipping rectangle.
pub open spec fn copy_steps_taken(src: Rect, dest: Rect, clip: Rect, n: nat) -> nat
    decreases n,
{
    if n == 0 {
        0
    } else {
        let t = copy_steps_taken(src, dest, clip, (n - 1) as nat);
        if t < (n - 1) as nat {
            t
        } else if copy_step_ok(src, dest, clip, n - 1) {
            n
        } else {
            t
        }
    }
}

/// Never more steps are taken than looked at.
pub proof fn lemma_steps_taken_le(src: Rect, dest: Rect, clip: Rect, n: nat)
    ensures
        copy_steps_taken(src, dest, clip, n) <= n,
    decreases n,
{
    if n > 0 {
        lemma_steps_taken_le(src, dest, clip, (n - 1) as nat);
    }
}

/// Once a step's coordinates leave the clipping rectangle, no later
/// step runs.
proof fn lemma_steps_taken_stopped(src: Rect, dest: Rect, clip: Rect, n: nat, m: nat)
    requires
        copy_steps_taken(src, dest, clip, n) == n,
        !copy_step_ok(src, dest, clip, n as int),
        m >= n,
    ensures
        copy_steps_taken(src, dest, clip, m) == n,
    decreases m,
{
    if m > n {
        lemma_steps_taken_stopped(src, dest, clip, n, (m - 1) as nat);
        lemma_steps_taken_le(src, dest, clip, (m - 1) as nat);
    }
}

/// Copying a box onto itself with the plain copy operator writes
/// every pixel its own value back: whatever the clipping rectangle
/// lets through, the buffer is bitwise unchanged after any number of
/// steps the copy can run.
pub proof fn lemma_copy_box_identity(fb: FrameBuffer, r: Rect, n: nat)
    requires
        fb.wf(),
        r.x + r.width <= fb.width,
        r.y + r.height <= fb.height,
        n <= r.width * r.height,
    ensures
        copy_box_steps(fb.pixels@, fb.width as int, r, r, BitBlitOp::Copy, n) == fb.pixels@,
    decreases n,
{
    if n > 0 {
        lemma_copy_box_identity(fb, r, (n - 1) as nat);
        let m = n - 1;
        assert(r.width > 0 && r.height > 0) by (nonlinear_arith)
            requires
                0 < n <= r.width * r.height,
        ;
        lemma_div_bound(m, r.width as int, r.height as int);
        let i = m / (r.height as int);
        let j = m % (r.height as int);
        vstd::arithmetic::div_mod::lemma_small_mod(i as nat, r.width as nat);
        vstd::arithmetic::div_mod::lemma_small_mod(j as nat, r.height as nat);
        assert(copy_src(r, r, m) == copy_dest(r, m));
        let d = copy_dest(r, m);
        lemma_index_bound(d.0, d.1, fb.width as int, fb.height as int);
        let prev = copy_box_steps(fb.pixels@, fb.width as int, r, r, BitBlitOp::Copy, (n - 1) as nat);
        let didx = d.1 * fb.width + d.0;
        assert(prev[didx] == (Pixel { raw: prev[didx].raw }));
        assert(prev.update(didx, prev[didx]) =~= prev);
    }
}

/// Copying a box onto itself with the plain copy operator leaves the
/// buffer bitwise unchanged, whatever clipping rectangle the copy ran
/// under: however many steps the early exit allowed, each wrote its
/// pixel's own value back.
pub proof fn lemma_copy_box_self_identity(fb: FrameBuffer, r: Rect, clip: Rect)
    requires
        fb.wf(),
        r.x + r.width <= fb.width,
        r.y + r.height <= fb.height,
    ensures
        copy_box_steps(
            fb.pixels@,
            fb.width as int,
            r,
            r,
            BitBlitOp::Copy,
            copy_steps_taken(r, r, clip, (r.width * r.height) as nat),
        ) == fb.pixels@,
{
    lemma_steps_taken_le(r, r, clip, (r.width * r.height) as nat);
    lemma_copy_box_identity(fb, r, copy_steps_taken(r, r, clip, (r.width * r.height) as nat));
}

/// A nonnegative number below `w * h` splits into a column below `w`
/// and a row below `h`.
proof fn lemma_div_bound(n: int, w: int, h: int)
    requires
        0 <= n,
        0 < h,
        n < w * h,
    ensures
        0 <= n / h < w,
        0 <= n % h < h,
{
    vstd::arithmetic::div_mod::lemma_fundamental_div_mod(n, h);
    let q = n / h;
    let r = n % h;
    assert(0 <= r < h && 0 <= q && q < w) by (nonlinear_arith)
        requires
            n == h * q + r,
            0 <= n,
            0 < h,
            n < w * h,
            r == n % h,
    ;
}

/// A coordinate within a `w` by `h` frame is stored at a valid index.
pub proof fn lemma_index_bound(x: int, y: int, w: int, h: int)
    requires
        0 <= x < w,
        0 <= y < h,
    ensures
        0 <= y * w + x < w * h,
        y * w >= 0,
{
    assert(y * w + x < w * h && y * w >= 0) by (nonlinear_arith)
        requires
            0 <= x < w && 0 <= y < h,
    ;
}

/// Distinct coordinates of one frame are stored at distinct indices.
pub proof fn lemma_index_injective(w: int, x1: int, y1: int, x2: int, y2: int)
    requires
        0 <= x1 < w,
        0 <= x2 < w,
        0 <= y1,
        0 <= y2,
        y1 * w + x1 == y2 * w + x2,
    ensures
        x1 == x2 && y1 == y2,
{
    assert(x1 == x2 && y1 == y2) by (nonlinear_arith)
        requires
            0 <= x1 < w && 0 <= x2 < w && 0 <= y1 && 0 <= y2 && y1 * w + x1 == y2 * w + x2,
    ;
}

} // verus!
