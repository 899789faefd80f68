//! Line and polygon drawing.
//!
//! Lines are drawn with the integer midpoint algorithm: starting at
//! one endpoint, each step moves one pixel toward the other along
//! the axes, steered by a running error term, until both endpoints
//! have been visited; both endpoints are drawn. A polygon is the
//! closed chain of lines through its coordinate list: one edge per
//! consecutive pair and a closing edge from the last coordinate back
//! to the first.

use crate::framebuffer::{rect_contains, FrameBuffer};
use crate::geom::{Coordinate, Rect};
use crate::pixel::{BitBlitOp, Pixel};
use vstd::math::abs;
use vstd::prelude::*;

verus! {

/// The sign of an integer: -1, 0 or 1.
pub open spec fn sgn(a: int) -> int {
    if a > 0 {
        1
    } else if a < 0 {
        -1
    } else {
        0
    }
}

/// The step directions point from the current position toward the
/// line's target wherever they still differ. The drawing loop keeps
/// this true from start to finish.
pub open spec fn line_dir_ok(x0: int, x1: int, sx: int, y0: int, y1: int, sy: int) -> bool {
    (x0 < x1 ==> sx == 1) && (x0 > x1 ==> sx == -1) && (y0 < y1 ==> sy == 1) && (y0 > y1 ==> sy
        == -1)
}

/// The points the midpoint line walk visits from `(x0, y0)` until it
/// reaches `(x1, y1)`, both ends included: each step doubles the
/// error term and moves one pixel in x (when the doubled error has
/// reached `dy`) and/or one in y (when it has not passed `dx`),
/// adjusting the error by the other axis's extent.
pub open spec fn line_points(
    x0: int,
    y0: int,
    x1: int,
    y1: int,
    dx: int,
    dy: int,
    sx: int,
    sy: int,
    err: int,
) -> Seq<(int, int)>
    decreases abs(x1 - x0) + abs(y1 - y0),
        when line_dir_ok(x0, x1, sx, y0, y1, sy) && dy <= 0 <= dx
{
    let pt = seq![(x0, y0)];
    if x0 == x1 && y0 == y1 {
        pt
    } else {
        let e2 = 2 * err;
        if e2 >= dy && x0 == x1 {
            pt
        } else {
            let xa = if e2 >= dy {
                x0 + sx
            } else {
                x0
            };
            let ea = if e2 >= dy {
                err + dy
            } else {
                err
            };
            if e2 <= dx && y0 == y1 {
                pt
            } else {
                let ya = if e2 <= dx {
                    y0 + sy
                } else {
                    y0
                };
                let eb = if e2 <= dx {
                    ea + dx
                } else {
                    ea
                };
                pt + line_points(xa, ya, x1, y1, dx, dy, sx, sy, eb)
            }
        }
    }
}

/// The points of the line between two coordinates, both included.
pub open spec fn line_points_of(start: Coordinate, end: Coordinate) -> Seq<(int, int)> {
    let x0 = start.x as int;
    let y0 = start.y as int;
    let x1 = end.x as int;
    let y1 = end.y as int;
    line_points(
        x0,
        y0,
        x1,
        y1,
        abs(x1 - x0) as int,
        -(abs(y1 - y0) as int),
        sgn(x1 - x0),
        sgn(y1 - y0),
        abs(x1 - x0) - abs(y1 - y0),
    )
}

/// One clipped point write: the pixel at the point, if it lies in
/// the clipping rectangle.
pub open spec fn draw_point_spec(
    fb: Seq<Pixel>,
    w: int,
    clip: Rect,
    pt: (int, int),
    pix: Pixel,
) -> Seq<Pixel> {
    if rect_contains(clip, pt.0, pt.1) {
        fb.update(pt.1 * w + pt.0, pix)
    } else {
        fb
    }
}

/// The buffer after drawing each point of `pts` in order, each write
/// clipped.
pub open spec fn draw_points(
    fb: Seq<Pixel>,
    w: int,
    clip: Rect,
    pts: Seq<(int, int)>,
    pix: Pixel,
) -> Seq<Pixel>
    decreases pts.len(),
{
    if pts.len() == 0 {
        fb
    } else {
        draw_points(draw_point_spec(fb, w, clip, pts[0], pix), w, clip, pts.skip(1), pix)
    }
}

/// Drawing a point sequence factors into its first point and the
/// rest.
proof fn lemma_draw_points_cons(
    fb: Seq<Pixel>,
    w: int,
    clip: Rect,
    pts: Seq<(int, int)>,
    pix: Pixel,
)
    requires
        pts.len() > 0,
    ensures
        draw_points(fb, w, clip, pts, pix) == draw_points(
            draw_point_spec(fb, w, clip, pts[0], pix),
            w,
            clip,
            pts.skip(1),
            pix,
        ),
{
}

/// Drawing a concatenation of point sequences draws the first, then
/// the second.
pub proof fn lemma_draw_points_concat(
    fb: Seq<Pixel>,
    w: int,
    clip: Rect,
    pts1: Seq<(int, int)>,
    pts2: Seq<(int, int)>,
    pix: Pixel,
)
    ensures
        draw_points(fb, w, clip, pts1 + pts2, pix) == draw_points(
            draw_points(fb, w, clip, pts1, pix),
            w,
            clip,
            pts2,
            pix,
        ),
    decreases pts1.len(),
{
    if pts1.len() == 0 {
        assert(pts1 + pts2 =~= pts2);
    } else {
        assert((pts1 + pts2).skip(1) =~= pts1.skip(1) + pts2);
        lemma_draw_points_concat(
            draw_point_spec(fb, w, clip, pts1[0], pix),
            w,
            clip,
            pts1.skip(1),
            pts2,
            pix,
        );
    }
}

/// The points of the first `k` edges of the closed polygon through
/// `coords`: edge `i` runs from `coords[i]` to the next coordinate,
/// the last edge back to `coords[0]`.
pub open spec fn poly_points(coords: Seq<Coordinate>, k: nat) -> Seq<(int, int)>
    decreases k,
{
    if k == 0 {
        Seq::empty()
    } else {
        poly_points(coords, (k - 1) as nat) + line_points_of(
            coords[k - 1],
            coords[(k as int) % (coords.len() as int)],
        )
    }
}

impl FrameBuffer {
    /// Draws the line from `start` to `end` (both endpoints included)
    /// in the given pixel, clipped per point to `clip`.
    pub fn draw_line(&mut self, clip: &Rect, start: &Coordinate, end: &Coordinate, pixel: &Pixel)
        requires
            old(self).wf(),
            old(self).clip_ok(*clip),
        ensures
            final(self).wf(),
            final(self).width == old(self).width,
            final(self).height == old(self).height,
            final(self).pixels@ == draw_points(
                old(self).pixels@,
                old(self).width as int,
                *clip,
                line_points_of(*start, *end),
                *pixel,
            ),
    {
        let ghost fb0 = *self;
        let mut x0: i64 = start.x as i64;
        let mut y0: i64 = start.y as i64;
        let x1: i64 = end.x as i64;
        let y1: i64 = end.y as i64;
        let dx: i64 = if x1 > x0 {
            x1 - x0
        } else {
            x0 - x1
        };
        let dy: i64 = if y1 > y0 {
            -(y1 - y0)
        } else {
            -(y0 - y1)
        };
        let sx: i64 = if x1 > x0 {
            1
        } else if x1 < x0 {
            -1
        } else {
            0
        };
        let sy: i64 = if y1 > y0 {
            1
        } else if y1 < y0 {
            -1
        } else {
            0
        };
        let mut err: i64 = dx + dy;
        loop
            invariant_except_break
                self.wf(),
                self.width == fb0.width,
                self.height == fb0.height,
                fb0.wf(),
                fb0.clip_ok(*clip),
                x1 == end.x,
                y1 == end.y,
                dx == abs(x1 - start.x),
                dy == -(abs(y1 - start.y) as int),
                sx == sgn(x1 - start.x),
                sy == sgn(y1 - start.y),
                line_dir_ok(x0 as int, x1 as int, sx as int, y0 as int, y1 as int, sy as int),
                sx == 1 ==> start.x <= x0 <= x1,
                sx == -1 ==> x1 <= x0 <= start.x,
                sx == 0 ==> x0 == start.x,
                sy == 1 ==> start.y <= y0 <= y1,
                sy == -1 ==> y1 <= y0 <= start.y,
                sy == 0 ==> y0 == start.y,
                2 * dy <= err <= 2 * dx,
                draw_points(
                    self.pixels@,
                    fb0.width as int,
                    *clip,
                    line_points(
                        x0 as int,
                        y0 as int,
                        x1 as int,
                        y1 as int,
                        dx as int,
                        dy as int,
                        sx as int,
                        sy as int,
                        err as int,
                    ),
                    *pixel,
                ) == draw_points(
                    fb0.pixels@,
                    fb0.width as int,
                    *clip,
                    line_points_of(*start, *end),
                    *pixel,
                ),
            ensures
                self.wf(),
                self.width == fb0.width,
                self.height == fb0.height,
                self.pixels@ == draw_points(
                    fb0.pixels@,
                    fb0.width as int,
                    *clip,
                    line_points_of(*start, *end),
                    *pixel,
                ),
            decreases abs(x1 - x0) + abs(y1 - y0),
        {
            let ghost ex = x0 as int;
            let ghost ey = y0 as int;
            let ghost entry_pts = line_points(
                ex,
                ey,
                x1 as int,
                y1 as int,
                dx as int,
                dy as int,
                sx as int,
                sy as int,
                err as int,
            );
            let location = Coordinate { x: x0 as u32, y: y0 as u32 };
            let ghost prev = *self;
            self.clip_apply(clip, &location, pixel, BitBlitOp::Copy);
            proof {
                assert(self.pixels@ == draw_point_spec(
                    prev.pixels@,
                    fb0.width as int,
                    *clip,
                    (ex, ey),
                    *pixel,
                ));
                lemma_draw_points_cons(prev.pixels@, fb0.width as int, *clip, entry_pts, *pixel);
            }
            if x0 == x1 && y0 == y1 {
                proof {
                    assert(entry_pts =~= seq![(ex, ey)]);
                }
                break ;
            }
            let e2 = 2 * err;
            if e2 >= dy {
                if x0 == x1 {
                    proof {
                        assert(entry_pts =~= seq![(ex, ey)]);
                    }
                    break ;
                }
                err = err + dy;
                x0 = x0 + sx;
            }
            if e2 <= dx {
                if y0 == y1 {
                    proof {
                        assert(entry_pts =~= seq![(ex, ey)]);
                    }
                    break ;
                }
                err = err + dx;
                y0 = y0 + sy;
            }
            proof {
                assert(entry_pts.skip(1) =~= line_points(
                    x0 as int,
                    y0 as int,
                    x1 as int,
                    y1 as int,
                    dx as int,
                    dy as int,
                    sx as int,
                    sy as int,
                    err as int,
                ));
            }
        }
    }

    /// Draws the closed polygon through `coords`: a line for each
    /// consecutive pair, and a closing line from the last coordinate
    /// back to the first. A single coordinate draws its point; an
    /// empty list draws nothing.
    pub fn draw_poly(&mut self, clip: &Rect, coords: &Vec<Coordinate>, pixel: &Pixel)
        requires
            old(self).wf(),
            old(self).clip_ok(*clip),
        ensures
            final(self).wf(),
            final(self).width == old(self).width,
            final(self).height == old(self).height,
            final(self).pixels@ == draw_points(
                old(self).pixels@,
                old(self).width as int,
                *clip,
                poly_points(coords@, coords@.len()),
                *pixel,
            ),
    {
        let ghost fb0 = *self;
        let mut i: usize = 0;
        while i < coords.len()
            invariant
                self.wf(),
                self.width == fb0.width,
                self.height == fb0.height,
                fb0.wf(),
                fb0.clip_ok(*clip),
                i <= coords.len(),
                self.pixels@ == draw_points(
                    fb0.pixels@,
                    fb0.width as int,
                    *clip,
                    poly_points(coords@, i as nat),
                    *pixel,
                ),
            decreases coords.len() - i,
        {
            let ghost prev_pixels = self.pixels@;
            let next = (i + 1) % coords.len();
            self.draw_line(clip, &coords[i], &coords[next], pixel);
            proof {
                lemma_draw_points_concat(
                    fb0.pixels@,
                    fb0.width as int,
                    *clip,
                    poly_points(coords@, i as nat),
                    line_points_of(coords@[i as int], coords@[next as int]),
                    *pixel,
                );
            }
            i = i + 1;
        }
    }
}

} // verus!
