//! wlr screencopy: which part of an output a frame captures, and the frame's lifecycle (it
//! finishes once, with "ready" or "failed").

use vstd::prelude::*;
use crate::geometry::{Point, Rect, Size, i32_min, i32_max};

verus! {

pub open spec fn fits_i32(v: int) -> bool {
    i32_min() <= v <= i32_max()
}

/// The rectangle of the output a frame captures, in output coordinates: the whole output, or
/// the requested region (given in output coordinates) clipped to the output.  `None` when
/// the output has no geometry or the region misses it.
pub open spec fn spec_output_rect_for_frame(output_geom: Option<Rect>, capture: Option<Rect>) -> Option<(int, int, int, int)> {
    match output_geom {
        None => None,
        Some(g) => match capture {
            None => Some((0, 0, g.size.w as int, g.size.h as int)),
            Some(c) => {
                let moved = Rect {
                    loc: Point { x: (c.loc.x + g.loc.x) as i32, y: (c.loc.y + g.loc.y) as i32 },
                    size: c.size,
                };
                match g.spec_intersection(moved) {
                    Some(i) => Some((i.0 - g.loc.x, i.1 - g.loc.y, i.2, i.3)),
                    None => None,
                }
            },
        },
    }
}

pub open spec fn rect_tuple(r: Rect) -> (int, int, int, int) {
    (r.loc.x as int, r.loc.y as int, r.size.w as int, r.size.h as int)
}

/// Computes the captured rectangle.
pub fn output_rect_for_frame(output_geom: Option<Rect>, capture: Option<Rect>) -> (r: Option<Rect>)
    requires
        output_geom.is_some() ==> output_geom.unwrap().fits(),
        output_geom.is_some() && capture.is_some() ==> {
            let g = output_geom.unwrap();
            let c = capture.unwrap();
            &&& fits_i32(c.loc.x + g.loc.x)
            &&& fits_i32(c.loc.y + g.loc.y)
            &&& (Rect {
                loc: Point { x: (c.loc.x + g.loc.x) as i32, y: (c.loc.y + g.loc.y) as i32 },
                size: c.size,
            }).fits()
        },
    ensures
        match r {
            Some(rr) => spec_output_rect_for_frame(output_geom, capture) == Some(rect_tuple(rr)),
            None => spec_output_rect_for_frame(output_geom, capture).is_none(),
        },
{
    match output_geom {
        None => None,
        Some(g) => match capture {
            None => Some(Rect { loc: Point { x: 0, y: 0 }, size: g.size }),
            Some(c) => {
                let moved = Rect { loc: Point { x: c.loc.x + g.loc.x, y: c.loc.y + g.loc.y }, size: c.size };
                match g.intersection(&moved) {
                    Some(i) => {
                        proof {
                            let t = g.spec_intersection(moved).unwrap();
                            assert(t.0 >= g.loc.x && t.0 + t.2 <= g.right());
                            assert(t.1 >= g.loc.y && t.1 + t.3 <= g.bottom());
                        }
                        Some(Rect { loc: Point { x: i.loc.x - g.loc.x, y: i.loc.y - g.loc.y }, size: i.size })
                    },
                    None => None,
                }
            },
        },
    }
}

/// A capture in progress.
pub struct ScreencopyFrame {
    pub output_rect: Rect,
    pub buffer_size: Size,
    pub overlay_cursor: bool,
    pub should_send_damage: bool,
    pub finished: bool,
}

impl ScreencopyFrame {
    pub fn new(output_rect: Rect, buffer_size: Size, overlay_cursor: bool) -> (r: ScreencopyFrame)
        ensures
            r.output_rect == output_rect,
            r.buffer_size == buffer_size,
            r.overlay_cursor == overlay_cursor,
            !r.should_send_damage,
            !r.finished,
    {
        ScreencopyFrame { output_rect, buffer_size, overlay_cursor, should_send_damage: false, finished: false }
    }

    /// A copy was asked for; with damage, damage is reported to the client.
    pub fn request_copy(&mut self, with_damage: bool)
        ensures
            final(self).should_send_damage == (old(self).should_send_damage || with_damage),
            final(self).finished == old(self).finished,
            final(self).output_rect == old(self).output_rect,
            final(self).buffer_size == old(self).buffer_size,
            final(self).overlay_cursor == old(self).overlay_cursor,
    {
        if with_damage {
            self.should_send_damage = true;
        }
    }

    /// Whether flags are sent: only while the frame is not finished.
    pub fn may_send_flags(&self) -> (r: bool)
        ensures
            r == !self.finished,
    {
        !self.finished
    }

    /// Whether a damage event is sent to a frame object of `version`: only while unfinished,
    /// when damage was asked for, and when the object's version has the damage event (it
    /// exists since `damage_since`).
    pub fn may_send_damage(&self, version: u32, damage_since: u32) -> (r: bool)
        ensures
            r == (!self.finished && self.should_send_damage && version >= damage_since),
    {
        !self.finished && self.should_send_damage && version >= damage_since
    }

    /// Finishes the frame ("ready" or "failed"); says whether the event is sent.  A frame
    /// finishes once.
    pub fn finish(&mut self) -> (r: bool)
        ensures
            r == !old(self).finished,
            final(self).finished,
            final(self).output_rect == old(self).output_rect,
            final(self).buffer_size == old(self).buffer_size,
            final(self).overlay_cursor == old(self).overlay_cursor,
            final(self).should_send_damage == old(self).should_send_damage,
    {
        if self.finished {
            false
        } else {
            self.finished = true;
            true
        }
    }
}

/// The timestamp of a "ready" event: the seconds (low part) from the clock's milliseconds,
/// the nanoseconds from its microseconds.
pub fn ready_timestamp(millis: u32, micros: u64) -> (r: (u32, u32))
    ensures
        r.0 == millis / 1000,
        r.1 == (micros % 1_000_000) * 1000,
{
    let sec = millis / 1000;
    let sub = micros % 1_000_000;
    assert(sub * 1000 < 1_000_000_000) by (nonlinear_arith)
        requires
            sub < 1_000_000,
    ;
    let nsec = (sub * 1000) as u32;
    (sec, nsec)
}

} // verus!
