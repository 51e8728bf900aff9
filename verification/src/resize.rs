//! Interactive resizing: which edges move, the size the window is asked to take while the
//! pointer moves, where it must go when a top or left edge moved, and the handshake that ends
//! a resize.

use vstd::prelude::*;
use crate::geometry::{i32_max, i32_min, max_int, min_int, Point, Rect, Size};

verus! {

/// A set of window edges, as bits.
#[derive(Clone, Copy, Debug, PartialEq, Eq, Structural)]
pub struct ResizeEdge {
    pub bits: u32,
}

pub const EDGE_TOP: u32 = 1;
pub const EDGE_LEFT: u32 = 2;
pub const EDGE_RIGHT: u32 = 4;
pub const EDGE_BOTTOM: u32 = 8;

/// The eight edge sets a resize can use, besides the empty one.
pub open spec fn is_edge_combo(bits: u32) -> bool {
    bits == 1 || bits == 2 || bits == 4 || bits == 8 || bits == 3 || bits == 5 || bits == 10
        || bits == 12
}

impl ResizeEdge {
    pub open spec fn spec_intersects(self, mask: u32) -> bool {
        self.bits & mask != 0
    }

    pub fn intersects(&self, mask: u32) -> (r: bool)
        ensures
            r == self.spec_intersects(mask),
    {
        self.bits & mask != 0
    }

    pub open spec fn moves_left(self) -> bool {
        self.spec_intersects(EDGE_LEFT)
    }

    pub open spec fn moves_top(self) -> bool {
        self.spec_intersects(EDGE_TOP)
    }

    pub open spec fn moves_horizontally(self) -> bool {
        self.spec_intersects(EDGE_LEFT | EDGE_RIGHT)
    }

    pub open spec fn moves_vertically(self) -> bool {
        self.spec_intersects(EDGE_TOP | EDGE_BOTTOM)
    }

    /// The edge set for an `xdg_toplevel.resize_edge` value; unknown values move nothing.
    pub open spec fn spec_from_xdg(v: u32) -> ResizeEdge {
        ResizeEdge {
            bits: if v == 1 {
                EDGE_TOP
            } else if v == 2 {
                EDGE_BOTTOM
            } else if v == 4 {
                EDGE_LEFT
            } else if v == 5 {
                EDGE_TOP | EDGE_LEFT
            } else if v == 6 {
                EDGE_BOTTOM | EDGE_LEFT
            } else if v == 8 {
                EDGE_RIGHT
            } else if v == 9 {
                EDGE_TOP | EDGE_RIGHT
            } else if v == 10 {
                EDGE_BOTTOM | EDGE_RIGHT
            } else {
                0
            },
        }
    }

    pub fn from_xdg(v: u32) -> (r: ResizeEdge)
        ensures
            r == ResizeEdge::spec_from_xdg(v),
    {
        let bits = match v {
            1 => EDGE_TOP,
            2 => EDGE_BOTTOM,
            4 => EDGE_LEFT,
            5 => EDGE_TOP | EDGE_LEFT,
            6 => EDGE_BOTTOM | EDGE_LEFT,
            8 => EDGE_RIGHT,
            9 => EDGE_TOP | EDGE_RIGHT,
            10 => EDGE_BOTTOM | EDGE_RIGHT,
            _ => 0,
        };
        ResizeEdge { bits }
    }

    /// The `xdg_toplevel.resize_edge` value for an edge set; anything but a single edge or a
    /// corner is `none`.
    pub open spec fn spec_to_xdg(self) -> u32 {
        if self.bits == EDGE_TOP {
            1
        } else if self.bits == EDGE_LEFT {
            4
        } else if self.bits == EDGE_RIGHT {
            8
        } else if self.bits == EDGE_BOTTOM {
            2
        } else if self.bits == EDGE_TOP | EDGE_LEFT {
            5
        } else if self.bits == EDGE_TOP | EDGE_RIGHT {
            9
        } else if self.bits == EDGE_BOTTOM | EDGE_LEFT {
            6
        } else if self.bits == EDGE_BOTTOM | EDGE_RIGHT {
            10
        } else {
            0
        }
    }

    pub fn to_xdg(&self) -> (r: u32)
        ensures
            r == self.spec_to_xdg(),
    {
        if self.bits == EDGE_TOP {
            1
        } else if self.bits == EDGE_LEFT {
            4
        } else if self.bits == EDGE_RIGHT {
            8
        } else if self.bits == EDGE_BOTTOM {
            2
        } else if self.bits == EDGE_TOP | EDGE_LEFT {
            5
        } else if self.bits == EDGE_TOP | EDGE_RIGHT {
            9
        } else if self.bits == EDGE_BOTTOM | EDGE_LEFT {
            6
        } else if self.bits == EDGE_BOTTOM | EDGE_RIGHT {
            10
        } else {
            0
        }
    }

    /// The edge set for an X11 `_NET_WM_MOVERESIZE` edge.
    pub open spec fn spec_from_x11(e: X11ResizeEdge) -> ResizeEdge {
        ResizeEdge {
            bits: match e {
                X11ResizeEdge::Bottom => EDGE_BOTTOM,
                X11ResizeEdge::BottomLeft => EDGE_BOTTOM | EDGE_LEFT,
                X11ResizeEdge::BottomRight => EDGE_BOTTOM | EDGE_RIGHT,
                X11ResizeEdge::Left => EDGE_LEFT,
                X11ResizeEdge::Right => EDGE_RIGHT,
                X11ResizeEdge::Top => EDGE_TOP,
                X11ResizeEdge::TopLeft => EDGE_TOP | EDGE_LEFT,
                X11ResizeEdge::TopRight => EDGE_TOP | EDGE_RIGHT,
            },
        }
    }

    pub fn from_x11(e: X11ResizeEdge) -> (r: ResizeEdge)
        ensures
            r == ResizeEdge::spec_from_x11(e),
    {
        ResizeEdge {
            bits: match e {
                X11ResizeEdge::Bottom => EDGE_BOTTOM,
                X11ResizeEdge::BottomLeft => EDGE_BOTTOM | EDGE_LEFT,
                X11ResizeEdge::BottomRight => EDGE_BOTTOM | EDGE_RIGHT,
                X11ResizeEdge::Left => EDGE_LEFT,
                X11ResizeEdge::Right => EDGE_RIGHT,
                X11ResizeEdge::Top => EDGE_TOP,
                X11ResizeEdge::TopLeft => EDGE_TOP | EDGE_LEFT,
                X11ResizeEdge::TopRight => EDGE_TOP | EDGE_RIGHT,
            },
        }
    }
}

/// Which edges an edge set moves.
pub open spec fn moves(e: ResizeEdge, top: bool, bottom: bool, left: bool, right: bool) -> bool {
    &&& (e.bits & EDGE_TOP != 0) == top
    &&& (e.bits & EDGE_BOTTOM != 0) == bottom
    &&& (e.bits & EDGE_LEFT != 0) == left
    &&& (e.bits & EDGE_RIGHT != 0) == right
}

/// An `xdg_toplevel.resize_edge` value names its edges by bits: 1 top, 2 bottom, 4 left,
/// 8 right (a corner is the two bits together).  Each known value moves exactly the edges its
/// bits name; an unknown value moves none.
pub proof fn lemma_xdg_edges_by_bits(v: u32)
    ensures
        (v == 1 || v == 2 || v == 4 || v == 5 || v == 6 || v == 8 || v == 9 || v == 10) ==> moves(
            ResizeEdge::spec_from_xdg(v),
            v & 1 != 0,
            v & 2 != 0,
            v & 4 != 0,
            v & 8 != 0,
        ),
        !(v == 1 || v == 2 || v == 4 || v == 5 || v == 6 || v == 8 || v == 9 || v == 10) ==> moves(
            ResizeEdge::spec_from_xdg(v),
            false,
            false,
            false,
            false,
        ),
{
    let b = ResizeEdge::spec_from_xdg(v).bits;
    assert(v == 1 ==> b == 1);
    assert(v == 5 ==> b == (1u32 | 2u32));
    assert(v == 6 ==> b == (8u32 | 2u32));
    assert(v == 9 ==> b == (1u32 | 4u32));
    assert(v == 10 ==> b == (8u32 | 4u32));
    assert((v == 1 ==> b == 1) && (v == 2 ==> b == 8) && (v == 4 ==> b == 2) && (v == 5 ==> b == (1u32 | 2u32)) && (
    v == 6 ==> b == (8u32 | 2u32)) && (v == 8 ==> b == 4) && (v == 9 ==> b == (1u32 | 4u32)) && (v == 10 ==> b == (8u32
        | 4u32)) && (!(v == 1 || v == 2 || v == 4 || v == 5 || v == 6 || v == 8 || v == 9 || v == 10) ==> b == 0)
        ==> ((v == 1 || v == 2 || v == 4 || v == 5 || v == 6 || v == 8 || v == 9 || v == 10) ==> ((b & 1 != 0) == (v & 1
        != 0) && (b & 8 != 0) == (v & 2 != 0) && (b & 2 != 0) == (v & 4 != 0) && (b & 4 != 0) == (v & 8 != 0))) && (!(v
        == 1 || v == 2 || v == 4 || v == 5 || v == 6 || v == 8 || v == 9 || v == 10) ==> (b & 1 == 0 && b & 8 == 0 && b
        & 2 == 0 && b & 4 == 0))) by (bit_vector);
}

/// An X11 resize edge moves the edges its name says.
pub proof fn lemma_x11_edges_by_name(e: X11ResizeEdge)
    ensures
        moves(
            ResizeEdge::spec_from_x11(e),
            e == X11ResizeEdge::Top || e == X11ResizeEdge::TopLeft || e == X11ResizeEdge::TopRight,
            e == X11ResizeEdge::Bottom || e == X11ResizeEdge::BottomLeft || e == X11ResizeEdge::BottomRight,
            e == X11ResizeEdge::Left || e == X11ResizeEdge::TopLeft || e == X11ResizeEdge::BottomLeft,
            e == X11ResizeEdge::Right || e == X11ResizeEdge::TopRight || e == X11ResizeEdge::BottomRight,
        ),
{
    let b = ResizeEdge::spec_from_x11(e).bits;
    assert(b & 1 != 0 <==> (b == 1 || b == (1u32 | 2u32) || b == (1u32 | 4u32))) by (bit_vector)
        requires
            b == 1 || b == 2 || b == 4 || b == 8 || b == (1u32 | 2u32) || b == (1u32 | 4u32) || b == (8u32 | 2u32) || b
                == (8u32 | 4u32),
    ;
    assert(b & 8 != 0 <==> (b == 8 || b == (8u32 | 2u32) || b == (8u32 | 4u32))) by (bit_vector)
        requires
            b == 1 || b == 2 || b == 4 || b == 8 || b == (1u32 | 2u32) || b == (1u32 | 4u32) || b == (8u32 | 2u32) || b
                == (8u32 | 4u32),
    ;
    assert(b & 2 != 0 <==> (b == 2 || b == (1u32 | 2u32) || b == (8u32 | 2u32))) by (bit_vector)
        requires
            b == 1 || b == 2 || b == 4 || b == 8 || b == (1u32 | 2u32) || b == (1u32 | 4u32) || b == (8u32 | 2u32) || b
                == (8u32 | 4u32),
    ;
    assert(b & 4 != 0 <==> (b == 4 || b == (1u32 | 4u32) || b == (8u32 | 4u32))) by (bit_vector)
        requires
            b == 1 || b == 2 || b == 4 || b == 8 || b == (1u32 | 2u32) || b == (1u32 | 4u32) || b == (8u32 | 2u32) || b
                == (8u32 | 4u32),
    ;
    assert((1u32 | 2u32) != 1u32 && (1u32 | 2u32) != 2u32 && (1u32 | 4u32) != 4u32 && (8u32 | 2u32) != 8u32 && (8u32
        | 4u32) != 8u32 && (1u32 | 2u32) != (1u32 | 4u32) && (8u32 | 2u32) != (8u32 | 4u32) && (1u32 | 2u32) != (8u32
        | 2u32) && (1u32 | 4u32) != (8u32 | 4u32) && (1u32 | 2u32) != 4u32 && (1u32 | 2u32) != 8u32 && (1u32 | 4u32)
        != 1u32 && (1u32 | 4u32) != 2u32 && (1u32 | 4u32) != 8u32 && (8u32 | 2u32) != 1u32 && (8u32 | 2u32) != 2u32
        && (8u32 | 2u32) != 4u32 && (8u32 | 4u32) != 1u32 && (8u32 | 4u32) != 2u32 && (8u32 | 4u32) != 4u32 && (1u32
        | 2u32) != (8u32 | 4u32) && (1u32 | 4u32) != (8u32 | 2u32)) by (bit_vector);
}

/// The edge an X11 client asks to resize by.
#[derive(Clone, Copy, Debug, PartialEq, Eq, Structural)]
pub enum X11ResizeEdge {
    Top,
    Bottom,
    Left,
    TopLeft,
    BottomLeft,
    Right,
    TopRight,
    BottomRight,
}

/// Converting an edge set to the xdg value and back gives the same set.
pub proof fn lemma_xdg_edge_round_trip(e: ResizeEdge)
    requires
        is_edge_combo(e.bits),
    ensures
        ResizeEdge::spec_from_xdg(e.spec_to_xdg()) == e,
{
    assert(1u32 | 2u32 == 3u32 && 1u32 | 4u32 == 5u32 && 8u32 | 2u32 == 10u32 && 8u32 | 4u32 == 12u32)
        by (bit_vector);
}

/// Converting an xdg edge value to an edge set and back gives the same value.
pub proof fn lemma_edge_xdg_round_trip(v: u32)
    requires
        v <= 10,
        v != 3 && v != 7,
    ensures
        ResizeEdge::spec_from_xdg(v).spec_to_xdg() == v,
{
    assert(1u32 | 2u32 == 3u32 && 1u32 | 4u32 == 5u32 && 8u32 | 2u32 == 10u32 && 8u32 | 4u32 == 12u32)
        by (bit_vector);
}

/// A window size limit of zero means no limit; the least size is one.
pub open spec fn clamp_dim(v: int, min_v: int, max_v: int) -> int {
    let lo = max_int(min_v, 1);
    let hi = if max_v == 0 { i32_max() } else { max_v };
    min_int(max_int(v, lo), hi)
}

/// The limits on a dimension: at least the minimum and at least one; at most the maximum,
/// unless that is zero (no maximum).  A value within them is kept; a smaller one becomes the
/// least allowed; a larger one the maximum (the maximum wins over a minimum above it).
pub proof fn lemma_clamp_dim(v: i32, min_v: i32, max_v: i32)
    ensures
        ({
            let lo: int = if min_v > 1 { min_v as int } else { 1 };
            let r = clamp_dim(v as int, min_v as int, max_v as int);
            &&& lo <= v && (max_v == 0 || v <= max_v) && v <= i32_max() ==> r == v
            &&& max_v != 0 && v > max_v ==> r == max_v
            &&& v < lo && (max_v == 0 || lo <= max_v) ==> r == lo
            &&& max_v != 0 ==> r <= max_v
            &&& max_v == 0 ==> r >= lo
        }),
{
}

fn clamp_dim_exec(v: i32, min_v: i32, max_v: i32) -> (r: i32)
    ensures
        r == clamp_dim(v as int, min_v as int, max_v as int),
{
    let lo = if min_v >= 1 { min_v } else { 1 };
    let hi = if max_v == 0 { i32::MAX } else { max_v };
    let a = if v >= lo { v } else { lo };
    if a <= hi { a } else { hi }
}

/// The pointer's travel since the grab started, applied to the initial size in both
/// directions (the sum and difference, truncated to whole pixels).
#[derive(Clone, Copy, Debug, PartialEq, Eq, Structural)]
pub struct ResizeMotion {
    pub width_plus: i32,
    pub width_minus: i32,
    pub height_plus: i32,
    pub height_minus: i32,
}

/// The size asked of the window while the pointer moves: edges that move change the size by
/// the pointer's travel (against it for the left and top edges), then the client's minimum and
/// maximum sizes apply.
pub open spec fn spec_resize_target(edges: ResizeEdge, initial: Size, m: ResizeMotion, min: Size, max: Size) -> (int, int) {
    let w: int = if edges.moves_horizontally() {
        if edges.moves_left() { m.width_minus as int } else { m.width_plus as int }
    } else {
        initial.w as int
    };
    let h: int = if edges.moves_vertically() {
        if edges.moves_top() { m.height_minus as int } else { m.height_plus as int }
    } else {
        initial.h as int
    };
    (clamp_dim(w, min.w as int, max.w as int), clamp_dim(h, min.h as int, max.h as int))
}

/// Dragging the top edge sizes the window by the pointer's travel against it (`height_minus`:
/// dragging up grows it), the bottom edge by the travel with it (`height_plus`); likewise left
/// (`width_minus`) and right (`width_plus`).  A dimension no moving edge touches keeps its
/// initial size.  The client's limits then apply: a travelled size within them is taken as is.
pub proof fn lemma_resize_follows_dragged_edges(edges: ResizeEdge, initial: Size, m: ResizeMotion, min: Size, max: Size)
    ensures
        ({
            let r = spec_resize_target(edges, initial, m, min, max);
            &&& edges.bits & EDGE_TOP != 0 ==> r.1 == clamp_dim(m.height_minus as int, min.h as int, max.h as int)
            &&& edges.bits & EDGE_TOP == 0 && edges.bits & EDGE_BOTTOM != 0 ==> r.1 == clamp_dim(
                m.height_plus as int,
                min.h as int,
                max.h as int,
            )
            &&& edges.bits & EDGE_TOP == 0 && edges.bits & EDGE_BOTTOM == 0 ==> r.1 == clamp_dim(
                initial.h as int,
                min.h as int,
                max.h as int,
            )
            &&& edges.bits & EDGE_LEFT != 0 ==> r.0 == clamp_dim(m.width_minus as int, min.w as int, max.w as int)
            &&& edges.bits & EDGE_LEFT == 0 && edges.bits & EDGE_RIGHT != 0 ==> r.0 == clamp_dim(
                m.width_plus as int,
                min.w as int,
                max.w as int,
            )
            &&& edges.bits & EDGE_LEFT == 0 && edges.bits & EDGE_RIGHT == 0 ==> r.0 == clamp_dim(
                initial.w as int,
                min.w as int,
                max.w as int,
            )
        }),
        edges.bits & EDGE_TOP != 0 && 1 <= min.h <= m.height_minus && (max.h == 0 || m.height_minus <= max.h)
            ==> spec_resize_target(edges, initial, m, min, max).1 == m.height_minus,
        edges.bits & EDGE_LEFT != 0 && 1 <= min.w <= m.width_minus && (max.w == 0 || m.width_minus <= max.w)
            ==> spec_resize_target(edges, initial, m, min, max).0 == m.width_minus,
{
    let b = edges.bits;
    assert(b & 1 != 0 ==> b & (1u32 | 8u32) != 0) by (bit_vector);
    assert(b & 1 == 0 && b & 8 != 0 ==> b & (1u32 | 8u32) != 0) by (bit_vector);
    assert(b & 1 == 0 && b & 8 == 0 ==> b & (1u32 | 8u32) == 0) by (bit_vector);
    assert(b & 2 != 0 ==> b & (2u32 | 4u32) != 0) by (bit_vector);
    assert(b & 2 == 0 && b & 4 != 0 ==> b & (2u32 | 4u32) != 0) by (bit_vector);
    assert(b & 2 == 0 && b & 4 == 0 ==> b & (2u32 | 4u32) == 0) by (bit_vector);
}

pub fn resize_target_size(edges: ResizeEdge, initial: Size, m: ResizeMotion, min: Size, max: Size) -> (r: Size)
    ensures
        (r.w as int, r.h as int) == spec_resize_target(edges, initial, m, min, max),
        edges.bits & EDGE_TOP != 0 ==> r.h == clamp_dim(m.height_minus as int, min.h as int, max.h as int),
        edges.bits & EDGE_TOP == 0 && edges.bits & EDGE_BOTTOM != 0 ==> r.h == clamp_dim(
            m.height_plus as int,
            min.h as int,
            max.h as int,
        ),
        edges.bits & EDGE_LEFT != 0 ==> r.w == clamp_dim(m.width_minus as int, min.w as int, max.w as int),
        edges.bits & EDGE_LEFT == 0 && edges.bits & EDGE_RIGHT != 0 ==> r.w == clamp_dim(
            m.width_plus as int,
            min.w as int,
            max.w as int,
        ),
        edges.bits & EDGE_TOP != 0 && 1 <= min.h <= m.height_minus && (max.h == 0 || m.height_minus <= max.h)
            ==> r.h == m.height_minus,
{
    proof {
        lemma_resize_follows_dragged_edges(edges, initial, m, min, max);
    }
    let w = if edges.intersects(EDGE_LEFT | EDGE_RIGHT) {
        if edges.intersects(EDGE_LEFT) { m.width_minus } else { m.width_plus }
    } else {
        initial.w
    };
    let h = if edges.intersects(EDGE_TOP | EDGE_BOTTOM) {
        if edges.intersects(EDGE_TOP) { m.height_minus } else { m.height_plus }
    } else {
        initial.h
    };
    Size { w: clamp_dim_exec(w, min.w, max.w), h: clamp_dim_exec(h, min.h, max.h) }
}

/// What a resize started from.
#[derive(Clone, Copy, Debug, PartialEq, Eq, Structural)]
pub struct ResizeData {
    pub edges: ResizeEdge,
    pub initial_window_location: Point,
    pub initial_window_size: Size,
}

/// Where a resize stands.
#[derive(Clone, Copy, Debug, PartialEq, Eq, Structural)]
pub enum ResizeState {
    NotResizing,
    Resizing(ResizeData),
    /// The grab ended; the client must ack the configure with this serial, for this size.
    WaitingForFinalAck(ResizeData, u32, Size),
    /// The client acked; it must commit a buffer of this size.
    WaitingForCommit(ResizeData, Size),
}

/// `a >= b` for serials that wrap around: far-apart serials compare the other way.
pub open spec fn serial_ge(a: u32, b: u32) -> bool {
    let d: int = if a > b { a - b } else { b - a };
    if d < 0x7fff_ffff { a >= b } else { b >= a }
}

pub fn serial_ge_exec(a: u32, b: u32) -> (r: bool)
    ensures
        r == serial_ge(a, b),
{
    let d = if a > b { a - b } else { b - a };
    if d < u32::MAX / 2 { a >= b } else { b >= a }
}

impl ResizeState {
    /// The pointer or touch point was released after a resize of an xdg window.
    pub open spec fn spec_released(self, serial: u32, last_size: Size) -> ResizeState {
        match self {
            ResizeState::Resizing(d) => ResizeState::WaitingForFinalAck(d, serial, last_size),
            _ => self,
        }
    }

    pub fn released(self, serial: u32, last_size: Size) -> (r: ResizeState)
        requires
            self is Resizing,
        ensures
            r == self.spec_released(serial, last_size),
    {
        match self {
            ResizeState::Resizing(d) => ResizeState::WaitingForFinalAck(d, serial, last_size),
            _ => self,
        }
    }

    /// The grab of an X11 window was released; X11 resizes and moves in one step.
    pub open spec fn spec_released_x11(self, last_size: Size) -> ResizeState {
        match self {
            ResizeState::Resizing(d) => ResizeState::WaitingForCommit(d, last_size),
            _ => self,
        }
    }

    pub fn released_x11(self, last_size: Size) -> (r: ResizeState)
        requires
            self is Resizing,
        ensures
            r == self.spec_released_x11(last_size),
    {
        match self {
            ResizeState::Resizing(d) => ResizeState::WaitingForCommit(d, last_size),
            _ => self,
        }
    }

    /// The client acked a configure.  The final one ends the wait when its serial is not older
    /// than the one sent and the last state the client acked was still resizing.
    pub open spec fn spec_acked(self, serial: u32, acked_resizing: bool) -> ResizeState {
        match self {
            ResizeState::WaitingForFinalAck(d, s, target) => if serial_ge(serial, s) && acked_resizing {
                ResizeState::WaitingForCommit(d, target)
            } else {
                self
            },
            _ => self,
        }
    }

    pub fn acked(self, serial: u32, acked_resizing: bool) -> (r: ResizeState)
        ensures
            r == self.spec_acked(serial, acked_resizing),
    {
        match self {
            ResizeState::WaitingForFinalAck(d, s, target) => if serial_ge_exec(serial, s) && acked_resizing {
                ResizeState::WaitingForCommit(d, target)
            } else {
                self
            },
            _ => self,
        }
    }

    /// An xdg window committed with this size.  The resize ends when the committed size is
    /// the target; the data of a resize in progress is handed back.
    pub open spec fn spec_committed(self, committed: Size) -> (ResizeState, Option<ResizeData>) {
        match self {
            ResizeState::Resizing(d) => (self, Some(d)),
            ResizeState::WaitingForCommit(d, target) => (
                if committed == target { ResizeState::NotResizing } else { self },
                Some(d),
            ),
            _ => (self, None),
        }
    }

    pub fn committed(self, committed: Size) -> (r: (ResizeState, Option<ResizeData>))
        ensures
            r == self.spec_committed(committed),
    {
        match self {
            ResizeState::Resizing(d) => (self, Some(d)),
            ResizeState::WaitingForCommit(d, target) => (
                if committed == target { ResizeState::NotResizing } else { self },
                Some(d),
            ),
            _ => (self, None),
        }
    }

    /// An X11 window committed: a resize waiting for it is over.
    pub open spec fn spec_committed_x11(self) -> ResizeState {
        match self {
            ResizeState::WaitingForCommit(_, _) => ResizeState::NotResizing,
            _ => self,
        }
    }

    pub fn committed_x11(self) -> (r: ResizeState)
        ensures
            r == self.spec_committed_x11(),
    {
        match self {
            ResizeState::WaitingForCommit(_, _) => ResizeState::NotResizing,
            _ => self,
        }
    }
}

/// A resize of an xdg window ends once its release is acked and the target size committed.
pub proof fn lemma_resize_handshake_ends(d: ResizeData, serial: u32, ack_serial: u32, size: Size)
    requires
        serial_ge(ack_serial, serial),
    ensures
        ResizeState::Resizing(d).spec_released(serial, size).spec_acked(ack_serial, true).spec_committed(
            size,
        ).0 == ResizeState::NotResizing,
{
}

/// A commit of any other size leaves the handshake waiting, and no other event ends a
/// resize that has not been released.
pub proof fn lemma_resize_waits_for_target(d: ResizeData, target: Size, committed: Size, serial: u32, acked: bool)
    requires
        committed != target,
    ensures
        ResizeState::WaitingForCommit(d, target).spec_committed(committed).0 == ResizeState::WaitingForCommit(
            d,
            target,
        ),
        ResizeState::Resizing(d).spec_acked(serial, acked) == ResizeState::Resizing(d),
        ResizeState::Resizing(d).spec_committed(committed).0 == ResizeState::Resizing(d),
{
}

/// Where a window's frame must go when a resize moved its left or top edge, so that the
/// opposite edges stay put: `None` when neither moved.  An axis whose edge did not move keeps
/// the current coordinate.
pub open spec fn spec_resized_location(
    d: ResizeData,
    current: Point,
    inner: Size,
    decorations_offset: Point,
) -> Option<(int, int)> {
    let e = d.edges;
    if !e.spec_intersects(EDGE_TOP | EDGE_LEFT) {
        None
    } else {
        let x = if e.moves_left() {
            d.initial_window_location.x + (d.initial_window_size.w - inner.w) - decorations_offset.x
        } else {
            current.x as int
        };
        let y = if e.moves_top() {
            d.initial_window_location.y + (d.initial_window_size.h - inner.h) - decorations_offset.y
        } else {
            current.y as int
        };
        Some((x, y))
    }
}

/// Whether the location arithmetic of `resized_location` stays in `i32`.
pub open spec fn resized_location_fits(d: ResizeData, inner: Size, decorations_offset: Point) -> bool {
    &&& i32_min() <= d.initial_window_size.w - inner.w <= i32_max()
    &&& i32_min() <= d.initial_window_location.x + (d.initial_window_size.w - inner.w) <= i32_max()
    &&& i32_min() <= d.initial_window_location.x + (d.initial_window_size.w - inner.w)
        - decorations_offset.x <= i32_max()
    &&& i32_min() <= d.initial_window_size.h - inner.h <= i32_max()
    &&& i32_min() <= d.initial_window_location.y + (d.initial_window_size.h - inner.h) <= i32_max()
    &&& i32_min() <= d.initial_window_location.y + (d.initial_window_size.h - inner.h)
        - decorations_offset.y <= i32_max()
}

/// A resize that moved the left edge keeps the right edge where it started: the window's new
/// left side (its location plus the decorations' offset) plus its new width is the initial
/// right side.  Likewise the top edge keeps the bottom edge in place.  An axis whose near edge
/// did not move keeps its coordinate; with neither near edge moved the window stays.
pub proof fn lemma_resize_keeps_far_edges(d: ResizeData, current: Point, inner: Size, decorations_offset: Point)
    ensures
        d.edges.bits & (EDGE_TOP | EDGE_LEFT) == 0 ==> spec_resized_location(d, current, inner, decorations_offset)
            is None,
        d.edges.bits & EDGE_LEFT != 0 ==> (spec_resized_location(d, current, inner, decorations_offset) matches Some(
            (x, y),
        ) && x + decorations_offset.x + inner.w == d.initial_window_location.x + d.initial_window_size.w),
        d.edges.bits & EDGE_TOP != 0 ==> (spec_resized_location(d, current, inner, decorations_offset) matches Some(
            (x, y),
        ) && y + decorations_offset.y + inner.h == d.initial_window_location.y + d.initial_window_size.h),
        d.edges.bits & EDGE_LEFT == 0 && d.edges.bits & EDGE_TOP != 0 ==> (spec_resized_location(
            d,
            current,
            inner,
            decorations_offset,
        ) matches Some((x, y)) && x == current.x),
        d.edges.bits & EDGE_TOP == 0 && d.edges.bits & EDGE_LEFT != 0 ==> (spec_resized_location(
            d,
            current,
            inner,
            decorations_offset,
        ) matches Some((x, y)) && y == current.y),
{
    let b = d.edges.bits;
    assert(b & 1 != 0 ==> b & (1u32 | 2u32) != 0) by (bit_vector);
    assert(b & 2 != 0 ==> b & (1u32 | 2u32) != 0) by (bit_vector);
}

/// The final ack ends the wait only when it is for the configure sent at release (or later)
/// and the client still acked a resizing state; otherwise the handshake keeps waiting.
pub proof fn lemma_final_ack_needs_serial(d: ResizeData, sent: u32, target: Size, serial: u32, acked_resizing: bool)
    ensures
        serial_ge(serial, sent) && acked_resizing ==> ResizeState::WaitingForFinalAck(d, sent, target).spec_acked(
            serial,
            acked_resizing,
        ) == ResizeState::WaitingForCommit(d, target),
        !(serial_ge(serial, sent) && acked_resizing) ==> ResizeState::WaitingForFinalAck(d, sent, target).spec_acked(
            serial,
            acked_resizing,
        ) == ResizeState::WaitingForFinalAck(d, sent, target),
        serial_ge(sent, sent),
        sent < 0x7fff_ffff ==> serial_ge((sent + 1) as u32, sent) && !serial_ge(sent, (sent + 1) as u32),
{
}

pub fn resized_location(d: ResizeData, current: Point, inner: Size, decorations_offset: Point) -> (r: Option<Point>)
    requires
        resized_location_fits(d, inner, decorations_offset),
    ensures
        d.edges.bits & EDGE_LEFT != 0 ==> (r matches Some(p) && p.x + decorations_offset.x + inner.w
            == d.initial_window_location.x + d.initial_window_size.w),
        d.edges.bits & EDGE_TOP != 0 ==> (r matches Some(p) && p.y + decorations_offset.y + inner.h
            == d.initial_window_location.y + d.initial_window_size.h),
        match spec_resized_location(d, current, inner, decorations_offset) {
            None => r.is_none(),
            Some((x, y)) => r == Some(Point { x: x as i32, y: y as i32 }),
        },
{
    proof {
        lemma_resize_keeps_far_edges(d, current, inner, decorations_offset);
    }
    let e = d.edges;
    if !e.intersects(EDGE_TOP | EDGE_LEFT) {
        return None;
    }
    let x = if e.intersects(EDGE_LEFT) {
        d.initial_window_location.x + (d.initial_window_size.w - inner.w) - decorations_offset.x
    } else {
        current.x
    };
    let y = if e.intersects(EDGE_TOP) {
        d.initial_window_location.y + (d.initial_window_size.h - inner.h) - decorations_offset.y
    } else {
        current.y
    };
    Some(Point { x, y })
}

/// An X11 client's configure request: the size may change, the position may not.
pub open spec fn spec_x11_configure(geo: Rect, w: Option<u32>, h: Option<u32>) -> Rect {
    Rect {
        loc: geo.loc,
        size: Size {
            w: match w {
                Some(w) => w as i32,
                None => geo.size.w,
            },
            h: match h {
                Some(h) => h as i32,
                None => geo.size.h,
            },
        },
    }
}

pub fn x11_configure_request_geometry(geo: Rect, w: Option<u32>, h: Option<u32>) -> (r: Rect)
    ensures
        r == spec_x11_configure(geo, w, h),
{
    let mut g = geo;
    if let Some(w) = w {
        g.size.w = w as i32;
    }
    if let Some(h) = h {
        g.size.h = h as i32;
    }
    g
}


/// What started an interactive move or resize.
#[derive(Clone, Copy, Debug, PartialEq, Eq, Structural)]
pub enum GrabTrigger {
    Pointer,
    Touch,
}

} // verus!
