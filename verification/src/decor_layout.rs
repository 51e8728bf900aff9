//! Placement of the frame pieces, titlebar buttons and title of a decorated window.

use vstd::prelude::*;
use crate::geometry::{i32_max, i32_min, max_int, min_int, rv, rv_zero, Point, Rect, RectView, Size};
use crate::decorations::{ButtonToggledStates, TitleAlignment, TitlebarButton, TOGGLED_MAXIMIZE, TOGGLED_SHADE, TOGGLED_STICK};

verus! {

/// Magnitude that every theme size and offset fed to the layout stays within: 2^20 pixels,
/// far beyond any theme's textures and offsets.  Together with `MAX_WINDOW_DIM` it keeps every
/// coordinate the layout computes within `i32`, as the layout's arithmetic is `i32` throughout.
pub open spec fn lim(v: int) -> bool {
    -0x10_0000 <= v <= 0x10_0000
}

/// A coordinate the layout produces: it must fit the rectangles' `i32`.
pub open spec fn big(v: int) -> bool {
    i32_min() <= v <= i32_max()
}

/// The largest window width or height laid out.  The title text can sit as far as about twice
/// the frame's width from its origin (a right-aligned title over the full width), and every
/// coordinate is an `i32`; windows up to this size keep all of them in range.
pub const MAX_WINDOW_DIM: i32 = 0x3800_0000;

/// A window size the layout accepts: one that is not positive on both axes is never laid out,
/// any other stays within `MAX_WINDOW_DIM`.
pub open spec fn window_size_ok(s: Size) -> bool {
    s.w <= 0 || s.h <= 0 || (s.w <= MAX_WINDOW_DIM && s.h <= MAX_WINDOW_DIM)
}

/// A window size being laid out.
pub open spec fn win_lim(s: Size) -> bool {
    0 <= s.w <= MAX_WINDOW_DIM && 0 <= s.h <= MAX_WINDOW_DIM
}

/// A texture size: never negative, and within 2^20 pixels (see `lim`).
pub open spec fn size_lim(s: Size) -> bool {
    0 <= s.w <= 0x10_0000 && 0 <= s.h <= 0x10_0000
}

/// Division by a positive number, rounding toward zero as Rust does.
pub open spec fn div_trunc(a: int, d: int) -> int {
    if a >= 0 { a / d } else { -((-a) / d) }
}

fn div_trunc_exec(a: i64, d: i64) -> (r: i64)
    requires
        0 < d <= 10,
        -0x4000_0000_0000 <= a <= 0x4000_0000_0000,
    ensures
        r == div_trunc(a as int, d as int),
        a >= 0 ==> 0 <= r <= a,
        a < 0 ==> a <= r <= 0,
{
    if a >= 0 {
        a / d
    } else {
        -((-a) / d)
    }
}

fn to_rect(x: i64, y: i64, w: i64, h: i64) -> (r: Rect)
    requires
        big(x as int),
        big(y as int),
        big(w as int),
        big(h as int),
    ensures
        r@ == rv(x as int, y as int, w as int, h as int),
{
    Rect::new(x as i32, y as i32, w as i32, h as i32)
}

/// How the title background of the theme is built.
#[derive(Clone, Copy, Debug, PartialEq, Eq, Structural)]
pub enum TitleBackground {
    /// One texture stretched over the whole top edge.
    Stretched,
    /// Five pieces; the second and fourth have fixed widths and the top strip may have its own height.
    FivePart { title2_w: i32, title4_w: i32, top3_h: Option<i32> },
}

/// Texture sizes of the frame, for the window's current background state.
#[derive(Clone, Copy, Debug, PartialEq, Eq, Structural)]
pub struct FrameMetrics {
    pub left_w: i32,
    pub right_w: i32,
    pub top_h: i32,
    pub bottom_h: i32,
    pub top_left: Size,
    pub top_right: Size,
    pub bottom_left: Size,
    pub bottom_right: Size,
    pub title: TitleBackground,
}

impl FrameMetrics {
    pub open spec fn bounded(self) -> bool {
        &&& lim(self.left_w as int) && lim(self.right_w as int)
        &&& lim(self.top_h as int) && lim(self.bottom_h as int)
        &&& size_lim(self.top_left) && size_lim(self.top_right)
        &&& size_lim(self.bottom_left) && size_lim(self.bottom_right)
        &&& match self.title {
            TitleBackground::Stretched => true,
            TitleBackground::FivePart { title2_w, title4_w, top3_h } => lim(title2_w as int) && lim(
                title4_w as int,
            ) && (top3_h matches Some(t) ==> lim(t as int)),
        }
    }
}

/// Texture sizes of the six buttons in their current names and states.
#[derive(Clone, Copy, Debug, PartialEq, Eq, Structural)]
pub struct ButtonSizes {
    pub menu: Size,
    pub hide: Size,
    pub stick: Size,
    pub shade: Size,
    pub close: Size,
    pub maximize: Size,
}

impl ButtonSizes {
    pub open spec fn bounded(self) -> bool {
        &&& size_lim(self.menu) && size_lim(self.hide) && size_lim(self.stick)
        &&& size_lim(self.shade) && size_lim(self.close) && size_lim(self.maximize)
    }

    pub open spec fn of(self, b: TitlebarButton) -> Size {
        match b {
            TitlebarButton::Menu => self.menu,
            TitlebarButton::Hide => self.hide,
            TitlebarButton::Stick => self.stick,
            TitlebarButton::Shade => self.shade,
            TitlebarButton::Close => self.close,
            _ => self.maximize,
        }
    }

    pub fn get(&self, b: TitlebarButton) -> (s: Size)
        ensures
            s == self.of(b),
    {
        match b {
            TitlebarButton::Menu => self.menu,
            TitlebarButton::Hide => self.hide,
            TitlebarButton::Stick => self.stick,
            TitlebarButton::Shade => self.shade,
            TitlebarButton::Close => self.close,
            _ => self.maximize,
        }
    }
}

/// The user's titlebar settings that the layout reads.
#[derive(Debug)]
pub struct LayoutConfig {
    pub frame_border_top: i32,
    pub borderless_maximize: bool,
    pub maximized_offset: i32,
    pub button_offset: i32,
    pub button_spacing: i32,
    pub title_vertical_offset_active: i32,
    pub title_vertical_offset_inactive: i32,
    pub title_horizontal_offset: i32,
    pub title_shadow_active: i32,
    pub title_shadow_inactive: i32,
    pub full_width_title: bool,
    pub title_alignment: TitleAlignment,
    pub button_layout_start: Vec<TitlebarButton>,
    pub button_layout_end: Vec<TitlebarButton>,
}

impl LayoutConfig {
    pub open spec fn bounded(self) -> bool {
        &&& lim(self.frame_border_top as int)
        &&& lim(self.maximized_offset as int) && lim(self.button_offset as int)
        &&& 0 <= self.button_spacing <= 0x10_0000
        &&& lim(self.title_vertical_offset_active as int)
        &&& lim(self.title_vertical_offset_inactive as int)
        &&& lim(self.title_horizontal_offset as int)
        &&& lim(self.title_shadow_active as int) && lim(self.title_shadow_inactive as int)
        &&& forall|i: int|
            0 <= i < self.button_layout_start@.len() ==> self.button_layout_start@[i]
                != TitlebarButton::SideSeparator
        &&& forall|i: int|
            0 <= i < self.button_layout_end@.len() ==> self.button_layout_end@[i]
                != TitlebarButton::SideSeparator
    }
}

/// The seven frame pieces around the window.
pub struct FrameView {
    pub top_left: RectView,
    pub top_right: RectView,
    pub bottom: RectView,
    pub bottom_left: RectView,
    pub bottom_right: RectView,
    pub left: RectView,
    pub right: RectView,
}

/// Frame width including the side pieces.
pub open spec fn total_w(win: Size, m: FrameMetrics) -> int {
    m.left_w + win.w + m.right_w
}

/// Frame height including the titlebar and bottom piece; a shaded window has no body.
pub open spec fn total_h(win: Size, m: FrameMetrics, shaded: bool) -> int {
    m.top_h + m.bottom_h + if shaded { 0 } else { win.h as int }
}

/// Where the frame pieces go.  A maximized window under borderless maximize has none; a shaded
/// window has no side pieces.
pub open spec fn spec_frame(win: Size, m: FrameMetrics, t: ButtonToggledStates, borderless: bool) -> FrameView {
    let tw = total_w(win, m);
    let th = total_h(win, m, t.shaded());
    if t.maximized() && borderless {
        FrameView {
            top_left: rv_zero(),
            top_right: rv_zero(),
            bottom: rv_zero(),
            bottom_left: rv_zero(),
            bottom_right: rv_zero(),
            left: rv_zero(),
            right: rv_zero(),
        }
    } else {
        FrameView {
            top_left: rv(0, 0, m.top_left.w as int, m.top_left.h as int),
            top_right: rv(tw - m.top_right.w, 0, m.top_right.w as int, m.top_right.h as int),
            bottom_left: rv(0, th - m.bottom_left.h, m.bottom_left.w as int, m.bottom_left.h as int),
            bottom_right: rv(
                tw - m.bottom_right.w,
                th - m.bottom_right.h,
                m.bottom_right.w as int,
                m.bottom_right.h as int,
            ),
            bottom: rv(
                m.bottom_left.w as int,
                th - m.bottom_h,
                tw - m.bottom_left.w - m.bottom_right.w,
                m.bottom_h as int,
            ),
            left: if t.shaded() {
                rv_zero()
            } else {
                rv(0, m.top_h as int, m.left_w as int, win.h + m.bottom_h - m.bottom_left.h)
            },
            right: if t.shaded() {
                rv_zero()
            } else {
                rv(tw - m.right_w, m.top_h as int, m.right_w as int, win.h + m.bottom_h - m.bottom_right.h)
            },
        }
    }
}

/// The seven frame pieces, as rectangles.
#[derive(Clone, Copy, Debug, PartialEq, Eq, Structural)]
pub struct FrameRects {
    pub top_left: Rect,
    pub top_right: Rect,
    pub bottom: Rect,
    pub bottom_left: Rect,
    pub bottom_right: Rect,
    pub left: Rect,
    pub right: Rect,
}

impl View for FrameRects {
    type V = FrameView;

    open spec fn view(&self) -> FrameView {
        FrameView {
            top_left: self.top_left@,
            top_right: self.top_right@,
            bottom: self.bottom@,
            bottom_left: self.bottom_left@,
            bottom_right: self.bottom_right@,
            left: self.left@,
            right: self.right@,
        }
    }
}

fn frame_rects(win: Size, m: &FrameMetrics, t: ButtonToggledStates, borderless: bool) -> (r: FrameRects)
    requires
        win_lim(win),
        m.bounded(),
    ensures
        r@ == spec_frame(win, *m, t, borderless),
{
    let z = Rect::zero();
    if t.contains(TOGGLED_MAXIMIZE) && borderless {
        return FrameRects {
            top_left: z,
            top_right: z,
            bottom: z,
            bottom_left: z,
            bottom_right: z,
            left: z,
            right: z,
        };
    }
    let shaded = t.contains(TOGGLED_SHADE);
    let tw: i64 = m.left_w as i64 + win.w as i64 + m.right_w as i64;
    let th: i64 = m.top_h as i64 + m.bottom_h as i64 + if shaded { 0i64 } else { win.h as i64 };
    let tl = m.top_left;
    let tr = m.top_right;
    let bl = m.bottom_left;
    let br = m.bottom_right;
    let left = if shaded {
        z
    } else {
        to_rect(0, m.top_h as i64, m.left_w as i64, win.h as i64 + m.bottom_h as i64 - bl.h as i64)
    };
    let right = if shaded {
        z
    } else {
        to_rect(
            tw - m.right_w as i64,
            m.top_h as i64,
            m.right_w as i64,
            win.h as i64 + m.bottom_h as i64 - br.h as i64,
        )
    };
    FrameRects {
        top_left: to_rect(0, 0, tl.w as i64, tl.h as i64),
        top_right: to_rect(tw - tr.w as i64, 0, tr.w as i64, tr.h as i64),
        bottom_left: to_rect(0, th - bl.h as i64, bl.w as i64, bl.h as i64),
        bottom_right: to_rect(tw - br.w as i64, th - br.h as i64, br.w as i64, br.h as i64),
        bottom: to_rect(bl.w as i64, th - m.bottom_h as i64, tw - bl.w as i64 - br.w as i64, m.bottom_h as i64),
        left,
        right,
    }
}


/// Which of the six buttons have been placed.
#[derive(Clone, Copy, Debug, PartialEq, Eq, Structural)]
pub struct ButtonSet {
    pub menu: bool,
    pub hide: bool,
    pub stick: bool,
    pub shade: bool,
    pub close: bool,
    pub maximize: bool,
}

impl ButtonSet {
    pub open spec fn empty_set() -> ButtonSet {
        ButtonSet { menu: false, hide: false, stick: false, shade: false, close: false, maximize: false }
    }

    pub open spec fn has(self, b: TitlebarButton) -> bool {
        match b {
            TitlebarButton::Menu => self.menu,
            TitlebarButton::Hide => self.hide,
            TitlebarButton::Stick => self.stick,
            TitlebarButton::Shade => self.shade,
            TitlebarButton::Close => self.close,
            _ => self.maximize,
        }
    }

    pub open spec fn spec_insert(self, b: TitlebarButton) -> ButtonSet {
        match b {
            TitlebarButton::Menu => ButtonSet { menu: true, ..self },
            TitlebarButton::Hide => ButtonSet { hide: true, ..self },
            TitlebarButton::Stick => ButtonSet { stick: true, ..self },
            TitlebarButton::Shade => ButtonSet { shade: true, ..self },
            TitlebarButton::Close => ButtonSet { close: true, ..self },
            _ => ButtonSet { maximize: true, ..self },
        }
    }

    fn insert(&mut self, b: TitlebarButton)
        ensures
            *final(self) == old(self).spec_insert(b),
    {
        match b {
            TitlebarButton::Menu => self.menu = true,
            TitlebarButton::Hide => self.hide = true,
            TitlebarButton::Stick => self.stick = true,
            TitlebarButton::Shade => self.shade = true,
            TitlebarButton::Close => self.close = true,
            _ => self.maximize = true,
        }
    }
}

/// Extents of the six buttons.
pub struct ButtonsView {
    pub menu: RectView,
    pub hide: RectView,
    pub stick: RectView,
    pub shade: RectView,
    pub close: RectView,
    pub maximize: RectView,
}

pub open spec fn buttons_zero() -> ButtonsView {
    ButtonsView {
        menu: rv_zero(),
        hide: rv_zero(),
        stick: rv_zero(),
        shade: rv_zero(),
        close: rv_zero(),
        maximize: rv_zero(),
    }
}

pub open spec fn buttons_set(b: ButtonsView, which: TitlebarButton, r: RectView) -> ButtonsView {
    match which {
        TitlebarButton::Menu => ButtonsView { menu: r, ..b },
        TitlebarButton::Hide => ButtonsView { hide: r, ..b },
        TitlebarButton::Stick => ButtonsView { stick: r, ..b },
        TitlebarButton::Shade => ButtonsView { shade: r, ..b },
        TitlebarButton::Close => ButtonsView { close: r, ..b },
        _ => ButtonsView { maximize: r, ..b },
    }
}

pub open spec fn buttons_get(b: ButtonsView, which: TitlebarButton) -> RectView {
    match which {
        TitlebarButton::Menu => b.menu,
        TitlebarButton::Hide => b.hide,
        TitlebarButton::Stick => b.stick,
        TitlebarButton::Shade => b.shade,
        TitlebarButton::Close => b.close,
        _ => b.maximize,
    }
}

/// A button's extents, vertically centred in the titlebar.
pub open spec fn button_rect(x: int, s: Size, top_h: int) -> RectView {
    rv(x, div_trunc(top_h - s.h + 1, 2), s.w as int, s.h as int)
}

/// Buttons at the start of the titlebar, placed left to right while they fit before `right`.
/// Yields the extents, the placed buttons and the next free x.
pub open spec fn start_pass(
    seq: Seq<TitlebarButton>,
    bs: ButtonSizes,
    x0: int,
    right: int,
    sp: int,
    top_h: int,
    i: nat,
) -> (ButtonsView, ButtonSet, int)
    decreases i,
{
    if i == 0 || i > seq.len() {
        (buttons_zero(), ButtonSet::empty_set(), x0)
    } else {
        let (b, v, x) = start_pass(seq, bs, x0, right, sp, top_h, (i - 1) as nat);
        let btn = seq[i - 1];
        let s = bs.of(btn);
        if x + s.w + sp < right {
            (buttons_set(b, btn, button_rect(x, s, top_h)), v.spec_insert(btn), x + s.w + sp)
        } else {
            (b, v, x)
        }
    }
}

/// Buttons at the end of the titlebar, placed right to left (last one first) while they stay
/// after `left`.  `k` counts the buttons taken from the end.
pub open spec fn end_pass(
    seq: Seq<TitlebarButton>,
    bs: ButtonSizes,
    b0: ButtonsView,
    v0: ButtonSet,
    x0: int,
    left: int,
    sp: int,
    top_h: int,
    k: nat,
) -> (ButtonsView, ButtonSet, int)
    decreases k,
{
    if k == 0 || k > seq.len() {
        (b0, v0, x0)
    } else {
        let (b, v, x) = end_pass(seq, bs, b0, v0, x0, left, sp, top_h, (k - 1) as nat);
        let btn = seq[seq.len() - k];
        let s = bs.of(btn);
        if x - s.w - sp > left {
            let nx = x - s.w - sp;
            (buttons_set(b, btn, button_rect(nx, s, top_h)), v.spec_insert(btn), nx)
        } else {
            (b, v, x)
        }
    }
}

/// Buttons that were not placed get no extents.
pub open spec fn hide_unplaced(b: ButtonsView, v: ButtonSet) -> ButtonsView {
    ButtonsView {
        menu: if v.menu { b.menu } else { rv_zero() },
        hide: if v.hide { b.hide } else { rv_zero() },
        stick: if v.stick { b.stick } else { rv_zero() },
        shade: if v.shade { b.shade } else { rv_zero() },
        close: if v.close { b.close } else { rv_zero() },
        maximize: if v.maximize { b.maximize } else { rv_zero() },
    }
}

/// The outcome of placing the buttons: their extents and the span left for the title.
pub struct ButtonPlacement {
    pub buttons: ButtonsView,
    /// First x after the start buttons plus one spacing.
    pub left: int,
    /// Leftmost x of the end buttons.
    pub right: int,
}

/// The button offset: a borderless maximized window uses its own.
pub open spec fn button_offset(cfg: LayoutConfig, t: ButtonToggledStates) -> int {
    if t.maximized() && cfg.borderless_maximize {
        cfg.maximized_offset as int
    } else {
        cfg.button_offset as int
    }
}

pub open spec fn spec_buttons(
    win: Size,
    m: FrameMetrics,
    t: ButtonToggledStates,
    cfg: LayoutConfig,
    bs: ButtonSizes,
) -> ButtonPlacement {
    let tw = total_w(win, m);
    let off = button_offset(cfg, t);
    let sp = cfg.button_spacing as int;
    let x0 = max_int(m.left_w + off, 0);
    let right = tw - m.right_w - off;
    let start = cfg.button_layout_start@;
    let end = cfg.button_layout_end@;
    let (b1, v1, x1) = start_pass(start, bs, x0, right, sp, m.top_h as int, start.len());
    let left = x1 + sp;
    let (b2, v2, x2) = end_pass(
        end,
        bs,
        b1,
        v1,
        tw - m.right_w + sp - off,
        left,
        sp,
        m.top_h as int,
        end.len(),
    );
    ButtonPlacement { buttons: hide_unplaced(b2, v2), left, right: x2 }
}

/// Extents of the six buttons, as rectangles.
#[derive(Clone, Copy, Debug, PartialEq, Eq, Structural)]
pub struct ButtonRects {
    pub menu: Rect,
    pub hide: Rect,
    pub stick: Rect,
    pub shade: Rect,
    pub close: Rect,
    pub maximize: Rect,
}

impl View for ButtonRects {
    type V = ButtonsView;

    open spec fn view(&self) -> ButtonsView {
        ButtonsView {
            menu: self.menu@,
            hide: self.hide@,
            stick: self.stick@,
            shade: self.shade@,
            close: self.close@,
            maximize: self.maximize@,
        }
    }
}

impl ButtonRects {
    fn set(&mut self, which: TitlebarButton, r: Rect)
        ensures
            final(self)@ == buttons_set(old(self)@, which, r@),
    {
        match which {
            TitlebarButton::Menu => self.menu = r,
            TitlebarButton::Hide => self.hide = r,
            TitlebarButton::Stick => self.stick = r,
            TitlebarButton::Shade => self.shade = r,
            TitlebarButton::Close => self.close = r,
            _ => self.maximize = r,
        }
    }
}

fn place_buttons(win: Size, m: &FrameMetrics, t: ButtonToggledStates, cfg: &LayoutConfig, bs: &ButtonSizes) -> (r: (
    ButtonRects,
    i64,
    i64,
))
    requires
        win_lim(win),
        m.bounded(),
        cfg.bounded(),
        bs.bounded(),
    ensures
        r.0@ == spec_buttons(win, *m, t, *cfg, *bs).buttons,
        r.1 == spec_buttons(win, *m, t, *cfg, *bs).left,
        r.2 == spec_buttons(win, *m, t, *cfg, *bs).right,
        -0x80_0000 <= r.1 <= MAX_WINDOW_DIM + 0x80_0000,
        -0x80_0000 <= r.2 <= MAX_WINDOW_DIM + 0x80_0000,
{
    let tw: i64 = m.left_w as i64 + win.w as i64 + m.right_w as i64;
    let off: i64 = if t.contains(TOGGLED_MAXIMIZE) && cfg.borderless_maximize {
        cfg.maximized_offset as i64
    } else {
        cfg.button_offset as i64
    };
    let sp: i64 = cfg.button_spacing as i64;
    let top_h: i64 = m.top_h as i64;
    let x0: i64 = if m.left_w as i64 + off >= 0 { m.left_w as i64 + off } else { 0 };
    let right: i64 = tw - m.right_w as i64 - off;
    let z = Rect::zero();
    let mut b = ButtonRects { menu: z, hide: z, stick: z, shade: z, close: z, maximize: z };
    let mut v = ButtonSet { menu: false, hide: false, stick: false, shade: false, close: false, maximize: false };
    let mut x: i64 = x0;
    let start = &cfg.button_layout_start;
    let ghost sseq = start@;
    let mut i: usize = 0;
    while i < start.len()
        invariant
            sseq == start@,
            0 <= i <= sseq.len(),
            bs.bounded(),
            0 <= x0 <= 0x30_0000,
            -0x50_0000 <= right <= MAX_WINDOW_DIM + 0x50_0000,
            0 <= sp <= 0x10_0000,
            lim(top_h as int),
            x0 <= x,
            x == x0 || x < right,
            (b@, v, x as int) == start_pass(sseq, *bs, x0 as int, right as int, sp as int, top_h as int, i as nat),
        decreases sseq.len() - i,
    {
        let btn = start[i];
        let s = bs.get(btn);
        if x + s.w as i64 + sp < right {
            let y = div_trunc_exec(top_h - s.h as i64 + 1, 2);
            b.set(btn, to_rect(x, y, s.w as i64, s.h as i64));
            v.insert(btn);
            x = x + s.w as i64 + sp;
        }
        i = i + 1;
    }
    let left: i64 = x + sp;
    let end = &cfg.button_layout_end;
    let ghost eseq = end@;
    let ghost b1 = b@;
    let ghost v1 = v;
    let x_end0: i64 = tw - m.right_w as i64 + sp - off;
    let mut xe: i64 = x_end0;
    let mut k: usize = 0;
    while k < end.len()
        invariant
            eseq == end@,
            0 <= k <= eseq.len(),
            bs.bounded(),
            -0x60_0000 <= x_end0 <= MAX_WINDOW_DIM + 0x60_0000,
            -0x60_0000 <= left <= MAX_WINDOW_DIM + 0x60_0000,
            0 <= sp <= 0x10_0000,
            lim(top_h as int),
            xe <= x_end0,
            xe == x_end0 || left < xe,
            (b@, v, xe as int) == end_pass(
                eseq,
                *bs,
                b1,
                v1,
                x_end0 as int,
                left as int,
                sp as int,
                top_h as int,
                k as nat,
            ),
        decreases eseq.len() - k,
    {
        let btn = end[end.len() - 1 - k];
        let s = bs.get(btn);
        if xe - s.w as i64 - sp > left {
            xe = xe - s.w as i64 - sp;
            let y = div_trunc_exec(top_h - s.h as i64 + 1, 2);
            b.set(btn, to_rect(xe, y, s.w as i64, s.h as i64));
            v.insert(btn);
        }
        k = k + 1;
    }
    let out = ButtonRects {
        menu: if v.menu { b.menu } else { z },
        hide: if v.hide { b.hide } else { z },
        stick: if v.stick { b.stick } else { z },
        shade: if v.shade { b.shade } else { z },
        close: if v.close { b.close } else { z },
        maximize: if v.maximize { b.maximize } else { z },
    };
    (out, left, xe)
}


/// The title background pieces.
pub enum TitleView {
    Stretched(RectView),
    FivePart {
        title1: RectView,
        title2: RectView,
        title3: RectView,
        title4: RectView,
        title5: RectView,
        top1: RectView,
        top2: RectView,
        top3: RectView,
        top4: RectView,
        top5: RectView,
    },
}

/// The numbers the title layout is made of.
pub struct TitleParams {
    /// Start of the title area, relative to the end of the top-left corner.
    pub bl: int,
    /// End of the title area, relative to the end of the top-left corner.
    pub br: int,
    pub title_y: int,
    pub top_height: int,
    pub w1: int,
    pub w2: int,
    pub w3: int,
    pub w4: int,
    pub w5: int,
    pub hoffset: int,
}

/// The span between the start and end buttons, clipped to the top edge between the corners
/// and made relative to the top-left corner's end: `(start, end)`.
pub open spec fn spec_title_span(win: Size, m: FrameMetrics, sp: int, left: int, right: int) -> (int, int) {
    let tw = total_w(win, m);
    let l0 = left - 2 * sp;
    let l1 = if l0 > right { right } else { l0 };
    let r1 = if l0 > right { l0 } else { right };
    (
        max_int(l1, m.top_left.w as int) - m.top_left.w,
        max_int(min_int(r1, tw - m.top_right.w), m.top_left.w as int) - m.top_left.w,
    )
}

/// The title text's top, and the height of the top strip over the title pieces.
pub open spec fn spec_title_vertical(m: FrameMetrics, cfg: LayoutConfig, active: bool, text_h: int) -> (int, int) {
    let voff: int = if active {
        cfg.title_vertical_offset_active as int
    } else {
        cfg.title_vertical_offset_inactive as int
    };
    let top_h = m.top_h as int;
    let y0 = voff + div_trunc(top_h - text_h, 2);
    let title_y = if y0 + text_h > top_h { max_int(0, top_h - text_h) } else { y0 };
    let top_height: int = match m.title {
        TitleBackground::FivePart { top3_h: Some(t3), .. } => t3 as int,
        _ => if cfg.frame_border_top > 0 {
            cfg.frame_border_top as int
        } else {
            max_int(min_int(div_trunc(top_h, 10) + 1, title_y - 1), 0)
        },
    };
    (title_y, top_height)
}

/// The title text is centred vertically in the titlebar, moved by the vertical offset for the
/// window's focus state (active or inactive); when that would push it past the titlebar's
/// bottom it is moved up to end there, but not above the titlebar's top.
pub proof fn lemma_title_vertical(m: FrameMetrics, cfg: LayoutConfig, active: bool, text_h: int)
    requires
        text_h >= 0,
    ensures
        ({
            let voff: int = if active {
                cfg.title_vertical_offset_active as int
            } else {
                cfg.title_vertical_offset_inactive as int
            };
            let centred = voff + div_trunc(m.top_h - text_h, 2);
            let ty = spec_title_vertical(m, cfg, active, text_h).0;
            &&& centred + text_h <= m.top_h ==> ty == centred
            &&& centred + text_h > m.top_h ==> ty >= 0 && (ty + text_h == m.top_h || ty == 0)
        }),
{
}

/// Widths of the first, middle and last title pieces and the text's offset in the middle one:
/// `(w1, w3, w5, hoffset)`.
pub open spec fn spec_title_widths(
    cfg: LayoutConfig,
    active: bool,
    top_w: int,
    bl: int,
    br: int,
    w2: int,
    w4: int,
    text_w: int,
) -> (int, int, int, int) {
    let tho = cfg.title_horizontal_offset as int;
    if cfg.full_width_title {
        let w1 = bl;
        let w5 = top_w - br;
        let w3 = max_int(top_w - w1 - w2 - w4 - w5, 0);
        let h = match cfg.title_alignment {
            TitleAlignment::Left => tho,
            TitleAlignment::Right => w3 - text_w - tho,
            TitleAlignment::Center => div_trunc(w3, 2) - div_trunc(text_w, 2),
        };
        (w1, w3, w5, max_int(h, tho))
    } else {
        let shadow: int = if active {
            cfg.title_shadow_active as int
        } else {
            cfg.title_shadow_inactive as int
        };
        let w3 = max_int(min_int(text_w + shadow, top_w - w2 - w4), 0);
        let w1a = match cfg.title_alignment {
            TitleAlignment::Left => bl + tho,
            TitleAlignment::Right => br - w2 - w3 - w4 - tho,
            TitleAlignment::Center => bl + div_trunc(br - bl, 2) - div_trunc(w3, 2) - w2,
        };
        (max_int(w1a, bl), w3, top_w, 0)
    }
}

/// Where an aligned title goes.  A title that is not full width starts at the free span's start
/// (`bl`) plus the horizontal offset when left-aligned, whatever the text's width; when
/// right-aligned its pieces end at the span's end (`br`) less the offset, unless that would put
/// it before the span's start, where it then starts.  Either way it never starts before `bl`.
/// When centred (and not pushed to the span's start), the middle of the title text piece is
/// the middle of the span, up to rounding.
/// A full-width title's text is offset by exactly the horizontal offset when left-aligned, and
/// when right-aligned ends the offset short of the title piece's end, or sits at the offset.
pub open spec fn title_alignment_holds(
    cfg: LayoutConfig,
    bl: int,
    br: int,
    w2: int,
    w4: int,
    text_w: int,
    w1: int,
    w3: int,
    hoffset: int,
) -> bool {
    let tho = cfg.title_horizontal_offset as int;
    if !cfg.full_width_title {
        &&& w1 >= bl
        &&& hoffset == 0
        &&& cfg.title_alignment == TitleAlignment::Left ==> w1 >= bl + tho && (w1 == bl || w1 == bl + tho)
        &&& cfg.title_alignment == TitleAlignment::Right ==> if br - tho - w4 - w3 - w2 >= bl {
            w1 + w2 + w3 + w4 == br - tho
        } else {
            w1 == bl
        }
        &&& cfg.title_alignment == TitleAlignment::Center && w1 > bl ==> -2 <= 2 * (w1 + w2) + w3 - (bl + br) <= 2
    } else {
        &&& w1 == bl
        &&& hoffset >= tho
        &&& cfg.title_alignment == TitleAlignment::Left ==> hoffset == tho
        &&& cfg.title_alignment == TitleAlignment::Right ==> hoffset == tho || hoffset + text_w + tho == w3
    }
}

/// The title widths obey the alignment asked for (see `title_alignment_holds`).
pub proof fn lemma_title_alignment(
    cfg: LayoutConfig,
    active: bool,
    top_w: int,
    bl: int,
    br: int,
    w2: int,
    w4: int,
    text_w: int,
)
    ensures
        ({
            let (w1, w3, w5, h) = spec_title_widths(cfg, active, top_w, bl, br, w2, w4, text_w);
            title_alignment_holds(cfg, bl, br, w2, w4, text_w, w1, w3, h)
        }),
{
}

/// A left-aligned title (not full width) over a stretched title background starts at the same
/// place whatever the width of its text.
pub proof fn lemma_left_title_ignores_text_width(
    l: LayoutView,
    cfg: LayoutConfig,
    m: FrameMetrics,
    bs: ButtonSizes,
    t1: Size,
    t2: Size,
)
    requires
        !cfg.full_width_title,
        cfg.title_alignment == TitleAlignment::Left,
        m.title == TitleBackground::Stretched,
        l.window_size.w > 0,
        l.window_size.h > 0,
        total_w(l.window_size, m) - m.top_left.w - m.top_right.w > 0,
    ensures
        spec_relayout(l, cfg, m, bs, t1).0.title_text.x == spec_relayout(l, cfg, m, bs, t2).0.title_text.x,
        ({
            let place = spec_buttons(l.window_size, m, l.toggled, cfg, bs);
            let bl = spec_title_span(l.window_size, m, cfg.button_spacing as int, place.left, place.right).0;
            let x = spec_relayout(l, cfg, m, bs, t1).0.title_text.x;
            &&& x >= m.top_left.w + bl + cfg.title_horizontal_offset
            &&& x >= m.top_left.w + bl
            &&& (x == m.top_left.w + bl || x == m.top_left.w + bl + cfg.title_horizontal_offset)
        }),
{
}

pub open spec fn title_w2(m: FrameMetrics) -> int {
    match m.title {
        TitleBackground::FivePart { title2_w, .. } => title2_w as int,
        _ => 0,
    }
}

pub open spec fn title_w4(m: FrameMetrics) -> int {
    match m.title {
        TitleBackground::FivePart { title4_w, .. } => title4_w as int,
        _ => 0,
    }
}

pub open spec fn spec_title_params(
    win: Size,
    m: FrameMetrics,
    cfg: LayoutConfig,
    active: bool,
    text: Size,
    left: int,
    right: int,
) -> TitleParams {
    let top_w = total_w(win, m) - m.top_left.w - m.top_right.w;
    let (bl, br) = spec_title_span(win, m, cfg.button_spacing as int, left, right);
    let (title_y, top_height) = spec_title_vertical(m, cfg, active, text.h as int);
    let w2 = title_w2(m);
    let w4 = title_w4(m);
    let (w1, w3, w5, hoffset) = spec_title_widths(cfg, active, top_w, bl, br, w2, w4, text.w as int);
    TitleParams { bl, br, title_y, top_height, w1, w2, w3, w4, w5, hoffset }
}

/// The title pieces and the title text extents; the flag says whether the title text is drawn.
/// With no room between the corners the previous pieces and text extents stay.
pub open spec fn spec_title(
    old_title: TitleView,
    old_text: RectView,
    win: Size,
    m: FrameMetrics,
    cfg: LayoutConfig,
    active: bool,
    text: Size,
    left: int,
    right: int,
) -> (TitleView, RectView, bool) {
    let tw = total_w(win, m);
    let top_w = tw - m.top_left.w - m.top_right.w;
    if top_w <= 0 {
        (old_title, old_text, false)
    } else {
        let p = spec_title_params(win, m, cfg, active, text, left, right);
        let cx = m.top_left.w as int;
        let top_h = m.top_h as int;
        match m.title {
            TitleBackground::Stretched => (
                TitleView::Stretched(rv(cx, 0, top_w, top_h)),
                rv(cx + p.hoffset + p.w1 + p.w2, p.title_y, p.br - p.w4, top_h),
                true,
            ),
            TitleBackground::FivePart { .. } => spec_five_part(cx, top_h, p),
        }
    }
}

/// The five title pieces laid side by side; the fourth never starts after the title area ends.
pub open spec fn spec_five_part(cx: int, top_h: int, p: TitleParams) -> (TitleView, RectView, bool) {
    let x1: int = if p.w1 > 0 { p.w1 } else { 0 };
    let x2 = x1 + p.w2;
    let x3 = if p.w3 > 0 { x2 + p.w3 } else { x2 };
    let x4 = min_int(x3, p.br - p.w4);
    let x5 = x4 + p.w4;
    (
        TitleView::FivePart {
            title1: if p.w1 > 0 { rv(cx, 0, p.w1, top_h) } else { rv_zero() },
            top1: if p.w1 > 0 { rv(cx, 0, p.w1, p.top_height) } else { rv_zero() },
            title2: rv(cx + x1, 0, p.w2, top_h),
            top2: rv(cx + x1, 0, p.w2, p.top_height),
            title3: if p.w3 > 0 { rv(cx + x2, 0, p.w3, top_h) } else { rv_zero() },
            top3: if p.w3 > 0 { rv(cx + x2, 0, p.w3, p.top_height) } else { rv_zero() },
            title4: rv(cx + x4, 0, p.w4, top_h),
            top4: rv(cx + x4, 0, p.w4, p.top_height),
            title5: if p.w5 > 0 { rv(cx + x5, 0, p.w5, top_h) } else { rv_zero() },
            top5: if p.w5 > 0 { rv(cx + x5, 0, p.w5, p.top_height) } else { rv_zero() },
        },
        if p.w3 > 0 {
            rv(cx + p.hoffset + x2, p.title_y, p.br - p.w4, top_h)
        } else {
            rv_zero()
        },
        p.w3 > 0,
    )
}

/// The title pieces, as rectangles.
#[derive(Clone, Copy, Debug, PartialEq, Eq, Structural)]
pub enum TitleRects {
    Stretched(Rect),
    FivePart {
        title1: Rect,
        title2: Rect,
        title3: Rect,
        title4: Rect,
        title5: Rect,
        top1: Rect,
        top2: Rect,
        top3: Rect,
        top4: Rect,
        top5: Rect,
    },
}

impl View for TitleRects {
    type V = TitleView;

    open spec fn view(&self) -> TitleView {
        match *self {
            TitleRects::Stretched(r) => TitleView::Stretched(r@),
            TitleRects::FivePart { title1, title2, title3, title4, title5, top1, top2, top3, top4, top5 } =>
                TitleView::FivePart {
                title1: title1@,
                title2: title2@,
                title3: title3@,
                title4: title4@,
                title5: title5@,
                top1: top1@,
                top2: top2@,
                top3: top3@,
                top4: top4@,
                top5: top5@,
            },
        }
    }
}

fn max64(a: i64, b: i64) -> (r: i64)
    ensures
        r == max_int(a as int, b as int),
{
    if a >= b { a } else { b }
}

fn min64(a: i64, b: i64) -> (r: i64)
    ensures
        r == min_int(a as int, b as int),
{
    if a <= b { a } else { b }
}

fn title_span(win: Size, m: &FrameMetrics, sp: i64, left: i64, right: i64) -> (r: (i64, i64))
    requires
        win_lim(win),
        m.bounded(),
        0 <= sp <= 0x10_0000,
        -0x80_0000 <= left <= MAX_WINDOW_DIM + 0x80_0000,
        -0x80_0000 <= right <= MAX_WINDOW_DIM + 0x80_0000,
    ensures
        (r.0 as int, r.1 as int) == spec_title_span(win, *m, sp as int, left as int, right as int),
        0 <= r.0 <= MAX_WINDOW_DIM + 0x100_0000,
        0 <= r.1 <= MAX_WINDOW_DIM + 0x100_0000,
{
    let tw: i64 = m.left_w as i64 + win.w as i64 + m.right_w as i64;
    let ctl_w = m.top_left.w as i64;
    let l0 = left - 2 * sp;
    let l1 = if l0 > right { right } else { l0 };
    let r1 = if l0 > right { l0 } else { right };
    (max64(l1, ctl_w) - ctl_w, max64(min64(r1, tw - m.top_right.w as i64), ctl_w) - ctl_w)
}

fn title_vertical(m: &FrameMetrics, cfg: &LayoutConfig, active: bool, text_h: i64) -> (r: (i64, i64))
    requires
        m.bounded(),
        cfg.bounded(),
        0 <= text_h <= 0x10_0000,
    ensures
        (r.0 as int, r.1 as int) == spec_title_vertical(*m, *cfg, active, text_h as int),
        -0x40_0000 <= r.0 <= 0x40_0000,
        -0x40_0000 <= r.1 <= 0x40_0000,
{
    let voff: i64 = if active {
        cfg.title_vertical_offset_active as i64
    } else {
        cfg.title_vertical_offset_inactive as i64
    };
    let top_h = m.top_h as i64;
    let y0 = voff + div_trunc_exec(top_h - text_h, 2);
    let title_y = if y0 + text_h > top_h { max64(0, top_h - text_h) } else { y0 };
    let top_height: i64 = match m.title {
        TitleBackground::FivePart { top3_h: Some(t3), .. } => t3 as i64,
        _ => if cfg.frame_border_top > 0 {
            cfg.frame_border_top as i64
        } else {
            max64(min64(div_trunc_exec(top_h, 10) + 1, title_y - 1), 0)
        },
    };
    (title_y, top_height)
}

fn title_widths(
    cfg: &LayoutConfig,
    active: bool,
    top_w: i64,
    bl: i64,
    br: i64,
    w2: i64,
    w4: i64,
    text_w: i64,
) -> (r: (i64, i64, i64, i64))
    requires
        cfg.bounded(),
        -0x80_0000 <= top_w <= MAX_WINDOW_DIM + 0x80_0000,
        0 <= bl <= MAX_WINDOW_DIM + 0x100_0000,
        0 <= br <= MAX_WINDOW_DIM + 0x100_0000,
        -0x10_0000 <= w2 <= 0x10_0000,
        -0x10_0000 <= w4 <= 0x10_0000,
        0 <= text_w <= 0x10_0000,
    ensures
        (r.0 as int, r.1 as int, r.2 as int, r.3 as int) == spec_title_widths(
            *cfg,
            active,
            top_w as int,
            bl as int,
            br as int,
            w2 as int,
            w4 as int,
            text_w as int,
        ),
        -0x200_0000 <= r.0 <= MAX_WINDOW_DIM + 0x200_0000,
        0 <= r.1 <= MAX_WINDOW_DIM + 0x400_0000,
        -MAX_WINDOW_DIM - 0x200_0000 <= r.2 <= MAX_WINDOW_DIM + 0x200_0000,
        -0x400_0000 <= r.3 <= MAX_WINDOW_DIM + 0x800_0000,
        title_alignment_holds(*cfg, bl as int, br as int, w2 as int, w4 as int, text_w as int, r.0 as int, r.1 as int, r.3 as int),
{
    proof {
        lemma_title_alignment(*cfg, active, top_w as int, bl as int, br as int, w2 as int, w4 as int, text_w as int);
    }
    let tho = cfg.title_horizontal_offset as i64;
    if cfg.full_width_title {
        let w1 = bl;
        let w5 = top_w - br;
        let w3 = max64(top_w - w1 - w2 - w4 - w5, 0);
        let h = match cfg.title_alignment {
            TitleAlignment::Left => tho,
            TitleAlignment::Right => w3 - text_w - tho,
            TitleAlignment::Center => div_trunc_exec(w3, 2) - div_trunc_exec(text_w, 2),
        };
        (w1, w3, w5, max64(h, tho))
    } else {
        let shadow: i64 = if active {
            cfg.title_shadow_active as i64
        } else {
            cfg.title_shadow_inactive as i64
        };
        let w3 = max64(min64(text_w + shadow, top_w - w2 - w4), 0);
        let w1a = match cfg.title_alignment {
            TitleAlignment::Left => bl + tho,
            TitleAlignment::Right => br - w2 - w3 - w4 - tho,
            TitleAlignment::Center => bl + div_trunc_exec(br - bl, 2) - div_trunc_exec(w3, 2) - w2,
        };
        (max64(w1a, bl), w3, top_w, 0)
    }
}

fn title_rects(
    old_title: TitleRects,
    old_text: Rect,
    win: Size,
    m: &FrameMetrics,
    cfg: &LayoutConfig,
    active: bool,
    text: Size,
    left: i64,
    right: i64,
) -> (r: (TitleRects, Rect, bool))
    requires
        win_lim(win),
        size_lim(text),
        m.bounded(),
        cfg.bounded(),
        -0x80_0000 <= left <= MAX_WINDOW_DIM + 0x80_0000,
        -0x80_0000 <= right <= MAX_WINDOW_DIM + 0x80_0000,
    ensures
        (r.0@, r.1@, r.2) == spec_title(
            old_title@,
            old_text@,
            win,
            *m,
            *cfg,
            active,
            text,
            left as int,
            right as int,
        ),
{
    let tw: i64 = m.left_w as i64 + win.w as i64 + m.right_w as i64;
    let cx: i64 = m.top_left.w as i64;
    let top_w: i64 = tw - cx - m.top_right.w as i64;
    if top_w <= 0 {
        return (old_title, old_text, false);
    }
    let top_h = m.top_h as i64;
    let (bl, br) = title_span(win, m, cfg.button_spacing as i64, left, right);
    let (title_y, top_height) = title_vertical(m, cfg, active, text.h as i64);
    let w2: i64 = match m.title {
        TitleBackground::FivePart { title2_w, .. } => title2_w as i64,
        _ => 0,
    };
    let w4: i64 = match m.title {
        TitleBackground::FivePart { title4_w, .. } => title4_w as i64,
        _ => 0,
    };
    let (w1, w3, w5, hoffset) = title_widths(cfg, active, top_w, bl, br, w2, w4, text.w as i64);
    let z = Rect::zero();
    match m.title {
        TitleBackground::Stretched => (
            TitleRects::Stretched(to_rect(cx, 0, top_w, top_h)),
            to_rect(cx + hoffset + w1 + w2, title_y, br - w4, top_h),
            true,
        ),
        TitleBackground::FivePart { .. } => five_part_rects(
            cx,
            top_h,
            br,
            title_y,
            top_height,
            w1,
            w2,
            w3,
            w4,
            w5,
            hoffset,
        ),
    }
}

fn five_part_rects(
    cx: i64,
    top_h: i64,
    br: i64,
    title_y: i64,
    top_height: i64,
    w1: i64,
    w2: i64,
    w3: i64,
    w4: i64,
    w5: i64,
    hoffset: i64,
) -> (r: (TitleRects, Rect, bool))
    requires
        0 <= cx <= 0x10_0000,
        lim(top_h as int),
        0 <= br <= MAX_WINDOW_DIM + 0x100_0000,
        -0x40_0000 <= title_y <= 0x40_0000,
        -0x40_0000 <= top_height <= 0x40_0000,
        -0x200_0000 <= w1 <= MAX_WINDOW_DIM + 0x200_0000,
        -0x10_0000 <= w2 <= 0x10_0000,
        0 <= w3 <= MAX_WINDOW_DIM + 0x400_0000,
        -0x10_0000 <= w4 <= 0x10_0000,
        -MAX_WINDOW_DIM - 0x200_0000 <= w5 <= MAX_WINDOW_DIM + 0x200_0000,
        -0x400_0000 <= hoffset <= MAX_WINDOW_DIM + 0x800_0000,
    ensures
        (r.0@, r.1@, r.2) == spec_five_part(
            cx as int,
            top_h as int,
            TitleParams {
                bl: 0,
                br: br as int,
                title_y: title_y as int,
                top_height: top_height as int,
                w1: w1 as int,
                w2: w2 as int,
                w3: w3 as int,
                w4: w4 as int,
                w5: w5 as int,
                hoffset: hoffset as int,
            },
        ),
{
    let z = Rect::zero();
    let x1: i64 = if w1 > 0 { w1 } else { 0 };
    let x2 = x1 + w2;
    let x3 = if w3 > 0 { x2 + w3 } else { x2 };
    let x4 = min64(x3, br - w4);
    let x5 = x4 + w4;
    let t = TitleRects::FivePart {
        title1: if w1 > 0 { to_rect(cx, 0, w1, top_h) } else { z },
        top1: if w1 > 0 { to_rect(cx, 0, w1, top_height) } else { z },
        title2: to_rect(cx + x1, 0, w2, top_h),
        top2: to_rect(cx + x1, 0, w2, top_height),
        title3: if w3 > 0 { to_rect(cx + x2, 0, w3, top_h) } else { z },
        top3: if w3 > 0 { to_rect(cx + x2, 0, w3, top_height) } else { z },
        title4: to_rect(cx + x4, 0, w4, top_h),
        top4: to_rect(cx + x4, 0, w4, top_height),
        title5: if w5 > 0 { to_rect(cx + x5, 0, w5, top_h) } else { z },
        top5: if w5 > 0 { to_rect(cx + x5, 0, w5, top_height) } else { z },
    };
    let text_rect = if w3 > 0 { to_rect(cx + hoffset + x2, title_y, br - w4, top_h) } else { z };
    (t, text_rect, w3 > 0)
}

/// Everything the decoration layout keeps between updates.
pub struct LayoutView {
    pub window_size: Size,
    pub is_active: bool,
    pub toggled: ButtonToggledStates,
    pub frame: FrameView,
    pub buttons: ButtonsView,
    pub title: TitleView,
    pub title_text: RectView,
}

/// What one layout pass yields: the new extents, and whether the title text must be drawn.
pub open spec fn spec_relayout(
    l: LayoutView,
    cfg: LayoutConfig,
    m: FrameMetrics,
    bs: ButtonSizes,
    text: Size,
) -> (LayoutView, bool) {
    let win = l.window_size;
    if !(win.w > 0 && win.h > 0) {
        (l, false)
    } else {
        let place = spec_buttons(win, m, l.toggled, cfg, bs);
        let (title, title_text, drawn) = spec_title(
            l.title,
            l.title_text,
            win,
            m,
            cfg,
            l.is_active,
            text,
            place.left,
            place.right,
        );
        (
            LayoutView {
                frame: spec_frame(win, m, l.toggled, cfg.borderless_maximize),
                buttons: place.buttons,
                title,
                title_text,
                ..l
            },
            drawn,
        )
    }
}

/// The layout of a decorated window's frame.
#[derive(Clone, Copy, Debug)]
pub struct DecorationLayout {
    pub window_size: Size,
    pub is_active: bool,
    pub toggled: ButtonToggledStates,
    pub frame: FrameRects,
    pub buttons: ButtonRects,
    pub title: TitleRects,
    pub title_text: Rect,
}

impl View for DecorationLayout {
    type V = LayoutView;

    open spec fn view(&self) -> LayoutView {
        LayoutView {
            window_size: self.window_size,
            is_active: self.is_active,
            toggled: self.toggled,
            frame: self.frame@,
            buttons: self.buttons@,
            title: self.title@,
            title_text: self.title_text@,
        }
    }
}

/// A layout whose every piece is empty.
pub open spec fn empty_layout(window_size: Size) -> LayoutView {
    LayoutView {
        window_size,
        is_active: false,
        toggled: ButtonToggledStates { bits: 0 },
        frame: FrameView {
            top_left: rv_zero(),
            top_right: rv_zero(),
            bottom: rv_zero(),
            bottom_left: rv_zero(),
            bottom_right: rv_zero(),
            left: rv_zero(),
            right: rv_zero(),
        },
        buttons: buttons_zero(),
        title: TitleView::Stretched(rv_zero()),
        title_text: rv_zero(),
    }
}

impl DecorationLayout {
    pub open spec fn bounded(self) -> bool {
        window_size_ok(self.window_size)
    }

    /// A fresh layout for a window of the given size, laid out once.
    pub fn new(
        window_size: Size,
        cfg: &LayoutConfig,
        m: &FrameMetrics,
        bs: &ButtonSizes,
        text: Size,
    ) -> (r: (DecorationLayout, bool))
        requires
            window_size_ok(window_size),
            cfg.bounded(),
            m.bounded(),
            bs.bounded(),
            size_lim(text),
        ensures
            (r.0@, r.1) == spec_relayout(empty_layout(window_size), *cfg, *m, *bs, text),
    {
        let z = Rect::zero();
        let mut l = DecorationLayout {
            window_size,
            is_active: false,
            toggled: ButtonToggledStates { bits: 0 },
            frame: FrameRects {
                top_left: z,
                top_right: z,
                bottom: z,
                bottom_left: z,
                bottom_right: z,
                left: z,
                right: z,
            },
            buttons: ButtonRects { menu: z, hide: z, stick: z, shade: z, close: z, maximize: z },
            title: TitleRects::Stretched(z),
            title_text: z,
        };
        let drawn = l.relayout(cfg, m, bs, text);
        (l, drawn)
    }

    /// Lays the frame out again for the current window size and states.  Returns whether the
    /// title text is to be drawn; if drawing it fails, call `clear_title_text`.
    pub fn relayout(&mut self, cfg: &LayoutConfig, m: &FrameMetrics, bs: &ButtonSizes, text: Size) -> (drawn: bool)
        requires
            old(self).bounded(),
            cfg.bounded(),
            m.bounded(),
            bs.bounded(),
            size_lim(text),
        ensures
            (final(self)@, drawn) == spec_relayout(old(self)@, *cfg, *m, *bs, text),
            final(self).bounded(),
    {
        let win = self.window_size;
        if !(win.w > 0 && win.h > 0) {
            return false;
        }
        let frame = frame_rects(win, m, self.toggled, cfg.borderless_maximize);
        let (buttons, left, right) = place_buttons(win, m, self.toggled, cfg, bs);
        let (title, title_text, drawn) = title_rects(
            self.title,
            self.title_text,
            win,
            m,
            cfg,
            self.is_active,
            text,
            left,
            right,
        );
        self.frame = frame;
        self.buttons = buttons;
        self.title = title;
        self.title_text = title_text;
        drawn
    }

    /// The title text could not be drawn: it gets no extents.
    pub fn clear_title_text(&mut self)
        ensures
            final(self)@ == (LayoutView { title_text: rv_zero(), ..old(self)@ }),
    {
        self.title_text = Rect::zero();
    }
}

/// A piece catches a point when it has area and holds the point.
pub open spec fn in_piece(r: Rect, p: Point) -> bool {
    !r.spec_is_empty() && r.spec_contains(p)
}

fn in_piece_exec(r: &Rect, p: Point) -> (b: bool)
    ensures
        b == in_piece(*r, p),
{
    !r.is_empty() && r.contains(p)
}

impl DecorationLayout {
    /// Whether a point, relative to the frame's origin, falls on the title background or a frame
    /// piece.  Buttons do not count on their own.
    pub open spec fn spec_point_in_decorations(self, p: Point) -> bool {
        let in_title = match self.title {
            TitleRects::Stretched(t) => in_piece(t, p),
            TitleRects::FivePart { title1, title2, title3, title4, title5, .. } => in_piece(title1, p)
                || in_piece(title2, p) || in_piece(title3, p) || in_piece(title4, p) || in_piece(
                title5,
                p,
            ),
        };
        ||| in_title
        ||| in_piece(self.frame.top_left, p)
        ||| in_piece(self.frame.top_right, p)
        ||| in_piece(self.frame.bottom_left, p)
        ||| in_piece(self.frame.bottom_right, p)
        ||| in_piece(self.frame.left, p)
        ||| in_piece(self.frame.right, p)
        ||| in_piece(self.frame.bottom, p)
    }

    pub fn point_is_in_decorations(&self, p: Point) -> (b: bool)
        ensures
            b == self.spec_point_in_decorations(p),
    {
        let in_title = match &self.title {
            TitleRects::Stretched(t) => in_piece_exec(t, p),
            TitleRects::FivePart { title1, title2, title3, title4, title5, .. } => in_piece_exec(title1, p)
                || in_piece_exec(title2, p) || in_piece_exec(title3, p) || in_piece_exec(title4, p)
                || in_piece_exec(title5, p),
        };
        in_title || in_piece_exec(&self.frame.top_left, p) || in_piece_exec(&self.frame.top_right, p)
            || in_piece_exec(&self.frame.bottom_left, p) || in_piece_exec(&self.frame.bottom_right, p)
            || in_piece_exec(&self.frame.left, p) || in_piece_exec(&self.frame.right, p)
            || in_piece_exec(&self.frame.bottom, p)
    }

    pub fn left_decoration_width(&self) -> (w: i32)
        ensures
            w == self.frame.left.size.w,
    {
        self.frame.left.size.w
    }

    pub fn right_decoration_width(&self) -> (w: i32)
        ensures
            w == self.frame.right.size.w,
    {
        self.frame.right.size.w
    }

    /// The titlebar height: the stretched title's, or the middle piece's.
    pub open spec fn spec_top_height(self) -> i32 {
        match self.title {
            TitleRects::Stretched(t) => t.size.h,
            TitleRects::FivePart { title3, .. } => title3.size.h,
        }
    }

    pub fn top_decoration_height(&self) -> (h: i32)
        ensures
            h == self.spec_top_height(),
    {
        match &self.title {
            TitleRects::Stretched(t) => t.size.h,
            TitleRects::FivePart { title3, .. } => title3.size.h,
        }
    }

    pub fn bottom_decoration_height(&self) -> (h: i32)
        ensures
            h == self.frame.bottom.size.h,
    {
        self.frame.bottom.size.h
    }

    /// Where the window's own surface starts inside the frame.
    pub fn decorations_offset(&self) -> (p: Point)
        ensures
            p.x == self.frame.left.size.w,
            p.y == self.spec_top_height(),
    {
        Point { x: self.left_decoration_width(), y: self.top_decoration_height() }
    }

    /// Records a new window size; true when it differs and the frame must be laid out again.
    pub fn set_window_size(&mut self, size: Size) -> (changed: bool)
        requires
            window_size_ok(size),
        ensures
            changed == (old(self).window_size != size),
            final(self)@ == (LayoutView { window_size: size, ..old(self)@ }),
            final(self).bounded(),
    {
        let changed = self.window_size != size;
        self.window_size = size;
        changed
    }

    /// Records whether the window is focused; true when it changed.
    pub fn set_active(&mut self, is_active: bool) -> (changed: bool)
        ensures
            changed == (old(self).is_active != is_active),
            final(self)@ == (LayoutView { is_active, ..old(self)@ }),
            final(self).bounded() == old(self).bounded(),
    {
        let changed = self.is_active != is_active;
        self.is_active = is_active;
        changed
    }

    /// Switches a toggle button's state; true when it changed.  When it did not, nothing changes.
    pub fn set_toggled(&mut self, flag: u8, on: bool) -> (changed: bool)
        requires
            flag == TOGGLED_MAXIMIZE || flag == TOGGLED_SHADE || flag == TOGGLED_STICK,
        ensures
            changed == (old(self).toggled.has(flag) != on),
            final(self).toggled.has(flag) == on,
            forall|o: u8|
                (o == TOGGLED_MAXIMIZE || o == TOGGLED_SHADE || o == TOGGLED_STICK) && o != flag
                    ==> final(self).toggled.has(o) == old(self).toggled.has(o),
            !changed ==> final(self)@ == old(self)@,
            final(self)@ == (LayoutView { toggled: final(self).toggled, ..old(self)@ }),
            final(self).bounded() == old(self).bounded(),
    {
        if self.toggled.contains(flag) != on {
            self.toggled = self.toggled.with(flag, on);
            true
        } else {
            false
        }
    }

    /// The window's geometry grown by the frame around it.
    pub fn decorated_size(&self, inner: Size) -> (r: Size)
        requires
            i32_min() <= self.frame.left.size.w + self.frame.right.size.w <= i32_max(),
            i32_min() <= self.spec_top_height() + self.frame.bottom.size.h <= i32_max(),
            i32_min() <= inner.w + self.frame.left.size.w + self.frame.right.size.w <= i32_max(),
            i32_min() <= inner.h + self.spec_top_height() + self.frame.bottom.size.h <= i32_max(),
        ensures
            r.w == inner.w + self.frame.left.size.w + self.frame.right.size.w,
            r.h == inner.h + self.spec_top_height() + self.frame.bottom.size.h,
    {
        Size {
            w: inner.w + (self.left_decoration_width() + self.right_decoration_width()),
            h: inner.h + (self.top_decoration_height() + self.bottom_decoration_height()),
        }
    }

    /// The frame's geometry shrunk to the window inside it.
    pub fn undecorated_geometry(&self, outer: Rect) -> (r: Rect)
        requires
            i32_min() <= outer.loc.x + self.frame.left.size.w <= i32_max(),
            i32_min() <= outer.loc.y + self.spec_top_height() <= i32_max(),
            i32_min() <= outer.size.w - (self.frame.left.size.w + self.frame.right.size.w) <= i32_max(),
            i32_min() <= outer.size.h - (self.spec_top_height() + self.frame.bottom.size.h) <= i32_max(),
            i32_min() <= self.frame.left.size.w + self.frame.right.size.w <= i32_max(),
            i32_min() <= self.spec_top_height() + self.frame.bottom.size.h <= i32_max(),
        ensures
            r.loc.x == outer.loc.x + self.frame.left.size.w,
            r.loc.y == outer.loc.y + self.spec_top_height(),
            r.size.w == outer.size.w - (self.frame.left.size.w + self.frame.right.size.w),
            r.size.h == outer.size.h - (self.spec_top_height() + self.frame.bottom.size.h),
    {
        let off = self.decorations_offset();
        Rect {
            loc: Point { x: outer.loc.x + off.x, y: outer.loc.y + off.y },
            size: Size {
                w: outer.size.w - (self.left_decoration_width() + self.right_decoration_width()),
                h: outer.size.h - (self.top_decoration_height() + self.bottom_decoration_height()),
            },
        }
    }
}


proof fn lemma_insert_has(v: ButtonSet, b: TitlebarButton, c: TitlebarButton)
    requires
        b != TitlebarButton::SideSeparator,
        c != TitlebarButton::SideSeparator,
    ensures
        v.spec_insert(b).has(c) == (v.has(c) || b == c),
{
}

proof fn lemma_start_pass_placed(
    seq: Seq<TitlebarButton>,
    bs: ButtonSizes,
    x0: int,
    right: int,
    sp: int,
    top_h: int,
    i: nat,
    btn: TitlebarButton,
)
    requires
        btn != TitlebarButton::SideSeparator,
        forall|j: int| 0 <= j < seq.len() ==> seq[j] != TitlebarButton::SideSeparator,
        start_pass(seq, bs, x0, right, sp, top_h, i).1.has(btn),
    ensures
        seq.contains(btn),
    decreases i,
{
    if i == 0 || i > seq.len() {
    } else {
        let (b, v, x) = start_pass(seq, bs, x0, right, sp, top_h, (i - 1) as nat);
        let cur = seq[i - 1];
        lemma_insert_has(v, cur, btn);
        if v.has(btn) {
            lemma_start_pass_placed(seq, bs, x0, right, sp, top_h, (i - 1) as nat, btn);
        } else {
            assert(seq[i - 1] == btn);
        }
    }
}

proof fn lemma_end_pass_placed(
    seq: Seq<TitlebarButton>,
    bs: ButtonSizes,
    b0: ButtonsView,
    v0: ButtonSet,
    x0: int,
    left: int,
    sp: int,
    top_h: int,
    k: nat,
    btn: TitlebarButton,
)
    requires
        btn != TitlebarButton::SideSeparator,
        forall|j: int| 0 <= j < seq.len() ==> seq[j] != TitlebarButton::SideSeparator,
        end_pass(seq, bs, b0, v0, x0, left, sp, top_h, k).1.has(btn),
    ensures
        v0.has(btn) || seq.contains(btn),
    decreases k,
{
    if k == 0 || k > seq.len() {
    } else {
        let (b, v, x) = end_pass(seq, bs, b0, v0, x0, left, sp, top_h, (k - 1) as nat);
        let cur = seq[seq.len() - k];
        lemma_insert_has(v, cur, btn);
        if v.has(btn) {
            lemma_end_pass_placed(seq, bs, b0, v0, x0, left, sp, top_h, (k - 1) as nat, btn);
        } else {
            assert(seq[seq.len() - k] == btn);
        }
    }
}

/// Laying out a window whose width or height is zero or less changes nothing and draws no
/// title text.
pub proof fn lemma_empty_window_keeps_layout(
    l: LayoutView,
    cfg: LayoutConfig,
    m: FrameMetrics,
    bs: ButtonSizes,
    text: Size,
)
    requires
        l.window_size.w <= 0 || l.window_size.h <= 0,
    ensures
        spec_relayout(l, cfg, m, bs, text) == (l, false),
{
}

/// A maximized window with borderless maximizing on gets no frame pieces at all.
pub proof fn lemma_borderless_maximized_has_no_frame(
    l: LayoutView,
    cfg: LayoutConfig,
    m: FrameMetrics,
    bs: ButtonSizes,
    text: Size,
)
    requires
        l.window_size.w > 0,
        l.window_size.h > 0,
        l.toggled.maximized(),
        cfg.borderless_maximize,
    ensures
        ({
            let f = spec_relayout(l, cfg, m, bs, text).0.frame;
            &&& f.top_left == rv_zero() && f.top_right == rv_zero()
            &&& f.bottom_left == rv_zero() && f.bottom_right == rv_zero()
            &&& f.bottom == rv_zero() && f.left == rv_zero() && f.right == rv_zero()
        }),
{
}

/// A shaded window has no left or right side pieces.
pub proof fn lemma_shaded_window_has_no_sides(
    l: LayoutView,
    cfg: LayoutConfig,
    m: FrameMetrics,
    bs: ButtonSizes,
    text: Size,
)
    requires
        l.window_size.w > 0,
        l.window_size.h > 0,
        l.toggled.shaded(),
    ensures
        spec_relayout(l, cfg, m, bs, text).0.frame.left == rv_zero(),
        spec_relayout(l, cfg, m, bs, text).0.frame.right == rv_zero(),
{
}

/// A button that neither end of the titlebar layout lists gets no extents.
pub proof fn lemma_unlisted_button_has_no_extents(
    l: LayoutView,
    cfg: LayoutConfig,
    m: FrameMetrics,
    bs: ButtonSizes,
    text: Size,
    btn: TitlebarButton,
)
    requires
        cfg.bounded(),
        btn != TitlebarButton::SideSeparator,
        l.window_size.w > 0,
        l.window_size.h > 0,
        !cfg.button_layout_start@.contains(btn),
        !cfg.button_layout_end@.contains(btn),
    ensures
        buttons_get(spec_relayout(l, cfg, m, bs, text).0.buttons, btn) == rv_zero(),
{
    let win = l.window_size;
    let tw = total_w(win, m);
    let off = button_offset(cfg, l.toggled);
    let sp = cfg.button_spacing as int;
    let x0 = max_int(m.left_w + off, 0);
    let right = tw - m.right_w - off;
    let start = cfg.button_layout_start@;
    let end = cfg.button_layout_end@;
    let (b1, v1, x1) = start_pass(start, bs, x0, right, sp, m.top_h as int, start.len());
    let (b2, v2, x2) = end_pass(
        end,
        bs,
        b1,
        v1,
        tw - m.right_w + sp - off,
        x1 + sp,
        sp,
        m.top_h as int,
        end.len(),
    );
    if v1.has(btn) {
        lemma_start_pass_placed(start, bs, x0, right, sp, m.top_h as int, start.len(), btn);
    }
    if v2.has(btn) {
        lemma_end_pass_placed(end, bs, b1, v1, tw - m.right_w + sp - off, x1 + sp, sp, m.top_h as int, end.len(), btn);
    }
    assert(!v2.has(btn));
}


proof fn lemma_buttons_set_other(b: ButtonsView, which: TitlebarButton, r: RectView, other: TitlebarButton)
    requires
        which != other,
        which != TitlebarButton::SideSeparator,
        other != TitlebarButton::SideSeparator,
    ensures
        buttons_get(buttons_set(b, which, r), other) == buttons_get(b, other),
{
}

proof fn lemma_buttons_set_same(b: ButtonsView, which: TitlebarButton, r: RectView)
    requires
        which != TitlebarButton::SideSeparator,
    ensures
        buttons_get(buttons_set(b, which, r), which) == r,
{
}

proof fn lemma_start_pass_first(
    seq: Seq<TitlebarButton>,
    bs: ButtonSizes,
    x0: int,
    right: int,
    sp: int,
    top_h: int,
    i: nat,
)
    requires
        1 <= i <= seq.len(),
        forall|j: int| 0 <= j < seq.len() ==> seq[j] != TitlebarButton::SideSeparator,
        forall|j: int| 0 < j < seq.len() ==> #[trigger] seq[j] != seq[0],
        x0 + bs.of(seq[0]).w + sp < right,
    ensures
        start_pass(seq, bs, x0, right, sp, top_h, i).1.has(seq[0]),
        buttons_get(start_pass(seq, bs, x0, right, sp, top_h, i).0, seq[0]) == button_rect(x0, bs.of(seq[0]), top_h),
    decreases i,
{
    if i > 1 {
        lemma_start_pass_first(seq, bs, x0, right, sp, top_h, (i - 1) as nat);
        let (b, v, x) = start_pass(seq, bs, x0, right, sp, top_h, (i - 1) as nat);
        let cur = seq[i - 1];
        assert(cur != seq[0]);
        lemma_insert_has(v, cur, seq[0]);
        lemma_buttons_set_other(b, cur, button_rect(x, bs.of(cur), top_h), seq[0]);
    } else {
        let (b, v, x) = start_pass(seq, bs, x0, right, sp, top_h, 0);
        assert(x == x0 && v == ButtonSet::empty_set());
        lemma_insert_has(v, seq[0], seq[0]);
        lemma_buttons_set_same(b, seq[0], button_rect(x0, bs.of(seq[0]), top_h));
    }
}

proof fn lemma_end_pass_keeps(
    seq: Seq<TitlebarButton>,
    bs: ButtonSizes,
    b0: ButtonsView,
    v0: ButtonSet,
    x0: int,
    left: int,
    sp: int,
    top_h: int,
    k: nat,
    btn: TitlebarButton,
)
    requires
        btn != TitlebarButton::SideSeparator,
        forall|j: int| 0 <= j < seq.len() ==> seq[j] != TitlebarButton::SideSeparator,
        !seq.contains(btn),
    ensures
        end_pass(seq, bs, b0, v0, x0, left, sp, top_h, k).1.has(btn) == v0.has(btn),
        buttons_get(end_pass(seq, bs, b0, v0, x0, left, sp, top_h, k).0, btn) == buttons_get(b0, btn),
    decreases k,
{
    if k == 0 || k > seq.len() {
    } else {
        lemma_end_pass_keeps(seq, bs, b0, v0, x0, left, sp, top_h, (k - 1) as nat, btn);
        let (b, v, x) = end_pass(seq, bs, b0, v0, x0, left, sp, top_h, (k - 1) as nat);
        let cur = seq[seq.len() - k];
        assert(cur != btn);
        lemma_insert_has(v, cur, btn);
        lemma_buttons_set_other(b, cur, button_rect(x - bs.of(cur).w - sp, bs.of(cur), top_h), btn);
    }
}

/// The first button listed for the titlebar's start (listed once, and not at the end) is placed
/// at the left border plus the button offset (or at 0), vertically centred in the titlebar,
/// with its own size, when it fits before the titlebar's end.
pub proof fn lemma_first_start_button(l: LayoutView, cfg: LayoutConfig, m: FrameMetrics, bs: ButtonSizes, text: Size)
    requires
        cfg.bounded(),
        l.window_size.w > 0,
        l.window_size.h > 0,
        cfg.button_layout_start@.len() > 0,
        forall|j: int|
            0 < j < cfg.button_layout_start@.len() ==> #[trigger] cfg.button_layout_start@[j] != cfg.button_layout_start@[0],
        !cfg.button_layout_end@.contains(cfg.button_layout_start@[0]),
        ({
            let off: int = if l.toggled.maximized() && cfg.borderless_maximize {
                cfg.maximized_offset as int
            } else {
                cfg.button_offset as int
            };
            let x0: int = if m.left_w + off > 0 { m.left_w + off } else { 0 };
            x0 + bs.of(cfg.button_layout_start@[0]).w + cfg.button_spacing < m.left_w + l.window_size.w + m.right_w
                - m.right_w - off
        }),
    ensures
        ({
            let btn = cfg.button_layout_start@[0];
            let s = bs.of(btn);
            let off: int = if l.toggled.maximized() && cfg.borderless_maximize {
                cfg.maximized_offset as int
            } else {
                cfg.button_offset as int
            };
            let x0: int = if m.left_w + off > 0 { m.left_w + off } else { 0 };
            buttons_get(spec_relayout(l, cfg, m, bs, text).0.buttons, btn) == RectView {
                x: x0,
                y: div_trunc(m.top_h - s.h + 1, 2),
                w: s.w as int,
                h: s.h as int,
            }
        }),
{
    let win = l.window_size;
    let tw = total_w(win, m);
    let off = button_offset(cfg, l.toggled);
    let sp = cfg.button_spacing as int;
    let x0 = max_int(m.left_w + off, 0);
    let right = tw - m.right_w - off;
    let start = cfg.button_layout_start@;
    let end = cfg.button_layout_end@;
    let btn = start[0];
    lemma_start_pass_first(start, bs, x0, right, sp, m.top_h as int, start.len());
    let (b1, v1, x1) = start_pass(start, bs, x0, right, sp, m.top_h as int, start.len());
    lemma_end_pass_keeps(end, bs, b1, v1, tw - m.right_w + sp - off, x1 + sp, sp, m.top_h as int, end.len(), btn);
}

proof fn lemma_end_pass_last(
    seq: Seq<TitlebarButton>,
    bs: ButtonSizes,
    b0: ButtonsView,
    v0: ButtonSet,
    x0: int,
    left: int,
    sp: int,
    top_h: int,
    k: nat,
)
    requires
        1 <= k <= seq.len(),
        forall|j: int| 0 <= j < seq.len() ==> seq[j] != TitlebarButton::SideSeparator,
        forall|j: int| 0 <= j < seq.len() - 1 ==> #[trigger] seq[j] != seq.last(),
        x0 - bs.of(seq.last()).w - sp > left,
    ensures
        end_pass(seq, bs, b0, v0, x0, left, sp, top_h, k).1.has(seq.last()),
        buttons_get(end_pass(seq, bs, b0, v0, x0, left, sp, top_h, k).0, seq.last()) == button_rect(
            x0 - bs.of(seq.last()).w - sp,
            bs.of(seq.last()),
            top_h,
        ),
    decreases k,
{
    if k > 1 {
        lemma_end_pass_last(seq, bs, b0, v0, x0, left, sp, top_h, (k - 1) as nat);
        let (b, v, x) = end_pass(seq, bs, b0, v0, x0, left, sp, top_h, (k - 1) as nat);
        let cur = seq[seq.len() - k];
        assert(cur != seq.last());
        lemma_insert_has(v, cur, seq.last());
        lemma_buttons_set_other(b, cur, button_rect(x - bs.of(cur).w - sp, bs.of(cur), top_h), seq.last());
    } else {
        let (b, v, x) = end_pass(seq, bs, b0, v0, x0, left, sp, top_h, 0);
        assert(x == x0 && v == v0 && b == b0);
        lemma_insert_has(v, seq.last(), seq.last());
        lemma_buttons_set_same(b, seq.last(), button_rect(x0 - bs.of(seq.last()).w - sp, bs.of(seq.last()), top_h));
    }
}

/// With no buttons at the titlebar's start, the last button listed for its end (listed once)
/// is placed against the right border less the button offset, vertically centred, with its own
/// size, when it fits after the start of the titlebar.
pub proof fn lemma_last_end_button(l: LayoutView, cfg: LayoutConfig, m: FrameMetrics, bs: ButtonSizes, text: Size)
    requires
        cfg.bounded(),
        l.window_size.w > 0,
        l.window_size.h > 0,
        cfg.button_layout_start@.len() == 0,
        cfg.button_layout_end@.len() > 0,
        forall|j: int|
            0 <= j < cfg.button_layout_end@.len() - 1 ==> #[trigger] cfg.button_layout_end@[j] != cfg.button_layout_end@.last(),
        ({
            let off: int = if l.toggled.maximized() && cfg.borderless_maximize {
                cfg.maximized_offset as int
            } else {
                cfg.button_offset as int
            };
            let x0: int = if m.left_w + off > 0 { m.left_w + off } else { 0 };
            m.left_w + l.window_size.w - off - bs.of(cfg.button_layout_end@.last()).w > x0 + cfg.button_spacing
        }),
    ensures
        ({
            let btn = cfg.button_layout_end@.last();
            let s = bs.of(btn);
            let off: int = if l.toggled.maximized() && cfg.borderless_maximize {
                cfg.maximized_offset as int
            } else {
                cfg.button_offset as int
            };
            let r = buttons_get(spec_relayout(l, cfg, m, bs, text).0.buttons, btn);
            &&& r.x + r.w == m.left_w + l.window_size.w - off
            &&& r.w == s.w && r.h == s.h
            &&& r.y == div_trunc(m.top_h - s.h + 1, 2)
        }),
{
    let win = l.window_size;
    let tw = total_w(win, m);
    let off = button_offset(cfg, l.toggled);
    let sp = cfg.button_spacing as int;
    let x0 = max_int(m.left_w + off, 0);
    let right = tw - m.right_w - off;
    let start = cfg.button_layout_start@;
    let end = cfg.button_layout_end@;
    let (b1, v1, x1) = start_pass(start, bs, x0, right, sp, m.top_h as int, start.len());
    assert(x1 == x0);
    lemma_end_pass_last(end, bs, b1, v1, tw - m.right_w + sp - off, x1 + sp, sp, m.top_h as int, end.len());
}

/// The frame around a laid-out window (unless maximized borderless): the four corners sit in
/// the frame's corners with their own sizes; the bottom piece runs between the bottom corners
/// along the frame's bottom; the side pieces run down from the titlebar to the bottom corners,
/// along the frame's left and right sides.  The frame is the window plus the side widths across,
/// and the titlebar, bottom piece and (unless shaded) the window down.
pub proof fn lemma_frame_surrounds_window(l: LayoutView, cfg: LayoutConfig, m: FrameMetrics, bs: ButtonSizes, text: Size)
    requires
        l.window_size.w > 0,
        l.window_size.h > 0,
        !(l.toggled.maximized() && cfg.borderless_maximize),
    ensures
        ({
            let f = spec_relayout(l, cfg, m, bs, text).0.frame;
            let tw = m.left_w + l.window_size.w + m.right_w;
            let th = m.top_h + m.bottom_h + if l.toggled.shaded() { 0 } else { l.window_size.h as int };
            &&& f.top_left == RectView { x: 0, y: 0, w: m.top_left.w as int, h: m.top_left.h as int }
            &&& f.top_right.x + f.top_right.w == tw && f.top_right.y == 0
            &&& f.top_right.w == m.top_right.w && f.top_right.h == m.top_right.h
            &&& f.bottom_left.x == 0 && f.bottom_left.y + f.bottom_left.h == th
            &&& f.bottom_left.w == m.bottom_left.w && f.bottom_left.h == m.bottom_left.h
            &&& f.bottom_right.x + f.bottom_right.w == tw && f.bottom_right.y + f.bottom_right.h == th
            &&& f.bottom_right.w == m.bottom_right.w && f.bottom_right.h == m.bottom_right.h
            &&& f.bottom.x == m.bottom_left.w && f.bottom.x + f.bottom.w == tw - m.bottom_right.w
            &&& f.bottom.y + f.bottom.h == th && f.bottom.h == m.bottom_h
            &&& !l.toggled.shaded() ==> {
                &&& f.left.x == 0 && f.left.w == m.left_w && f.left.y == m.top_h
                &&& f.left.y + f.left.h == th - m.bottom_left.h
                &&& f.right.x + f.right.w == tw && f.right.w == m.right_w && f.right.y == m.top_h
                &&& f.right.y + f.right.h == th - m.bottom_right.h
            }
        }),
{
}

} // verus!
