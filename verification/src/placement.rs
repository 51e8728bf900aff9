//! Where windows go: outputs laid out side by side, windows left off every output found again,
//! the area a new window is placed in, and the size a new window is known by.

use vstd::prelude::*;
use crate::geometry::{Point, Rect, Size, i32_min, i32_max};

verus! {

/// The left edge of each output when outputs are laid out left to right, in order: the sum of
/// the widths before it.
pub open spec fn spec_output_offsets(widths: Seq<i32>) -> Seq<int>
    decreases widths.len(),
{
    if widths.len() == 0 {
        Seq::empty()
    } else {
        let prev = spec_output_offsets(widths.drop_last());
        prev.push(sum_widths(widths.drop_last()))
    }
}

pub open spec fn sum_widths(widths: Seq<i32>) -> int
    decreases widths.len(),
{
    if widths.len() == 0 {
        0
    } else {
        sum_widths(widths.drop_last()) + widths.last()
    }
}

pub open spec fn prefix_sums_fit(widths: Seq<i32>) -> bool {
    forall|k: int| 0 <= k <= widths.len() ==> i32_min() <= #[trigger] sum_widths(widths.subrange(0, k)) <= i32_max()
}

/// The left edge of each output when outputs are laid out side by side.
pub fn output_offsets(widths: &Vec<i32>) -> (r: Vec<i32>)
    requires
        prefix_sums_fit(widths@),
    ensures
        r@.len() == widths@.len(),
        forall|k: int| 0 <= k < r@.len() ==> r@[k] == #[trigger] spec_output_offsets(widths@)[k],
{
    let mut r: Vec<i32> = Vec::new();
    let mut offset: i32 = 0;
    let mut i: usize = 0;
    while i < widths.len()
        invariant
            0 <= i <= widths@.len(),
            prefix_sums_fit(widths@),
            offset == sum_widths(widths@.subrange(0, i as int)),
            r@.len() == i,
            spec_output_offsets(widths@.subrange(0, i as int)).len() == i,
            forall|k: int| 0 <= k < i ==> r@[k] == #[trigger] spec_output_offsets(widths@.subrange(0, i as int))[k],
        decreases widths@.len() - i,
    {
        let ghost sub = widths@.subrange(0, i as int + 1);
        proof {
            assert(sub.drop_last() =~= widths@.subrange(0, i as int));
            assert(sum_widths(sub) == offset + widths@[i as int]);
            assert(i32_min() <= sum_widths(widths@.subrange(0, i as int + 1)) <= i32_max());
        }
        r.push(offset);
        offset = offset + widths[i];
        i = i + 1;
    }
    assert(widths@.subrange(0, widths@.len() as int) =~= widths@);
    r
}

/// The windows left off every output: those whose top-left corner no output area contains,
/// by index, in order.
pub open spec fn spec_orphaned(corners: Seq<Point>, zones: Seq<Rect>) -> Seq<int>
    decreases corners.len(),
{
    if corners.len() == 0 {
        Seq::empty()
    } else {
        let prev = spec_orphaned(corners.drop_last(), zones);
        if exists|z: int| 0 <= z < zones.len() && (#[trigger] zones[z]).spec_contains(corners.last()) {
            prev
        } else {
            prev.push(corners.len() - 1)
        }
    }
}

fn in_some_zone(p: Point, zones: &Vec<Rect>) -> (r: bool)
    ensures
        r == exists|z: int| 0 <= z < zones@.len() && (#[trigger] zones@[z]).spec_contains(p),
{
    let mut i: usize = 0;
    while i < zones.len()
        invariant
            0 <= i <= zones@.len(),
            forall|z: int| 0 <= z < i ==> !(#[trigger] zones@[z]).spec_contains(p),
        decreases zones@.len() - i,
    {
        if zones[i].contains(p) {
            return true;
        }
        i = i + 1;
    }
    false
}

/// Finds the windows that no output shows, given each window's top-left corner.
pub fn orphaned_windows(corners: &Vec<Point>, zones: &Vec<Rect>) -> (r: Vec<usize>)
    ensures
        r@.len() == spec_orphaned(corners@, zones@).len(),
        forall|k: int| 0 <= k < r@.len() ==> r@[k] == #[trigger] spec_orphaned(corners@, zones@)[k],
{
    let mut r: Vec<usize> = Vec::new();
    let mut i: usize = 0;
    while i < corners.len()
        invariant
            0 <= i <= corners@.len(),
            r@.len() == spec_orphaned(corners@.subrange(0, i as int), zones@).len(),
            forall|k: int| 0 <= k < r@.len() ==> r@[k] == #[trigger] spec_orphaned(corners@.subrange(0, i as int), zones@)[k],
        decreases corners@.len() - i,
    {
        let ghost sub = corners@.subrange(0, i as int + 1);
        proof {
            assert(sub.drop_last() =~= corners@.subrange(0, i as int));
            assert(sub.last() == corners@[i as int]);
        }
        if !in_some_zone(corners[i], zones) {
            r.push(i);
        }
        i = i + 1;
    }
    assert(corners@.subrange(0, corners@.len() as int) =~= corners@);
    r
}

/// The area a new window is placed in: the usable area of the output under the pointer, else
/// of the first output, else 800 by 800 at the origin.
pub open spec fn spec_placement_zone(under_pointer: Option<Rect>, first_output: Option<Rect>) -> Rect {
    match under_pointer {
        Some(z) => z,
        None => match first_output {
            Some(z) => z,
            None => Rect { loc: Point { x: 0, y: 0 }, size: Size { w: 800, h: 800 } },
        },
    }
}

pub fn placement_zone(under_pointer: Option<Rect>, first_output: Option<Rect>) -> (r: Rect)
    ensures
        r == spec_placement_zone(under_pointer, first_output),
{
    match under_pointer {
        Some(z) => z,
        None => match first_output {
            Some(z) => z,
            None => Rect { loc: Point { x: 0, y: 0 }, size: Size { w: 800, h: 800 } },
        },
    }
}

/// A random integer in `[low, high)` from the thread-local generator (`rand::random_range`),
/// which panics on an empty range; claimed: the result lies in the range.
#[verifier::external_body]
fn random_in_range(low: i32, high: i32) -> (r: i32)
    requires
        low < high,
    ensures
        low <= r < high,
{
    rand::random_range(low..high)
}

/// A random position for a new window: its corner at least at the zone's corner and before
/// `max_x`, `max_y` (two thirds of the zone, computed by the caller).
pub fn random_window_position(zone: Rect, max_x: i32, max_y: i32) -> (r: Point)
    requires
        zone.loc.x < max_x,
        zone.loc.y < max_y,
    ensures
        zone.loc.x <= r.x < max_x,
        zone.loc.y <= r.y < max_y,
{
    let x = random_in_range(zone.loc.x, max_x);
    let y = random_in_range(zone.loc.y, max_y);
    Point { x, y }
}

pub open spec fn positive(s: Size) -> bool {
    s.w > 0 && s.h > 0
}

/// The size a new window is known by: its geometry, else its bounding box, else the geometry
/// the client set, whichever is first positive in both dimensions.
pub open spec fn spec_window_size(geometry: Size, bbox: Size, client_geometry: Option<Size>) -> Option<Size> {
    if positive(geometry) {
        Some(geometry)
    } else if positive(bbox) {
        Some(bbox)
    } else {
        match client_geometry {
            Some(g) => if positive(g) { Some(g) } else { None },
            None => None,
        }
    }
}

pub fn find_window_geometry(geometry: Size, bbox: Size, client_geometry: Option<Size>) -> (r: Option<Size>)
    ensures
        r == spec_window_size(geometry, bbox, client_geometry),
{
    if geometry.w > 0 && geometry.h > 0 {
        Some(geometry)
    } else if bbox.w > 0 && bbox.h > 0 {
        Some(bbox)
    } else {
        match client_geometry {
            Some(g) => if g.w > 0 && g.h > 0 { Some(g) } else { None },
            None => None,
        }
    }
}

/// Minimized state a Wayland window keeps.
#[derive(Clone, Copy, Debug, PartialEq, Eq, Structural)]
pub struct XdgSurfacePropsInner {
    pub is_minimized: bool,
}

/// The properties of a Wayland window.
#[derive(Clone, Copy, Debug, PartialEq, Eq, Structural)]
pub struct XdgSurfaceProps {
    pub inner: XdgSurfacePropsInner,
}

impl XdgSurfaceProps {
    /// A window starts out not minimized.
    pub fn new() -> (r: XdgSurfaceProps)
        ensures
            !r.inner.is_minimized,
    {
        XdgSurfaceProps { inner: XdgSurfacePropsInner { is_minimized: false } }
    }
}


/// The desktop file that describes an application: its identifier, with `.desktop` added
/// unless it already ends so.
pub open spec fn spec_desktop_file_name(app_id: Seq<char>) -> Seq<char> {
    if app_id.len() >= 8 && app_id.subrange(app_id.len() - 8, app_id.len() as int) == ".desktop"@ {
        app_id
    } else {
        app_id + ".desktop"@
    }
}

pub fn desktop_file_name(app_id: &str) -> (r: String)
    ensures
        r@ == spec_desktop_file_name(app_id@),
{
    let suffix = ".desktop";
    proof {
        reveal_strlit(".desktop");
    }
    let n = app_id.unicode_len();
    let mut ends = n >= 8;
    let mut k: usize = 0;
    while ends && k < 8
        invariant
            n == app_id@.len(),
            suffix@ == ".desktop"@,
            suffix@.len() == 8,
            0 <= k <= 8,
            ends ==> n >= 8 && forall|j: int| 0 <= j < k ==> app_id@[n - 8 + j] == suffix@[j],
            !ends ==> !(n >= 8 && app_id@.subrange(n - 8, n as int) == ".desktop"@),
        decreases 8 - k,
    {
        if app_id.get_char(n - 8 + k) != suffix.get_char(k) {
            proof {
                if n >= 8 && app_id@.subrange(n - 8, n as int) == ".desktop"@ {
                    assert(app_id@.subrange(n - 8, n as int)[k as int] == app_id@[n - 8 + k]);
                }
            }
            ends = false;
        }
        k = k + 1;
    }
    if ends {
        assert(app_id@.subrange(n - 8, n as int) =~= ".desktop"@);
    }
    let mut out = String::new();
    let mut i: usize = 0;
    while i < n
        invariant
            n == app_id@.len(),
            0 <= i <= n,
            out@ == app_id@.subrange(0, i as int),
        decreases n - i,
    {
        crate::gtk_settings::push_char(&mut out, app_id.get_char(i));
        assert(out@ =~= app_id@.subrange(0, i as int + 1));
        i = i + 1;
    }
    assert(app_id@.subrange(0, n as int) =~= app_id@);
    if !ends {
        let ghost base = out@;
        let mut j: usize = 0;
        while j < 8
            invariant
                suffix@ == ".desktop"@,
                suffix@.len() == 8,
                0 <= j <= 8,
                out@ == base + suffix@.subrange(0, j as int),
            decreases 8 - j,
        {
            crate::gtk_settings::push_char(&mut out, suffix.get_char(j));
            assert(out@ =~= base + suffix@.subrange(0, j as int + 1));
            j = j + 1;
        }
        assert(suffix@.subrange(0, 8) =~= suffix@);
    }
    out
}

/// An icon a client set for its window, as a candidate: its buffer's scale and size.
#[derive(Clone, Copy, Debug, PartialEq, Eq, Structural)]
pub struct IconBuffer {
    pub scale: i32,
    pub size: i32,
}

pub open spec fn buffer_before(a: IconBuffer, b: IconBuffer) -> bool {
    a.scale < b.scale || (a.scale == b.scale && a.size < b.size)
}

/// The buffer first in order of scale then size, among those `pick` admits; equal ones keep
/// their order.
pub open spec fn is_first_by_order(s: Seq<IconBuffer>, i: int, scale: Option<i32>) -> bool {
    &&& 0 <= i < s.len()
    &&& (match scale { Some(sc) => s[i].scale == sc, None => true })
    &&& forall|j: int| 0 <= j < s.len() && (match scale { Some(sc) => s[j].scale == sc, None => true }) ==> !buffer_before(#[trigger] s[j], s[i])
    &&& forall|j: int| 0 <= j < i && (match scale { Some(sc) => s[j].scale == sc, None => true }) ==> buffer_before(s[i], #[trigger] s[j])
}

fn first_by_order(bufs: &Vec<IconBuffer>, scale: Option<i32>) -> (r: Option<usize>)
    ensures
        match r {
            Some(i) => is_first_by_order(bufs@, i as int, scale),
            None => forall|j: int| 0 <= j < bufs@.len() ==> !(match scale { Some(sc) => (#[trigger] bufs@[j]).scale == sc, None => true }),
        },
        scale.is_none() && r.is_none() ==> bufs@.len() == 0,
{
    let mut best: Option<usize> = None;
    let mut i: usize = 0;
    while i < bufs.len()
        invariant
            0 <= i <= bufs@.len(),
            match best {
                Some(b) => b < i && is_first_by_order(bufs@.subrange(0, i as int), b as int, scale),
                None => forall|j: int| 0 <= j < i ==> !(match scale { Some(sc) => (#[trigger] bufs@[j]).scale == sc, None => true }),
            },
            scale.is_none() && best.is_none() ==> i == 0,
        decreases bufs@.len() - i,
    {
        let c = bufs[i];
        let admitted = match scale {
            Some(sc) => c.scale == sc,
            None => true,
        };
        let ghost sub = bufs@.subrange(0, i as int + 1);
        if admitted {
            match best {
                None => {
                    best = Some(i);
                    assert(is_first_by_order(sub, i as int, scale));
                },
                Some(b) => {
                    let cur = bufs[b];
                    if c.scale < cur.scale || (c.scale == cur.scale && c.size < cur.size) {
                        best = Some(i);
                        assert forall|j: int| 0 <= j < sub.len() && (match scale { Some(sc) => sub[j].scale == sc, None => true }) implies !buffer_before(#[trigger] sub[j], sub[i as int]) by {
                            if j < i {
                                assert(sub[j] == bufs@.subrange(0, i as int)[j]);
                            }
                        }
                        assert forall|j: int| 0 <= j < i && (match scale { Some(sc) => sub[j].scale == sc, None => true }) implies buffer_before(sub[i as int], #[trigger] sub[j]) by {
                            assert(sub[j] == bufs@.subrange(0, i as int)[j]);
                        }
                        assert(is_first_by_order(sub, i as int, scale));
                    } else {
                        assert forall|j: int| 0 <= j < sub.len() && (match scale { Some(sc) => sub[j].scale == sc, None => true }) implies !buffer_before(#[trigger] sub[j], sub[b as int]) by {
                            if j < i {
                                assert(sub[j] == bufs@.subrange(0, i as int)[j]);
                            }
                        }
                        assert forall|j: int| 0 <= j < b && (match scale { Some(sc) => sub[j].scale == sc, None => true }) implies buffer_before(sub[b as int], #[trigger] sub[j]) by {
                            assert(sub[j] == bufs@.subrange(0, i as int)[j]);
                        }
                        assert(is_first_by_order(sub, b as int, scale));
                    }
                },
            }
        } else {
            match best {
                None => {},
                Some(b) => {
                    assert forall|j: int| 0 <= j < sub.len() && (match scale { Some(sc) => sub[j].scale == sc, None => true }) implies !buffer_before(#[trigger] sub[j], sub[b as int]) by {
                        if j < i {
                            assert(sub[j] == bufs@.subrange(0, i as int)[j]);
                        }
                    }
                    assert forall|j: int| 0 <= j < b && (match scale { Some(sc) => sub[j].scale == sc, None => true }) implies buffer_before(sub[b as int], #[trigger] sub[j]) by {
                        assert(sub[j] == bufs@.subrange(0, i as int)[j]);
                    }
                },
            }
        }
        i = i + 1;
    }
    assert(bufs@.subrange(0, bufs@.len() as int) =~= bufs@);
    match best {
        Some(b) => {
            assert(is_first_by_order(bufs@.subrange(0, bufs@.len() as int), b as int, scale));
            assert(is_first_by_order(bufs@, b as int, scale));
        },
        None => {},
    }
    best
}

/// The icon a window shows, from what its client set.
#[derive(Debug, PartialEq, Eq)]
pub enum IconChoice {
    /// An icon from the theme, by name.
    Named(String),
    /// An icon file, by absolute path.
    File(String),
    /// One of the client's buffers, by index.
    Buffer(usize),
}

/// Chooses a window's icon: a name the client set (a path when it starts with `/`); else, of
/// the buffers it set, ordered by scale then size, the first of the output's scale, or the
/// first of all.  `None` when the client set none.
pub fn choose_icon(name: Option<String>, buffers: &Vec<IconBuffer>, scale: i32) -> (r: Option<IconChoice>)
    ensures
        match name {
            Some(n) => match r {
                Some(IconChoice::File(p)) => n@.len() > 0 && n@[0] == '/' && p@ == n@,
                Some(IconChoice::Named(m)) => !(n@.len() > 0 && n@[0] == '/') && m@ == n@,
                _ => false,
            },
            None => match r {
                None => buffers@.len() == 0,
                Some(IconChoice::Buffer(i)) => if exists|j: int| 0 <= j < buffers@.len() && (#[trigger] buffers@[j]).scale == scale {
                    is_first_by_order(buffers@, i as int, Some(scale))
                } else {
                    is_first_by_order(buffers@, i as int, None)
                },
                _ => false,
            },
        },
{
    match name {
        Some(n) => {
            let starts = n.as_str().unicode_len() > 0 && n.as_str().get_char(0) == '/';
            if starts {
                Some(IconChoice::File(n))
            } else {
                Some(IconChoice::Named(n))
            }
        },
        None => {
            match first_by_order(buffers, Some(scale)) {
                Some(i) => {
                    assert(buffers@[i as int].scale == scale);
                    Some(IconChoice::Buffer(i))
                },
                None => match first_by_order(buffers, None) {
                    Some(i) => Some(IconChoice::Buffer(i)),
                    None => None,
                },
            }
        },
    }
}

} // verus!
