//! How big the window switcher's icons are and how its grid is shaped, for a monitor and a
//! number of windows.  The switcher may take four fifths of the monitor in each direction.

use vstd::prelude::*;
use std::collections::HashSet;

verus! {

broadcast use vstd::std_specs::hash::group_hash_axioms;

pub const WIN_ICON_BORDER: u32 = 5;
pub const MIN_ICON_SIZE: u32 = 8;

/// Magnitude of every dimension fed to the metrics.
pub open spec fn dim(v: int) -> bool {
    0 <= v <= 0x10_0000
}

/// The switcher's icon size, label height and grid shape; whether previews are still shown.
#[derive(Clone, Copy, Debug, PartialEq, Eq, Structural)]
pub struct TabwinMetrics {
    pub cycle_preview: bool,
    pub icon_size: u32,
    pub label_height: u32,
    pub grid_cols: u32,
    pub grid_rows: u32,
}

/// `n / d` rounded up; an empty list over no column has no row, a list over no column has as
/// many rows as fit in `u32`.
pub open spec fn ceil_div(n: int, d: int) -> int {
    if d == 0 {
        if n == 0 { 0 } else { u32::MAX as int }
    } else {
        (n + d - 1) / d
    }
}

/// Columns and rows of the grid for cells of `size_request` pixels.
pub open spec fn grid_size(monitor_w: int, n: int, size_request: int) -> (int, int) {
    let cols = (4 * monitor_w) / (5 * size_request);
    (cols, ceil_div(n, cols))
}

/// Whether the grid is too tall for four fifths of the monitor.
pub open spec fn too_tall(size_request: int, rows: int, label: int, monitor_h: int) -> bool {
    5 * (size_request * rows + label) > 4 * monitor_h
}

pub open spec fn sreq(icon: int, label: int) -> int {
    icon + label + 2 * WIN_ICON_BORDER
}

/// The grid's metrics: starting from `icon` (the preview size when previews are shown), the
/// icon size is halved while the grid is too tall; when previews shrink to the standard icon
/// size they are dropped and the standard size is used; an icon below eight pixels stops the
/// halving at eight pixels, keeping the grid computed before that floor.
pub open spec fn spec_grid_metrics(icon: int, cycle: bool, std_icon: int, label: int, w: int, h: int, n: int) -> (int, bool, int, int)
    decreases (if cycle { 1int } else { 0int }), icon,
{
    let (cols, rows) = grid_size(w, n, sreq(icon, label));
    if !too_tall(sreq(icon, label), rows, label, h) || icon <= 0 {
        (icon, cycle, cols, rows)
    } else {
        let half = icon / 2;
        let (icon2, cycle2) = if cycle && half <= std_icon { (std_icon, false) } else { (half, cycle) };
        let (cols2, rows2) = grid_size(w, n, sreq(icon2, label));
        if icon2 < MIN_ICON_SIZE {
            (MIN_ICON_SIZE as int, cycle2, cols2, rows2)
        } else if !cycle2 && cycle {
            spec_grid_metrics(icon2, cycle2, std_icon, label, w, h, n)
        } else if icon2 < icon {
            spec_grid_metrics(icon2, cycle2, std_icon, label, w, h, n)
        } else {
            (icon2, cycle2, cols2, rows2)
        }
    }
}

/// The list's metrics: as many rows as fit in four fifths of the monitor's height, and the
/// columns they take.
pub open spec fn spec_list_metrics(icon: int, h: int, n: int) -> (int, int) {
    let rows = (4 * h) / (5 * (icon + 2 * WIN_ICON_BORDER));
    (ceil_div(n, rows), rows)
}

fn ceil_div_exec(n: u64, d: u64) -> (r: u64)
    requires
        n <= 0x10_0000,
        d <= 0x100_0000,
    ensures
        r == ceil_div(n as int, d as int),
{
    if d == 0 {
        if n == 0 { 0 } else { u32::MAX as u64 }
    } else {
        (n + d - 1) / d
    }
}

fn grid_size_exec(monitor_w: u64, n: u64, size_request: u64) -> (r: (u64, u64))
    requires
        dim(monitor_w as int),
        dim(n as int),
        1 <= size_request <= 0x40_0000,
    ensures
        (r.0 as int, r.1 as int) == grid_size(monitor_w as int, n as int, size_request as int),
        r.0 <= 4 * monitor_w,
        r.1 <= u32::MAX,
{
    let cols = (4 * monitor_w) / (5 * size_request);
    assert(cols <= 4 * monitor_w) by (nonlinear_arith)
        requires
            cols == (4 * monitor_w) / (5 * size_request),
            size_request >= 1,
    ;
    let rows = ceil_div_exec(n, cols);
    assert(rows <= u32::MAX) by (nonlinear_arith)
        requires
            rows == ceil_div(n as int, cols as int),
            n <= 0x10_0000,
    ;
    (cols, rows)
}

/// The window switcher's metrics.  `label_height` is the measured label height (0 when it
/// could not be measured, then the default is used); the icon sizes are the theme's.
pub fn calculate_tabwin_metrics(
    list_mode: bool,
    n_clients: u32,
    cycle_preview: bool,
    monitor_w: u32,
    monitor_h: u32,
    measured_label_height: u32,
    default_label_height: u32,
    standard_icon_size: u32,
    preview_size: u32,
    listview_icon_size: u32,
) -> (r: TabwinMetrics)
    requires
        dim(n_clients as int),
        dim(monitor_w as int),
        dim(monitor_h as int),
        dim(measured_label_height as int),
        dim(default_label_height as int),
        dim(standard_icon_size as int),
        dim(preview_size as int),
        dim(listview_icon_size as int),
    ensures
        ({
            let label = if measured_label_height > 0 { measured_label_height } else { default_label_height };
            &&& r.label_height == label
            &&& if list_mode {
                let (cols, rows) = spec_list_metrics(listview_icon_size as int, monitor_h as int, n_clients as int);
                &&& !r.cycle_preview
                &&& r.icon_size == listview_icon_size
                &&& r.grid_cols == cols
                &&& r.grid_rows == rows
            } else {
                let start = if cycle_preview { preview_size } else { standard_icon_size };
                let (icon, cycle, cols, rows) = spec_grid_metrics(
                    start as int,
                    cycle_preview,
                    standard_icon_size as int,
                    label as int,
                    monitor_w as int,
                    monitor_h as int,
                    n_clients as int,
                );
                &&& r.icon_size == icon
                &&& r.cycle_preview == cycle
                &&& r.grid_cols == cols
                &&& r.grid_rows == rows
            }
        }),
{
    let label = if measured_label_height > 0 { measured_label_height } else { default_label_height };
    if list_mode {
        let icon = listview_icon_size as u64;
        let rows = (4 * monitor_h as u64) / (5 * (icon + 2 * WIN_ICON_BORDER as u64));
        assert(rows <= 4 * monitor_h) by (nonlinear_arith)
            requires
                rows == (4 * monitor_h as u64) / (5 * (icon + 10)),
        ;
        let cols = ceil_div_exec(n_clients as u64, rows);
        return TabwinMetrics {
            cycle_preview: false,
            icon_size: listview_icon_size,
            label_height: label,
            grid_cols: cols as u32,
            grid_rows: rows as u32,
        };
    }
    let ghost start: int = if cycle_preview { preview_size as int } else { standard_icon_size as int };
    let mut icon: u64 = if cycle_preview { preview_size as u64 } else { standard_icon_size as u64 };
    let mut cycle = cycle_preview;
    let w = monitor_w as u64;
    let h = monitor_h as u64;
    let n = n_clients as u64;
    let lab = label as u64;
    let std_icon = standard_icon_size as u64;
    let (mut cols, mut rows) = grid_size_exec(w, n, icon + lab + 10);
    loop
        invariant_except_break
            (cols as int, rows as int) == grid_size(w as int, n as int, sreq(icon as int, lab as int)),
            spec_grid_metrics(icon as int, cycle, std_icon as int, lab as int, w as int, h as int, n as int)
                == spec_grid_metrics(start, cycle_preview, std_icon as int, lab as int, w as int, h as int, n as int),
        invariant
            dim(icon as int),
            dim(lab as int),
            dim(w as int),
            dim(h as int),
            dim(n as int),
            dim(std_icon as int),
            rows <= u32::MAX,
            cols <= 4 * w,
        ensures
            spec_grid_metrics(start, cycle_preview, std_icon as int, lab as int, w as int, h as int, n as int) == (
                icon as int,
                cycle,
                cols as int,
                rows as int,
            ),
            dim(icon as int),
            rows <= u32::MAX,
            cols <= 4 * w,
        decreases (if cycle { 1int } else { 0int }), icon,
    {
        let sr = icon + lab + 10;
        assert(sr * rows <= 0x40_0000 * 0xffff_ffff) by (nonlinear_arith)
            requires
                sr <= 0x40_0000,
                rows <= u32::MAX,
        ;
        if !(5 * (sr * rows + lab) > 4 * h) || icon == 0 {
            break;
        }
        let half = icon / 2;
        let was_cycle = cycle;
        let icon2 = if cycle && half <= std_icon {
            cycle = false;
            std_icon
        } else {
            half
        };
        let (cols2, rows2) = grid_size_exec(w, n, icon2 + lab + 10);
        if icon2 < MIN_ICON_SIZE as u64 {
            icon = MIN_ICON_SIZE as u64;
            cols = cols2;
            rows = rows2;
            break;
        }
        if !(!cycle && was_cycle) && !(icon2 < icon) {
            icon = icon2;
            cols = cols2;
            rows = rows2;
            break;
        }
        icon = icon2;
        cols = cols2;
        rows = rows2;
    }
    TabwinMetrics { cycle_preview: cycle, icon_size: icon as u32, label_height: label, grid_cols: cols as u32, grid_rows: rows as u32 }
}


/// The icon size the switcher would use on a monitor for `n` windows, before it can measure
/// its label (the default label height applies).
pub open spec fn guessed_icon_size(
    list_mode: bool,
    cycle_preview: bool,
    monitor: (u32, u32),
    n: int,
    default_label_height: u32,
    standard_icon_size: u32,
    preview_size: u32,
    listview_icon_size: u32,
) -> int {
    if list_mode {
        listview_icon_size as int
    } else {
        spec_grid_metrics(
            if cycle_preview { preview_size as int } else { standard_icon_size as int },
            cycle_preview,
            standard_icon_size as int,
            default_label_height as int,
            monitor.0 as int,
            monitor.1 as int,
            n,
        ).0
    }
}


/// The guess (as the switcher's signed size) for monitor `i` and the `k`-th window count
/// tried, `1 + 4 * k`.
pub open spec fn guess_for_count(
    list_mode: bool,
    cycle_preview: bool,
    monitors: Seq<(u32, u32)>,
    i: int,
    k: int,
    default_label_height: u32,
    standard_icon_size: u32,
    preview_size: u32,
    listview_icon_size: u32,
) -> i32 {
    guessed_icon_size(
        list_mode,
        cycle_preview,
        monitors[i],
        1 + 4 * k,
        default_label_height,
        standard_icon_size,
        preview_size,
        listview_icon_size,
    ) as u32 as i32
}

/// Whether `x` is the guess for one of the first `i` monitors (all sixteen window counts), or
/// for monitor `i` with one of the first `k` window counts.
spec fn listed_before(g: spec_fn(int, int) -> i32, i: int, k: int, x: i32) -> bool {
    exists|mi: int, kk: int|
        #![trigger g(mi, kk)]
        ((0 <= mi < i && 0 <= kk < 16) || (mi == i && 0 <= kk < k)) && x == g(mi, kk)
}

/// The icon sizes the switcher may ask for, on any of these monitors, for 1, 5, 9, ... 61
/// windows, as a set.
pub fn guess_icon_sizes(
    list_mode: bool,
    cycle_preview: bool,
    monitors: &Vec<(u32, u32)>,
    default_label_height: u32,
    standard_icon_size: u32,
    preview_size: u32,
    listview_icon_size: u32,
) -> (r: HashSet<i32>)
    requires
        forall|i: int| 0 <= i < monitors@.len() ==> dim((#[trigger] monitors@[i]).0 as int) && dim(monitors@[i].1 as int),
        dim(default_label_height as int),
        dim(standard_icon_size as int),
        dim(preview_size as int),
        dim(listview_icon_size as int),
    ensures
        forall|x: i32| #[trigger] r@.contains(x) <==> exists|i: int, k: int|
            0 <= i < monitors@.len() && 0 <= k < 16 && x == #[trigger] guess_for_count(
                list_mode,
                cycle_preview,
                monitors@,
                i,
                k,
                default_label_height,
                standard_icon_size,
                preview_size,
                listview_icon_size,
            ),
{
    let ghost g = |mi: int, kk: int| guess_for_count(
        list_mode,
        cycle_preview,
        monitors@,
        mi,
        kk,
        default_label_height,
        standard_icon_size,
        preview_size,
        listview_icon_size,
    );
    let mut r: HashSet<i32> = HashSet::new();
    let mut i: usize = 0;
    while i < monitors.len()
        invariant
            0 <= i <= monitors@.len(),
            forall|m: int| 0 <= m < monitors@.len() ==> dim((#[trigger] monitors@[m]).0 as int) && dim(monitors@[m].1 as int),
            dim(default_label_height as int),
            dim(standard_icon_size as int),
            dim(preview_size as int),
            dim(listview_icon_size as int),
            forall|mi: int, kk: int| #[trigger] g(mi, kk) == guess_for_count(
                list_mode,
                cycle_preview,
                monitors@,
                mi,
                kk,
                default_label_height,
                standard_icon_size,
                preview_size,
                listview_icon_size,
            ),
            forall|x: i32| r@.contains(x) <==> #[trigger] listed_before(g, i as int, 0, x),
        decreases monitors@.len() - i,
    {
        let (w, h) = monitors[i];
        let mut k: u32 = 0;
        while k < 16
            invariant
                0 <= k <= 16,
                0 <= i < monitors@.len(),
                (w, h) == monitors@[i as int],
                dim(w as int),
                dim(h as int),
                dim(default_label_height as int),
                dim(standard_icon_size as int),
                dim(preview_size as int),
                dim(listview_icon_size as int),
                    forall|mi: int, kk: int| #[trigger] g(mi, kk) == guess_for_count(
                    list_mode,
                    cycle_preview,
                    monitors@,
                    mi,
                    kk,
                    default_label_height,
                    standard_icon_size,
                    preview_size,
                    listview_icon_size,
                ),
                forall|x: i32| r@.contains(x) <==> #[trigger] listed_before(g, i as int, k as int, x),
            decreases 16 - k,
        {
            let n = 1 + 4 * k;
            let m = calculate_tabwin_metrics(
                list_mode,
                n,
                cycle_preview,
                w,
                h,
                0,
                default_label_height,
                standard_icon_size,
                preview_size,
                listview_icon_size,
            );
            assert(m.icon_size as int == guessed_icon_size(
                list_mode,
                cycle_preview,
                monitors@[i as int],
                1 + 4 * k,
                default_label_height,
                standard_icon_size,
                preview_size,
                listview_icon_size,
            ));
            let size = #[verifier::truncate] (m.icon_size as i32);
            assert(m.icon_size == guessed_icon_size(
                list_mode,
                cycle_preview,
                monitors@[i as int],
                1 + 4 * k,
                default_label_height,
                standard_icon_size,
                preview_size,
                listview_icon_size,
            ) as u32);
            assert(size == guess_for_count(
                list_mode,
                cycle_preview,
                monitors@,
                i as int,
                k as int,
                default_label_height,
                standard_icon_size,
                preview_size,
                listview_icon_size,
            ));
            assert(size == g(i as int, k as int));
            r.insert(size);
            proof {
                assert forall|x: i32| r@.contains(x) <==> #[trigger] listed_before(g, i as int, k + 1, x) by {
                    if listed_before(g, i as int, k + 1, x) {
                        let (mi, kk) = choose|mi: int, kk: int|
                            ((0 <= mi < i && 0 <= kk < 16) || (mi == i && 0 <= kk < k + 1)) && x == #[trigger] g(mi, kk);
                        if !(mi == i && kk == k) {
                            assert(listed_before(g, i as int, k as int, x));
                        }
                    }
                    if listed_before(g, i as int, k as int, x) {
                        let (mi, kk) = choose|mi: int, kk: int|
                            ((0 <= mi < i && 0 <= kk < 16) || (mi == i && 0 <= kk < k)) && x == #[trigger] g(mi, kk);
                        assert(listed_before(g, i as int, k + 1, x));
                    }
                }
            }
            k = k + 1;
        }
        proof {
            assert forall|x: i32| listed_before(g, i as int, 16, x) <==> #[trigger] listed_before(g, i + 1, 0, x) by {
                if listed_before(g, i as int, 16, x) {
                    let (mi, kk) = choose|mi: int, kk: int|
                        ((0 <= mi < i && 0 <= kk < 16) || (mi == i && 0 <= kk < 16)) && x == #[trigger] g(mi, kk);
                    assert(listed_before(g, i + 1, 0, x));
                }
                if listed_before(g, i + 1, 0, x) {
                    let (mi, kk) = choose|mi: int, kk: int|
                        ((0 <= mi < i + 1 && 0 <= kk < 16) || (mi == i + 1 && 0 <= kk < 0)) && x == #[trigger] g(mi, kk);
                    assert(listed_before(g, i as int, 16, x));
                }
            }
        }
        i = i + 1;
    }
    proof {
        assert forall|x: i32| #[trigger] r@.contains(x) <==> exists|mi: int, k: int|
            0 <= mi < monitors@.len() && 0 <= k < 16 && x == #[trigger] guess_for_count(
                list_mode,
                cycle_preview,
                monitors@,
                mi,
                k,
                default_label_height,
                standard_icon_size,
                preview_size,
                listview_icon_size,
            ) by {
            assert(r@.contains(x) <==> listed_before(g, monitors@.len() as int, 0, x));
            if listed_before(g, monitors@.len() as int, 0, x) {
                let (mi, kk) = choose|mi: int, kk: int|
                    ((0 <= mi < monitors@.len() && 0 <= kk < 16) || (mi == monitors@.len() && 0 <= kk < 0)) && x == #[trigger] g(mi, kk);
                assert(x == guess_for_count(
                    list_mode,
                    cycle_preview,
                    monitors@,
                    mi,
                    kk,
                    default_label_height,
                    standard_icon_size,
                    preview_size,
                    listview_icon_size,
                ));
            }
            if exists|mi: int, k: int| 0 <= mi < monitors@.len() && 0 <= k < 16 && x == #[trigger] guess_for_count(
                list_mode,
                cycle_preview,
                monitors@,
                mi,
                k,
                default_label_height,
                standard_icon_size,
                preview_size,
                listview_icon_size,
            ) {
                let (mi, kk) = choose|mi: int, k: int| 0 <= mi < monitors@.len() && 0 <= k < 16 && x == #[trigger] guess_for_count(
                    list_mode,
                    cycle_preview,
                    monitors@,
                    mi,
                    k,
                    default_label_height,
                    standard_icon_size,
                    preview_size,
                    listview_icon_size,
                );
                assert(x == g(mi, kk));
                assert(listed_before(g, monitors@.len() as int, 0, x));
            }
        }
    }
    r
}

} // verus!
