//! The window switcher ("tabwin"): its layout mode, where each window sits in its grid, which
//! window the keyboard selects next, and which keys drive it.

use vstd::prelude::*;

verus! {

/// CSS name of the switcher window.
pub const TABWIN_WIDGET_NAME: &'static str = "xfwm-tabwin";

/// Style used when the GTK theme has none for the switcher.
pub const TABWIN_DEFAULT_CSS: &'static str = "#xfwm-tabwin {\n  padding: 4px;\n  border-radius: 10px;\n  border: 1px solid @theme_selected_bg_color;\n  background-color: @theme_bg_color;\n}";

/// Title of the switcher's toplevel, by which the compositor recognises it.
pub const TABWIN_WINDOW_TITLE: &'static str = "Tabwin";

pub const WIN_ICON_SIZE: i32 = 48;
pub const WIN_PREVIEW_SIZE: i32 = 288;
pub const LISTVIEW_WIN_ICON_SIZE: i32 = 24;
pub const WIN_ICON_BORDER: u32 = 5;
pub const LABEL_HEIGHT: u32 = 30;

/// How the switcher lays out windows.
#[derive(Clone, Copy, Debug, PartialEq, Eq, Structural)]
pub enum TabwinMode {
    /// Icons in rows, filled left to right.
    Grid,
    /// A list in columns, filled top to bottom.
    List,
}

impl TabwinMode {
    /// The mode for a settings value: 0 is the grid, 1 the list; anything else is refused and
    /// handed back.
    pub fn try_from_i32(value: i32) -> (r: Result<TabwinMode, i32>)
        ensures
            value == 0 ==> r == Ok::<TabwinMode, i32>(TabwinMode::Grid),
            value == 1 ==> r == Ok::<TabwinMode, i32>(TabwinMode::List),
            value != 0 && value != 1 ==> r == Err::<TabwinMode, i32>(value),
    {
        match value {
            0 => Ok(TabwinMode::Grid),
            1 => Ok(TabwinMode::List),
            invalid => Err(invalid),
        }
    }
}

/// Grid cell `(column, row)` of the `pos`-th window: the grid fills rows, the list fills columns.
pub open spec fn spec_grid_cell(mode: TabwinMode, pos: int, cols: int, rows: int) -> (int, int) {
    match mode {
        TabwinMode::Grid => (pos % cols, pos / cols),
        TabwinMode::List => (pos / rows, pos % rows),
    }
}

pub fn grid_cell(mode: TabwinMode, pos: u32, cols: u32, rows: u32) -> (r: (u32, u32))
    requires
        mode == TabwinMode::Grid ==> cols > 0,
        mode == TabwinMode::List ==> rows > 0,
    ensures
        (r.0 as int, r.1 as int) == spec_grid_cell(mode, pos as int, cols as int, rows as int),
{
    match mode {
        TabwinMode::Grid => (pos % cols, pos / cols),
        TabwinMode::List => (pos / rows, pos % rows),
    }
}

/// The grid is filled row by row: the `pos`-th window sits in column `pos mod cols` of row
/// `pos div cols`, so that column plus row times the number of columns gives back `pos`.  The
/// list is filled column by column.
pub proof fn lemma_grid_cell_fill_order(mode: TabwinMode, pos: int, cols: int, rows: int)
    requires
        pos >= 0,
        mode == TabwinMode::Grid ==> cols > 0,
        mode == TabwinMode::List ==> rows > 0,
    ensures
        mode == TabwinMode::Grid ==> ({
            let (c, r) = spec_grid_cell(mode, pos, cols, rows);
            0 <= c < cols && r >= 0 && c + r * cols == pos
        }),
        mode == TabwinMode::List ==> ({
            let (c, r) = spec_grid_cell(mode, pos, cols, rows);
            0 <= r < rows && c >= 0 && r + c * rows == pos
        }),
{
    if mode == TabwinMode::Grid {
        vstd::arithmetic::div_mod::lemma_fundamental_div_mod(pos, cols);
        vstd::arithmetic::div_mod::lemma_mod_bound(pos, cols);
        vstd::arithmetic::div_mod::lemma_div_pos_is_pos(pos, cols);
        assert((pos / cols) * cols == cols * (pos / cols)) by (nonlinear_arith);
    } else {
        vstd::arithmetic::div_mod::lemma_fundamental_div_mod(pos, rows);
        vstd::arithmetic::div_mod::lemma_mod_bound(pos, rows);
        vstd::arithmetic::div_mod::lemma_div_pos_is_pos(pos, rows);
        assert((pos / rows) * rows == rows * (pos / rows)) by (nonlinear_arith);
    }
}

/// The position after `i` among `n`, wrapping to the first.
pub open spec fn wrap_inc(i: int, n: int) -> int {
    if i + 1 < n { i + 1 } else { 0 }
}

/// The position before `i` among `n`, wrapping to the last.
pub open spec fn wrap_dec(i: int, n: int) -> int {
    if i == 0 { n - 1 } else { i - 1 }
}

/// `k` steps forward (or back) from `p` among `t` positions, for `k <= t`.
pub open spec fn steps_from(p: int, k: int, forward: bool, t: int) -> int {
    if forward {
        if p + k < t { p + k } else { p + k - t }
    } else {
        if p - k >= 0 { p - k } else { p - k + t }
    }
}

/// The switcher's position in the direction across the fill order for the `i`-th window.
pub open spec fn across_of(i: int, primary: int, secondary: int) -> int {
    (i % primary) * secondary + i / primary
}

/// The window index at a position across the fill order.
pub open spec fn index_at(q: int, primary: int, secondary: int) -> int {
    (q % secondary) * primary + q / secondary
}

/// Moving across the fill order from `i`: the first position, `k` steps on, that holds a window.
pub open spec fn is_across_target(r: int, i: int, forward: bool, n: int, primary: int, secondary: int) -> bool {
    let t = primary * secondary;
    let p = across_of(i, primary, secondary);
    exists|k: int|
        #![trigger steps_from(p, k, forward, t)]
        1 <= k <= t && index_at(steps_from(p, k, forward, t), primary, secondary) == r && r < n
            && forall|j: int|
            1 <= j < k ==> index_at(#[trigger] steps_from(p, j, forward, t), primary, secondary) >= n
}

proof fn lemma_across_round_trip(i: int, pr: int, se: int)
    requires
        0 <= i < pr * se,
        pr > 0,
        se > 0,
    ensures
        0 <= across_of(i, pr, se) < pr * se,
        index_at(across_of(i, pr, se), pr, se) == i,
{
    let q = i / pr;
    let r = i % pr;
    vstd::arithmetic::div_mod::lemma_fundamental_div_mod(i, pr);
    assert(0 <= r < pr) by {
        vstd::arithmetic::div_mod::lemma_mod_bound(i, pr);
    }
    assert(0 <= q < se) by {
        vstd::arithmetic::div_mod::lemma_div_pos_is_pos(i, pr);
        vstd::arithmetic::div_mod::lemma_div_is_ordered(i, pr * se - 1, pr);
        assert(pr * se - 1 < pr * se);
        assert((pr * se - 1) / pr < se) by {
            vstd::arithmetic::div_mod::lemma_multiply_divide_lt(pr * se - 1, pr, se);
            assert(se * pr == pr * se) by (nonlinear_arith);
        }
    }
    let p = r * se + q;
    assert(p == across_of(i, pr, se));
    assert(0 <= p < pr * se) by (nonlinear_arith)
        requires
            0 <= r < pr,
            0 <= q < se,
            p == r * se + q,
    ;
    vstd::arithmetic::div_mod::lemma_fundamental_div_mod_converse_mod(p, se, r, q);
    vstd::arithmetic::div_mod::lemma_fundamental_div_mod_converse_div(p, se, r, q);
    assert(q * pr + r == i) by (nonlinear_arith)
        requires
            i == pr * q + r,
    ;
}

proof fn lemma_index_at_bound(q: int, pr: int, se: int)
    requires
        0 <= q < pr * se,
        pr > 0,
        se > 0,
    ensures
        0 <= index_at(q, pr, se) < pr * se,
{
    let a = q % se;
    let b = q / se;
    vstd::arithmetic::div_mod::lemma_mod_bound(q, se);
    vstd::arithmetic::div_mod::lemma_div_pos_is_pos(q, se);
    assert(b < pr) by {
        assert(se * pr == pr * se) by (nonlinear_arith);
        vstd::arithmetic::div_mod::lemma_multiply_divide_lt(q, se, pr);
    }
    assert(0 <= a * pr + b < pr * se) by (nonlinear_arith)
        requires
            0 <= a < se,
            0 <= b < pr,
    ;
}

/// What moving across the fill order yields: the selection's first window in that direction,
/// or nothing when there is no selection among the windows.
pub open spec fn across_result(s: TabwinSelection, forward: bool, r: Option<u32>) -> bool {
    match s.selected {
        Some(cur) => match first_pos(s.ids@, cur) {
            Some(i) => r matches Some(id) && exists|ni: int|
                is_across_target(ni, i, forward, s.ids@.len() as int, s.primary(), s.secondary()) && 0
                    <= ni < s.ids@.len() && id == s.ids@[ni],
            None => r.is_none(),
        },
        None => r.is_none(),
    }
}

/// A direction key of the switcher.
#[derive(Clone, Copy, Debug, PartialEq, Eq, Structural)]
pub enum TabwinDirection {
    Up,
    Down,
    Left,
    Right,
}

/// Up and down move across the grid's rows; left and right across the list's columns.  The
/// other directions follow the fill order.
pub open spec fn moves_across(mode: TabwinMode, dir: TabwinDirection) -> bool {
    match mode {
        TabwinMode::Grid => dir == TabwinDirection::Up || dir == TabwinDirection::Down,
        TabwinMode::List => dir == TabwinDirection::Left || dir == TabwinDirection::Right,
    }
}

pub open spec fn dir_forward(dir: TabwinDirection) -> bool {
    dir == TabwinDirection::Down || dir == TabwinDirection::Right
}

/// The windows in the switcher, in their order, and which one is selected.
pub struct TabwinSelection {
    pub ids: Vec<u32>,
    pub selected: Option<u32>,
    pub mode: TabwinMode,
    pub grid_cols: u32,
    pub grid_rows: u32,
}

/// Where `x` first stands in `s`.
pub open spec fn first_pos(s: Seq<u32>, x: u32) -> Option<int> {
    s.index_of_first(x)
}

fn position(v: &Vec<u32>, x: u32) -> (r: Option<usize>)
    ensures
        match r {
            Some(i) => first_pos(v@, x) == Some(i as int) && i < v@.len() && v@[i as int] == x,
            None => first_pos(v@, x) is None,
        },
{
    proof {
        v@.index_of_first_ensures(x);
    }
    let mut i: usize = 0;
    while i < v.len()
        invariant
            0 <= i <= v@.len(),
            forall|j: int| 0 <= j < i ==> v@[j] != x,
        decreases v@.len() - i,
    {
        if v[i] == x {
            proof {
                v@.index_of_first_ensures(x);
                assert(v@[i as int] == x);
                assert(v@.contains(x));
                let k = first_pos(v@, x)->0;
                if k < i as int {
                    assert(v@[k] != x);
                }
                if (i as int) < k {
                    assert(v@[i as int] != x);
                }
            }
            return Some(i);
        }
        i = i + 1;
    }
    proof {
        v@.index_of_first_ensures(x);
        if first_pos(v@, x) is Some {
            let k = first_pos(v@, x)->0;
            assert(v@[k] != x);
        }
    }
    None
}

impl TabwinSelection {
    pub open spec fn wf(self) -> bool {
        self.ids@.no_duplicates()
    }

    pub open spec fn spec_ids(self) -> Seq<u32> {
        self.ids@
    }

    pub open spec fn spec_selected(self) -> Option<u32> {
        self.selected
    }

    pub open spec fn spec_mode(self) -> TabwinMode {
        self.mode
    }

    pub open spec fn spec_cols(self) -> u32 {
        self.grid_cols
    }

    pub open spec fn spec_rows(self) -> u32 {
        self.grid_rows
    }

    /// The windows in first-appearance order, with duplicates dropped.
    pub open spec fn dedup(s: Seq<u32>) -> Seq<u32>
        decreases s.len(),
    {
        if s.len() == 0 {
            Seq::empty()
        } else {
            let prev = Self::dedup(s.drop_last());
            if prev.contains(s.last()) {
                prev
            } else {
                prev.push(s.last())
            }
        }
    }

    /// The windows kept once each are exactly the windows given, each listed once.
    pub proof fn lemma_dedup(s: Seq<u32>)
        ensures
            Self::dedup(s).no_duplicates(),
            forall|x: u32| #[trigger] Self::dedup(s).contains(x) <==> s.contains(x),
            Self::dedup(s).len() <= s.len(),
        decreases s.len(),
    {
        if s.len() > 0 {
            let p = s.drop_last();
            Self::lemma_dedup(p);
            assert forall|x: u32| #[trigger] Self::dedup(s).contains(x) <==> s.contains(x) by {
                assert(s == p.push(s.last()));
                if s.contains(x) && x != s.last() {
                    let k = choose|k: int| 0 <= k < s.len() && s[k] == x;
                    assert(p[k] == x);
                    assert(p.contains(x));
                }
                if p.contains(x) {
                    let k = choose|k: int| 0 <= k < p.len() && p[k] == x;
                    assert(s[k] == x);
                }
                if Self::dedup(p).contains(s.last()) {
                } else {
                    let d = Self::dedup(p);
                    if d.push(s.last()).contains(x) && x != s.last() {
                        let k = choose|k: int| 0 <= k < d.push(s.last()).len() && d.push(s.last())[k] == x;
                        assert(d[k] == x);
                    }
                    if d.contains(x) {
                        let k = choose|k: int| 0 <= k < d.len() && d[k] == x;
                        assert(d.push(s.last())[k] == x);
                    }
                    if x == s.last() {
                        assert(d.push(s.last())[d.len() as int] == x);
                    }
                }
                if x == s.last() {
                    assert(s[s.len() - 1] == x);
                }
            }
            if !Self::dedup(p).contains(s.last()) {
                let d = Self::dedup(p);
                assert forall|i: int, j: int| 0 <= i < j < d.push(s.last()).len() implies d.push(s.last())[i]
                    != d.push(s.last())[j] by {
                    if j == d.len() {
                        assert(d[i] != s.last()) by {
                            if d[i] == s.last() {
                                assert(d.contains(s.last()));
                            }
                        }
                    }
                }
            }
        }
    }

    /// A switcher over these windows (each listed once, in first-appearance order) with
    /// `initial` selected.
    pub fn new(ids: &Vec<u32>, initial: u32, mode: TabwinMode, grid_cols: u32, grid_rows: u32) -> (r: TabwinSelection)
        ensures
            r.wf(),
            r.spec_ids() == Self::dedup(ids@),
            forall|x: u32| #[trigger] r.spec_ids().contains(x) <==> ids@.contains(x),
            r.spec_selected() == Some(initial),
            r.spec_mode() == mode,
            r.spec_cols() == grid_cols,
            r.spec_rows() == grid_rows,
    {
        let mut out: Vec<u32> = Vec::new();
        let mut i: usize = 0;
        while i < ids.len()
            invariant
                0 <= i <= ids@.len(),
                out@ == Self::dedup(ids@.subrange(0, i as int)),
                out@.no_duplicates(),
            decreases ids@.len() - i,
        {
            let x = ids[i];
            let found = position(&out, x);
            proof {
                out@.index_of_first_ensures(x);
                let s = ids@.subrange(0, i as int + 1);
                assert(s.drop_last() == ids@.subrange(0, i as int));
                assert(s.last() == x);
            }
            if found.is_none() {
                out.push(x);
            }
            i = i + 1;
        }
        assert(ids@.subrange(0, ids@.len() as int) == ids@);
        proof {
            Self::lemma_dedup(ids@);
        }
        TabwinSelection { ids: out, selected: Some(initial), mode, grid_cols, grid_rows }
    }

    /// The selected window.
    pub fn selected(&self) -> (r: Option<u32>)
        ensures
            r == self.spec_selected(),
    {
        self.selected
    }

    /// Selects a window, whether or not the switcher shows it.
    pub fn set_selected(&mut self, id: u32)
        ensures
            final(self).spec_selected() == Some(id),
            final(self).spec_ids() == old(self).spec_ids(),
            final(self).spec_mode() == old(self).spec_mode(),
            final(self).spec_cols() == old(self).spec_cols(),
            final(self).spec_rows() == old(self).spec_rows(),
    {
        self.selected = Some(id);
    }

    /// The window `forward` (or backward) along the fill order from the selected one, wrapping
    /// around; `None` when the selection is not one of the windows.
    pub open spec fn spec_sequential(self, forward: bool) -> Option<u32> {
        match self.selected {
            None => None,
            Some(cur) => match first_pos(self.ids@, cur) {
                None => None,
                Some(i) => Some(
                    self.ids@[if forward {
                        wrap_inc(i, self.ids@.len() as int)
                    } else {
                        wrap_dec(i, self.ids@.len() as int)
                    }],
                ),
            },
        }
    }

    /// Moves the selection along the fill order and returns the new selection; without a
    /// selection among the windows nothing changes.
    pub fn select_sequential(&mut self, forward: bool) -> (r: Option<u32>)
        ensures
            r == old(self).spec_sequential(forward),
            final(self).spec_selected() == match r {
                Some(id) => Some(id),
                None => old(self).spec_selected(),
            },
            final(self).spec_ids() == old(self).spec_ids(),
            final(self).spec_mode() == old(self).spec_mode(),
            final(self).spec_cols() == old(self).spec_cols(),
            final(self).spec_rows() == old(self).spec_rows(),
    {
        match self.selected {
            None => None,
            Some(cur) => match position(&self.ids, cur) {
                None => {
                    assert(first_pos(self.ids@, cur) is None);
                    None
                },
                Some(i) => {
                    assert(first_pos(self.ids@, cur) == Some(i as int));
                    let n = self.ids.len();
                    let ni = if forward {
                        if i + 1 < n { i + 1 } else { 0 }
                    } else {
                        if i == 0 { n - 1 } else { i - 1 }
                    };
                    let id = self.ids[ni];
                    self.selected = Some(id);
                    Some(id)
                },
            },
        }
    }

    /// The dimensions the switcher moves across: the grid moves down columns, the list along rows.
    pub open spec fn primary(self) -> int {
        match self.mode {
            TabwinMode::Grid => self.grid_cols as int,
            TabwinMode::List => self.grid_rows as int,
        }
    }

    pub open spec fn secondary(self) -> int {
        match self.mode {
            TabwinMode::Grid => self.grid_rows as int,
            TabwinMode::List => self.grid_cols as int,
        }
    }

    /// The grid holds every window.
    pub open spec fn grid_fits(self) -> bool {
        &&& self.grid_cols > 0
        &&& self.grid_rows > 0
        &&& self.ids@.len() <= self.grid_cols * self.grid_rows <= usize::MAX
    }

    /// Moves the selection across the fill order (down in the grid, sideways in the list),
    /// skipping cells with no window.  Returns the new selection; without a selection among the
    /// windows nothing changes.
    pub fn select_across(&mut self, forward: bool) -> (r: Option<u32>)
        requires
            old(self).grid_fits(),
        ensures
            across_result(*old(self), forward, r),
            final(self).spec_selected() == match r {
                Some(id) => Some(id),
                None => old(self).spec_selected(),
            },
            final(self).spec_ids() == old(self).spec_ids(),
            final(self).spec_mode() == old(self).spec_mode(),
            final(self).spec_cols() == old(self).spec_cols(),
            final(self).spec_rows() == old(self).spec_rows(),
    {
        let cur = match self.selected {
            None => { return None; },
            Some(c) => c,
        };
        let i = match position(&self.ids, cur) {
            None => { return None; },
            Some(i) => i,
        };
        let n = self.ids.len();
        let (pr, se): (usize, usize) = match self.mode {
            TabwinMode::Grid => (self.grid_cols as usize, self.grid_rows as usize),
            TabwinMode::List => (self.grid_rows as usize, self.grid_cols as usize),
        };
        assert(pr * se == self.grid_cols * self.grid_rows) by (nonlinear_arith)
            requires
                (pr == self.grid_cols && se == self.grid_rows) || (pr == self.grid_rows && se == self.grid_cols),
        ;
        let total: usize = pr * se;
        proof {
            lemma_across_round_trip(i as int, pr as int, se as int);
        }
        let p: usize = (i % pr) * se + i / pr;
        let ghost gp = p as int;
        let mut q: usize = p;
        let mut k: usize = 0;
        let mut ni: usize = 0;
        loop
            invariant_except_break
                forall|j: int|
                    1 <= j <= k ==> index_at(#[trigger] steps_from(gp, j, forward, total as int), pr as int, se as int) >= n,
            invariant
                0 <= k <= total,
                total == pr * se,
                pr > 0,
                se > 0,
                i < n <= total,
                gp == across_of(i as int, pr as int, se as int),
                0 <= gp < total,
                index_at(gp, pr as int, se as int) == i,
                q == steps_from(gp, k as int, forward, total as int),
                0 <= q < total,
            ensures
                ni < n,
                is_across_target(ni as int, i as int, forward, n as int, pr as int, se as int),
            decreases total - k,
        {
            if k == total {
                assert(q == gp);
                assert(false);
            }
            q = if forward {
                if q + 1 < total { q + 1 } else { 0 }
            } else {
                if q == 0 { total - 1 } else { q - 1 }
            };
            k = k + 1;
            proof {
                lemma_index_at_bound(q as int, pr as int, se as int);
            }
            ni = (q % se) * pr + q / se;
            if ni < n {
                proof {
                    let t = total as int;
                    assert(index_at(steps_from(gp, k as int, forward, t), pr as int, se as int) == ni);
                    assert(is_across_target(ni as int, i as int, forward, n as int, pr as int, se as int));
                }
                break;
            }
        }
        let id = self.ids[ni];
        self.selected = Some(id);
        Some(id)
    }

    /// Next window (tab).
    pub fn select_next(&mut self) -> (r: Option<u32>)
        ensures
            r == old(self).spec_sequential(true),
            final(self).spec_selected() == match r {
                Some(id) => Some(id),
                None => old(self).spec_selected(),
            },
            final(self).spec_ids() == old(self).spec_ids(),
            final(self).spec_mode() == old(self).spec_mode(),
            final(self).spec_cols() == old(self).spec_cols(),
            final(self).spec_rows() == old(self).spec_rows(),
    {
        self.select_sequential(true)
    }

    /// Previous window (shift-tab).
    pub fn select_previous(&mut self) -> (r: Option<u32>)
        ensures
            r == old(self).spec_sequential(false),
            final(self).spec_selected() == match r {
                Some(id) => Some(id),
                None => old(self).spec_selected(),
            },
            final(self).spec_ids() == old(self).spec_ids(),
            final(self).spec_mode() == old(self).spec_mode(),
            final(self).spec_cols() == old(self).spec_cols(),
            final(self).spec_rows() == old(self).spec_rows(),
    {
        self.select_sequential(false)
    }
}

/// Moving to the next window and then back selects the window that was selected.
pub proof fn lemma_next_then_previous(s: TabwinSelection)
    requires
        s.wf(),
        s.spec_sequential(true) is Some,
    ensures
        (TabwinSelection { selected: s.spec_sequential(true), ..s }).spec_sequential(false) == s.spec_selected(),
{
    let cur = s.selected->0;
    let ids = s.ids@;
    ids.index_of_first_ensures(cur);
    let i = first_pos(ids, cur)->0;
    let n = ids.len() as int;
    let j = wrap_inc(i, n);
    let nxt = ids[j];
    ids.index_of_first_ensures(nxt);
    let k = first_pos(ids, nxt)->0;
    assert(k == j) by {
        if k != j {
            assert(ids[k] == ids[j]);
        }
    }
}

/// Moving to the previous window and then forward selects the window that was selected.
pub proof fn lemma_previous_then_next(s: TabwinSelection)
    requires
        s.wf(),
        s.spec_sequential(false) is Some,
    ensures
        (TabwinSelection { selected: s.spec_sequential(false), ..s }).spec_sequential(true) == s.spec_selected(),
{
    let cur = s.selected->0;
    let ids = s.ids@;
    ids.index_of_first_ensures(cur);
    let i = first_pos(ids, cur)->0;
    let n = ids.len() as int;
    let j = wrap_dec(i, n);
    let prv = ids[j];
    ids.index_of_first_ensures(prv);
    let k = first_pos(ids, prv)->0;
    assert(k == j) by {
        if k != j {
            assert(ids[k] == ids[j]);
        }
    }
}

proof fn lemma_grid_step_down(i: int, c: int, rws: int)
    requires
        c > 0,
        rws > 0,
        0 <= i,
        i + c < c * rws,
    ensures
        0 <= across_of(i, c, rws) < c * rws,
        across_of(i, c, rws) + 1 < c * rws,
        index_at(across_of(i, c, rws) + 1, c, rws) == i + c,
{
    let q = i / c;
    let r = i % c;
    vstd::arithmetic::div_mod::lemma_fundamental_div_mod(i, c);
    vstd::arithmetic::div_mod::lemma_mod_bound(i, c);
    vstd::arithmetic::div_mod::lemma_div_pos_is_pos(i, c);
    assert(q + 1 < rws) by (nonlinear_arith)
        requires
            i == c * q + r,
            0 <= r < c,
            i + c < c * rws,
            c > 0,
    ;
    let p = r * rws + q;
    assert(p == across_of(i, c, rws));
    assert(0 <= p && p + 1 < c * rws) by (nonlinear_arith)
        requires
            0 <= r < c,
            0 <= q,
            q + 1 < rws,
            p == r * rws + q,
    ;
    vstd::arithmetic::div_mod::lemma_fundamental_div_mod_converse_mod(p + 1, rws, r, q + 1);
    vstd::arithmetic::div_mod::lemma_fundamental_div_mod_converse_div(p + 1, rws, r, q + 1);
    assert((q + 1) * c + r == i + c) by (nonlinear_arith)
        requires
            i == c * q + r,
    ;
}

proof fn lemma_grid_step_up(i: int, c: int, rws: int)
    requires
        c > 0,
        rws > 0,
        c <= i < c * rws,
    ensures
        0 <= across_of(i, c, rws) - 1 < c * rws,
        index_at(across_of(i, c, rws) - 1, c, rws) == i - c,
{
    let q = i / c;
    let r = i % c;
    vstd::arithmetic::div_mod::lemma_fundamental_div_mod(i, c);
    vstd::arithmetic::div_mod::lemma_mod_bound(i, c);
    assert(1 <= q < rws) by (nonlinear_arith)
        requires
            i == c * q + r,
            0 <= r < c,
            c <= i < c * rws,
            c > 0,
    ;
    let p = r * rws + q;
    assert(p == across_of(i, c, rws));
    assert(1 <= p && p < c * rws) by (nonlinear_arith)
        requires
            0 <= r < c,
            1 <= q < rws,
            p == r * rws + q,
    ;
    vstd::arithmetic::div_mod::lemma_fundamental_div_mod_converse_mod(p - 1, rws, r, q - 1);
    vstd::arithmetic::div_mod::lemma_fundamental_div_mod_converse_div(p - 1, rws, r, q - 1);
    assert((q - 1) * c + r == i - c) by (nonlinear_arith)
        requires
            i == c * q + r,
    ;
}

proof fn lemma_first_pos_at(ids: Seq<u32>, i: int)
    requires
        ids.no_duplicates(),
        0 <= i < ids.len(),
    ensures
        first_pos(ids, ids[i]) == Some(i),
{
    ids.index_of_first_ensures(ids[i]);
    assert(ids.contains(ids[i]));
    let k = first_pos(ids, ids[i])->0;
    if k != i {
        assert(ids[k] == ids[i]);
    }
}

/// When the first step across the fill order lands on a window, that window is the target.
proof fn lemma_across_first_step(ni: int, i: int, forward: bool, n: int, pr: int, se: int)
    requires
        is_across_target(ni, i, forward, n, pr, se),
        index_at(steps_from(across_of(i, pr, se), 1, forward, pr * se), pr, se) < n,
        pr * se >= 1,
    ensures
        ni == index_at(steps_from(across_of(i, pr, se), 1, forward, pr * se), pr, se),
{
    let p = across_of(i, pr, se);
    let t = pr * se;
    let k = choose|k: int|
        #![trigger steps_from(p, k, forward, t)]
        1 <= k <= t && index_at(steps_from(p, k, forward, t), pr, se) == ni && ni < n && forall|j: int|
            1 <= j < k ==> index_at(#[trigger] steps_from(p, j, forward, t), pr, se) >= n;
    if k != 1 {
        assert(index_at(steps_from(p, 1, forward, t), pr, se) >= n);
    }
}

/// The window a selection moving across the fill order lands on.
proof fn lemma_across_lands(s: TabwinSelection, i: int, forward: bool, r: Option<u32>, target: int)
    requires
        s.wf(),
        0 <= i < s.ids@.len(),
        s.selected == Some(s.ids@[i]),
        s.grid_fits(),
        across_result(s, forward, r),
        0 <= target < s.ids@.len(),
        index_at(steps_from(across_of(i, s.primary(), s.secondary()), 1, forward, s.primary() * s.secondary()),
            s.primary(), s.secondary()) == target,
    ensures
        r == Some(s.ids@[target]),
{
    lemma_first_pos_at(s.ids@, i);
    let n = s.ids@.len() as int;
    let id = r->0;
    let ni = choose|ni: int|
        is_across_target(ni, i, forward, n, s.primary(), s.secondary()) && 0 <= ni < n && id == s.ids@[ni];
    assert(s.primary() * s.secondary() >= 1) by (nonlinear_arith)
        requires
            s.primary() >= 1,
            s.secondary() >= 1,
    ;
    lemma_across_first_step(ni, i, forward, n, s.primary(), s.secondary());
}

/// In the grid, Down moves to the window right below (one row on, `cols` windows further in
/// the fill order) when there is one.
pub proof fn lemma_grid_down(s: TabwinSelection, i: int, r: Option<u32>)
    requires
        s.wf(),
        0 <= i < s.ids@.len(),
        s.selected == Some(s.ids@[i]),
        s.mode == TabwinMode::Grid,
        s.grid_fits(),
        i + s.grid_cols < s.ids@.len(),
        s.direction_result(TabwinDirection::Down, r),
    ensures
        r == Some(s.ids@[i + s.grid_cols]),
{
    let c = s.grid_cols as int;
    let rws = s.grid_rows as int;
    lemma_grid_step_down(i, c, rws);
    lemma_across_lands(s, i, true, r, i + c);
}

/// In the grid, Up moves to the window right above (`cols` windows back in the fill order) when
/// the selection is not in the first row.
pub proof fn lemma_grid_up(s: TabwinSelection, i: int, r: Option<u32>)
    requires
        s.wf(),
        0 <= i < s.ids@.len(),
        s.selected == Some(s.ids@[i]),
        s.mode == TabwinMode::Grid,
        s.grid_fits(),
        i >= s.grid_cols,
        s.direction_result(TabwinDirection::Up, r),
    ensures
        r == Some(s.ids@[i - s.grid_cols]),
{
    let c = s.grid_cols as int;
    let rws = s.grid_rows as int;
    assert(i < c * rws);
    lemma_grid_step_up(i, c, rws);
    lemma_across_lands(s, i, false, r, i - c);
}

/// In the grid, Down and then Up comes back to the window the selection started from.
pub proof fn lemma_grid_down_then_up(s: TabwinSelection, i: int, r: Option<u32>, r2: Option<u32>)
    requires
        s.wf(),
        0 <= i < s.ids@.len(),
        s.selected == Some(s.ids@[i]),
        s.mode == TabwinMode::Grid,
        s.grid_fits(),
        i + s.grid_cols < s.ids@.len(),
        s.direction_result(TabwinDirection::Down, r),
        (TabwinSelection { selected: r, ..s }).direction_result(TabwinDirection::Up, r2),
    ensures
        r2 == s.selected,
{
    lemma_grid_down(s, i, r);
    let s2 = TabwinSelection { selected: r, ..s };
    lemma_grid_up(s2, i + s.grid_cols, r2);
}

/// In the list, Down steps forward and Up backward along the windows, wrapping around.
pub proof fn lemma_list_up_down(s: TabwinSelection, i: int, r: Option<u32>)
    requires
        s.wf(),
        0 <= i < s.ids@.len(),
        s.selected == Some(s.ids@[i]),
        s.mode == TabwinMode::List,
    ensures
        s.direction_result(TabwinDirection::Down, r) ==> r == Some(
            s.ids@[if i + 1 < s.ids@.len() { i + 1 } else { 0 }],
        ),
        s.direction_result(TabwinDirection::Up, r) ==> r == Some(
            s.ids@[if i == 0 { s.ids@.len() - 1 } else { i - 1 }],
        ),
{
    lemma_first_pos_at(s.ids@, i);
}

impl TabwinSelection {
    /// What a direction key yields.
    pub open spec fn direction_result(self, dir: TabwinDirection, r: Option<u32>) -> bool {
        if moves_across(self.mode, dir) {
            across_result(self, dir_forward(dir), r)
        } else {
            r == self.spec_sequential(dir_forward(dir))
        }
    }

    /// Moves the selection for a direction key and returns the new selection.
    pub fn select_direction(&mut self, dir: TabwinDirection) -> (r: Option<u32>)
        requires
            moves_across(old(self).spec_mode(), dir) ==> old(self).grid_fits(),
        ensures
            old(self).direction_result(dir, r),
            final(self).spec_selected() == match r {
                Some(id) => Some(id),
                None => old(self).spec_selected(),
            },
            final(self).spec_ids() == old(self).spec_ids(),
            final(self).spec_mode() == old(self).spec_mode(),
            final(self).spec_cols() == old(self).spec_cols(),
            final(self).spec_rows() == old(self).spec_rows(),
    {
        let forward = dir == TabwinDirection::Down || dir == TabwinDirection::Right;
        let across = match self.mode {
            TabwinMode::Grid => dir == TabwinDirection::Up || dir == TabwinDirection::Down,
            TabwinMode::List => dir == TabwinDirection::Left || dir == TabwinDirection::Right,
        };
        if across {
            self.select_across(forward)
        } else {
            self.select_sequential(forward)
        }
    }

    pub fn select_up(&mut self) -> (r: Option<u32>)
        requires
            moves_across(old(self).spec_mode(), TabwinDirection::Up) ==> old(self).grid_fits(),
        ensures
            old(self).direction_result(TabwinDirection::Up, r),
            final(self).spec_selected() == match r {
                Some(id) => Some(id),
                None => old(self).spec_selected(),
            },
            final(self).spec_ids() == old(self).spec_ids(),
    {
        self.select_direction(TabwinDirection::Up)
    }

    pub fn select_down(&mut self) -> (r: Option<u32>)
        requires
            moves_across(old(self).spec_mode(), TabwinDirection::Down) ==> old(self).grid_fits(),
        ensures
            old(self).direction_result(TabwinDirection::Down, r),
            final(self).spec_selected() == match r {
                Some(id) => Some(id),
                None => old(self).spec_selected(),
            },
            final(self).spec_ids() == old(self).spec_ids(),
    {
        self.select_direction(TabwinDirection::Down)
    }

    pub fn select_left(&mut self) -> (r: Option<u32>)
        requires
            moves_across(old(self).spec_mode(), TabwinDirection::Left) ==> old(self).grid_fits(),
        ensures
            old(self).direction_result(TabwinDirection::Left, r),
            final(self).spec_selected() == match r {
                Some(id) => Some(id),
                None => old(self).spec_selected(),
            },
            final(self).spec_ids() == old(self).spec_ids(),
    {
        self.select_direction(TabwinDirection::Left)
    }

    pub fn select_right(&mut self) -> (r: Option<u32>)
        requires
            moves_across(old(self).spec_mode(), TabwinDirection::Right) ==> old(self).grid_fits(),
        ensures
            old(self).direction_result(TabwinDirection::Right, r),
            final(self).spec_selected() == match r {
                Some(id) => Some(id),
                None => old(self).spec_selected(),
            },
            final(self).spec_ids() == old(self).spec_ids(),
    {
        self.select_direction(TabwinDirection::Right)
    }
}

/// Next and previous step forward and backward along the windows from the selected one,
/// wrapping around at the ends.  In the grid, Left and Right do the same.
pub proof fn lemma_sequential_steps(s: TabwinSelection, i: int, r: Option<u32>)
    requires
        s.wf(),
        0 <= i < s.ids@.len(),
        s.selected == Some(s.ids@[i]),
    ensures
        s.spec_sequential(true) == Some(s.ids@[if i + 1 < s.ids@.len() { i + 1 } else { 0 }]),
        s.spec_sequential(false) == Some(s.ids@[if i == 0 { s.ids@.len() - 1 } else { i - 1 }]),
        s.mode == TabwinMode::Grid && s.direction_result(TabwinDirection::Right, r) ==> r == Some(
            s.ids@[if i + 1 < s.ids@.len() { i + 1 } else { 0 }],
        ),
        s.mode == TabwinMode::Grid && s.direction_result(TabwinDirection::Left, r) ==> r == Some(
            s.ids@[if i == 0 { s.ids@.len() - 1 } else { i - 1 }],
        ),
{
    lemma_first_pos_at(s.ids@, i);
}

/// Keyboard modifier bits, as GDK numbers them.
pub const SHIFT_MASK: u32 = 1;
pub const LOCK_MASK: u32 = 2;
pub const CONTROL_MASK: u32 = 4;
pub const MOD1_MASK: u32 = 8;
pub const MOD2_MASK: u32 = 16;
pub const MOD4_MASK: u32 = 64;
pub const MOD5_MASK: u32 = 128;
pub const SUPER_MASK: u32 = 0x400_0000;
pub const HYPER_MASK: u32 = 0x800_0000;
pub const META_MASK: u32 = 0x1000_0000;

/// Key symbols the switcher knows by name.
pub const KEY_TAB: u32 = 0xff09;
pub const KEY_ISO_LEFT_TAB: u32 = 0xfe20;
pub const KEY_SHIFT_L: u32 = 0xffe1;
pub const KEY_SHIFT_R: u32 = 0xffe2;
pub const KEY_CONTROL_L: u32 = 0xffe3;
pub const KEY_CONTROL_R: u32 = 0xffe4;
pub const KEY_CAPS_LOCK: u32 = 0xffe5;
pub const KEY_META_L: u32 = 0xffe7;
pub const KEY_META_R: u32 = 0xffe8;
pub const KEY_ALT_L: u32 = 0xffe9;
pub const KEY_ALT_R: u32 = 0xffea;
pub const KEY_SUPER_L: u32 = 0xffeb;
pub const KEY_SUPER_R: u32 = 0xffec;
pub const KEY_HYPER_L: u32 = 0xffed;
pub const KEY_HYPER_R: u32 = 0xffee;
pub const KEY_NUM_LOCK: u32 = 0xff7f;
pub const KEY_ISO_LEVEL3_SHIFT: u32 = 0xfe03;

/// A key with the modifiers held with it.
#[derive(Clone, Copy, Debug, PartialEq, Eq, Structural)]
pub struct ShortcutKey {
    pub keysym: u32,
    pub modifiers: u32,
}

/// A parsed accelerator becomes a shortcut unless it names neither a key nor a modifier.  With
/// Shift held, Tab arrives as ISO_Left_Tab, so that is the key the shortcut waits for.
pub open spec fn spec_shortcut_from_parsed(key: u32, modifiers: u32) -> Option<ShortcutKey> {
    if key != 0 || modifiers != 0 {
        Some(
            ShortcutKey {
                keysym: if key == KEY_TAB && modifiers & SHIFT_MASK != 0 {
                    KEY_ISO_LEFT_TAB
                } else {
                    key
                },
                modifiers,
            },
        )
    } else {
        None
    }
}

pub fn shortcut_from_parsed(key: u32, modifiers: u32) -> (r: Option<ShortcutKey>)
    ensures
        r == spec_shortcut_from_parsed(key, modifiers),
{
    if key != 0 || modifiers != 0 {
        let keysym = if key == KEY_TAB && modifiers & SHIFT_MASK != 0 { KEY_ISO_LEFT_TAB } else { key };
        Some(ShortcutKey { keysym, modifiers })
    } else {
        None
    }
}

/// The switcher's keys.
#[derive(Clone, Copy, Debug, PartialEq, Eq, Structural)]
pub struct TabwinShortcuts {
    pub next: ShortcutKey,
    pub prev: ShortcutKey,
    pub up: ShortcutKey,
    pub down: ShortcutKey,
    pub left: ShortcutKey,
    pub right: ShortcutKey,
    pub cancel: ShortcutKey,
}

/// What a key press in the switcher does.
#[derive(Clone, Copy, Debug, PartialEq, Eq, Structural)]
pub enum TabwinKeyAction {
    Next,
    Previous,
    Up,
    Down,
    Left,
    Right,
    Cancel,
}

impl TabwinShortcuts {
    /// Modifiers held for cycling, less those of `other`.
    pub open spec fn cycle_mods_minus(self, other: ShortcutKey) -> u32 {
        (self.next.modifiers | self.prev.modifiers) & !other.modifiers
    }

    /// A key matches a direction or cancel shortcut when its modifiers, ignoring those held for
    /// cycling (and not part of that shortcut), are the shortcut's.
    pub open spec fn matches_extra(self, sc: ShortcutKey, key: u32, mask: u32) -> bool {
        key == sc.keysym && mask & !self.cycle_mods_minus(sc) == sc.modifiers
    }

    /// The action for a key press; Caps Lock and Mod4 are ignored.  Cycling shortcuts need
    /// their exact modifiers.  The first match in the order next, previous, up, down, left,
    /// right, cancel wins.
    pub open spec fn spec_key_press(self, key: u32, state: u32) -> Option<TabwinKeyAction> {
        let mask = state & !(LOCK_MASK | MOD4_MASK);
        if key == self.next.keysym && mask == self.next.modifiers {
            Some(TabwinKeyAction::Next)
        } else if key == self.prev.keysym && mask == self.prev.modifiers {
            Some(TabwinKeyAction::Previous)
        } else if self.matches_extra(self.up, key, mask) {
            Some(TabwinKeyAction::Up)
        } else if self.matches_extra(self.down, key, mask) {
            Some(TabwinKeyAction::Down)
        } else if self.matches_extra(self.left, key, mask) {
            Some(TabwinKeyAction::Left)
        } else if self.matches_extra(self.right, key, mask) {
            Some(TabwinKeyAction::Right)
        } else if self.matches_extra(self.cancel, key, mask) {
            Some(TabwinKeyAction::Cancel)
        } else {
            None
        }
    }

    pub fn key_press_action(&self, key: u32, state: u32) -> (r: Option<TabwinKeyAction>)
        ensures
            r == self.spec_key_press(key, state),
    {
        let mask = state & !(LOCK_MASK | MOD4_MASK);
        let cycle = self.next.modifiers | self.prev.modifiers;
        if key == self.next.keysym && mask == self.next.modifiers {
            Some(TabwinKeyAction::Next)
        } else if key == self.prev.keysym && mask == self.prev.modifiers {
            Some(TabwinKeyAction::Previous)
        } else if key == self.up.keysym && mask & !(cycle & !self.up.modifiers) == self.up.modifiers {
            Some(TabwinKeyAction::Up)
        } else if key == self.down.keysym && mask & !(cycle & !self.down.modifiers) == self.down.modifiers {
            Some(TabwinKeyAction::Down)
        } else if key == self.left.keysym && mask & !(cycle & !self.left.modifiers) == self.left.modifiers {
            Some(TabwinKeyAction::Left)
        } else if key == self.right.keysym && mask & !(cycle & !self.right.modifiers) == self.right.modifiers {
            Some(TabwinKeyAction::Right)
        } else if key == self.cancel.keysym && mask & !(cycle & !self.cancel.modifiers)
            == self.cancel.modifiers {
            Some(TabwinKeyAction::Cancel)
        } else {
            None
        }
    }

    /// Releasing a key ends the switcher once no cycling modifier (other than cancel's) is
    /// still held, not counting the modifier the released key itself is.
    pub open spec fn spec_release_finishes(self, keyval: u32, state: u32) -> bool {
        let s = state & !spec_modifier_mask_for_keyval(keyval);
        s & !self.cycle_mods_minus(self.cancel) == s
    }

    pub fn key_release_finishes(&self, keyval: u32, state: u32) -> (r: bool)
        ensures
            r == self.spec_release_finishes(keyval, state),
    {
        let s = state & !modifier_mask_for_keyval(keyval);
        let held = (self.next.modifiers | self.prev.modifiers) & !self.cancel.modifiers;
        s & !held == s
    }
}

impl TabwinShortcuts {
    /// The shortcut of an action.
    pub open spec fn key_of(self, a: TabwinKeyAction) -> ShortcutKey {
        match a {
            TabwinKeyAction::Next => self.next,
            TabwinKeyAction::Previous => self.prev,
            TabwinKeyAction::Up => self.up,
            TabwinKeyAction::Down => self.down,
            TabwinKeyAction::Left => self.left,
            TabwinKeyAction::Right => self.right,
            TabwinKeyAction::Cancel => self.cancel,
        }
    }
}

/// A key press on one shortcut's key (and no other shortcut's), with exactly that shortcut's
/// modifiers held besides Caps Lock and Mod4, performs that shortcut's action; a key no
/// shortcut has does nothing.
pub proof fn lemma_key_press_matches_shortcut(sc: TabwinShortcuts, key: u32, state: u32, a: TabwinKeyAction)
    ensures
        key == sc.key_of(a).keysym && state & !(LOCK_MASK | MOD4_MASK) == sc.key_of(a).modifiers && (forall|b: TabwinKeyAction|
            b != a ==> (#[trigger] sc.key_of(b)).keysym != key) ==> sc.spec_key_press(key, state) == Some(a),
        (forall|b: TabwinKeyAction| (#[trigger] sc.key_of(b)).keysym != key) ==> sc.spec_key_press(key, state) is None,
{
    let m = sc.key_of(a).modifiers;
    let c = sc.next.modifiers | sc.prev.modifiers;
    assert(m & !(c & !m) == m) by (bit_vector);
    assert(sc.key_of(TabwinKeyAction::Next) == sc.next);
    assert(sc.key_of(TabwinKeyAction::Previous) == sc.prev);
    assert(sc.key_of(TabwinKeyAction::Up) == sc.up);
    assert(sc.key_of(TabwinKeyAction::Down) == sc.down);
    assert(sc.key_of(TabwinKeyAction::Left) == sc.left);
    assert(sc.key_of(TabwinKeyAction::Right) == sc.right);
    assert(sc.key_of(TabwinKeyAction::Cancel) == sc.cancel);
}

/// The modifier bits a modifier key itself sets.
pub open spec fn spec_modifier_mask_for_keyval(keyval: u32) -> u32 {
    if keyval == KEY_SHIFT_L || keyval == KEY_SHIFT_R {
        SHIFT_MASK
    } else if keyval == KEY_CONTROL_L || keyval == KEY_CONTROL_R {
        CONTROL_MASK
    } else if keyval == KEY_ALT_L || keyval == KEY_ALT_R {
        MOD1_MASK
    } else if keyval == KEY_SUPER_L || keyval == KEY_SUPER_R {
        SUPER_MASK | MOD4_MASK
    } else if keyval == KEY_HYPER_L || keyval == KEY_HYPER_R {
        HYPER_MASK
    } else if keyval == KEY_META_L || keyval == KEY_META_R {
        META_MASK
    } else if keyval == KEY_CAPS_LOCK {
        LOCK_MASK
    } else if keyval == KEY_NUM_LOCK {
        MOD2_MASK
    } else if keyval == KEY_ISO_LEVEL3_SHIFT {
        MOD5_MASK
    } else {
        0
    }
}

pub fn modifier_mask_for_keyval(keyval: u32) -> (r: u32)
    ensures
        r == spec_modifier_mask_for_keyval(keyval),
{
    if keyval == KEY_SHIFT_L || keyval == KEY_SHIFT_R {
        SHIFT_MASK
    } else if keyval == KEY_CONTROL_L || keyval == KEY_CONTROL_R {
        CONTROL_MASK
    } else if keyval == KEY_ALT_L || keyval == KEY_ALT_R {
        MOD1_MASK
    } else if keyval == KEY_SUPER_L || keyval == KEY_SUPER_R {
        SUPER_MASK | MOD4_MASK
    } else if keyval == KEY_HYPER_L || keyval == KEY_HYPER_R {
        HYPER_MASK
    } else if keyval == KEY_META_L || keyval == KEY_META_R {
        META_MASK
    } else if keyval == KEY_CAPS_LOCK {
        LOCK_MASK
    } else if keyval == KEY_NUM_LOCK {
        MOD2_MASK
    } else if keyval == KEY_ISO_LEVEL3_SHIFT {
        MOD5_MASK
    } else {
        0
    }
}

} // verus!
