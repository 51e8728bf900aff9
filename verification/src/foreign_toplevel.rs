//! Bookkeeping of the foreign-toplevel protocols (wlr and xfce): identifiers, the state arrays
//! sent to clients, icon sizes, and which changes of a toplevel are worth announcing.

use rand::distr::SampleString;
use vstd::prelude::*;
use crate::util::{clone_opt_str, contains_u32, contains_u64, opt_str_eq, ov, oov, str_eq};

verus! {

/// Window state bits.
pub const STATE_ACTIVATED: u32 = 1;
pub const STATE_MINIMIZED: u32 = 2;
pub const STATE_MAXIMIZED: u32 = 4;
pub const STATE_SHADED: u32 = 8;
pub const STATE_STICKY: u32 = 16;
pub const STATE_FULLSCREEN: u32 = 32;
pub const STATE_SKIP_PAGER: u32 = 64;
pub const STATE_SKIP_TASKBAR: u32 = 128;
pub const STATE_KEEP_ABOVE: u32 = 256;
pub const STATE_KEEP_BELOW: u32 = 512;
pub const STATE_DEMANDS_ATTENTION: u32 = 1024;

/// The states the wlr protocol carries.
pub const USED_STATES: u32 = 39;
/// The states version 1 of the wlr protocol carries.
pub const USED_STATES_V1: u32 = 7;

pub open spec fn has_state(flags: u32, bit: u32) -> bool {
    flags & bit != 0
}

/// A state in the wlr protocol's state array.
#[derive(Clone, Copy, Debug, PartialEq, Eq, Structural)]
pub enum WlrToplevelState {
    Maximized,
    Minimized,
    Activated,
    Fullscreen,
}

/// A state in the xfce protocol's state array.
#[derive(Clone, Copy, Debug, PartialEq, Eq, Structural)]
pub enum XfceToplevelState {
    Shaded,
    Sticky,
    SkipPager,
    SkipTasklist,
    Above,
    Below,
    DemandsAttention,
}

pub open spec fn one_if<T>(cond: bool, x: T) -> Seq<T> {
    if cond { seq![x] } else { Seq::empty() }
}

/// The wlr state array: maximized, minimized, activated, fullscreen, those that are set.
pub open spec fn spec_wlr_states(flags: u32) -> Seq<WlrToplevelState> {
    one_if(has_state(flags, STATE_MAXIMIZED), WlrToplevelState::Maximized) + one_if(
        has_state(flags, STATE_MINIMIZED),
        WlrToplevelState::Minimized,
    ) + one_if(has_state(flags, STATE_ACTIVATED), WlrToplevelState::Activated) + one_if(
        has_state(flags, STATE_FULLSCREEN),
        WlrToplevelState::Fullscreen,
    )
}

proof fn lemma_one_if_contains<T>(c: bool, x: T, y: T)
    ensures
        one_if(c, x).contains(y) <==> (c && x == y),
{
    if c && x == y {
        assert(one_if(c, x)[0] == y);
    }
}

proof fn lemma_concat_contains<T>(a: Seq<T>, b: Seq<T>, y: T)
    ensures
        (a + b).contains(y) <==> (a.contains(y) || b.contains(y)),
{
    if (a + b).contains(y) {
        let k = choose|k: int| 0 <= k < (a + b).len() && (a + b)[k] == y;
        if k < a.len() {
            assert(a[k] == y);
        } else {
            assert(b[k - a.len()] == y);
        }
    }
    if a.contains(y) {
        let k = choose|k: int| 0 <= k < a.len() && a[k] == y;
        assert((a + b)[k] == y);
    }
    if b.contains(y) {
        let k = choose|k: int| 0 <= k < b.len() && b[k] == y;
        assert((a + b)[k + a.len()] == y);
    }
}

proof fn lemma_wlr_contains(flags: u32, y: WlrToplevelState)
    ensures
        spec_wlr_states(flags).contains(y) <==> ((y == WlrToplevelState::Maximized && has_state(flags, STATE_MAXIMIZED))
            || (y == WlrToplevelState::Minimized && has_state(flags, STATE_MINIMIZED))
            || (y == WlrToplevelState::Activated && has_state(flags, STATE_ACTIVATED))
            || (y == WlrToplevelState::Fullscreen && has_state(flags, STATE_FULLSCREEN))),
{
    let a = one_if(has_state(flags, STATE_MAXIMIZED), WlrToplevelState::Maximized);
    let b = one_if(has_state(flags, STATE_MINIMIZED), WlrToplevelState::Minimized);
    let c = one_if(has_state(flags, STATE_ACTIVATED), WlrToplevelState::Activated);
    let d = one_if(has_state(flags, STATE_FULLSCREEN), WlrToplevelState::Fullscreen);
    lemma_concat_contains(a, b, y);
    lemma_concat_contains(a + b, c, y);
    lemma_concat_contains(a + b + c, d, y);
    lemma_one_if_contains(has_state(flags, STATE_MAXIMIZED), WlrToplevelState::Maximized, y);
    lemma_one_if_contains(has_state(flags, STATE_MINIMIZED), WlrToplevelState::Minimized, y);
    lemma_one_if_contains(has_state(flags, STATE_ACTIVATED), WlrToplevelState::Activated, y);
    lemma_one_if_contains(has_state(flags, STATE_FULLSCREEN), WlrToplevelState::Fullscreen, y);
}

/// Each wlr state is in the array exactly when its own flag is set.
pub proof fn lemma_wlr_states_follow_flags(flags: u32)
    ensures
        spec_wlr_states(flags).contains(WlrToplevelState::Maximized) <==> flags & STATE_MAXIMIZED != 0,
        spec_wlr_states(flags).contains(WlrToplevelState::Minimized) <==> flags & STATE_MINIMIZED != 0,
        spec_wlr_states(flags).contains(WlrToplevelState::Activated) <==> flags & STATE_ACTIVATED != 0,
        spec_wlr_states(flags).contains(WlrToplevelState::Fullscreen) <==> flags & STATE_FULLSCREEN != 0,
{
    lemma_wlr_contains(flags, WlrToplevelState::Maximized);
    lemma_wlr_contains(flags, WlrToplevelState::Minimized);
    lemma_wlr_contains(flags, WlrToplevelState::Activated);
    lemma_wlr_contains(flags, WlrToplevelState::Fullscreen);
}

pub fn wlr_states(flags: u32) -> (r: Vec<WlrToplevelState>)
    ensures
        r@ == spec_wlr_states(flags),
        r@.contains(WlrToplevelState::Maximized) <==> flags & STATE_MAXIMIZED != 0,
        r@.contains(WlrToplevelState::Minimized) <==> flags & STATE_MINIMIZED != 0,
        r@.contains(WlrToplevelState::Activated) <==> flags & STATE_ACTIVATED != 0,
        r@.contains(WlrToplevelState::Fullscreen) <==> flags & STATE_FULLSCREEN != 0,
        r@.len() == bit_count(flags & STATE_MAXIMIZED != 0) + bit_count(flags & STATE_MINIMIZED != 0) + bit_count(
            flags & STATE_ACTIVATED != 0,
        ) + bit_count(flags & STATE_FULLSCREEN != 0),
{
    let mut v: Vec<WlrToplevelState> = Vec::new();
    if flags & STATE_MAXIMIZED != 0 {
        v.push(WlrToplevelState::Maximized);
    }
    if flags & STATE_MINIMIZED != 0 {
        v.push(WlrToplevelState::Minimized);
    }
    if flags & STATE_ACTIVATED != 0 {
        v.push(WlrToplevelState::Activated);
    }
    if flags & STATE_FULLSCREEN != 0 {
        v.push(WlrToplevelState::Fullscreen);
    }
    assert(v@ =~= spec_wlr_states(flags));
    proof {
        lemma_wlr_states_follow_flags(flags);
        lemma_wlr_states_len(flags);
    }
    v
}

/// The xfce state array, in the protocol's order.
pub open spec fn spec_xfce_states(flags: u32) -> Seq<XfceToplevelState> {
    one_if(has_state(flags, STATE_SHADED), XfceToplevelState::Shaded) + one_if(
        has_state(flags, STATE_STICKY),
        XfceToplevelState::Sticky,
    ) + one_if(has_state(flags, STATE_SKIP_PAGER), XfceToplevelState::SkipPager) + one_if(
        has_state(flags, STATE_SKIP_TASKBAR),
        XfceToplevelState::SkipTasklist,
    ) + one_if(has_state(flags, STATE_KEEP_ABOVE), XfceToplevelState::Above) + one_if(
        has_state(flags, STATE_KEEP_BELOW),
        XfceToplevelState::Below,
    ) + one_if(has_state(flags, STATE_DEMANDS_ATTENTION), XfceToplevelState::DemandsAttention)
}

#[verifier::rlimit(40)]
pub fn xfce_states(flags: u32) -> (r: Vec<XfceToplevelState>)
    ensures
        r@ == spec_xfce_states(flags),
        r@.contains(XfceToplevelState::Shaded) <==> flags & STATE_SHADED != 0,
        r@.contains(XfceToplevelState::Sticky) <==> flags & STATE_STICKY != 0,
        r@.contains(XfceToplevelState::SkipPager) <==> flags & STATE_SKIP_PAGER != 0,
        r@.contains(XfceToplevelState::SkipTasklist) <==> flags & STATE_SKIP_TASKBAR != 0,
        r@.contains(XfceToplevelState::Above) <==> flags & STATE_KEEP_ABOVE != 0,
        r@.contains(XfceToplevelState::Below) <==> flags & STATE_KEEP_BELOW != 0,
        r@.contains(XfceToplevelState::DemandsAttention) <==> flags & STATE_DEMANDS_ATTENTION != 0,
        r@.len() == bit_count(flags & STATE_SHADED != 0) + bit_count(flags & STATE_STICKY != 0) + bit_count(
            flags & STATE_SKIP_PAGER != 0,
        ) + bit_count(flags & STATE_SKIP_TASKBAR != 0) + bit_count(flags & STATE_KEEP_ABOVE != 0) + bit_count(
            flags & STATE_KEEP_BELOW != 0,
        ) + bit_count(flags & STATE_DEMANDS_ATTENTION != 0),
{
    let mut v: Vec<XfceToplevelState> = Vec::new();
    if flags & STATE_SHADED != 0 {
        v.push(XfceToplevelState::Shaded);
    }
    if flags & STATE_STICKY != 0 {
        v.push(XfceToplevelState::Sticky);
    }
    if flags & STATE_SKIP_PAGER != 0 {
        v.push(XfceToplevelState::SkipPager);
    }
    if flags & STATE_SKIP_TASKBAR != 0 {
        v.push(XfceToplevelState::SkipTasklist);
    }
    if flags & STATE_KEEP_ABOVE != 0 {
        v.push(XfceToplevelState::Above);
    }
    if flags & STATE_KEEP_BELOW != 0 {
        v.push(XfceToplevelState::Below);
    }
    if flags & STATE_DEMANDS_ATTENTION != 0 {
        v.push(XfceToplevelState::DemandsAttention);
    }
    assert(v@ =~= spec_xfce_states(flags));
    proof {
        lemma_xfce_states_follow_flags(flags);
        lemma_xfce_states_len(flags);
    }
    v
}

proof fn lemma_xfce_contains(flags: u32, y: XfceToplevelState)
    ensures
        spec_xfce_states(flags).contains(y) <==> ((y == XfceToplevelState::Shaded && has_state(flags, STATE_SHADED))
            || (y == XfceToplevelState::Sticky && has_state(flags, STATE_STICKY))
            || (y == XfceToplevelState::SkipPager && has_state(flags, STATE_SKIP_PAGER))
            || (y == XfceToplevelState::SkipTasklist && has_state(flags, STATE_SKIP_TASKBAR))
            || (y == XfceToplevelState::Above && has_state(flags, STATE_KEEP_ABOVE))
            || (y == XfceToplevelState::Below && has_state(flags, STATE_KEEP_BELOW))
            || (y == XfceToplevelState::DemandsAttention && has_state(flags, STATE_DEMANDS_ATTENTION))),
{
    let a = one_if(has_state(flags, STATE_SHADED), XfceToplevelState::Shaded);
    let b = one_if(has_state(flags, STATE_STICKY), XfceToplevelState::Sticky);
    let c = one_if(has_state(flags, STATE_SKIP_PAGER), XfceToplevelState::SkipPager);
    let d = one_if(has_state(flags, STATE_SKIP_TASKBAR), XfceToplevelState::SkipTasklist);
    let e = one_if(has_state(flags, STATE_KEEP_ABOVE), XfceToplevelState::Above);
    let f = one_if(has_state(flags, STATE_KEEP_BELOW), XfceToplevelState::Below);
    let g = one_if(has_state(flags, STATE_DEMANDS_ATTENTION), XfceToplevelState::DemandsAttention);
    lemma_concat_contains(a, b, y);
    lemma_concat_contains(a + b, c, y);
    lemma_concat_contains(a + b + c, d, y);
    lemma_concat_contains(a + b + c + d, e, y);
    lemma_concat_contains(a + b + c + d + e, f, y);
    lemma_concat_contains(a + b + c + d + e + f, g, y);
    lemma_one_if_contains(has_state(flags, STATE_SHADED), XfceToplevelState::Shaded, y);
    lemma_one_if_contains(has_state(flags, STATE_STICKY), XfceToplevelState::Sticky, y);
    lemma_one_if_contains(has_state(flags, STATE_SKIP_PAGER), XfceToplevelState::SkipPager, y);
    lemma_one_if_contains(has_state(flags, STATE_SKIP_TASKBAR), XfceToplevelState::SkipTasklist, y);
    lemma_one_if_contains(has_state(flags, STATE_KEEP_ABOVE), XfceToplevelState::Above, y);
    lemma_one_if_contains(has_state(flags, STATE_KEEP_BELOW), XfceToplevelState::Below, y);
    lemma_one_if_contains(has_state(flags, STATE_DEMANDS_ATTENTION), XfceToplevelState::DemandsAttention, y);
}

/// Each xfce state is in the array exactly when its own flag is set.
pub proof fn lemma_xfce_states_follow_flags(flags: u32)
    ensures
        spec_xfce_states(flags).contains(XfceToplevelState::Shaded) <==> flags & STATE_SHADED != 0,
        spec_xfce_states(flags).contains(XfceToplevelState::Sticky) <==> flags & STATE_STICKY != 0,
        spec_xfce_states(flags).contains(XfceToplevelState::SkipPager) <==> flags & STATE_SKIP_PAGER != 0,
        spec_xfce_states(flags).contains(XfceToplevelState::SkipTasklist) <==> flags & STATE_SKIP_TASKBAR != 0,
        spec_xfce_states(flags).contains(XfceToplevelState::Above) <==> flags & STATE_KEEP_ABOVE != 0,
        spec_xfce_states(flags).contains(XfceToplevelState::Below) <==> flags & STATE_KEEP_BELOW != 0,
        spec_xfce_states(flags).contains(XfceToplevelState::DemandsAttention) <==> flags & STATE_DEMANDS_ATTENTION != 0,
{
    lemma_xfce_contains(flags, XfceToplevelState::Shaded);
    lemma_xfce_contains(flags, XfceToplevelState::Sticky);
    lemma_xfce_contains(flags, XfceToplevelState::SkipPager);
    lemma_xfce_contains(flags, XfceToplevelState::SkipTasklist);
    lemma_xfce_contains(flags, XfceToplevelState::Above);
    lemma_xfce_contains(flags, XfceToplevelState::Below);
    lemma_xfce_contains(flags, XfceToplevelState::DemandsAttention);
}

pub open spec fn bit_count(b: bool) -> int {
    if b { 1 } else { 0 }
}

/// The xfce state array holds one entry per set flag (so, with the above, each state once).
pub proof fn lemma_xfce_states_len(flags: u32)
    ensures
        spec_xfce_states(flags).len() == bit_count(flags & STATE_SHADED != 0) + bit_count(flags & STATE_STICKY != 0)
            + bit_count(flags & STATE_SKIP_PAGER != 0) + bit_count(flags & STATE_SKIP_TASKBAR != 0) + bit_count(
            flags & STATE_KEEP_ABOVE != 0,
        ) + bit_count(flags & STATE_KEEP_BELOW != 0) + bit_count(flags & STATE_DEMANDS_ATTENTION != 0),
{
}

/// The wlr state array holds one entry per set flag (so, with the above, each state once).
pub proof fn lemma_wlr_states_len(flags: u32)
    ensures
        spec_wlr_states(flags).len() == bit_count(flags & STATE_MAXIMIZED != 0) + bit_count(
            flags & STATE_MINIMIZED != 0,
        ) + bit_count(flags & STATE_ACTIVATED != 0) + bit_count(flags & STATE_FULLSCREEN != 0),
{
}

/// An ASCII letter or digit.
pub open spec fn is_alphanumeric(c: char) -> bool {
    ('a' <= c && c <= 'z') || ('A' <= c && c <= 'Z') || ('0' <= c && c <= '9')
}

/// A fresh random string of ASCII letters and digits (`rand`'s `Alphanumeric` distribution
/// sampled from the thread-local generator).  Claimed: the length, and that every character is
/// a letter or digit; the characters themselves are left open.
#[verifier::external_body]
fn random_alphanumeric(len: usize) -> (s: String)
    ensures
        s@.len() == len,
        forall|i: int| 0 <= i < len ==> is_alphanumeric(#[trigger] s@[i]),
{
    rand::distr::Alphanumeric.sample_string(&mut rand::rng(), len)
}

/// Identifies a toplevel across the foreign-toplevel protocols.
#[derive(Debug, PartialEq, Eq)]
pub struct ToplevelId(pub String);

impl View for ToplevelId {
    type V = Seq<char>;

    open spec fn view(&self) -> Seq<char> {
        self.0@
    }
}

impl Clone for ToplevelId {
    fn clone(&self) -> (r: ToplevelId)
        ensures
            r@ == self@,
    {
        ToplevelId(self.0.clone())
    }
}

/// The data a protocol handle carries: the toplevel it stands for.
pub struct ToplevelHandleData(pub ToplevelId);

impl ToplevelHandleData {
    pub fn toplevel_id(&self) -> (r: &ToplevelId)
        ensures
            r@ == self.0@,
    {
        &self.0
    }
}

/// The text of an optional toplevel identifier.
pub open spec fn idv(o: Option<ToplevelId>) -> Option<Seq<char>> {
    match o {
        Some(id) => Some(id@),
        None => None,
    }
}

/// The text of a doubly optional toplevel identifier.
pub open spec fn iidv(o: Option<Option<ToplevelId>>) -> Option<Option<Seq<char>>> {
    match o {
        Some(inner) => Some(idv(inner)),
        None => None,
    }
}

fn opt_id_eq(a: &Option<ToplevelId>, b: &Option<ToplevelId>) -> (r: bool)
    ensures
        r == (idv(*a) == idv(*b)),
{
    match (a, b) {
        (Some(x), Some(y)) => x.0 == y.0,
        (None, None) => true,
        _ => false,
    }
}

/// A fresh toplevel identifier: 32 random letters and digits.
pub fn new_toplevel_id() -> (r: ToplevelId)
    ensures
        r.0@.len() == 32,
        forall|i: int| 0 <= i < 32 ==> is_alphanumeric(#[trigger] r.0@[i]),
{
    ToplevelId(random_alphanumeric(32))
}

/// A fresh session identifier: 32 random letters and digits.
pub fn new_session_id() -> (r: String)
    ensures
        r@.len() == 32,
        forall|i: int| 0 <= i < 32 ==> is_alphanumeric(#[trigger] r@[i]),
{
    random_alphanumeric(32)
}

/// An icon size a toplevel offers: the logical size and the scale.
#[derive(Clone, Copy, Debug, PartialEq, Eq, Structural)]
pub struct IconSize {
    pub size: u32,
    pub scale: u32,
}

impl IconSize {
    /// The icon size of an image: its larger side over the scale.
    pub fn new(width: u32, height: u32, scale: u32) -> (r: IconSize)
        requires
            scale > 0,
        ensures
            r.size == (if width >= height { width } else { height }) / scale,
            r.scale == scale,
    {
        let m = if width >= height { width } else { height };
        IconSize { size: m / scale, scale }
    }

    /// Physical pixels of the icon's side, by which sizes are ordered.
    pub open spec fn key(self) -> int {
        self.size * self.scale
    }
}

/// `s` with `x` put after every element whose key is not larger.
pub open spec fn insert_by_key(s: Seq<IconSize>, x: IconSize) -> Seq<IconSize>
    decreases s.len(),
{
    if s.len() == 0 {
        seq![x]
    } else if s.last().key() <= x.key() {
        s.push(x)
    } else {
        insert_by_key(s.drop_last(), x).push(s.last())
    }
}

/// Icon sizes ordered by physical size; equal ones keep their order.
pub open spec fn sort_by_key(s: Seq<IconSize>) -> Seq<IconSize>
    decreases s.len(),
{
    if s.len() == 0 {
        Seq::empty()
    } else {
        insert_by_key(sort_by_key(s.drop_last()), s.last())
    }
}

pub open spec fn sorted_by_key(s: Seq<IconSize>) -> bool {
    forall|i: int, j: int| 0 <= i < j < s.len() ==> s[i].key() <= s[j].key()
}

pub open spec fn keys_fit(s: Seq<IconSize>) -> bool {
    forall|i: int| 0 <= i < s.len() ==> (#[trigger] s[i]).key() <= u32::MAX
}

proof fn lemma_insert_by_key(s: Seq<IconSize>, x: IconSize)
    requires
        sorted_by_key(s),
    ensures
        sorted_by_key(insert_by_key(s, x)),
        insert_by_key(s, x).len() == s.len() + 1,
        insert_by_key(s, x).to_multiset() == s.to_multiset().insert(x),
    decreases s.len(),
{
    if s.len() == 0 {
        assert(seq![x] =~= s.push(x));
        s.to_multiset_ensures();
    } else if s.last().key() <= x.key() {
        broadcast use {vstd::seq_lib::group_seq_properties, vstd::seq_lib::group_to_multiset_ensures};
        assert(s.push(x).to_multiset() =~= s.to_multiset().insert(x)) by {
            s.to_multiset_ensures();
        }
    } else {
        let p = s.drop_last();
        assert(sorted_by_key(p));
        lemma_insert_by_key(p, x);
        let q = insert_by_key(p, x);
        assert forall|i: int| 0 <= i < q.len() implies q[i].key() <= s.last().key() by {
            assert(q.to_multiset().count(q[i]) > 0) by {
                q.to_multiset_ensures();
                broadcast use {vstd::seq_lib::group_seq_properties, vstd::seq_lib::group_to_multiset_ensures};
            }
            p.to_multiset_ensures();
            broadcast use {vstd::seq_lib::group_seq_properties, vstd::seq_lib::group_to_multiset_ensures};
            broadcast use vstd::multiset::group_multiset_properties;
            if q[i] != x {
                assert(p.to_multiset().count(q[i]) > 0);
                assert(p.contains(q[i]));
                let k = choose|k: int| 0 <= k < p.len() && p[k] == q[i];
                assert(s[k] == p[k]);
            }
        }
        assert(sorted_by_key(q.push(s.last())));
        broadcast use {vstd::seq_lib::group_seq_properties, vstd::seq_lib::group_to_multiset_ensures};
        broadcast use vstd::multiset::group_multiset_properties;
        q.to_multiset_ensures();
        p.to_multiset_ensures();
        s.to_multiset_ensures();
        assert(s == p.push(s.last()));
        assert(q.push(s.last()).to_multiset() =~= s.to_multiset().insert(x));
    }
}

/// Sorting icon sizes yields them in order of physical size, each kept.
pub proof fn lemma_sort_by_key(s: Seq<IconSize>)
    ensures
        sorted_by_key(sort_by_key(s)),
        sort_by_key(s).to_multiset() == s.to_multiset(),
    decreases s.len(),
{
    broadcast use {vstd::seq_lib::group_seq_properties, vstd::seq_lib::group_to_multiset_ensures};
    broadcast use vstd::multiset::group_multiset_properties;
    if s.len() == 0 {
    } else {
        lemma_sort_by_key(s.drop_last());
        lemma_insert_by_key(sort_by_key(s.drop_last()), s.last());
        s.to_multiset_ensures();
        assert(s == s.drop_last().push(s.last()));
    }
}

fn insert_sorted(v: &mut Vec<IconSize>, x: IconSize)
    requires
        keys_fit(old(v)@),
        x.key() <= u32::MAX,
    ensures
        final(v)@ == insert_by_key(old(v)@, x),
    decreases old(v)@.len(),
{
    if v.len() == 0 {
        v.push(x);
        assert(v@ =~= seq![x]);
        return;
    }
    let last = v[v.len() - 1];
    assert(v@.last().key() <= u32::MAX);
    if last.size * last.scale <= x.size * x.scale {
        v.push(x);
    } else {
        let ghost s = v@;
        let popped = v.pop();
        assert(v@ == s.drop_last());
        insert_sorted(v, x);
        v.push(last);
    }
}

/// Orders icon sizes by physical size, keeping equal ones in their order.
pub fn sort_icon_sizes(sizes: Vec<IconSize>) -> (r: Vec<IconSize>)
    requires
        keys_fit(sizes@),
    ensures
        r@ == sort_by_key(sizes@),
        forall|i: int, j: int| 0 <= i < j < r@.len() ==> r@[i].size * r@[i].scale <= r@[j].size * r@[j].scale,
        r@.to_multiset() == sizes@.to_multiset(),
{
    proof {
        lemma_sort_by_key(sizes@);
    }
    let mut out: Vec<IconSize> = Vec::new();
    let mut i: usize = 0;
    assert(sizes@.subrange(0, 0) =~= out@);
    while i < sizes.len()
        invariant
            0 <= i <= sizes@.len(),
            keys_fit(sizes@),
            out@ == sort_by_key(sizes@.subrange(0, i as int)),
            out@.to_multiset() == sizes@.subrange(0, i as int).to_multiset(),
        decreases sizes@.len() - i,
    {
        proof {
            lemma_sort_by_key(sizes@.subrange(0, i as int));
            assert forall|k: int| 0 <= k < out@.len() implies (#[trigger] out@[k]).key() <= u32::MAX by {
                broadcast use {vstd::seq_lib::group_seq_properties, vstd::seq_lib::group_to_multiset_ensures};
                out@.to_multiset_ensures();
                sizes@.subrange(0, i as int).to_multiset_ensures();
                assert(out@.to_multiset().count(out@[k]) > 0);
                assert(sizes@.subrange(0, i as int).contains(out@[k]));
            }
        }
        let x = sizes[i];
        assert(sizes@[i as int].key() <= u32::MAX);
        insert_sorted(&mut out, x);
        proof {
            let s1 = sizes@.subrange(0, i as int + 1);
            assert(s1.drop_last() == sizes@.subrange(0, i as int));
            assert(s1.last() == x);
            lemma_insert_by_key(sort_by_key(sizes@.subrange(0, i as int)), x);
            broadcast use {vstd::seq_lib::group_seq_properties, vstd::seq_lib::group_to_multiset_ensures};
            s1.to_multiset_ensures();
            assert(s1 == s1.drop_last().push(x));
        }
        i = i + 1;
    }
    assert(sizes@.subrange(0, sizes@.len() as int) == sizes@);
    out
}


/// Elements of `s` that do not occur in `outs`, in order.
pub open spec fn keep_absent(s: Seq<u64>, outs: Seq<u64>) -> Seq<u64>
    decreases s.len(),
{
    if s.len() == 0 {
        Seq::empty()
    } else if outs.contains(s.last()) {
        keep_absent(s.drop_last(), outs)
    } else {
        keep_absent(s.drop_last(), outs).push(s.last())
    }
}

/// Elements of `s` that occur in `outs`, in order.
pub open spec fn keep_present(s: Seq<u64>, outs: Seq<u64>) -> Seq<u64>
    decreases s.len(),
{
    if s.len() == 0 {
        Seq::empty()
    } else if outs.contains(s.last()) {
        keep_present(s.drop_last(), outs).push(s.last())
    } else {
        keep_present(s.drop_last(), outs)
    }
}

/// `outs` with each element of `add` appended, in order, unless it is already there.
pub open spec fn push_new(outs: Seq<u64>, add: Seq<u64>) -> Seq<u64>
    decreases add.len(),
{
    if add.len() == 0 {
        outs
    } else {
        let prev = push_new(outs, add.drop_last());
        if prev.contains(add.last()) {
            prev
        } else {
            prev.push(add.last())
        }
    }
}

fn filter_outputs(s: &Vec<u64>, outs: &Vec<u64>, present: bool) -> (r: Vec<u64>)
    ensures
        r@ == (if present { keep_present(s@, outs@) } else { keep_absent(s@, outs@) }),
{
    let mut r: Vec<u64> = Vec::new();
    let mut i: usize = 0;
    while i < s.len()
        invariant
            0 <= i <= s@.len(),
            r@ == (if present { keep_present(s@.subrange(0, i as int), outs@) } else { keep_absent(
                s@.subrange(0, i as int),
                outs@,
            ) }),
        decreases s@.len() - i,
    {
        let x = s[i];
        let inside = contains_u64(outs, x);
        proof {
            let t = s@.subrange(0, i as int + 1);
            assert(t.drop_last() =~= s@.subrange(0, i as int));
            assert(t.last() == x);
        }
        if inside == present {
            r.push(x);
        }
        i = i + 1;
    }
    assert(s@.subrange(0, s@.len() as int) =~= s@);
    r
}

fn push_new_outputs(outs: &mut Vec<u64>, add: &Vec<u64>)
    ensures
        final(outs)@ == push_new(old(outs)@, add@),
{
    let ghost start = outs@;
    let mut i: usize = 0;
    while i < add.len()
        invariant
            0 <= i <= add@.len(),
            outs@ == push_new(start, add@.subrange(0, i as int)),
        decreases add@.len() - i,
    {
        let x = add[i];
        let present = contains_u64(outs, x);
        proof {
            let t = add@.subrange(0, i as int + 1);
            assert(t.drop_last() =~= add@.subrange(0, i as int));
            assert(t.last() == x);
        }
        if !present {
            outs.push(x);
        }
        i = i + 1;
    }
    assert(add@.subrange(0, add@.len() as int) =~= add@);
}

proof fn lemma_push_new_no_duplicates(outs: Seq<u64>, add: Seq<u64>)
    requires
        outs.no_duplicates(),
    ensures
        push_new(outs, add).no_duplicates(),
    decreases add.len(),
{
    if add.len() > 0 {
        lemma_push_new_no_duplicates(outs, add.drop_last());
        let prev = push_new(outs, add.drop_last());
        if !prev.contains(add.last()) {
            let q = prev.push(add.last());
            assert forall|i: int, j: int| 0 <= i < q.len() && 0 <= j < q.len() && i != j implies q[i] != q[j] by {
                if i == prev.len() as int {
                    assert(q[j] == prev[j]);
                } else if j == prev.len() as int {
                    assert(q[i] == prev[i]);
                }
            }
        }
    }
}

proof fn lemma_keep_absent_no_duplicates(s: Seq<u64>, outs: Seq<u64>)
    requires
        s.no_duplicates(),
    ensures
        keep_absent(s, outs).no_duplicates(),
        forall|x: u64| keep_absent(s, outs).contains(x) ==> s.contains(x),
    decreases s.len(),
{
    if s.len() > 0 {
        let d = s.drop_last();
        assert(d.no_duplicates()) by {
            assert forall|i: int, j: int| 0 <= i < d.len() && 0 <= j < d.len() && i != j implies d[i] != d[j] by {
                assert(d[i] == s[i] && d[j] == s[j]);
            }
        }
        lemma_keep_absent_no_duplicates(d, outs);
        let prev = keep_absent(d, outs);
        assert forall|x: u64| keep_absent(s, outs).contains(x) implies s.contains(x) by {
            if prev.contains(x) {
                assert(d.contains(x));
                let k = choose|k: int| 0 <= k < d.len() && d[k] == x;
                assert(s[k] == x);
            } else {
                assert(x == s.last());
            }
        }
        if !outs.contains(s.last()) {
            let q = prev.push(s.last());
            assert(!prev.contains(s.last())) by {
                if prev.contains(s.last()) {
                    assert(d.contains(s.last()));
                    let k = choose|k: int| 0 <= k < d.len() && d[k] == s.last();
                    assert(s[k] == s[s.len() - 1]);
                }
            }
            assert forall|i: int, j: int| 0 <= i < q.len() && 0 <= j < q.len() && i != j implies q[i] != q[j] by {
                if i == prev.len() as int {
                    assert(q[j] == prev[j]);
                } else if j == prev.len() as int {
                    assert(q[i] == prev[i]);
                }
            }
        }
    }
}

/// What the wlr protocol knows of a toplevel.  Outputs are identified by number.
pub struct WlrToplevelInfo {
    pub title: String,
    pub app_id: String,
    pub state: u32,
    pub outputs: Vec<u64>,
    pub parent: Option<ToplevelId>,
}

/// The changes of a toplevel that are announced to wlr clients.
pub struct WlrToplevelChanges {
    /// Whether anything is announced at all.
    pub sent: bool,
    pub title: Option<String>,
    pub app_id: Option<String>,
    /// The new state, restricted to the states the protocol carries, when one was given.
    pub state: Option<u32>,
    pub state_changed: bool,
    pub state_v1_changed: bool,
    pub added_outputs: Vec<u64>,
    pub removed_outputs: Vec<u64>,
    pub parent: Option<Option<ToplevelId>>,
}

/// A new value that differs from the current one, if any.
pub open spec fn changed_text(new: Option<Seq<char>>, cur: Seq<char>) -> Option<Seq<char>> {
    match new {
        Some(t) => if t != cur { Some(t) } else { None },
        None => None,
    }
}

pub open spec fn changed_parent(new: Option<Option<Seq<char>>>, cur: Option<Seq<char>>) -> Option<
    Option<Seq<char>>,
> {
    match new {
        Some(p) => if p != cur { Some(p) } else { None },
        None => None,
    }
}

pub open spec fn masked_state(state: Option<u32>) -> Option<u32> {
    match state {
        Some(s) => Some(s & USED_STATES),
        None => None,
    }
}

pub open spec fn spec_state_changed(state: Option<u32>, cur: u32) -> bool {
    match state {
        Some(s) => (s & USED_STATES) != cur,
        None => false,
    }
}

pub open spec fn spec_state_v1_changed(state: Option<u32>, cur: u32) -> bool {
    match state {
        Some(s) => ((s & USED_STATES) & USED_STATES_V1) != (cur & USED_STATES_V1),
        None => false,
    }
}

impl WlrToplevelChanges {
    /// The state to send to a handle of the given protocol version, if any.
    pub open spec fn spec_state_event(&self, version: u32) -> Option<u32> {
        match self.state {
            Some(s) => if self.state_changed && version >= 2 {
                Some(s)
            } else if self.state_v1_changed && version < 2 {
                Some(s & USED_STATES_V1)
            } else {
                None
            },
            None => None,
        }
    }

    pub fn state_event(&self, version: u32) -> (r: Option<u32>)
        ensures
            r == self.spec_state_event(version),
    {
        match self.state {
            Some(s) => if self.state_changed && version >= 2 {
                Some(s)
            } else if self.state_v1_changed && version < 2 {
                Some(s & USED_STATES_V1)
            } else {
                None
            },
            None => None,
        }
    }
}

impl WlrToplevelInfo {
    /// Applies a change of a toplevel and says what is to be announced to wlr clients.
    pub fn apply_change(
        &mut self,
        title: Option<String>,
        app_id: Option<String>,
        state: Option<u32>,
        outputs_added: Vec<u64>,
        outputs_removed: Vec<u64>,
        parent: Option<Option<ToplevelId>>,
    ) -> (r: WlrToplevelChanges)
        ensures
            ov(r.title) == changed_text(ov(title), old(self).title@),
            ov(r.app_id) == changed_text(ov(app_id), old(self).app_id@),
            r.state == masked_state(state),
            r.state_changed == spec_state_changed(state, old(self).state),
            r.state_v1_changed == spec_state_v1_changed(state, old(self).state),
            r.added_outputs@ == keep_absent(outputs_added@, old(self).outputs@),
            r.removed_outputs@ == keep_present(outputs_removed@, old(self).outputs@),
            iidv(r.parent) == changed_parent(iidv(parent), idv(old(self).parent)),
            r.sent == (r.title.is_some() || r.app_id.is_some() || r.state_changed || r.state_v1_changed
                || r.added_outputs@.len() > 0 || r.removed_outputs@.len() > 0 || r.parent.is_some()),
            final(self).title@ == (match ov(r.title) {
                Some(t) => t,
                None => old(self).title@,
            }),
            final(self).app_id@ == (match ov(r.app_id) {
                Some(t) => t,
                None => old(self).app_id@,
            }),
            final(self).state == (match r.state {
                Some(s) => s,
                None => old(self).state,
            }),
            final(self).outputs@ == keep_absent(
                push_new(old(self).outputs@, r.added_outputs@),
                r.removed_outputs@,
            ),
            idv(final(self).parent) == (match iidv(r.parent) {
                Some(p) => p,
                None => idv(old(self).parent),
            }),
            old(self).outputs@.no_duplicates() ==> final(self).outputs@.no_duplicates(),
    {
        let masked = match state {
            Some(s) => Some(s & USED_STATES),
            None => None,
        };
        let new_title = match title {
            Some(t) => if str_eq(&t, &self.title) { None } else { Some(t) },
            None => None,
        };
        let new_app_id = match app_id {
            Some(t) => if str_eq(&t, &self.app_id) { None } else { Some(t) },
            None => None,
        };
        let added = filter_outputs(&outputs_added, &self.outputs, false);
        let removed = filter_outputs(&outputs_removed, &self.outputs, true);
        let new_parent = match parent {
            Some(p) => if opt_id_eq(&p, &self.parent) { None } else { Some(p) },
            None => None,
        };
        let state_changed = match masked {
            Some(s) => s != self.state,
            None => false,
        };
        let state_v1_changed = match masked {
            Some(s) => (s & USED_STATES_V1) != (self.state & USED_STATES_V1),
            None => false,
        };
        let sent = new_title.is_some() || new_app_id.is_some() || state_changed || state_v1_changed
            || added.len() > 0 || removed.len() > 0 || new_parent.is_some();

        match &new_title {
            Some(t) => { self.title = t.clone(); },
            None => {},
        }
        match &new_app_id {
            Some(t) => { self.app_id = t.clone(); },
            None => {},
        }
        match masked {
            Some(s) => { self.state = s; },
            None => {},
        }
        let ghost outs0 = self.outputs@;
        push_new_outputs(&mut self.outputs, &added);
        let kept = filter_outputs(&self.outputs, &removed, false);
        proof {
            if outs0.no_duplicates() {
                lemma_push_new_no_duplicates(outs0, added@);
                lemma_keep_absent_no_duplicates(push_new(outs0, added@), removed@);
            }
        }
        self.outputs = kept;
        match &new_parent {
            Some(p) => {
                self.parent = match p {
                    Some(id) => Some(id.clone()),
                    None => None,
                };
            },
            None => {},
        }
        WlrToplevelChanges {
            sent,
            title: new_title,
            app_id: new_app_id,
            state: masked,
            state_changed,
            state_v1_changed,
            added_outputs: added,
            removed_outputs: removed,
            parent: new_parent,
        }
    }
}


/// What the xfce protocol knows of a toplevel.
pub struct XfceToplevelInfo {
    pub state: u32,
    pub workspace_id: Option<String>,
    pub icon_name: Option<String>,
    /// Kept in order of physical size.
    pub icon_sizes: Vec<IconSize>,
}

/// The changes of a toplevel that are announced to xfce clients.
pub struct XfceToplevelChanges {
    pub sent: bool,
    /// The new state, when it differs.
    pub state: Option<u32>,
    pub workspace_id: Option<Option<String>>,
    pub icon_name: Option<Option<String>>,
    pub icon_sizes: Option<Vec<IconSize>>,
    /// Whether the icon is to be sent again.
    pub icon_changed: bool,
}

pub open spec fn isv(o: Option<Vec<IconSize>>) -> Option<Seq<IconSize>> {
    match o {
        Some(v) => Some(v@),
        None => None,
    }
}

pub open spec fn changed_opt_text(new: Option<Option<Seq<char>>>, cur: Option<Seq<char>>) -> Option<
    Option<Seq<char>>,
> {
    match new {
        Some(t) => if t != cur { Some(t) } else { None },
        None => None,
    }
}

pub open spec fn changed_sizes(new: Option<Seq<IconSize>>, cur: Seq<IconSize>) -> Option<Seq<IconSize>> {
    match new {
        Some(t) => if sort_by_key(t) != cur { Some(sort_by_key(t)) } else { None },
        None => None,
    }
}

pub open spec fn changed_state(new: Option<u32>, cur: u32) -> Option<u32> {
    match new {
        Some(s) => if s != cur { Some(s) } else { None },
        None => None,
    }
}

fn icon_sizes_eq(a: &Vec<IconSize>, b: &Vec<IconSize>) -> (r: bool)
    ensures
        r == (a@ == b@),
{
    if a.len() != b.len() {
        return false;
    }
    let mut i: usize = 0;
    while i < a.len()
        invariant
            0 <= i <= a@.len(),
            a@.len() == b@.len(),
            forall|j: int| 0 <= j < i ==> a@[j] == b@[j],
        decreases a@.len() - i,
    {
        if a[i].size != b[i].size || a[i].scale != b[i].scale {
            return false;
        }
        i = i + 1;
    }
    assert(a@ =~= b@);
    true
}

fn clone_icon_sizes(a: &Vec<IconSize>) -> (r: Vec<IconSize>)
    ensures
        r@ == a@,
{
    let mut r: Vec<IconSize> = Vec::new();
    let mut i: usize = 0;
    while i < a.len()
        invariant
            0 <= i <= a@.len(),
            r@ == a@.subrange(0, i as int),
        decreases a@.len() - i,
    {
        r.push(a[i]);
        i = i + 1;
    }
    assert(a@.subrange(0, a@.len() as int) =~= a@);
    r
}

impl XfceToplevelInfo {
    /// Applies a change of a toplevel and says what is to be announced to xfce clients.
    pub fn apply_change(
        &mut self,
        state: Option<u32>,
        workspace_id: Option<Option<String>>,
        icon_name: Option<Option<String>>,
        icon_sizes: Option<Vec<IconSize>>,
    ) -> (r: XfceToplevelChanges)
        requires
            match icon_sizes {
                Some(v) => keys_fit(v@),
                None => true,
            },
        ensures
            r.state == changed_state(state, old(self).state),
            oov(r.workspace_id) == changed_opt_text(oov(workspace_id), ov(old(self).workspace_id)),
            oov(r.icon_name) == changed_opt_text(oov(icon_name), ov(old(self).icon_name)),
            isv(r.icon_sizes) == changed_sizes(isv(icon_sizes), old(self).icon_sizes@),
            r.icon_changed == (r.icon_name.is_some() || r.icon_sizes.is_some()),
            r.sent == (r.state.is_some() || r.workspace_id.is_some() || r.icon_changed),
            final(self).state == (if r.sent && state.is_some() { state.unwrap() } else { old(self).state }),
            ov(final(self).workspace_id) == (match oov(r.workspace_id) {
                Some(w) => w,
                None => ov(old(self).workspace_id),
            }),
            ov(final(self).icon_name) == (match oov(r.icon_name) {
                Some(n) => n,
                None => ov(old(self).icon_name),
            }),
            final(self).icon_sizes@ == (match isv(r.icon_sizes) {
                Some(v) => v,
                None => old(self).icon_sizes@,
            }),
    {
        let sorted = match icon_sizes {
            Some(v) => Some(sort_icon_sizes(v)),
            None => None,
        };
        let new_state = match state {
            Some(s) => if s != self.state { Some(s) } else { None },
            None => None,
        };
        let new_workspace = match workspace_id {
            Some(w) => if opt_str_eq(&w, &self.workspace_id) { None } else { Some(w) },
            None => None,
        };
        let new_icon_name = match icon_name {
            Some(n) => if opt_str_eq(&n, &self.icon_name) { None } else { Some(n) },
            None => None,
        };
        let new_icon_sizes = match sorted {
            Some(v) => if icon_sizes_eq(&v, &self.icon_sizes) { None } else { Some(v) },
            None => None,
        };
        let icon_changed = new_icon_name.is_some() || new_icon_sizes.is_some();
        let sent = new_state.is_some() || new_workspace.is_some() || icon_changed;
        if sent {
            match &new_icon_name {
                Some(n) => { self.icon_name = clone_opt_str(n); },
                None => {},
            }
            match &new_icon_sizes {
                Some(v) => { self.icon_sizes = clone_icon_sizes(v); },
                None => {},
            }
            match state {
                Some(s) => { self.state = s; },
                None => {},
            }
            match &new_workspace {
                Some(w) => { self.workspace_id = clone_opt_str(w); },
                None => {},
            }
        }
        XfceToplevelChanges {
            sent,
            state: new_state,
            workspace_id: new_workspace,
            icon_name: new_icon_name,
            icon_sizes: new_icon_sizes,
            icon_changed,
        }
    }
}

/// What a handle is told of a toplevel's icon.
#[derive(Debug, PartialEq, Eq)]
pub enum IconEvent {
    Name(String),
    Size(IconSize),
    NoIcon,
}

pub open spec fn icon_event_view(e: IconEvent) -> (int, Seq<char>, IconSize) {
    match e {
        IconEvent::Name(n) => (0, n@, IconSize { size: 0, scale: 0 }),
        IconEvent::Size(s) => (1, Seq::empty(), s),
        IconEvent::NoIcon => (2, Seq::empty(), IconSize { size: 0, scale: 0 }),
    }
}

/// The icon events of a toplevel: its name, if any, then each size; or, having neither, "no icon".
pub open spec fn spec_icon_events(name: Option<Seq<char>>, sizes: Seq<IconSize>) -> Seq<(int, Seq<char>, IconSize)> {
    if name.is_none() && sizes.len() == 0 {
        seq![(2, Seq::empty(), IconSize { size: 0, scale: 0 })]
    } else {
        (match name {
            Some(n) => seq![(0int, n, IconSize { size: 0, scale: 0 })],
            None => Seq::empty(),
        }) + sizes.map_values(|s: IconSize| (1int, Seq::<char>::empty(), s))
    }
}

impl XfceToplevelInfo {
    pub fn icon_events(&self) -> (r: Vec<IconEvent>)
        ensures
            r@.map_values(|e: IconEvent| icon_event_view(e)) == spec_icon_events(
                ov(self.icon_name),
                self.icon_sizes@,
            ),
    {
        let mut r: Vec<IconEvent> = Vec::new();
        if self.icon_name.is_none() && self.icon_sizes.len() == 0 {
            r.push(IconEvent::NoIcon);
            assert(r@.map_values(|e: IconEvent| icon_event_view(e)) =~= spec_icon_events(
                ov(self.icon_name),
                self.icon_sizes@,
            ));
            return r;
        }
        match &self.icon_name {
            Some(n) => { r.push(IconEvent::Name(n.clone())); },
            None => {},
        }
        let ghost head = r@.map_values(|e: IconEvent| icon_event_view(e));
        assert(head =~= (match ov(self.icon_name) {
            Some(n) => seq![(0int, n, IconSize { size: 0, scale: 0 })],
            None => Seq::empty(),
        }));
        let ghost k = r@.len();
        let mut i: usize = 0;
        while i < self.icon_sizes.len()
            invariant
                0 <= i <= self.icon_sizes@.len(),
                r@.len() == k + i,
                r@.map_values(|e: IconEvent| icon_event_view(e)) =~= head + self.icon_sizes@.subrange(
                    0,
                    i as int,
                ).map_values(|s: IconSize| (1int, Seq::<char>::empty(), s)),
            decreases self.icon_sizes@.len() - i,
        {
            let x = self.icon_sizes[i];
            let ghost old_r = r@;
            r.push(IconEvent::Size(x));
            proof {
                assert(r@.map_values(|e: IconEvent| icon_event_view(e)) =~= old_r.map_values(
                    |e: IconEvent| icon_event_view(e),
                ).push(icon_event_view(IconEvent::Size(x))));
                assert(self.icon_sizes@.subrange(0, i as int + 1).map_values(
                    |s: IconSize| (1int, Seq::<char>::empty(), s),
                ) =~= self.icon_sizes@.subrange(0, i as int).map_values(
                    |s: IconSize| (1int, Seq::<char>::empty(), s),
                ).push((1int, Seq::<char>::empty(), x)));
            }
            i = i + 1;
        }
        assert(self.icon_sizes@.subrange(0, self.icon_sizes@.len() as int) =~= self.icon_sizes@);
        r
    }
}

/// Why icon pixel data was refused.
#[derive(Debug, PartialEq, Eq, Structural)]
pub enum IconPixelsError {
    /// The data is not `stride * height` bytes long.
    LengthMismatch,
    /// A row of `width` pixels does not fit in `stride` bytes.
    WidthTooLarge,
}

/// Checks icon pixel data (four bytes a pixel) against its dimensions.
pub fn check_icon_pixels(len: usize, width: u32, height: u32, stride: u32) -> (r: Result<(), IconPixelsError>)
    requires
        width * 4 <= u32::MAX,
    ensures
        r == (if len != stride * height {
            Err(IconPixelsError::LengthMismatch)
        } else if width * 4 > stride {
            Err(IconPixelsError::WidthTooLarge)
        } else {
            Ok(())
        }),
{
    assert(stride as u64 * height as u64 <= u64::MAX) by (nonlinear_arith)
        requires
            stride <= u32::MAX,
            height <= u32::MAX,
    ;
    let area: u64 = stride as u64 * height as u64;
    if len as u64 != area {
        Err(IconPixelsError::LengthMismatch)
    } else if width * 4 > stride {
        Err(IconPixelsError::WidthTooLarge)
    } else {
        Ok(())
    }
}

/// The answer to a request for a toplevel's icon pixels.
#[derive(Debug, PartialEq, Eq, Structural)]
pub enum IconPixelsReply<P> {
    Pixels(P),
    /// The toplevel offers no pixel data.
    NoPixelData,
    /// The size asked for cannot be had.
    InvalidArgs,
}

/// Decides the answer from whether the toplevel offers icon sizes and what the handler produced.
pub fn icon_pixels_reply<P>(has_icon_sizes: bool, pixels: Option<P>) -> (r: IconPixelsReply<P>)
    ensures
        !has_icon_sizes ==> r == IconPixelsReply::<P>::NoPixelData,
        has_icon_sizes ==> r == (match pixels {
            Some(p) => IconPixelsReply::Pixels(p),
            None => IconPixelsReply::InvalidArgs,
        }),
{
    if !has_icon_sizes {
        IconPixelsReply::NoPixelData
    } else {
        match pixels {
            Some(p) => IconPixelsReply::Pixels(p),
            None => IconPixelsReply::InvalidArgs,
        }
    }
}


/// A change already applied is not announced again: applying the same title, app id, state
/// and parent a second time finds nothing changed.
pub proof fn lemma_repeated_change_not_announced(
    title: Option<Seq<char>>,
    cur_title: Seq<char>,
    state: Option<u32>,
    cur_state: u32,
    parent: Option<Option<Seq<char>>>,
    cur_parent: Option<Seq<char>>,
)
    ensures
        changed_text(title, match changed_text(title, cur_title) {
            Some(t) => t,
            None => cur_title,
        }) is None,
        !spec_state_changed(state, match masked_state(state) {
            Some(s) => s,
            None => cur_state,
        }),
        !spec_state_v1_changed(state, match masked_state(state) {
            Some(s) => s,
            None => cur_state,
        }),
        changed_parent(parent, match changed_parent(parent, cur_parent) {
            Some(p) => p,
            None => cur_parent,
        }) is None,
{
}


/// The toplevels with the protocol objects each was sent as.
pub open spec fn toplevels_view(ts: Seq<(ToplevelId, Vec<u32>)>) -> Seq<(Seq<char>, Seq<u32>)> {
    ts.map_values(|t: (ToplevelId, Vec<u32>)| (t.0@, t.1@))
}

/// Toplevel `i` is the first one that was sent as `handle`.
pub open spec fn first_toplevel_with(ts: Seq<(Seq<char>, Seq<u32>)>, handle: u32, i: int) -> bool {
    &&& 0 <= i < ts.len()
    &&& ts[i].1.contains(handle)
    &&& forall|j: int| 0 <= j < i ==> !(#[trigger] ts[j].1).contains(handle)
}

/// The toplevel a protocol object stands for: the first toplevel that was sent as `handle`, or
/// `None` when none was.
pub fn toplevel_for_handle(toplevels: &Vec<(ToplevelId, Vec<u32>)>, handle: u32) -> (r: Option<ToplevelId>)
    ensures
        match r {
            Some(id) => exists|i: int| #[trigger] first_toplevel_with(toplevels_view(toplevels@), handle, i)
                && id@ == toplevels_view(toplevels@)[i].0,
            None => forall|i: int|
                0 <= i < toplevels@.len() ==> !(#[trigger] toplevels_view(toplevels@)[i].1).contains(handle),
        },
{
    let ghost tv = toplevels_view(toplevels@);
    let mut i: usize = 0;
    while i < toplevels.len()
        invariant
            0 <= i <= toplevels@.len(),
            tv == toplevels_view(toplevels@),
            forall|j: int| 0 <= j < i ==> !(#[trigger] tv[j].1).contains(handle),
        decreases toplevels@.len() - i,
    {
        assert(tv[i as int] == (toplevels@[i as int].0@, toplevels@[i as int].1@));
        if contains_u32(&toplevels[i].1, handle) {
            let id = toplevels[i].0.clone();
            assert(first_toplevel_with(tv, handle, i as int));
            return Some(id);
        }
        i = i + 1;
    }
    None
}

proof fn lemma_seq_push_contains(s: Seq<u64>, y: u64, x: u64)
    ensures
        s.push(y).contains(x) <==> (s.contains(x) || x == y),
{
    if s.push(y).contains(x) && x != y {
        let k = choose|k: int| 0 <= k < s.push(y).len() && s.push(y)[k] == x;
        assert(s[k] == x);
    }
    if s.contains(x) {
        let k = choose|k: int| 0 <= k < s.len() && s[k] == x;
        assert(s.push(y)[k] == x);
    }
    if x == y {
        assert(s.push(y)[s.len() as int] == x);
    }
}

proof fn lemma_drop_last_contains(s: Seq<u64>, x: u64)
    requires
        s.len() > 0,
    ensures
        s.contains(x) <==> (s.drop_last().contains(x) || x == s.last()),
{
    assert(s == s.drop_last().push(s.last()));
    lemma_seq_push_contains(s.drop_last(), s.last(), x);
}

proof fn lemma_keep_absent_contains(s: Seq<u64>, outs: Seq<u64>, x: u64)
    ensures
        keep_absent(s, outs).contains(x) <==> (s.contains(x) && !outs.contains(x)),
    decreases s.len(),
{
    if s.len() > 0 {
        lemma_keep_absent_contains(s.drop_last(), outs, x);
        lemma_drop_last_contains(s, x);
        lemma_seq_push_contains(keep_absent(s.drop_last(), outs), s.last(), x);
    }
}

proof fn lemma_keep_present_contains(s: Seq<u64>, outs: Seq<u64>, x: u64)
    ensures
        keep_present(s, outs).contains(x) <==> (s.contains(x) && outs.contains(x)),
    decreases s.len(),
{
    if s.len() > 0 {
        lemma_keep_present_contains(s.drop_last(), outs, x);
        lemma_drop_last_contains(s, x);
        lemma_seq_push_contains(keep_present(s.drop_last(), outs), s.last(), x);
    }
}

proof fn lemma_push_new_contains(outs: Seq<u64>, add: Seq<u64>, x: u64)
    ensures
        push_new(outs, add).contains(x) <==> (outs.contains(x) || add.contains(x)),
    decreases add.len(),
{
    if add.len() > 0 {
        lemma_push_new_contains(outs, add.drop_last(), x);
        lemma_drop_last_contains(add, x);
        let prev = push_new(outs, add.drop_last());
        lemma_seq_push_contains(prev, add.last(), x);
        lemma_push_new_contains(outs, add.drop_last(), add.last());
    }
}

/// What a change of a wlr toplevel announces and leaves: a title (or app id) is announced
/// exactly when one is given that differs from the current one, and it is the given one; the
/// state is announced as changed exactly when a state is given whose protocol states differ
/// from the current ones.  Outputs announced as entered are those given that the toplevel was
/// not on; as left, those given that it was on; afterwards it is on the outputs it was on and
/// did not leave, and those it newly entered.
pub proof fn lemma_wlr_change_announces(
    title: Option<Seq<char>>,
    cur_title: Seq<char>,
    state: Option<u32>,
    cur_state: u32,
    cur_outputs: Seq<u64>,
    added: Seq<u64>,
    removed: Seq<u64>,
    x: u64,
)
    ensures
        changed_text(title, cur_title) is Some <==> (title is Some && title->0 != cur_title),
        changed_text(title, cur_title) is Some ==> changed_text(title, cur_title) == title,
        spec_state_changed(state, cur_state) <==> (state is Some && state->0 & USED_STATES != cur_state),
        masked_state(state) is Some <==> state is Some,
        keep_absent(added, cur_outputs).contains(x) <==> (added.contains(x) && !cur_outputs.contains(x)),
        keep_present(removed, cur_outputs).contains(x) <==> (removed.contains(x) && cur_outputs.contains(x)),
        keep_absent(push_new(cur_outputs, keep_absent(added, cur_outputs)), keep_present(removed, cur_outputs)).contains(
            x,
        ) <==> ((cur_outputs.contains(x) && !removed.contains(x)) || (!cur_outputs.contains(x) && added.contains(x))),
{
    lemma_keep_absent_contains(added, cur_outputs, x);
    lemma_keep_present_contains(removed, cur_outputs, x);
    lemma_push_new_contains(cur_outputs, keep_absent(added, cur_outputs), x);
    lemma_keep_absent_contains(push_new(cur_outputs, keep_absent(added, cur_outputs)), keep_present(removed, cur_outputs), x);
}

/// What a change of an xfce toplevel announces: a state, workspace or icon name exactly when
/// one is given that differs from the current one, and then the given one; icon sizes when
/// given and, once ordered by physical size, different from the current ones, and then the
/// given sizes so ordered.
pub proof fn lemma_xfce_change_announces(
    state: Option<u32>,
    cur_state: u32,
    name: Option<Option<Seq<char>>>,
    cur_name: Option<Seq<char>>,
    sizes: Option<Seq<IconSize>>,
    cur_sizes: Seq<IconSize>,
)
    ensures
        changed_state(state, cur_state) is Some <==> (state is Some && state->0 != cur_state),
        changed_state(state, cur_state) is Some ==> changed_state(state, cur_state) == state,
        changed_opt_text(name, cur_name) is Some <==> (name is Some && name->0 != cur_name),
        changed_opt_text(name, cur_name) is Some ==> changed_opt_text(name, cur_name) == name,
        sizes is None ==> changed_sizes(sizes, cur_sizes) is None,
        changed_sizes(sizes, cur_sizes) matches Some(v) ==> {
            &&& v != cur_sizes
            &&& v.to_multiset() == sizes->0.to_multiset()
            &&& forall|i: int, j: int| 0 <= i < j < v.len() ==> v[i].size * v[i].scale <= v[j].size * v[j].scale
        },
{
    if sizes is Some {
        lemma_sort_by_key(sizes->0);
    }
}

/// A wlr client is sent a toplevel's new state only when it changed for it: a client of
/// version 2 or later gets the whole state when any protocol state changed; a version 1 client
/// gets only the states version 1 knows, when those changed.
pub proof fn lemma_state_event_by_version(c: WlrToplevelChanges, version: u32)
    ensures
        version >= 2 ==> (c.spec_state_event(version) is Some <==> (c.state is Some && c.state_changed)),
        version >= 2 && c.spec_state_event(version) is Some ==> c.spec_state_event(version) == c.state,
        version < 2 ==> (c.spec_state_event(version) is Some <==> (c.state is Some && c.state_v1_changed)),
        version < 2 && c.spec_state_event(version) is Some ==> c.spec_state_event(version) == Some(
            c.state->0 & USED_STATES_V1,
        ),
{
}

} // verus!
