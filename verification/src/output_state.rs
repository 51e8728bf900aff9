//! Per-output bookkeeping of the xfce output protocol (primary flag, work area, which output
//! each seat's pointer is on) and of wlr gamma control (one control per output).

use vstd::prelude::*;
use crate::geometry::{Point, Rect, Size};

verus! {

/// What the xfce output protocol knows of an output.
pub struct XfceOutputInfo {
    pub output: u64,
    pub is_primary: bool,
    pub workarea: Rect,
}

/// What is announced when an output changes.
#[derive(Clone, Copy, Debug, PartialEq, Eq, Structural)]
pub struct XfceOutputChanges {
    /// The output became the primary one; losing that is not announced.
    pub send_primary: bool,
    pub workarea: Option<Rect>,
    /// Whether anything was announced, and so "done" follows.
    pub done: bool,
}

impl XfceOutputInfo {
    /// A new output: its work area is the whole output.
    pub fn new(output: u64, output_size: Size, is_primary: bool) -> (r: XfceOutputInfo)
        ensures
            r.output == output,
            r.is_primary == is_primary,
            r.workarea == (Rect { loc: Point { x: 0, y: 0 }, size: output_size }),
    {
        XfceOutputInfo { output, is_primary, workarea: Rect { loc: Point { x: 0, y: 0 }, size: output_size } }
    }

    /// Applies a change of the output and says what is announced.
    pub fn apply_change(&mut self, is_primary: Option<bool>, workarea: Option<Rect>) -> (r: XfceOutputChanges)
        ensures
            ({
                let changed_primary = match is_primary {
                    Some(p) => p != old(self).is_primary,
                    None => false,
                };
                let changed_workarea = match workarea {
                    Some(w) => w != old(self).workarea,
                    None => false,
                };
                &&& r.send_primary == (changed_primary && is_primary == Some(true))
                &&& r.workarea == (if changed_workarea { workarea } else { None })
                &&& r.done == (r.send_primary || r.workarea.is_some())
                &&& final(self).output == old(self).output
                &&& final(self).is_primary == (if changed_primary { is_primary.unwrap() } else { old(self).is_primary })
                &&& final(self).workarea == (if changed_workarea { workarea.unwrap() } else { old(self).workarea })
            }),
    {
        let changed_primary = match is_primary {
            Some(p) => p != self.is_primary,
            None => false,
        };
        let changed_workarea = match workarea {
            Some(w) => w != self.workarea,
            None => false,
        };
        let send_primary = changed_primary && is_primary == Some(true);
        let new_workarea = if changed_workarea { workarea } else { None };
        if changed_primary {
            self.is_primary = is_primary.unwrap();
        }
        if changed_workarea {
            self.workarea = workarea.unwrap();
        }
        XfceOutputChanges { send_primary, workarea: new_workarea, done: send_primary || new_workarea.is_some() }
    }
}

/// Which output each seat's pointer is on, seats and outputs by number.
pub struct PointerOutputs {
    pub entries: Vec<(u64, u64)>,
}

/// Each seat has at most one entry.
pub open spec fn one_per_seat(s: Seq<(u64, u64)>) -> bool {
    forall|i: int, j: int| 0 <= i < j < s.len() ==> (#[trigger] s[i]).0 != (#[trigger] s[j]).0
}

/// The output a seat's pointer is on, as the entries say.
pub open spec fn pointer_output_of(s: Seq<(u64, u64)>, seat: u64) -> Option<u64>
    decreases s.len(),
{
    if s.len() == 0 {
        None
    } else if s.last().0 == seat {
        Some(s.last().1)
    } else {
        pointer_output_of(s.drop_last(), seat)
    }
}

/// The entries of seats other than `seat`, in order.
pub open spec fn without_seat(s: Seq<(u64, u64)>, seat: u64) -> Seq<(u64, u64)>
    decreases s.len(),
{
    if s.len() == 0 {
        s
    } else if s.last().0 == seat {
        without_seat(s.drop_last(), seat)
    } else {
        without_seat(s.drop_last(), seat).push(s.last())
    }
}

/// The entries on outputs other than `output`, in order.
pub open spec fn without_output(s: Seq<(u64, u64)>, output: u64) -> Seq<(u64, u64)>
    decreases s.len(),
{
    if s.len() == 0 {
        s
    } else if s.last().1 == output {
        without_output(s.drop_last(), output)
    } else {
        without_output(s.drop_last(), output).push(s.last())
    }
}

/// The seats whose pointer is on `output`, in order.
pub open spec fn seats_on(s: Seq<(u64, u64)>, output: u64) -> Seq<u64>
    decreases s.len(),
{
    if s.len() == 0 {
        Seq::empty()
    } else if s.last().1 == output {
        seats_on(s.drop_last(), output).push(s.last().0)
    } else {
        seats_on(s.drop_last(), output)
    }
}

proof fn lemma_without_seat(s: Seq<(u64, u64)>, seat: u64)
    requires
        one_per_seat(s),
    ensures
        one_per_seat(without_seat(s, seat)),
        pointer_output_of(without_seat(s, seat), seat).is_none(),
        forall|k: int| 0 <= k < without_seat(s, seat).len() ==> #[trigger] without_seat(s, seat)[k].0 != seat
            && s.contains(without_seat(s, seat)[k]),
        forall|other: u64| other != seat ==> pointer_output_of(without_seat(s, seat), other) == pointer_output_of(s, other),
    decreases s.len(),
{
    if s.len() > 0 {
        let p = s.drop_last();
        assert(one_per_seat(p));
        lemma_without_seat(p, seat);
        let w = without_seat(p, seat);
        if s.last().0 != seat {
            let w2 = w.push(s.last());
            assert(without_seat(s, seat) == w2);
            assert(w2.drop_last() =~= w);
            assert(w2.last() == s.last());
            assert forall|i: int, j: int| 0 <= i < j < w2.len() implies (#[trigger] w2[i]).0 != (#[trigger] w2[j]).0 by {
                if j == w.len() {
                    assert(p.contains(w[i]));
                    let k = choose|k: int| 0 <= k < p.len() && p[k] == w[i];
                    assert(s[k] == p[k]);
                    assert(s[s.len() - 1] == s.last());
                }
            }
            assert forall|k: int| 0 <= k < w2.len() implies #[trigger] w2[k].0 != seat && s.contains(w2[k]) by {
                if k < w.len() {
                    assert(p.contains(w[k]));
                    let m = choose|m: int| 0 <= m < p.len() && p[m] == w[k];
                    assert(s[m] == p[m]);
                } else {
                    assert(s[s.len() - 1] == s.last());
                }
            }
            assert forall|other: u64| other != seat implies pointer_output_of(w2, other) == pointer_output_of(s, other) by {
                assert(w2.drop_last() =~= w);
                assert(pointer_output_of(without_seat(p, seat), other) == pointer_output_of(p, other));
            }
        } else {
            assert(without_seat(s, seat) == w);
            assert forall|k: int| 0 <= k < w.len() implies #[trigger] w[k].0 != seat && s.contains(w[k]) by {
                assert(p.contains(w[k]));
                let m = choose|m: int| 0 <= m < p.len() && p[m] == w[k];
                assert(s[m] == p[m]);
            }
            assert forall|other: u64| other != seat implies pointer_output_of(w, other) == pointer_output_of(s, other) by {
                assert(pointer_output_of(without_seat(p, seat), other) == pointer_output_of(p, other));
            }
        }
    }
}

impl PointerOutputs {
    pub fn new() -> (r: PointerOutputs)
        ensures
            r.entries@.len() == 0,
    {
        PointerOutputs { entries: Vec::new() }
    }

    /// The output `seat`'s pointer is on.
    pub fn current(&self, seat: u64) -> (r: Option<u64>)
        ensures
            r == pointer_output_of(self.entries@, seat),
    {
        let mut i: usize = self.entries.len();
        assert(self.entries@.subrange(0, i as int) =~= self.entries@);
        while i > 0
            invariant
                0 <= i <= self.entries@.len(),
                pointer_output_of(self.entries@, seat) == pointer_output_of(self.entries@.subrange(0, i as int), seat),
            decreases i,
        {
            let e = self.entries[i - 1];
            proof {
                let t = self.entries@.subrange(0, i as int);
                assert(t.drop_last() =~= self.entries@.subrange(0, i as int - 1));
                assert(t.last() == e);
            }
            if e.0 == seat {
                return Some(e.1);
            }
            i = i - 1;
        }
        None
    }

    fn remove_seat(&mut self, seat: u64)
        ensures
            final(self).entries@ == without_seat(old(self).entries@, seat),
    {
        let ghost start = self.entries@;
        let mut kept: Vec<(u64, u64)> = Vec::new();
        let mut i: usize = 0;
        while i < self.entries.len()
            invariant
                0 <= i <= self.entries@.len(),
                self.entries@ == start,
                kept@ == without_seat(start.subrange(0, i as int), seat),
            decreases self.entries@.len() - i,
        {
            let e = self.entries[i];
            proof {
                let t = start.subrange(0, i as int + 1);
                assert(t.drop_last() =~= start.subrange(0, i as int));
                assert(t.last() == e);
            }
            if e.0 != seat {
                kept.push(e);
            }
            i = i + 1;
        }
        assert(start.subrange(0, start.len() as int) =~= start);
        self.entries = kept;
    }

    /// Records that `seat`'s pointer moved to `output` (or off every output).  Gives back the
    /// output it left and the one it entered, when it changed.
    pub fn pointer_output_changed(&mut self, seat: u64, output: Option<u64>) -> (r: Option<(Option<u64>, Option<u64>)>)
        requires
            one_per_seat(old(self).entries@),
        ensures
            one_per_seat(final(self).entries@),
            pointer_output_of(final(self).entries@, seat) == output,
            forall|other: u64| other != seat ==> pointer_output_of(final(self).entries@, other) == pointer_output_of(old(self).entries@, other),
            r == (if pointer_output_of(old(self).entries@, seat) == output {
                None
            } else {
                Some((pointer_output_of(old(self).entries@, seat), output))
            }),
            r.is_none() ==> final(self).entries@ == old(self).entries@,
    {
        let cur = self.current(seat);
        if cur == output {
            return None;
        }
        let ghost before = self.entries@;
        proof {
            lemma_without_seat(before, seat);
        }
        self.remove_seat(seat);
        match output {
            Some(o) => {
                let ghost w = self.entries@;
                self.entries.push((seat, o));
                proof {
                    let s = self.entries@;
                    assert(s.drop_last() =~= w);
                    assert forall|i: int, j: int| 0 <= i < j < s.len() implies (#[trigger] s[i]).0 != (#[trigger] s[j]).0 by {
                        if j == w.len() {
                            assert(w[i].0 != seat);
                        } else {
                            assert(s[i] == w[i] && s[j] == w[j]);
                        }
                    }
                }
            },
            None => {},
        }
        Some((cur, output))
    }

    /// Forgets the pointers on an output that goes away; gives back the seats that were on it.
    pub fn output_destroyed(&mut self, output: u64) -> (r: Vec<u64>)
        ensures
            r@ == seats_on(old(self).entries@, output),
            final(self).entries@ == without_output(old(self).entries@, output),
    {
        let ghost start = self.entries@;
        let mut kept: Vec<(u64, u64)> = Vec::new();
        let mut seats: Vec<u64> = Vec::new();
        let mut i: usize = 0;
        while i < self.entries.len()
            invariant
                0 <= i <= self.entries@.len(),
                self.entries@ == start,
                kept@ == without_output(start.subrange(0, i as int), output),
                seats@ == seats_on(start.subrange(0, i as int), output),
            decreases self.entries@.len() - i,
        {
            let e = self.entries[i];
            proof {
                let t = start.subrange(0, i as int + 1);
                assert(t.drop_last() =~= start.subrange(0, i as int));
                assert(t.last() == e);
            }
            if e.1 != output {
                kept.push(e);
            } else {
                seats.push(e.0);
            }
            i = i + 1;
        }
        assert(start.subrange(0, start.len() as int) =~= start);
        self.entries = kept;
        seats
    }
}

/// Gamma control of one output: the control object bound to it, if any, the ramps to restore
/// when that object goes, and the ramp length.
pub struct GammaOutput {
    pub output: u64,
    pub control: Option<u64>,
    pub orig_gamma: Option<(Vec<u16>, Vec<u16>, Vec<u16>)>,
    pub gamma_length: u32,
}

/// Why a gamma control was refused.
#[derive(Clone, Copy, Debug, PartialEq, Eq, Structural)]
pub enum GammaControlError {
    /// The output has a gamma control already.
    AlreadyExists,
    /// No such output.
    InvalidOutput,
}

pub open spec fn ramps_view(o: Option<(Vec<u16>, Vec<u16>, Vec<u16>)>) -> Option<(Seq<u16>, Seq<u16>, Seq<u16>)> {
    match o {
        Some((r, g, b)) => Some((r@, g@, b@)),
        None => None,
    }
}

pub struct GammaControls {
    pub outputs: Vec<GammaOutput>,
}

pub open spec fn gamma_output_index(s: Seq<GammaOutput>, output: u64) -> Option<int> {
    if exists|i: int| 0 <= i < s.len() && s[i].output == output && forall|j: int| 0 <= j < i ==> s[j].output != output {
        Some(choose|i: int| 0 <= i < s.len() && s[i].output == output && forall|j: int| 0 <= j < i ==> s[j].output != output)
    } else {
        None
    }
}

/// No control object controls two outputs.
pub open spec fn controls_distinct(s: Seq<GammaOutput>) -> bool {
    forall|i: int, j: int|
        0 <= i < j < s.len() && s[i].control.is_some() ==> (#[trigger] s[i]).control != (#[trigger] s[j]).control
}

impl GammaControls {
    pub fn new() -> (r: GammaControls)
        ensures
            r.outputs@.len() == 0,
    {
        GammaControls { outputs: Vec::new() }
    }

    fn find_output(&self, output: u64) -> (r: Option<usize>)
        ensures
            match r {
                Some(i) => gamma_output_index(self.outputs@, output) == Some(i as int),
                None => gamma_output_index(self.outputs@, output).is_none(),
            },
    {
        let mut i: usize = 0;
        while i < self.outputs.len()
            invariant
                0 <= i <= self.outputs@.len(),
                forall|j: int| 0 <= j < i ==> self.outputs@[j].output != output,
            decreases self.outputs@.len() - i,
        {
            if self.outputs[i].output == output {
                proof {
                    let s = self.outputs@;
                    let c = choose|k: int| 0 <= k < s.len() && s[k].output == output && forall|j: int| 0 <= j < k ==> s[j].output != output;
                    assert(0 <= c < s.len() && s[c].output == output && forall|j: int| 0 <= j < c ==> s[j].output != output);
                    if c < i {
                        assert(s[c].output != output);
                    }
                    if c > i {
                        assert(s[i as int].output != output);
                    }
                }
                return Some(i);
            }
            i = i + 1;
        }
        None
    }

    /// Binds a new control object to `output`; gives back the ramp length to announce.  Each
    /// output takes one control at a time.
    pub fn get_gamma_control(&mut self, output: u64, control: u64) -> (r: Result<u32, GammaControlError>)
        requires
            forall|i: int| 0 <= i < old(self).outputs@.len() ==> old(self).outputs@[i].control != Some(control),
        ensures
            final(self).outputs@.len() == old(self).outputs@.len(),
            match gamma_output_index(old(self).outputs@, output) {
                None => r == Err::<u32, GammaControlError>(GammaControlError::InvalidOutput)
                    && final(self).outputs@ == old(self).outputs@,
                Some(i) => if old(self).outputs@[i].control.is_some() {
                    r == Err::<u32, GammaControlError>(GammaControlError::AlreadyExists)
                        && final(self).outputs@ == old(self).outputs@
                } else {
                    &&& r == Ok::<u32, GammaControlError>(old(self).outputs@[i].gamma_length)
                    &&& final(self).outputs@[i].control == Some(control)
                    &&& final(self).outputs@[i].output == output
                    &&& final(self).outputs@[i].gamma_length == old(self).outputs@[i].gamma_length
                    &&& final(self).outputs@[i].orig_gamma == old(self).outputs@[i].orig_gamma
                    &&& forall|j: int| 0 <= j < old(self).outputs@.len() && j != i ==> final(self).outputs@[j] == old(self).outputs@[j]
                },
            },
    {
        match self.find_output(output) {
            None => Err(GammaControlError::InvalidOutput),
            Some(i) => {
                if self.outputs[i].control.is_some() {
                    Err(GammaControlError::AlreadyExists)
                } else {
                    let len = self.outputs[i].gamma_length;
                    let ghost before = self.outputs@;
                    let mut slot = self.outputs.remove(i);
                    slot.control = Some(control);
                    self.outputs.insert(i, slot);
                    assert forall|j: int| 0 <= j < before.len() && j != i implies self.outputs@[j] == before[j] by {
                        if j < i {
                        } else {
                        }
                    }
                    Ok(len)
                }
            },
        }
    }

    /// The control object `control` goes away: its output is free again, and the ramps to
    /// restore, if the output had them, are given back.
    pub fn control_destroyed(&mut self, control: u64) -> (r: Option<(u64, Option<(Vec<u16>, Vec<u16>, Vec<u16>)>)>)
        ensures
            final(self).outputs@.len() == old(self).outputs@.len(),
            r.is_some() == exists|i: int| 0 <= i < old(self).outputs@.len() && old(self).outputs@[i].control == Some(control),
            r.is_some() ==> exists|i: int|
                0 <= i < old(self).outputs@.len() && old(self).outputs@[i].control == Some(control)
                    && final(self).outputs@[i].control.is_none() && r.unwrap().0 == old(self).outputs@[i].output
                    && ramps_view(r.unwrap().1) == ramps_view(old(self).outputs@[i].orig_gamma),
    {
        let mut i: usize = 0;
        while i < self.outputs.len()
            invariant
                0 <= i <= self.outputs@.len(),
                self.outputs@ == old(self).outputs@,
                forall|j: int| 0 <= j < i ==> self.outputs@[j].control != Some(control),
            decreases self.outputs@.len() - i,
        {
            if self.outputs[i].control == Some(control) {
                let ghost before = self.outputs@;
                let mut slot = self.outputs.remove(i);
                slot.control = None;
                let output = slot.output;
                let orig = match &slot.orig_gamma {
                    Some((r, g, b)) => Some((r.clone(), g.clone(), b.clone())),
                    None => None,
                };
                self.outputs.insert(i, slot);
                assert(self.outputs@[i as int].control.is_none());
                assert(before[i as int].control == Some(control));
                assert(ramps_view(orig) == ramps_view(before[i as int].orig_gamma));
                return Some((output, orig));
            }
            i = i + 1;
        }
        None
    }
}

/// The value of two bytes, least significant first when `le`.
pub open spec fn u16_in_order(le: bool, b0: u8, b1: u8) -> int {
    if le { b0 + 0x100 * b1 } else { b1 + 0x100 * b0 }
}

/// `ws` are the two-byte words of `bytes`, all read in the order given by `le`.
pub open spec fn u16_words_of(bytes: Seq<u8>, ws: Seq<u16>, le: bool) -> bool {
    &&& ws.len() == bytes.len() / 2
    &&& forall|i: int| 0 <= i < ws.len() ==> #[trigger] ws[i] as int == u16_in_order(le, bytes[2 * i], bytes[2 * i + 1])
}

/// The two-byte words of `bytes`, all read in the machine's byte order; a trailing odd byte is
/// dropped.
pub fn decode_u16_words(bytes: &Vec<u8>) -> (r: Vec<u16>)
    ensures
        exists|le: bool| #[trigger] u16_words_of(bytes@, r@, le),
{
    // The machine reads the bytes 1, 0, 0, 0 as 1 exactly when it puts the least significant
    // byte first.
    let le = crate::ui_session::i32_from_ne_bytes(1, 0, 0, 0) == 1;
    let mut r: Vec<u16> = Vec::new();
    let len = bytes.len();
    let n = len / 2;
    let mut i: usize = 0;
    while i < n
        invariant
            0 <= i <= n,
            len == bytes@.len(),
            n == bytes@.len() / 2,
            2 * n <= bytes@.len(),
            r@.len() == i,
            forall|j: int| 0 <= j < i ==> #[trigger] r@[j] as int == u16_in_order(le, bytes@[2 * j], bytes@[2 * j + 1]),
        decreases n - i,
    {
        let (lo, hi) = if le { (bytes[2 * i], bytes[2 * i + 1]) } else { (bytes[2 * i + 1], bytes[2 * i]) };
        r.push(lo as u16 + 0x100 * hi as u16);
        i = i + 1;
    }
    assert(u16_words_of(bytes@, r@, le));
    r
}

/// Splits the ramps a client sent, red then green then blue, each `gamma_length` long.
pub fn split_gamma_ramps(values: &Vec<u16>, gamma_length: usize) -> (r: (Vec<u16>, Vec<u16>, Vec<u16>))
    requires
        values@.len() == 3 * gamma_length,
    ensures
        r.0@ == values@.subrange(0, gamma_length as int),
        r.1@ == values@.subrange(gamma_length as int, 2 * gamma_length),
        r.2@ == values@.subrange(2 * gamma_length, 3 * gamma_length),
{
    let mut red: Vec<u16> = Vec::new();
    let mut green: Vec<u16> = Vec::new();
    let mut blue: Vec<u16> = Vec::new();
    let n = values.len();
    let mut i: usize = 0;
    while i < gamma_length
        invariant
            0 <= i <= gamma_length,
            n == values@.len(),
            values@.len() == 3 * gamma_length,
            red@ == values@.subrange(0, i as int),
            green@ == values@.subrange(gamma_length as int, gamma_length + i),
            blue@ == values@.subrange(2 * gamma_length, 2 * gamma_length + i),
        decreases gamma_length - i,
    {
        red.push(values[i]);
        green.push(values[gamma_length + i]);
        blue.push(values[2 * gamma_length + i]);
        proof {
            assert(red@ =~= values@.subrange(0, i as int + 1));
            assert(green@ =~= values@.subrange(gamma_length as int, gamma_length + i + 1));
            assert(blue@ =~= values@.subrange(2 * gamma_length, 2 * gamma_length + i + 1));
        }
        i = i + 1;
    }
    (red, green, blue)
}

/// An output as the xfce output-management protocol announces it, with the head objects it
/// was sent as.
pub struct XfceHead {
    pub output: u64,
    pub instances: Vec<u32>,
}

pub struct XfceHeadView {
    pub output: u64,
    pub instances: Seq<u32>,
}

impl View for XfceHead {
    type V = XfceHeadView;

    open spec fn view(&self) -> XfceHeadView {
        XfceHeadView { output: self.output, instances: self.instances@ }
    }
}

/// The xfce output-management protocol's state: the bound managers, the heads, and the last
/// configuration serial announced with "done".
pub struct XfceOutputManagementState {
    pub managers: Vec<u32>,
    pub heads: Vec<XfceHead>,
    pub last_config_serial: Option<u32>,
}

pub struct XfceOutputManagementView {
    pub managers: Seq<u32>,
    pub heads: Seq<XfceHeadView>,
    pub last_config_serial: Option<u32>,
}

impl View for XfceOutputManagementState {
    type V = XfceOutputManagementView;

    open spec fn view(&self) -> XfceOutputManagementView {
        XfceOutputManagementView {
            managers: self.managers@,
            heads: self.heads@.map_values(|h: XfceHead| h@),
            last_config_serial: self.last_config_serial,
        }
    }
}

/// "Done" with `serial` goes to every manager, and `serial` is the last one announced.
pub open spec fn spec_send_done(v: XfceOutputManagementView, serial: u32) -> (XfceOutputManagementView, Seq<u32>) {
    (XfceOutputManagementView { last_config_serial: Some(serial), ..v }, v.managers)
}

/// An output changed: "done" follows only for a serial not yet announced.
pub open spec fn spec_xfce_output_changed(v: XfceOutputManagementView, serial: u32) -> (XfceOutputManagementView, Option<Seq<u32>>) {
    if v.last_config_serial != Some(serial) {
        (spec_send_done(v, serial).0, Some(v.managers))
    } else {
        (v, None)
    }
}

/// An output went away: its heads are dropped; "done" follows when a head was dropped or the
/// serial was not yet announced.
pub open spec fn spec_xfce_output_destroyed(v: XfceOutputManagementView, output: u64, serial: u32) -> (
    XfceOutputManagementView,
    Option<Seq<u32>>,
) {
    let heads = v.heads.filter(|h: XfceHeadView| h.output != output);
    let w = XfceOutputManagementView { heads, ..v };
    if heads.len() != v.heads.len() || v.last_config_serial != Some(serial) {
        (spec_send_done(w, serial).0, Some(v.managers))
    } else {
        (w, None)
    }
}

impl XfceOutputManagementState {
    pub fn new() -> (r: XfceOutputManagementState)
        ensures
            r@.managers.len() == 0,
            r@.heads.len() == 0,
            r@.last_config_serial is None,
    {
        let r = XfceOutputManagementState { managers: Vec::new(), heads: Vec::new(), last_config_serial: None };
        assert(r@.heads =~= Seq::empty());
        r
    }

    /// An output was created: a head is added for it (its position is returned, for the heads
    /// sent to the managers) and "done" with `serial` goes to every manager.
    pub fn output_created(&mut self, output: u64, serial: u32) -> (r: (usize, Vec<u32>))
        ensures
            r.0 == old(self)@.heads.len(),
            r.1@ == old(self)@.managers,
            final(self)@ == (XfceOutputManagementView {
                heads: old(self)@.heads.push(XfceHeadView { output, instances: Seq::empty() }),
                last_config_serial: Some(serial),
                ..old(self)@
            }),
    {
        let ghost before = self@;
        let n = self.heads.len();
        let h = XfceHead { output, instances: Vec::new() };
        assert(h@.instances =~= Seq::<u32>::empty());
        self.heads.push(h);
        self.last_config_serial = Some(serial);
        assert(self@.heads =~= before.heads.push(h@));
        (n, self.managers.clone())
    }

    /// The head at `index` was sent to a manager's client as `object`.
    pub fn head_sent(&mut self, index: usize, object: u32)
        requires
            index < old(self)@.heads.len(),
        ensures
            final(self)@ == (XfceOutputManagementView {
                heads: old(self)@.heads.update(
                    index as int,
                    XfceHeadView { instances: old(self)@.heads[index as int].instances.push(object), ..old(self)@.heads[index as int] },
                ),
                ..old(self)@
            }),
    {
        let ghost before = self@;
        let mut h = self.heads.remove(index);
        h.instances.push(object);
        self.heads.insert(index, h);
        assert(self@.heads =~= before.heads.update(
            index as int,
            XfceHeadView { instances: before.heads[index as int].instances.push(object), ..before.heads[index as int] },
        ));
    }

    /// An output changed; the managers to send "done" to, if it is sent.
    pub fn output_changed(&mut self, serial: u32) -> (r: Option<Vec<u32>>)
        ensures
            (final(self)@, match r {
                Some(m) => Some(m@),
                None => None,
            }) == spec_xfce_output_changed(old(self)@, serial),
    {
        if self.last_config_serial != Some(serial) {
            self.last_config_serial = Some(serial);
            Some(self.managers.clone())
        } else {
            None
        }
    }

    /// An output was destroyed; the managers to send "done" to, if it is sent.
    pub fn output_destroyed(&mut self, output: u64, serial: u32) -> (r: Option<Vec<u32>>)
        ensures
            (final(self)@, match r {
                Some(m) => Some(m@),
                None => None,
            }) == spec_xfce_output_destroyed(old(self)@, output, serial),
    {
        let ghost before = self@;
        let old_len = self.heads.len();
        let mut kept: Vec<XfceHead> = Vec::new();
        let mut i: usize = 0;
        while i < self.heads.len()
            invariant
                0 <= i <= self.heads@.len(),
                self@ == before,
                old_len == before.heads.len(),
                kept@.map_values(|h: XfceHead| h@) == before.heads.subrange(0, i as int).filter(
                    |h: XfceHeadView| h.output != output,
                ),
            decreases self.heads@.len() - i,
        {
            let ghost k0 = kept@.map_values(|h: XfceHead| h@);
            proof {
                let s = before.heads.subrange(0, i as int + 1);
                assert(s.drop_last() =~= before.heads.subrange(0, i as int));
                reveal_with_fuel(Seq::filter, 1);
                assert(before.heads[i as int] == self.heads@[i as int]@);
            }
            if self.heads[i].output != output {
                let h = XfceHead { output: self.heads[i].output, instances: self.heads[i].instances.clone() };
                kept.push(h);
                assert(kept@.map_values(|h: XfceHead| h@) =~= k0.push(before.heads[i as int]));
            }
            i = i + 1;
        }
        assert(before.heads.subrange(0, old_len as int) =~= before.heads);
        self.heads = kept;
        let changed = self.heads.len() != old_len;
        if changed || self.last_config_serial != Some(serial) {
            self.last_config_serial = Some(serial);
            Some(self.managers.clone())
        } else {
            None
        }
    }

    /// A manager bound: it is recorded, and the last serial announced, if any, is to be sent
    /// to it with "done" (after the heads).
    pub fn bind(&mut self, manager: u32) -> (r: Option<u32>)
        ensures
            r == old(self)@.last_config_serial,
            final(self)@ == (XfceOutputManagementView { managers: old(self)@.managers.push(manager), ..old(self)@ }),
    {
        self.managers.push(manager);
        self.last_config_serial
    }
}

impl XfceOutputManagementState {
    /// A manager went away: it is told nothing more.
    pub fn manager_destroyed(&mut self, manager: u32)
        ensures
            final(self)@ == (XfceOutputManagementView {
                managers: old(self)@.managers.filter(|m: u32| m != manager),
                ..old(self)@
            }),
    {
        self.managers = crate::util::without_u32(&self.managers, manager);
    }

    /// A head object was released: no head is sent anything on it any more.
    pub fn head_released(&mut self, object: u32)
        ensures
            final(self)@.managers == old(self)@.managers,
            final(self)@.last_config_serial == old(self)@.last_config_serial,
            final(self)@.heads.len() == old(self)@.heads.len(),
            forall|i: int| 0 <= i < final(self)@.heads.len() ==> (#[trigger] final(self)@.heads[i]) == (XfceHeadView {
                instances: old(self)@.heads[i].instances.filter(|o: u32| o != object),
                ..old(self)@.heads[i]
            }),
    {
        let ghost before = self@;
        let n = self.heads.len();
        let mut i: usize = 0;
        while i < n
            invariant
                0 <= i <= n,
                n == self@.heads.len(),
                n == before.heads.len(),
                self@.managers == before.managers,
                self@.last_config_serial == before.last_config_serial,
                forall|j: int| 0 <= j < i ==> (#[trigger] self@.heads[j]) == (XfceHeadView {
                    instances: before.heads[j].instances.filter(|o: u32| o != object),
                    ..before.heads[j]
                }),
                forall|j: int| i <= j < n ==> #[trigger] self@.heads[j] == before.heads[j],
            decreases n - i,
        {
            let ghost pre = self@.heads;
            let mut h = self.heads.remove(i);
            assert(h@ == pre[i as int]);
            h.instances = crate::util::without_u32(&h.instances, object);
            let ghost hv = h@;
            self.heads.insert(i, h);
            proof {
                assert(self@.heads =~= pre.update(i as int, hv));
                assert forall|j: int| 0 <= j < i + 1 implies (#[trigger] self@.heads[j]) == (XfceHeadView {
                    instances: before.heads[j].instances.filter(|o: u32| o != object),
                    ..before.heads[j]
                }) by {
                    if j < i {
                        assert(self@.heads[j] == pre[j]);
                    }
                }
                assert forall|j: int| i + 1 <= j < n implies #[trigger] self@.heads[j] == before.heads[j] by {
                    assert(self@.heads[j] == pre[j]);
                }
            }
            i = i + 1;
        }
    }
}

/// "Done" is announced once per configuration serial: a second change with the same serial
/// announces nothing.
pub proof fn lemma_done_once_per_serial(v: XfceOutputManagementView, serial: u32)
    ensures
        spec_xfce_output_changed(spec_xfce_output_changed(v, serial).0, serial).1 is None,
        spec_xfce_output_changed(spec_xfce_output_destroyed(v, 0, serial).0, serial).1 is None,
        spec_xfce_output_changed(v, serial).0.last_config_serial == Some(serial),
{
}

} // verus!
