//! The xfce input-device list: which settings of an input device are announced, and which of
//! them are sent again when the device's settings change.  Settings travel as the protocol's
//! wire values; floating-point settings as the bit patterns of their values, compared as
//! doubles (the two zeros are equal, a NaN equals nothing).

use vstd::prelude::*;
use crate::util::{f64_bits_eq, f64_eq};

verus! {

/// A setting's default and current value.
#[derive(Clone, Copy, Debug, PartialEq, Eq, Structural)]
pub struct Pair {
    pub default: u32,
    pub current: u32,
}

/// A setting's supported values, default and current value.
#[derive(Clone, Copy, Debug, PartialEq, Eq, Structural)]
pub struct Triple {
    pub supported: u32,
    pub default: u32,
    pub current: u32,
}

/// A floating-point setting's default and current value, as bit patterns.
#[derive(Clone, Copy, Debug, PartialEq, Eq, Structural)]
pub struct BitsPair {
    pub default: u64,
    pub current: u64,
}

/// Three-finger drag: the most fingers it takes, default and current state.
#[derive(Clone, Copy, Debug, PartialEq, Eq, Structural)]
pub struct ThreeFingerDrag {
    pub max_fingers: u32,
    pub default: u32,
    pub current: u32,
}

/// A calibration matrix (six values, as bit patterns).
#[derive(Clone, Copy, Debug, PartialEq, Eq, Structural)]
pub struct Matrix {
    pub m0: u64,
    pub m1: u64,
    pub m2: u64,
    pub m3: u64,
    pub m4: u64,
    pub m5: u64,
}

#[derive(Clone, Copy, Debug, PartialEq, Eq, Structural)]
pub struct MatrixPair {
    pub default: Matrix,
    pub current: Matrix,
}

/// A tablet area (corners, as bit patterns).
#[derive(Clone, Copy, Debug, PartialEq, Eq, Structural)]
pub struct Area {
    pub x1: u64,
    pub y1: u64,
    pub x2: u64,
    pub y2: u64,
}

#[derive(Clone, Copy, Debug, PartialEq, Eq, Structural)]
pub struct AreaPair {
    pub default: Area,
    pub current: Area,
}

/// The settings of an input device that clients are told of; a setting the device lacks is
/// `None`.
#[derive(Clone, Copy, Debug, PartialEq, Eq, Structural)]
pub struct DeviceSettings {
    pub send_events: Triple,
    pub accel_speed: Option<BitsPair>,
    pub accel_profile: Option<Triple>,
    pub natural_scroll: Option<Pair>,
    pub scroll_method: Option<Triple>,
    pub scroll_button: Option<Pair>,
    pub scroll_button_lock: Option<Pair>,
    pub click_method: Option<Triple>,
    pub clickfinger_button_map: Option<Pair>,
    pub left_handed: Option<Pair>,
    pub middle_emulation: Option<Pair>,
    pub tap: Option<Pair>,
    pub tap_finger_count: Option<u32>,
    pub tap_button_map: Option<Pair>,
    pub tap_drag: Option<Pair>,
    pub tap_drag_lock: Option<Pair>,
    pub three_finger_drag: Option<ThreeFingerDrag>,
    pub dwt: Option<Pair>,
    pub dwtp: Option<Pair>,
    pub rotation: Option<Pair>,
    pub calibration: Option<MatrixPair>,
    pub area: Option<AreaPair>,
}

/// What a device answers when asked about its settings.
#[derive(Clone, Copy, Debug, PartialEq, Eq, Structural)]
pub struct DeviceQuery {
    pub send_events: Triple,
    pub accel_available: bool,
    pub accel_speed: BitsPair,
    /// How many acceleration profiles the device offers, and them as a set.
    pub accel_profile_count: u32,
    pub accel_profile: Triple,
    pub natural_scroll_available: bool,
    pub natural_scroll: Pair,
    pub scroll_method_count: u32,
    pub scroll_has_button_down: bool,
    pub scroll_method: Triple,
    pub scroll_button: Pair,
    pub scroll_button_lock: Pair,
    pub click_method_count: u32,
    pub click_has_clickfinger: bool,
    pub click_method: Triple,
    pub clickfinger_button_map: Pair,
    pub left_handed_available: bool,
    pub left_handed: Pair,
    pub middle_emulation_available: bool,
    pub middle_emulation: Pair,
    pub tap_finger_count: u32,
    pub tap: Pair,
    pub tap_button_map: Pair,
    pub tap_drag: Pair,
    pub tap_drag_lock: Pair,
    pub three_finger_max: u32,
    pub three_finger: Pair,
    pub dwt_available: bool,
    pub dwt: Pair,
    pub dwtp_available: bool,
    pub dwtp: Pair,
    pub rotation_available: bool,
    pub rotation: Pair,
    pub calibration_available: bool,
    /// The default and current matrices, each when the device could report it.
    pub calibration_default: Option<Matrix>,
    pub calibration_current: Option<Matrix>,
    pub area_available: bool,
    pub area: AreaPair,
}

/// The identity calibration matrix (1 0 0 / 0 1 0), as bit patterns.
pub open spec fn identity_matrix() -> Matrix {
    Matrix { m0: 0x3ff0_0000_0000_0000, m1: 0, m2: 0, m3: 0, m4: 0x3ff0_0000_0000_0000, m5: 0 }
}

/// A matrix the device reported, or the identity when it could not.
pub open spec fn matrix_or_identity(m: Option<Matrix>) -> Matrix {
    match m {
        Some(x) => x,
        None => identity_matrix(),
    }
}

fn matrix_or_identity_exec(m: Option<Matrix>) -> (r: Matrix)
    ensures
        r == matrix_or_identity(m),
{
    match m {
        Some(x) => x,
        None => Matrix { m0: 0x3ff0_0000_0000_0000, m1: 0, m2: 0, m3: 0, m4: 0x3ff0_0000_0000_0000, m5: 0 },
    }
}

pub open spec fn some_if<T>(cond: bool, x: T) -> Option<T> {
    if cond { Some(x) } else { None }
}

/// The settings a device has: each one it offers.  Scroll button and its lock come with the
/// on-button-down scroll method, the clickfinger button map with the clickfinger method, and
/// the tap settings with a positive tap finger count; a calibration matrix the device could not
/// report is the identity.
pub open spec fn spec_settings_from_query(q: DeviceQuery) -> DeviceSettings {
    let tap = q.tap_finger_count > 0;
    DeviceSettings {
        send_events: q.send_events,
        accel_speed: some_if(q.accel_available, q.accel_speed),
        accel_profile: some_if(q.accel_profile_count > 0, q.accel_profile),
        natural_scroll: some_if(q.natural_scroll_available, q.natural_scroll),
        scroll_method: some_if(q.scroll_method_count > 0, q.scroll_method),
        scroll_button: some_if(q.scroll_has_button_down, q.scroll_button),
        scroll_button_lock: some_if(q.scroll_has_button_down, q.scroll_button_lock),
        click_method: some_if(q.click_method_count > 0, q.click_method),
        clickfinger_button_map: some_if(q.click_has_clickfinger, q.clickfinger_button_map),
        left_handed: some_if(q.left_handed_available, q.left_handed),
        middle_emulation: some_if(q.middle_emulation_available, q.middle_emulation),
        tap: some_if(tap, q.tap),
        tap_finger_count: some_if(tap, q.tap_finger_count),
        tap_button_map: some_if(tap, q.tap_button_map),
        tap_drag: some_if(tap, q.tap_drag),
        tap_drag_lock: some_if(tap, q.tap_drag_lock),
        three_finger_drag: some_if(
            q.three_finger_max > 0,
            ThreeFingerDrag { max_fingers: q.three_finger_max, default: q.three_finger.default, current: q.three_finger.current },
        ),
        dwt: some_if(q.dwt_available, q.dwt),
        dwtp: some_if(q.dwtp_available, q.dwtp),
        rotation: some_if(q.rotation_available, q.rotation),
        calibration: some_if(
            q.calibration_available,
            MatrixPair {
                default: matrix_or_identity(q.calibration_default),
                current: matrix_or_identity(q.calibration_current),
            },
        ),
        area: some_if(q.area_available, q.area),
    }
}

fn opt<T: Copy>(cond: bool, x: T) -> (r: Option<T>)
    ensures
        r == some_if(cond, x),
{
    if cond { Some(x) } else { None }
}

impl DeviceSettings {
    /// The settings a device has, from its answers.
    pub fn from_query(q: &DeviceQuery) -> (r: DeviceSettings)
        ensures
            r == spec_settings_from_query(*q),
    {
        let tap = q.tap_finger_count > 0;
        DeviceSettings {
            send_events: q.send_events,
            accel_speed: opt(q.accel_available, q.accel_speed),
            accel_profile: opt(q.accel_profile_count > 0, q.accel_profile),
            natural_scroll: opt(q.natural_scroll_available, q.natural_scroll),
            scroll_method: opt(q.scroll_method_count > 0, q.scroll_method),
            scroll_button: opt(q.scroll_has_button_down, q.scroll_button),
            scroll_button_lock: opt(q.scroll_has_button_down, q.scroll_button_lock),
            click_method: opt(q.click_method_count > 0, q.click_method),
            clickfinger_button_map: opt(q.click_has_clickfinger, q.clickfinger_button_map),
            left_handed: opt(q.left_handed_available, q.left_handed),
            middle_emulation: opt(q.middle_emulation_available, q.middle_emulation),
            tap: opt(tap, q.tap),
            tap_finger_count: opt(tap, q.tap_finger_count),
            tap_button_map: opt(tap, q.tap_button_map),
            tap_drag: opt(tap, q.tap_drag),
            tap_drag_lock: opt(tap, q.tap_drag_lock),
            three_finger_drag: opt(
                q.three_finger_max > 0,
                ThreeFingerDrag {
                    max_fingers: q.three_finger_max,
                    default: q.three_finger.default,
                    current: q.three_finger.current,
                },
            ),
            dwt: opt(q.dwt_available, q.dwt),
            dwtp: opt(q.dwtp_available, q.dwtp),
            rotation: opt(q.rotation_available, q.rotation),
            calibration: opt(
                q.calibration_available,
                MatrixPair {
                    default: matrix_or_identity_exec(q.calibration_default),
                    current: matrix_or_identity_exec(q.calibration_current),
                },
            ),
            area: opt(q.area_available, q.area),
        }
    }
}

/// A setting sent to a client's device object.
#[derive(Clone, Copy, Debug, PartialEq, Eq, Structural)]
pub enum DeviceEvent {
    SendEvents(Triple),
    AccelSpeed(BitsPair),
    AccelProfile(Triple),
    NaturalScroll(Pair),
    ScrollMethod(Triple),
    ScrollButton(Pair),
    ScrollButtonLock(Pair),
    ClickMethod(Triple),
    ClickfingerButtonMap(Pair),
    LeftHanded(Pair),
    MiddleEmulation(Pair),
    Tap(Pair),
    TapFingerCount(u32),
    TapButtonMap(Pair),
    TapDrag(Pair),
    TapDragLock(Pair),
    ThreeFingerDrag(ThreeFingerDrag),
    Dwt(Pair),
    Dwtp(Pair),
    Rotation(Pair),
    Calibration(MatrixPair),
    Area(AreaPair),
}

/// An event, when it is sent.
pub open spec fn ev(send: bool, e: DeviceEvent) -> Seq<DeviceEvent> {
    if send { seq![e] } else { Seq::empty() }
}

/// The event for one setting: sent when the device has the setting and it differs from what
/// was sent before (`fresh`: nothing was).
pub open spec fn setting_event<T>(fresh: bool, before: Option<T>, now: Option<T>, e: DeviceEvent) -> Seq<DeviceEvent> {
    ev((fresh || before != now) && now.is_some(), e)
}

/// Two floating-point pairs are the same when both their values are equal as doubles.
pub open spec fn bits_same(a: BitsPair, b: BitsPair) -> bool {
    f64_eq(a.default, b.default) && f64_eq(a.current, b.current)
}

pub open spec fn matrix_same(a: Matrix, b: Matrix) -> bool {
    f64_eq(a.m0, b.m0) && f64_eq(a.m1, b.m1) && f64_eq(a.m2, b.m2) && f64_eq(a.m3, b.m3) && f64_eq(a.m4, b.m4)
        && f64_eq(a.m5, b.m5)
}

pub open spec fn area_same(a: Area, b: Area) -> bool {
    f64_eq(a.x1, b.x1) && f64_eq(a.y1, b.y1) && f64_eq(a.x2, b.x2) && f64_eq(a.y2, b.y2)
}

pub open spec fn opt_bits_same(a: Option<BitsPair>, b: Option<BitsPair>) -> bool {
    match (a, b) {
        (Some(x), Some(y)) => bits_same(x, y),
        (None, None) => true,
        _ => false,
    }
}

pub open spec fn opt_matrix_same(a: Option<MatrixPair>, b: Option<MatrixPair>) -> bool {
    match (a, b) {
        (Some(x), Some(y)) => matrix_same(x.default, y.default) && matrix_same(x.current, y.current),
        (None, None) => true,
        _ => false,
    }
}

pub open spec fn opt_area_same(a: Option<AreaPair>, b: Option<AreaPair>) -> bool {
    match (a, b) {
        (Some(x), Some(y)) => area_same(x.default, y.default) && area_same(x.current, y.current),
        (None, None) => true,
        _ => false,
    }
}

/// The event for a floating-point setting: sent when the device has it and it is not the same,
/// as doubles, as what was sent before (a NaN never is).
pub open spec fn float_setting_event(fresh: bool, same: bool, present: bool, e: DeviceEvent) -> Seq<DeviceEvent> {
    ev((fresh || !same) && present, e)
}

pub open spec fn spec_emit_first(s: DeviceSettings, p: bool, q: DeviceSettings) -> Seq<DeviceEvent> {
    ev(p || q.send_events != s.send_events, DeviceEvent::SendEvents(s.send_events))
        + float_setting_event(p, opt_bits_same(q.accel_speed, s.accel_speed), s.accel_speed.is_some(), DeviceEvent::AccelSpeed(s.accel_speed.unwrap()))
        + setting_event(p, q.accel_profile, s.accel_profile, DeviceEvent::AccelProfile(s.accel_profile.unwrap()))
        + setting_event(p, q.natural_scroll, s.natural_scroll, DeviceEvent::NaturalScroll(s.natural_scroll.unwrap()))
        + setting_event(p, q.scroll_method, s.scroll_method, DeviceEvent::ScrollMethod(s.scroll_method.unwrap()))
        + setting_event(p, q.scroll_button, s.scroll_button, DeviceEvent::ScrollButton(s.scroll_button.unwrap()))
        + setting_event(p, q.scroll_button_lock, s.scroll_button_lock, DeviceEvent::ScrollButtonLock(s.scroll_button_lock.unwrap()))
}

pub open spec fn spec_emit_middle(s: DeviceSettings, p: bool, q: DeviceSettings) -> Seq<DeviceEvent> {
    setting_event(p, q.click_method, s.click_method, DeviceEvent::ClickMethod(s.click_method.unwrap()))
        + setting_event(p, q.clickfinger_button_map, s.clickfinger_button_map, DeviceEvent::ClickfingerButtonMap(s.clickfinger_button_map.unwrap()))
        + setting_event(p, q.left_handed, s.left_handed, DeviceEvent::LeftHanded(s.left_handed.unwrap()))
        + setting_event(p, q.middle_emulation, s.middle_emulation, DeviceEvent::MiddleEmulation(s.middle_emulation.unwrap()))
        + setting_event(p, q.tap, s.tap, DeviceEvent::Tap(s.tap.unwrap()))
        + setting_event(p, q.tap_finger_count, s.tap_finger_count, DeviceEvent::TapFingerCount(s.tap_finger_count.unwrap()))
        + setting_event(p, q.tap_button_map, s.tap_button_map, DeviceEvent::TapButtonMap(s.tap_button_map.unwrap()))
        + setting_event(p, q.tap_drag, s.tap_drag, DeviceEvent::TapDrag(s.tap_drag.unwrap()))
        + setting_event(p, q.tap_drag_lock, s.tap_drag_lock, DeviceEvent::TapDragLock(s.tap_drag_lock.unwrap()))
}

pub open spec fn spec_emit_last(s: DeviceSettings, p: bool, q: DeviceSettings) -> Seq<DeviceEvent> {
    setting_event(p, q.three_finger_drag, s.three_finger_drag, DeviceEvent::ThreeFingerDrag(s.three_finger_drag.unwrap()))
        + setting_event(p, q.dwt, s.dwt, DeviceEvent::Dwt(s.dwt.unwrap()))
        + setting_event(p, q.dwtp, s.dwtp, DeviceEvent::Dwtp(s.dwtp.unwrap()))
        + setting_event(p, q.rotation, s.rotation, DeviceEvent::Rotation(s.rotation.unwrap()))
        + float_setting_event(p, opt_matrix_same(q.calibration, s.calibration), s.calibration.is_some(), DeviceEvent::Calibration(s.calibration.unwrap()))
        + float_setting_event(p, opt_area_same(q.area, s.area), s.area.is_some(), DeviceEvent::Area(s.area.unwrap()))
}

/// The settings sent, in the protocol's order: each the device has that differs from what was
/// sent before, or every one the device has when nothing was sent before.
pub open spec fn spec_emit(s: DeviceSettings, prev: Option<DeviceSettings>) -> Seq<DeviceEvent> {
    let p = prev.is_none();
    let q = prev.unwrap();
    spec_emit_first(s, p, q) + spec_emit_middle(s, p, q) + spec_emit_last(s, p, q)
}


fn pair_eq(a: Pair, b: Pair) -> (r: bool)
    ensures
        r == (a == b),
{
    a.default == b.default && a.current == b.current
}

fn triple_eq(a: Triple, b: Triple) -> (r: bool)
    ensures
        r == (a == b),
{
    a.supported == b.supported && a.default == b.default && a.current == b.current
}

fn bits_eq(a: BitsPair, b: BitsPair) -> (r: bool)
    ensures
        r == bits_same(a, b),
{
    f64_bits_eq(a.default, b.default) && f64_bits_eq(a.current, b.current)
}

fn tfd_eq(a: ThreeFingerDrag, b: ThreeFingerDrag) -> (r: bool)
    ensures
        r == (a == b),
{
    a.max_fingers == b.max_fingers && a.default == b.default && a.current == b.current
}

fn matrix_eq(a: Matrix, b: Matrix) -> (r: bool)
    ensures
        r == matrix_same(a, b),
{
    f64_bits_eq(a.m0, b.m0) && f64_bits_eq(a.m1, b.m1) && f64_bits_eq(a.m2, b.m2) && f64_bits_eq(a.m3, b.m3)
        && f64_bits_eq(a.m4, b.m4) && f64_bits_eq(a.m5, b.m5)
}

fn area_eq(a: Area, b: Area) -> (r: bool)
    ensures
        r == area_same(a, b),
{
    f64_bits_eq(a.x1, b.x1) && f64_bits_eq(a.y1, b.y1) && f64_bits_eq(a.x2, b.x2) && f64_bits_eq(a.y2, b.y2)
}

fn opt_pair_ne(a: Option<Pair>, b: Option<Pair>) -> (r: bool)
    ensures
        r == (a != b),
{
    match (a, b) {
        (Some(x), Some(y)) => !pair_eq(x, y),
        (None, None) => false,
        _ => true,
    }
}

fn opt_triple_ne(a: Option<Triple>, b: Option<Triple>) -> (r: bool)
    ensures
        r == (a != b),
{
    match (a, b) {
        (Some(x), Some(y)) => !triple_eq(x, y),
        (None, None) => false,
        _ => true,
    }
}

fn opt_bits_ne(a: Option<BitsPair>, b: Option<BitsPair>) -> (r: bool)
    ensures
        r == !opt_bits_same(a, b),
{
    match (a, b) {
        (Some(x), Some(y)) => !bits_eq(x, y),
        (None, None) => false,
        _ => true,
    }
}

fn opt_u32_ne(a: Option<u32>, b: Option<u32>) -> (r: bool)
    ensures
        r == (a != b),
{
    match (a, b) {
        (Some(x), Some(y)) => x != y,
        (None, None) => false,
        _ => true,
    }
}

fn opt_tfd_ne(a: Option<ThreeFingerDrag>, b: Option<ThreeFingerDrag>) -> (r: bool)
    ensures
        r == (a != b),
{
    match (a, b) {
        (Some(x), Some(y)) => !tfd_eq(x, y),
        (None, None) => false,
        _ => true,
    }
}

fn opt_matrix_ne(a: Option<MatrixPair>, b: Option<MatrixPair>) -> (r: bool)
    ensures
        r == !opt_matrix_same(a, b),
{
    match (a, b) {
        (Some(x), Some(y)) => !(matrix_eq(x.default, y.default) && matrix_eq(x.current, y.current)),
        (None, None) => false,
        _ => true,
    }
}

fn opt_area_ne(a: Option<AreaPair>, b: Option<AreaPair>) -> (r: bool)
    ensures
        r == !opt_area_same(a, b),
{
    match (a, b) {
        (Some(x), Some(y)) => !(area_eq(x.default, y.default) && area_eq(x.current, y.current)),
        (None, None) => false,
        _ => true,
    }
}

fn push_ev(events: &mut Vec<DeviceEvent>, send: bool, e: DeviceEvent)
    ensures
        final(events)@ == old(events)@ + ev(send, e),
{
    if send {
        events.push(e);
    }
    assert(events@ =~= old(events)@ + ev(send, e));
}

fn emit_accel_speed(s: &DeviceSettings, p: bool, q: &DeviceSettings, events: &mut Vec<DeviceEvent>)
    ensures
        final(events)@ == old(events)@ + float_setting_event(p, opt_bits_same(q.accel_speed, s.accel_speed), s.accel_speed.is_some(), DeviceEvent::AccelSpeed(s.accel_speed.unwrap())),
{
    match s.accel_speed {
        Some(x) => push_ev(events, p || opt_bits_ne(q.accel_speed, s.accel_speed), DeviceEvent::AccelSpeed(x)),
        None => {
            assert(events@ =~= old(events)@ + float_setting_event(p, opt_bits_same(q.accel_speed, s.accel_speed), s.accel_speed.is_some(), DeviceEvent::AccelSpeed(s.accel_speed.unwrap())));
        },
    }
}

fn emit_accel_profile(s: &DeviceSettings, p: bool, q: &DeviceSettings, events: &mut Vec<DeviceEvent>)
    ensures
        final(events)@ == old(events)@ + setting_event(p, q.accel_profile, s.accel_profile, DeviceEvent::AccelProfile(s.accel_profile.unwrap())),
{
    match s.accel_profile {
        Some(x) => push_ev(events, p || opt_triple_ne(q.accel_profile, s.accel_profile), DeviceEvent::AccelProfile(x)),
        None => {
            assert(events@ =~= old(events)@ + setting_event(p, q.accel_profile, s.accel_profile, DeviceEvent::AccelProfile(s.accel_profile.unwrap())));
        },
    }
}

fn emit_natural_scroll(s: &DeviceSettings, p: bool, q: &DeviceSettings, events: &mut Vec<DeviceEvent>)
    ensures
        final(events)@ == old(events)@ + setting_event(p, q.natural_scroll, s.natural_scroll, DeviceEvent::NaturalScroll(s.natural_scroll.unwrap())),
{
    match s.natural_scroll {
        Some(x) => push_ev(events, p || opt_pair_ne(q.natural_scroll, s.natural_scroll), DeviceEvent::NaturalScroll(x)),
        None => {
            assert(events@ =~= old(events)@ + setting_event(p, q.natural_scroll, s.natural_scroll, DeviceEvent::NaturalScroll(s.natural_scroll.unwrap())));
        },
    }
}

fn emit_scroll_method(s: &DeviceSettings, p: bool, q: &DeviceSettings, events: &mut Vec<DeviceEvent>)
    ensures
        final(events)@ == old(events)@ + setting_event(p, q.scroll_method, s.scroll_method, DeviceEvent::ScrollMethod(s.scroll_method.unwrap())),
{
    match s.scroll_method {
        Some(x) => push_ev(events, p || opt_triple_ne(q.scroll_method, s.scroll_method), DeviceEvent::ScrollMethod(x)),
        None => {
            assert(events@ =~= old(events)@ + setting_event(p, q.scroll_method, s.scroll_method, DeviceEvent::ScrollMethod(s.scroll_method.unwrap())));
        },
    }
}

fn emit_scroll_button(s: &DeviceSettings, p: bool, q: &DeviceSettings, events: &mut Vec<DeviceEvent>)
    ensures
        final(events)@ == old(events)@ + setting_event(p, q.scroll_button, s.scroll_button, DeviceEvent::ScrollButton(s.scroll_button.unwrap())),
{
    match s.scroll_button {
        Some(x) => push_ev(events, p || opt_pair_ne(q.scroll_button, s.scroll_button), DeviceEvent::ScrollButton(x)),
        None => {
            assert(events@ =~= old(events)@ + setting_event(p, q.scroll_button, s.scroll_button, DeviceEvent::ScrollButton(s.scroll_button.unwrap())));
        },
    }
}

fn emit_scroll_button_lock(s: &DeviceSettings, p: bool, q: &DeviceSettings, events: &mut Vec<DeviceEvent>)
    ensures
        final(events)@ == old(events)@ + setting_event(p, q.scroll_button_lock, s.scroll_button_lock, DeviceEvent::ScrollButtonLock(s.scroll_button_lock.unwrap())),
{
    match s.scroll_button_lock {
        Some(x) => push_ev(events, p || opt_pair_ne(q.scroll_button_lock, s.scroll_button_lock), DeviceEvent::ScrollButtonLock(x)),
        None => {
            assert(events@ =~= old(events)@ + setting_event(p, q.scroll_button_lock, s.scroll_button_lock, DeviceEvent::ScrollButtonLock(s.scroll_button_lock.unwrap())));
        },
    }
}

fn emit_click_method(s: &DeviceSettings, p: bool, q: &DeviceSettings, events: &mut Vec<DeviceEvent>)
    ensures
        final(events)@ == old(events)@ + setting_event(p, q.click_method, s.click_method, DeviceEvent::ClickMethod(s.click_method.unwrap())),
{
    match s.click_method {
        Some(x) => push_ev(events, p || opt_triple_ne(q.click_method, s.click_method), DeviceEvent::ClickMethod(x)),
        None => {
            assert(events@ =~= old(events)@ + setting_event(p, q.click_method, s.click_method, DeviceEvent::ClickMethod(s.click_method.unwrap())));
        },
    }
}

fn emit_clickfinger_button_map(s: &DeviceSettings, p: bool, q: &DeviceSettings, events: &mut Vec<DeviceEvent>)
    ensures
        final(events)@ == old(events)@ + setting_event(p, q.clickfinger_button_map, s.clickfinger_button_map, DeviceEvent::ClickfingerButtonMap(s.clickfinger_button_map.unwrap())),
{
    match s.clickfinger_button_map {
        Some(x) => push_ev(events, p || opt_pair_ne(q.clickfinger_button_map, s.clickfinger_button_map), DeviceEvent::ClickfingerButtonMap(x)),
        None => {
            assert(events@ =~= old(events)@ + setting_event(p, q.clickfinger_button_map, s.clickfinger_button_map, DeviceEvent::ClickfingerButtonMap(s.clickfinger_button_map.unwrap())));
        },
    }
}

fn emit_left_handed(s: &DeviceSettings, p: bool, q: &DeviceSettings, events: &mut Vec<DeviceEvent>)
    ensures
        final(events)@ == old(events)@ + setting_event(p, q.left_handed, s.left_handed, DeviceEvent::LeftHanded(s.left_handed.unwrap())),
{
    match s.left_handed {
        Some(x) => push_ev(events, p || opt_pair_ne(q.left_handed, s.left_handed), DeviceEvent::LeftHanded(x)),
        None => {
            assert(events@ =~= old(events)@ + setting_event(p, q.left_handed, s.left_handed, DeviceEvent::LeftHanded(s.left_handed.unwrap())));
        },
    }
}

fn emit_middle_emulation(s: &DeviceSettings, p: bool, q: &DeviceSettings, events: &mut Vec<DeviceEvent>)
    ensures
        final(events)@ == old(events)@ + setting_event(p, q.middle_emulation, s.middle_emulation, DeviceEvent::MiddleEmulation(s.middle_emulation.unwrap())),
{
    match s.middle_emulation {
        Some(x) => push_ev(events, p || opt_pair_ne(q.middle_emulation, s.middle_emulation), DeviceEvent::MiddleEmulation(x)),
        None => {
            assert(events@ =~= old(events)@ + setting_event(p, q.middle_emulation, s.middle_emulation, DeviceEvent::MiddleEmulation(s.middle_emulation.unwrap())));
        },
    }
}

fn emit_tap(s: &DeviceSettings, p: bool, q: &DeviceSettings, events: &mut Vec<DeviceEvent>)
    ensures
        final(events)@ == old(events)@ + setting_event(p, q.tap, s.tap, DeviceEvent::Tap(s.tap.unwrap())),
{
    match s.tap {
        Some(x) => push_ev(events, p || opt_pair_ne(q.tap, s.tap), DeviceEvent::Tap(x)),
        None => {
            assert(events@ =~= old(events)@ + setting_event(p, q.tap, s.tap, DeviceEvent::Tap(s.tap.unwrap())));
        },
    }
}

fn emit_tap_finger_count(s: &DeviceSettings, p: bool, q: &DeviceSettings, events: &mut Vec<DeviceEvent>)
    ensures
        final(events)@ == old(events)@ + setting_event(p, q.tap_finger_count, s.tap_finger_count, DeviceEvent::TapFingerCount(s.tap_finger_count.unwrap())),
{
    match s.tap_finger_count {
        Some(x) => push_ev(events, p || opt_u32_ne(q.tap_finger_count, s.tap_finger_count), DeviceEvent::TapFingerCount(x)),
        None => {
            assert(events@ =~= old(events)@ + setting_event(p, q.tap_finger_count, s.tap_finger_count, DeviceEvent::TapFingerCount(s.tap_finger_count.unwrap())));
        },
    }
}

fn emit_tap_button_map(s: &DeviceSettings, p: bool, q: &DeviceSettings, events: &mut Vec<DeviceEvent>)
    ensures
        final(events)@ == old(events)@ + setting_event(p, q.tap_button_map, s.tap_button_map, DeviceEvent::TapButtonMap(s.tap_button_map.unwrap())),
{
    match s.tap_button_map {
        Some(x) => push_ev(events, p || opt_pair_ne(q.tap_button_map, s.tap_button_map), DeviceEvent::TapButtonMap(x)),
        None => {
            assert(events@ =~= old(events)@ + setting_event(p, q.tap_button_map, s.tap_button_map, DeviceEvent::TapButtonMap(s.tap_button_map.unwrap())));
        },
    }
}

fn emit_tap_drag(s: &DeviceSettings, p: bool, q: &DeviceSettings, events: &mut Vec<DeviceEvent>)
    ensures
        final(events)@ == old(events)@ + setting_event(p, q.tap_drag, s.tap_drag, DeviceEvent::TapDrag(s.tap_drag.unwrap())),
{
    match s.tap_drag {
        Some(x) => push_ev(events, p || opt_pair_ne(q.tap_drag, s.tap_drag), DeviceEvent::TapDrag(x)),
        None => {
            assert(events@ =~= old(events)@ + setting_event(p, q.tap_drag, s.tap_drag, DeviceEvent::TapDrag(s.tap_drag.unwrap())));
        },
    }
}

fn emit_tap_drag_lock(s: &DeviceSettings, p: bool, q: &DeviceSettings, events: &mut Vec<DeviceEvent>)
    ensures
        final(events)@ == old(events)@ + setting_event(p, q.tap_drag_lock, s.tap_drag_lock, DeviceEvent::TapDragLock(s.tap_drag_lock.unwrap())),
{
    match s.tap_drag_lock {
        Some(x) => push_ev(events, p || opt_pair_ne(q.tap_drag_lock, s.tap_drag_lock), DeviceEvent::TapDragLock(x)),
        None => {
            assert(events@ =~= old(events)@ + setting_event(p, q.tap_drag_lock, s.tap_drag_lock, DeviceEvent::TapDragLock(s.tap_drag_lock.unwrap())));
        },
    }
}

fn emit_three_finger_drag(s: &DeviceSettings, p: bool, q: &DeviceSettings, events: &mut Vec<DeviceEvent>)
    ensures
        final(events)@ == old(events)@ + setting_event(p, q.three_finger_drag, s.three_finger_drag, DeviceEvent::ThreeFingerDrag(s.three_finger_drag.unwrap())),
{
    match s.three_finger_drag {
        Some(x) => push_ev(events, p || opt_tfd_ne(q.three_finger_drag, s.three_finger_drag), DeviceEvent::ThreeFingerDrag(x)),
        None => {
            assert(events@ =~= old(events)@ + setting_event(p, q.three_finger_drag, s.three_finger_drag, DeviceEvent::ThreeFingerDrag(s.three_finger_drag.unwrap())));
        },
    }
}

fn emit_dwt(s: &DeviceSettings, p: bool, q: &DeviceSettings, events: &mut Vec<DeviceEvent>)
    ensures
        final(events)@ == old(events)@ + setting_event(p, q.dwt, s.dwt, DeviceEvent::Dwt(s.dwt.unwrap())),
{
    match s.dwt {
        Some(x) => push_ev(events, p || opt_pair_ne(q.dwt, s.dwt), DeviceEvent::Dwt(x)),
        None => {
            assert(events@ =~= old(events)@ + setting_event(p, q.dwt, s.dwt, DeviceEvent::Dwt(s.dwt.unwrap())));
        },
    }
}

fn emit_dwtp(s: &DeviceSettings, p: bool, q: &DeviceSettings, events: &mut Vec<DeviceEvent>)
    ensures
        final(events)@ == old(events)@ + setting_event(p, q.dwtp, s.dwtp, DeviceEvent::Dwtp(s.dwtp.unwrap())),
{
    match s.dwtp {
        Some(x) => push_ev(events, p || opt_pair_ne(q.dwtp, s.dwtp), DeviceEvent::Dwtp(x)),
        None => {
            assert(events@ =~= old(events)@ + setting_event(p, q.dwtp, s.dwtp, DeviceEvent::Dwtp(s.dwtp.unwrap())));
        },
    }
}

fn emit_rotation(s: &DeviceSettings, p: bool, q: &DeviceSettings, events: &mut Vec<DeviceEvent>)
    ensures
        final(events)@ == old(events)@ + setting_event(p, q.rotation, s.rotation, DeviceEvent::Rotation(s.rotation.unwrap())),
{
    match s.rotation {
        Some(x) => push_ev(events, p || opt_pair_ne(q.rotation, s.rotation), DeviceEvent::Rotation(x)),
        None => {
            assert(events@ =~= old(events)@ + setting_event(p, q.rotation, s.rotation, DeviceEvent::Rotation(s.rotation.unwrap())));
        },
    }
}

fn emit_calibration(s: &DeviceSettings, p: bool, q: &DeviceSettings, events: &mut Vec<DeviceEvent>)
    ensures
        final(events)@ == old(events)@ + float_setting_event(p, opt_matrix_same(q.calibration, s.calibration), s.calibration.is_some(), DeviceEvent::Calibration(s.calibration.unwrap())),
{
    match s.calibration {
        Some(x) => push_ev(events, p || opt_matrix_ne(q.calibration, s.calibration), DeviceEvent::Calibration(x)),
        None => {
            assert(events@ =~= old(events)@ + float_setting_event(p, opt_matrix_same(q.calibration, s.calibration), s.calibration.is_some(), DeviceEvent::Calibration(s.calibration.unwrap())));
        },
    }
}

fn emit_area(s: &DeviceSettings, p: bool, q: &DeviceSettings, events: &mut Vec<DeviceEvent>)
    ensures
        final(events)@ == old(events)@ + float_setting_event(p, opt_area_same(q.area, s.area), s.area.is_some(), DeviceEvent::Area(s.area.unwrap())),
{
    match s.area {
        Some(x) => push_ev(events, p || opt_area_ne(q.area, s.area), DeviceEvent::Area(x)),
        None => {
            assert(events@ =~= old(events)@ + float_setting_event(p, opt_area_same(q.area, s.area), s.area.is_some(), DeviceEvent::Area(s.area.unwrap())));
        },
    }
}

fn emit_send_events(s: &DeviceSettings, p: bool, q: &DeviceSettings, events: &mut Vec<DeviceEvent>)
    ensures
        final(events)@ == old(events)@ + ev(p || q.send_events != s.send_events, DeviceEvent::SendEvents(s.send_events)),
{
    push_ev(events, p || !triple_eq(q.send_events, s.send_events), DeviceEvent::SendEvents(s.send_events));
}

impl DeviceSettings {
    fn emit_first(&self, p: bool, q: &DeviceSettings, events: &mut Vec<DeviceEvent>)
        ensures
            final(events)@ == old(events)@ + spec_emit_first(*self, p, *q),
    {
        let ghost e0 = events@;
        let ghost t0 = ev(p || q.send_events != self.send_events, DeviceEvent::SendEvents(self.send_events));
        emit_send_events(self, p, q, events);
        let ghost x0 = t0;
        assert(events@ == e0 + x0);
        let ghost t1 = float_setting_event(p, opt_bits_same(q.accel_speed, self.accel_speed), self.accel_speed.is_some(), DeviceEvent::AccelSpeed(self.accel_speed.unwrap()));
        emit_accel_speed(self, p, q, events);
        proof { vstd::seq_lib::lemma_concat_associative(e0, x0, t1); }
        let ghost x1 = x0 + t1;
        assert(events@ == e0 + x1);
        let ghost t2 = setting_event(p, q.accel_profile, self.accel_profile, DeviceEvent::AccelProfile(self.accel_profile.unwrap()));
        emit_accel_profile(self, p, q, events);
        proof { vstd::seq_lib::lemma_concat_associative(e0, x1, t2); }
        let ghost x2 = x1 + t2;
        assert(events@ == e0 + x2);
        let ghost t3 = setting_event(p, q.natural_scroll, self.natural_scroll, DeviceEvent::NaturalScroll(self.natural_scroll.unwrap()));
        emit_natural_scroll(self, p, q, events);
        proof { vstd::seq_lib::lemma_concat_associative(e0, x2, t3); }
        let ghost x3 = x2 + t3;
        assert(events@ == e0 + x3);
        let ghost t4 = setting_event(p, q.scroll_method, self.scroll_method, DeviceEvent::ScrollMethod(self.scroll_method.unwrap()));
        emit_scroll_method(self, p, q, events);
        proof { vstd::seq_lib::lemma_concat_associative(e0, x3, t4); }
        let ghost x4 = x3 + t4;
        assert(events@ == e0 + x4);
        let ghost t5 = setting_event(p, q.scroll_button, self.scroll_button, DeviceEvent::ScrollButton(self.scroll_button.unwrap()));
        emit_scroll_button(self, p, q, events);
        proof { vstd::seq_lib::lemma_concat_associative(e0, x4, t5); }
        let ghost x5 = x4 + t5;
        assert(events@ == e0 + x5);
        let ghost t6 = setting_event(p, q.scroll_button_lock, self.scroll_button_lock, DeviceEvent::ScrollButtonLock(self.scroll_button_lock.unwrap()));
        emit_scroll_button_lock(self, p, q, events);
        proof { vstd::seq_lib::lemma_concat_associative(e0, x5, t6); }
        let ghost x6 = x5 + t6;
        assert(events@ == e0 + x6);
        assert(x6 == spec_emit_first(*self, p, *q));
    }

    fn emit_middle(&self, p: bool, q: &DeviceSettings, events: &mut Vec<DeviceEvent>)
        ensures
            final(events)@ == old(events)@ + spec_emit_middle(*self, p, *q),
    {
        let ghost e0 = events@;
        let ghost t0 = setting_event(p, q.click_method, self.click_method, DeviceEvent::ClickMethod(self.click_method.unwrap()));
        emit_click_method(self, p, q, events);
        let ghost x0 = t0;
        assert(events@ == e0 + x0);
        let ghost t1 = setting_event(p, q.clickfinger_button_map, self.clickfinger_button_map, DeviceEvent::ClickfingerButtonMap(self.clickfinger_button_map.unwrap()));
        emit_clickfinger_button_map(self, p, q, events);
        proof { vstd::seq_lib::lemma_concat_associative(e0, x0, t1); }
        let ghost x1 = x0 + t1;
        assert(events@ == e0 + x1);
        let ghost t2 = setting_event(p, q.left_handed, self.left_handed, DeviceEvent::LeftHanded(self.left_handed.unwrap()));
        emit_left_handed(self, p, q, events);
        proof { vstd::seq_lib::lemma_concat_associative(e0, x1, t2); }
        let ghost x2 = x1 + t2;
        assert(events@ == e0 + x2);
        let ghost t3 = setting_event(p, q.middle_emulation, self.middle_emulation, DeviceEvent::MiddleEmulation(self.middle_emulation.unwrap()));
        emit_middle_emulation(self, p, q, events);
        proof { vstd::seq_lib::lemma_concat_associative(e0, x2, t3); }
        let ghost x3 = x2 + t3;
        assert(events@ == e0 + x3);
        let ghost t4 = setting_event(p, q.tap, self.tap, DeviceEvent::Tap(self.tap.unwrap()));
        emit_tap(self, p, q, events);
        proof { vstd::seq_lib::lemma_concat_associative(e0, x3, t4); }
        let ghost x4 = x3 + t4;
        assert(events@ == e0 + x4);
        let ghost t5 = setting_event(p, q.tap_finger_count, self.tap_finger_count, DeviceEvent::TapFingerCount(self.tap_finger_count.unwrap()));
        emit_tap_finger_count(self, p, q, events);
        proof { vstd::seq_lib::lemma_concat_associative(e0, x4, t5); }
        let ghost x5 = x4 + t5;
        assert(events@ == e0 + x5);
        let ghost t6 = setting_event(p, q.tap_button_map, self.tap_button_map, DeviceEvent::TapButtonMap(self.tap_button_map.unwrap()));
        emit_tap_button_map(self, p, q, events);
        proof { vstd::seq_lib::lemma_concat_associative(e0, x5, t6); }
        let ghost x6 = x5 + t6;
        assert(events@ == e0 + x6);
        let ghost t7 = setting_event(p, q.tap_drag, self.tap_drag, DeviceEvent::TapDrag(self.tap_drag.unwrap()));
        emit_tap_drag(self, p, q, events);
        proof { vstd::seq_lib::lemma_concat_associative(e0, x6, t7); }
        let ghost x7 = x6 + t7;
        assert(events@ == e0 + x7);
        let ghost t8 = setting_event(p, q.tap_drag_lock, self.tap_drag_lock, DeviceEvent::TapDragLock(self.tap_drag_lock.unwrap()));
        emit_tap_drag_lock(self, p, q, events);
        proof { vstd::seq_lib::lemma_concat_associative(e0, x7, t8); }
        let ghost x8 = x7 + t8;
        assert(events@ == e0 + x8);
        assert(x8 == spec_emit_middle(*self, p, *q));
    }

    fn emit_last(&self, p: bool, q: &DeviceSettings, events: &mut Vec<DeviceEvent>)
        ensures
            final(events)@ == old(events)@ + spec_emit_last(*self, p, *q),
    {
        let ghost e0 = events@;
        let ghost t0 = setting_event(p, q.three_finger_drag, self.three_finger_drag, DeviceEvent::ThreeFingerDrag(self.three_finger_drag.unwrap()));
        emit_three_finger_drag(self, p, q, events);
        let ghost x0 = t0;
        assert(events@ == e0 + x0);
        let ghost t1 = setting_event(p, q.dwt, self.dwt, DeviceEvent::Dwt(self.dwt.unwrap()));
        emit_dwt(self, p, q, events);
        proof { vstd::seq_lib::lemma_concat_associative(e0, x0, t1); }
        let ghost x1 = x0 + t1;
        assert(events@ == e0 + x1);
        let ghost t2 = setting_event(p, q.dwtp, self.dwtp, DeviceEvent::Dwtp(self.dwtp.unwrap()));
        emit_dwtp(self, p, q, events);
        proof { vstd::seq_lib::lemma_concat_associative(e0, x1, t2); }
        let ghost x2 = x1 + t2;
        assert(events@ == e0 + x2);
        let ghost t3 = setting_event(p, q.rotation, self.rotation, DeviceEvent::Rotation(self.rotation.unwrap()));
        emit_rotation(self, p, q, events);
        proof { vstd::seq_lib::lemma_concat_associative(e0, x2, t3); }
        let ghost x3 = x2 + t3;
        assert(events@ == e0 + x3);
        let ghost t4 = float_setting_event(p, opt_matrix_same(q.calibration, self.calibration), self.calibration.is_some(), DeviceEvent::Calibration(self.calibration.unwrap()));
        emit_calibration(self, p, q, events);
        proof { vstd::seq_lib::lemma_concat_associative(e0, x3, t4); }
        let ghost x4 = x3 + t4;
        assert(events@ == e0 + x4);
        let ghost t5 = float_setting_event(p, opt_area_same(q.area, self.area), self.area.is_some(), DeviceEvent::Area(self.area.unwrap()));
        emit_area(self, p, q, events);
        proof { vstd::seq_lib::lemma_concat_associative(e0, x4, t5); }
        let ghost x5 = x4 + t5;
        assert(events@ == e0 + x5);
        assert(x5 == spec_emit_last(*self, p, *q));
    }

    /// The settings to send to a device object: all the device has when nothing was sent
    /// before (`prev` is `None`), else those that changed.
    pub fn emit(&self, prev: Option<DeviceSettings>) -> (r: Vec<DeviceEvent>)
        ensures
            r@ == spec_emit(*self, prev),
    {
        let p = prev.is_none();
        let q = match prev {
            Some(q) => q,
            None => *self,
        };
        proof {
            if !p {
                assert(q == prev.unwrap());
            }
        }
        let mut events: Vec<DeviceEvent> = Vec::new();
        self.emit_first(p, &q, &mut events);
        self.emit_middle(p, &q, &mut events);
        self.emit_last(p, &q, &mut events);
        proof {
            let qs = prev.unwrap();
            if p {
                assert(spec_emit_first(*self, p, q) == spec_emit_first(*self, p, qs));
                assert(spec_emit_middle(*self, p, q) == spec_emit_middle(*self, p, qs));
                assert(spec_emit_last(*self, p, q) == spec_emit_last(*self, p, qs));
            }
        }
        assert(events@ =~= spec_emit(*self, prev));
        events
    }
}

/// No floating-point setting of `s` is a NaN.
pub open spec fn no_nan(s: DeviceSettings) -> bool {
    &&& (s.accel_speed matches Some(a) ==> bits_same(a, a))
    &&& (s.calibration matches Some(c) ==> matrix_same(c.default, c.default) && matrix_same(c.current, c.current))
    &&& (s.area matches Some(a) ==> area_same(a.default, a.default) && area_same(a.current, a.current))
}

/// Settings that did not change send nothing; a NaN setting never equals itself, so it is
/// sent again.
pub proof fn lemma_unchanged_settings_send_nothing(s: DeviceSettings)
    requires
        no_nan(s),
    ensures
        spec_emit(s, Some(s)) == Seq::<DeviceEvent>::empty(),
{
    assert(spec_emit_first(s, false, s) =~= Seq::<DeviceEvent>::empty());
    assert(spec_emit_middle(s, false, s) =~= Seq::<DeviceEvent>::empty());
    assert(spec_emit_last(s, false, s) =~= Seq::<DeviceEvent>::empty());
    assert(spec_emit(s, Some(s)) =~= Seq::<DeviceEvent>::empty());
}

/// A new device object is told the send-events modes first, always.
pub proof fn lemma_first_emit_starts_with_send_events(s: DeviceSettings)
    ensures
        spec_emit(s, None).len() >= 1,
        spec_emit(s, None)[0] == DeviceEvent::SendEvents(s.send_events),
{
    let a = spec_emit_first(s, true, None::<DeviceSettings>.unwrap());
    assert(a[0] == DeviceEvent::SendEvents(s.send_events));
    assert(spec_emit(s, None)[0] == a[0]);
}

/// An input device clients are told of: its identity, its capabilities, its last settings,
/// and the device objects it was sent as.
pub struct InputDevice {
    pub device: u64,
    pub capabilities: u32,
    pub settings: DeviceSettings,
    pub instances: Vec<u32>,
}

pub struct InputDeviceView {
    pub device: u64,
    pub capabilities: u32,
    pub settings: DeviceSettings,
    pub instances: Seq<u32>,
}

impl View for InputDevice {
    type V = InputDeviceView;

    open spec fn view(&self) -> InputDeviceView {
        InputDeviceView {
            device: self.device,
            capabilities: self.capabilities,
            settings: self.settings,
            instances: self.instances@,
        }
    }
}

/// The input devices, in the order they were added.
pub struct InputDeviceList {
    pub devices: Vec<InputDevice>,
}

impl View for InputDeviceList {
    type V = Seq<InputDeviceView>;

    open spec fn view(&self) -> Seq<InputDeviceView> {
        self.devices@.map_values(|d: InputDevice| d@)
    }
}

/// `i` is the first entry for `device`.
pub open spec fn first_device(ds: Seq<InputDeviceView>, device: u64, i: int) -> bool {
    &&& 0 <= i < ds.len()
    &&& ds[i].device == device
    &&& forall|j: int| 0 <= j < i ==> (#[trigger] ds[j]).device != device
}

pub open spec fn has_device(ds: Seq<InputDeviceView>, device: u64) -> bool {
    exists|i: int| 0 <= i < ds.len() && (#[trigger] ds[i]).device == device
}

pub open spec fn without_object(instances: Seq<u32>, object: u32) -> Seq<u32> {
    instances.filter(|o: u32| o != object)
}

impl InputDeviceList {
    pub fn new() -> (r: InputDeviceList)
        ensures
            r@.len() == 0,
    {
        let r = InputDeviceList { devices: Vec::new() };
        assert(r@ =~= Seq::empty());
        r
    }

    fn find(&self, device: u64) -> (r: Option<usize>)
        ensures
            match r {
                Some(i) => first_device(self@, device, i as int),
                None => !has_device(self@, device),
            },
    {
        let mut i: usize = 0;
        while i < self.devices.len()
            invariant
                0 <= i <= self.devices@.len(),
                forall|j: int| 0 <= j < i ==> (#[trigger] self@[j]).device != device,
            decreases self.devices@.len() - i,
        {
            assert(self@[i as int] == self.devices@[i as int]@);
            if self.devices[i].device == device {
                return Some(i);
            }
            i = i + 1;
        }
        None
    }

    /// A device was added; it is sent to no client yet.  Its position is returned.
    pub fn input_device_added(&mut self, device: u64, capabilities: u32, settings: DeviceSettings) -> (r: usize)
        ensures
            r == old(self)@.len(),
            final(self)@ == old(self)@.push(InputDeviceView { device, capabilities, settings, instances: Seq::empty() }),
    {
        let ghost before = self@;
        let d = InputDevice { device, capabilities, settings, instances: Vec::new() };
        let n = self.devices.len();
        self.devices.push(d);
        assert(d@.instances =~= Seq::<u32>::empty());
        assert(self@ =~= before.push(d@));
        n
    }

    /// The device at `index` was sent to a client as `object`; what the object is told of its
    /// settings is returned: everything, as nothing was sent on it before.
    pub fn device_sent(&mut self, index: usize, object: u32) -> (r: Vec<DeviceEvent>)
        requires
            index < old(self)@.len(),
        ensures
            final(self)@ == old(self)@.update(
                index as int,
                InputDeviceView { instances: old(self)@[index as int].instances.push(object), ..old(self)@[index as int] },
            ),
            r@ == spec_emit(old(self)@[index as int].settings, None),
    {
        let ghost before = self@;
        let mut d = self.devices.remove(index);
        d.instances.push(object);
        let events = d.settings.emit(None);
        self.devices.insert(index, d);
        assert(self@ =~= before.update(
            index as int,
            InputDeviceView { instances: before[index as int].instances.push(object), ..before[index as int] },
        ));
        events
    }

    /// A device's settings changed: the first entry for it takes the new settings; its
    /// objects and what each of them is told (the settings that changed) are returned.
    pub fn input_device_changed(&mut self, device: u64, settings: DeviceSettings) -> (r: Option<(Vec<u32>, Vec<DeviceEvent>)>)
        ensures
            !has_device(old(self)@, device) ==> r is None && final(self)@ == old(self)@,
            has_device(old(self)@, device) ==> exists|i: int| #[trigger] first_device(old(self)@, device, i)
                && final(self)@ == old(self)@.update(i, InputDeviceView { settings, ..old(self)@[i] })
                && (r matches Some((objects, events)) && objects@ == old(self)@[i].instances && events@
                == spec_emit(settings, Some(old(self)@[i].settings))),
    {
        match self.find(device) {
            None => None,
            Some(i) => {
                let ghost before = self@;
                let mut d = self.devices.remove(i);
                let events = settings.emit(Some(d.settings));
                d.settings = settings;
                let objects = d.instances.clone();
                self.devices.insert(i, d);
                assert(self@ =~= before.update(i as int, InputDeviceView { settings, ..before[i as int] }));
                Some((objects, events))
            },
        }
    }

    /// A device was removed: its first entry leaves the list; the objects to tell are
    /// returned.
    pub fn input_device_removed(&mut self, device: u64) -> (r: Option<Vec<u32>>)
        ensures
            !has_device(old(self)@, device) ==> r is None && final(self)@ == old(self)@,
            has_device(old(self)@, device) ==> exists|i: int| #[trigger] first_device(old(self)@, device, i)
                && final(self)@ == old(self)@.remove(i) && (r matches Some(objects) && objects@ == old(
                self,
            )@[i].instances),
    {
        match self.find(device) {
            None => None,
            Some(i) => {
                let ghost before = self@;
                let d = self.devices.remove(i);
                assert(self@ =~= before.remove(i as int));
                Some(d.instances)
            },
        }
    }

    /// A client released a device object: no device is sent anything on it any more.
    pub fn device_object_released(&mut self, object: u32)
        ensures
            final(self)@.len() == old(self)@.len(),
            forall|i: int| 0 <= i < final(self)@.len() ==> (#[trigger] final(self)@[i]) == (InputDeviceView {
                instances: without_object(old(self)@[i].instances, object),
                ..old(self)@[i]
            }),
            forall|i: int| 0 <= i < final(self)@.len() ==> !(#[trigger] final(self)@[i]).instances.contains(object),
    {
        let ghost before = self@;
        let n = self.devices.len();
        let mut i: usize = 0;
        while i < n
            invariant
                0 <= i <= n,
                n == self@.len(),
                n == before.len(),
                forall|j: int| 0 <= j < i ==> (#[trigger] self@[j]) == (InputDeviceView {
                    instances: without_object(before[j].instances, object),
                    ..before[j]
                }),
                forall|j: int| i <= j < n ==> #[trigger] self@[j] == before[j],
            decreases n - i,
        {
            let ghost pre = self@;
            let mut d = self.devices.remove(i);
            assert(d@ == pre[i as int]);
            let ghost insts = d.instances@;
            let mut kept: Vec<u32> = Vec::new();
            let mut k: usize = 0;
            while k < d.instances.len()
                invariant
                    0 <= k <= d.instances@.len(),
                    d.instances@ == insts,
                    kept@ == without_object(insts.subrange(0, k as int), object),
                decreases d.instances@.len() - k,
            {
                proof {
                    let s = insts.subrange(0, k as int + 1);
                    assert(s.drop_last() =~= insts.subrange(0, k as int));
                    reveal_with_fuel(Seq::filter, 1);
                }
                if d.instances[k] != object {
                    kept.push(d.instances[k]);
                }
                k = k + 1;
            }
            proof {
                assert(insts.subrange(0, insts.len() as int) =~= insts);
            }
            d.instances = kept;
            let ghost dv = d@;
            self.devices.insert(i, d);
            proof {
                assert(self@ =~= pre.update(i as int, dv));
                assert forall|j: int| 0 <= j < i + 1 implies (#[trigger] self@[j]) == (InputDeviceView {
                    instances: without_object(before[j].instances, object),
                    ..before[j]
                }) by {
                    if j < i {
                        assert(self@[j] == pre[j]);
                    }
                }
                assert forall|j: int| i + 1 <= j < n implies #[trigger] self@[j] == before[j] by {
                    assert(self@[j] == pre[j]);
                }
            }
            i = i + 1;
        }
        proof {
            assert forall|j: int| 0 <= j < n implies !(#[trigger] self@[j]).instances.contains(object) by {
                let insts = before[j].instances;
                let f = without_object(insts, object);
                if f.contains(object) {
                    let k = choose|k: int| 0 <= k < f.len() && f[k] == object;
                    insts.lemma_filter_pred(|o: u32| o != object, k);
                }
            }
        }
    }
}

} // verus!
