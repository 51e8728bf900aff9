//! Output configuration requests of the wlr output-management protocol: the properties a
//! client asks for a head, checked one request at a time, and the configuration that gathers
//! them until it is tested or applied.

use vstd::prelude::*;
use crate::geometry::Point;
use crate::util::{f64_bits_eq, f64_eq};

verus! {

/// A video mode an output offers: its size in pixels and refresh rate in mHz.
#[derive(Clone, Copy, Debug, PartialEq, Eq, Structural)]
pub struct OutputMode {
    pub width: i32,
    pub height: i32,
    pub refresh: i32,
}

/// The rotation and flip of an output, in the protocol's order.
#[derive(Clone, Copy, Debug, PartialEq, Eq, Structural)]
pub enum Transform {
    Normal,
    Rotate90,
    Rotate180,
    Rotate270,
    Flipped,
    Flipped90,
    Flipped180,
    Flipped270,
}

pub open spec fn spec_transform_from_protocol(v: u32) -> Option<Transform> {
    if v == 0 {
        Some(Transform::Normal)
    } else if v == 1 {
        Some(Transform::Rotate90)
    } else if v == 2 {
        Some(Transform::Rotate180)
    } else if v == 3 {
        Some(Transform::Rotate270)
    } else if v == 4 {
        Some(Transform::Flipped)
    } else if v == 5 {
        Some(Transform::Flipped90)
    } else if v == 6 {
        Some(Transform::Flipped180)
    } else if v == 7 {
        Some(Transform::Flipped270)
    } else {
        None
    }
}

impl Transform {
    /// The transform a protocol value names, if it names one.
    pub fn from_protocol(v: u32) -> (r: Option<Transform>)
        ensures
            r == spec_transform_from_protocol(v),
    {
        if v == 0 {
            Some(Transform::Normal)
        } else if v == 1 {
            Some(Transform::Rotate90)
        } else if v == 2 {
            Some(Transform::Rotate180)
        } else if v == 3 {
            Some(Transform::Rotate270)
        } else if v == 4 {
            Some(Transform::Flipped)
        } else if v == 5 {
            Some(Transform::Flipped90)
        } else if v == 6 {
            Some(Transform::Flipped180)
        } else if v == 7 {
            Some(Transform::Flipped270)
        } else {
            None
        }
    }
}

/// Whether an output runs with adaptive sync.
#[derive(Clone, Copy, Debug, PartialEq, Eq, Structural)]
pub enum AdaptiveSyncState {
    Disabled,
    Enabled,
}

pub open spec fn spec_adaptive_sync_from_protocol(v: u32) -> Option<AdaptiveSyncState> {
    if v == 0 {
        Some(AdaptiveSyncState::Disabled)
    } else if v == 1 {
        Some(AdaptiveSyncState::Enabled)
    } else {
        None
    }
}

impl AdaptiveSyncState {
    pub fn from_protocol(v: u32) -> (r: Option<AdaptiveSyncState>)
        ensures
            r == spec_adaptive_sync_from_protocol(v),
    {
        if v == 0 {
            Some(AdaptiveSyncState::Disabled)
        } else if v == 1 {
            Some(AdaptiveSyncState::Enabled)
        } else {
            None
        }
    }
}

/// The mode a configuration asks for: one the output offers, or one of the client's own.
#[derive(Clone, Copy, Debug, PartialEq, Eq, Structural)]
pub enum ConfiguredMode {
    Advertised(OutputMode),
    Custom { width: i32, height: i32, refresh: i32 },
}

/// What a configuration asks of one enabled output.  The scale is kept as the bit pattern of
/// the floating-point value the client sent.
#[derive(Clone, Copy, Debug, PartialEq, Eq, Structural)]
pub struct ConfigHead {
    pub output: u64,
    pub mode: Option<ConfiguredMode>,
    pub position: Option<Point>,
    pub transform: Option<Transform>,
    pub scale_bits: Option<u64>,
    pub adaptive_sync: Option<AdaptiveSyncState>,
}

/// A request on a configuration head.
#[derive(Clone, Copy, Debug, PartialEq, Eq, Structural)]
pub enum HeadRequest {
    /// The mode the request names, when it is one of the head's own modes.
    SetMode(Option<OutputMode>),
    SetCustomMode { width: i32, height: i32, refresh: i32 },
    SetPosition { x: i32, y: i32 },
    /// A scale, as the bit pattern of the double the client sent.
    SetScale { bits: u64 },
    SetTransform(u32),
    SetAdaptiveSync(u32),
}

/// Why a request on a configuration head was refused.
#[derive(Clone, Copy, Debug, PartialEq, Eq, Structural)]
pub enum HeadRequestError {
    AlreadySet,
    InvalidMode,
    InvalidCustomMode,
    InvalidScale,
    InvalidTransform(u32),
    InvalidAdaptiveSyncState(u32),
}

/// A custom mode is refused unless both sides are positive and the refresh rate exceeds 1 Hz.
pub open spec fn custom_mode_valid(width: i32, height: i32, refresh: i32) -> bool {
    width > 0 && height > 0 && refresh > 1000
}

/// Bit pattern of the double 10.0.
pub const SCALE_MAX_BITS: u64 = 0x4024_0000_0000_0000;

/// A scale is accepted when it is greater than 0 and at most 10.  On doubles without the sign
/// bit, the order of values is the order of bit patterns; NaN, infinities and negative values
/// all have patterns above that of 10.0, and +0.0 is the pattern 0.
pub open spec fn scale_in_range(bits: u64) -> bool {
    0 < bits <= SCALE_MAX_BITS
}

/// The head after a request, and the request's outcome.  Each property may be set once.
pub open spec fn spec_head_request(h: ConfigHead, req: HeadRequest) -> (ConfigHead, Result<(), HeadRequestError>) {
    match req {
        HeadRequest::SetMode(m) => if h.mode.is_some() {
            (h, Err(HeadRequestError::AlreadySet))
        } else {
            match m {
                Some(mode) => (ConfigHead { mode: Some(ConfiguredMode::Advertised(mode)), ..h }, Ok(())),
                None => (h, Err(HeadRequestError::InvalidMode)),
            }
        },
        HeadRequest::SetCustomMode { width, height, refresh } => if h.mode.is_some() {
            (h, Err(HeadRequestError::AlreadySet))
        } else if !custom_mode_valid(width, height, refresh) {
            (h, Err(HeadRequestError::InvalidCustomMode))
        } else {
            (ConfigHead { mode: Some(ConfiguredMode::Custom { width, height, refresh }), ..h }, Ok(()))
        },
        HeadRequest::SetPosition { x, y } => if h.position.is_some() {
            (h, Err(HeadRequestError::AlreadySet))
        } else if x < 0 && y < 0 {
            (h, Ok(()))
        } else {
            (ConfigHead { position: Some(Point { x, y }), ..h }, Ok(()))
        },
        HeadRequest::SetScale { bits } => if h.scale_bits.is_some() {
            (h, Err(HeadRequestError::AlreadySet))
        } else if !scale_in_range(bits) {
            (h, Err(HeadRequestError::InvalidScale))
        } else {
            (ConfigHead { scale_bits: Some(bits), ..h }, Ok(()))
        },
        HeadRequest::SetTransform(v) => if h.transform.is_some() {
            (h, Err(HeadRequestError::AlreadySet))
        } else {
            match spec_transform_from_protocol(v) {
                Some(t) => (ConfigHead { transform: Some(t), ..h }, Ok(())),
                None => (h, Err(HeadRequestError::InvalidTransform(v))),
            }
        },
        HeadRequest::SetAdaptiveSync(v) => if h.adaptive_sync.is_some() {
            (h, Err(HeadRequestError::AlreadySet))
        } else {
            match spec_adaptive_sync_from_protocol(v) {
                Some(s) => (ConfigHead { adaptive_sync: Some(s), ..h }, Ok(())),
                None => (h, Err(HeadRequestError::InvalidAdaptiveSyncState(v))),
            }
        },
    }
}

impl ConfigHead {
    /// A head of a configuration that enables `output`, with nothing asked yet.
    pub fn new(output: u64) -> (r: ConfigHead)
        ensures
            r == (ConfigHead {
                output,
                mode: None,
                position: None,
                transform: None,
                scale_bits: None,
                adaptive_sync: None,
            }),
    {
        ConfigHead { output, mode: None, position: None, transform: None, scale_bits: None, adaptive_sync: None }
    }

    /// Handles one request on the head.
    pub fn handle_request(&mut self, req: HeadRequest) -> (r: Result<(), HeadRequestError>)
        ensures
            (*final(self), r) == spec_head_request(*old(self), req),
    {
        match req {
            HeadRequest::SetMode(m) => {
                if self.mode.is_some() {
                    Err(HeadRequestError::AlreadySet)
                } else {
                    match m {
                        Some(mode) => {
                            self.mode = Some(ConfiguredMode::Advertised(mode));
                            Ok(())
                        },
                        None => Err(HeadRequestError::InvalidMode),
                    }
                }
            },
            HeadRequest::SetCustomMode { width, height, refresh } => {
                if self.mode.is_some() {
                    Err(HeadRequestError::AlreadySet)
                } else if width <= 0 || height <= 0 || refresh <= 1000 {
                    Err(HeadRequestError::InvalidCustomMode)
                } else {
                    self.mode = Some(ConfiguredMode::Custom { width, height, refresh });
                    Ok(())
                }
            },
            HeadRequest::SetPosition { x, y } => {
                if self.position.is_some() {
                    Err(HeadRequestError::AlreadySet)
                } else if x < 0 && y < 0 {
                    Ok(())
                } else {
                    self.position = Some(Point { x, y });
                    Ok(())
                }
            },
            HeadRequest::SetScale { bits } => {
                if self.scale_bits.is_some() {
                    Err(HeadRequestError::AlreadySet)
                } else if !(0 < bits && bits <= SCALE_MAX_BITS) {
                    Err(HeadRequestError::InvalidScale)
                } else {
                    self.scale_bits = Some(bits);
                    Ok(())
                }
            },
            HeadRequest::SetTransform(v) => {
                if self.transform.is_some() {
                    Err(HeadRequestError::AlreadySet)
                } else {
                    match Transform::from_protocol(v) {
                        Some(t) => {
                            self.transform = Some(t);
                            Ok(())
                        },
                        None => Err(HeadRequestError::InvalidTransform(v)),
                    }
                }
            },
            HeadRequest::SetAdaptiveSync(v) => {
                if self.adaptive_sync.is_some() {
                    Err(HeadRequestError::AlreadySet)
                } else {
                    match AdaptiveSyncState::from_protocol(v) {
                        Some(s) => {
                            self.adaptive_sync = Some(s);
                            Ok(())
                        },
                        None => Err(HeadRequestError::InvalidAdaptiveSyncState(v)),
                    }
                }
            },
        }
    }
}

/// A mode, once set on a head, stays set: a second mode request is refused and changes nothing.
pub proof fn lemma_mode_set_once(h: ConfigHead, first: HeadRequest, second: HeadRequest)
    requires
        first is SetMode || first is SetCustomMode,
        second is SetMode || second is SetCustomMode,
        spec_head_request(h, first).1 is Ok,
    ensures
        spec_head_request(spec_head_request(h, first).0, second) == (
            spec_head_request(h, first).0,
            Err::<(), HeadRequestError>(HeadRequestError::AlreadySet),
        ),
{
}

/// A refused request leaves the head as it was.
/// Whether two requests set the same property of a head (a mode, advertised or custom, counts
/// as one property).
pub open spec fn same_property(a: HeadRequest, b: HeadRequest) -> bool {
    ||| (a is SetMode || a is SetCustomMode) && (b is SetMode || b is SetCustomMode)
    ||| a is SetPosition && b is SetPosition
    ||| a is SetScale && b is SetScale
    ||| a is SetTransform && b is SetTransform
    ||| a is SetAdaptiveSync && b is SetAdaptiveSync
}

/// Every property of a head is set at most once: once a request set it, another request for
/// the same property is refused as already set.  Setting one property never blocks another.
pub proof fn lemma_property_set_once(h: ConfigHead, first: HeadRequest, second: HeadRequest)
    requires
        spec_head_request(h, first).1 is Ok,
        spec_head_request(h, first).0 != h,
    ensures
        same_property(first, second) ==> spec_head_request(spec_head_request(h, first).0, second) == (
            spec_head_request(h, first).0,
            Err::<(), HeadRequestError>(HeadRequestError::AlreadySet),
        ),
        !same_property(first, second) ==> spec_head_request(spec_head_request(h, first).0, second).1
            == spec_head_request(h, second).1,
{
}

pub proof fn lemma_refused_request_changes_nothing(h: ConfigHead, req: HeadRequest)
    requires
        spec_head_request(h, req).1 is Err,
    ensures
        spec_head_request(h, req).0 == h,
{
}

/// One entry of a configuration: an output to enable, with what is asked of it, or to disable.
#[derive(Clone, Copy, Debug, PartialEq, Eq, Structural)]
pub enum OutputConfigurationUpdate {
    Enable(ConfigHead),
    Disable(u64),
}

pub open spec fn update_output(u: OutputConfigurationUpdate) -> u64 {
    match u {
        OutputConfigurationUpdate::Enable(h) => h.output,
        OutputConfigurationUpdate::Disable(o) => o,
    }
}

/// A configuration a client builds, then tests or applies once.
pub struct OutputConfiguration {
    pub updates: Vec<OutputConfigurationUpdate>,
    pub used: bool,
}

/// Why a request on a configuration was refused.
#[derive(Clone, Copy, Debug, PartialEq, Eq, Structural)]
pub enum ConfigurationError {
    /// The configuration has already been tested or applied.
    AlreadyUsed,
    /// The output already has an entry in the configuration.
    AlreadyConfiguredHead,
}

/// Why a request on a configuration head was refused.
#[derive(Clone, Copy, Debug, PartialEq, Eq, Structural)]
pub enum HeadRequestFailure {
    Configuration(ConfigurationError),
    Head(HeadRequestError),
}

pub open spec fn configures(s: Seq<OutputConfigurationUpdate>, output: u64) -> bool {
    exists|i: int| 0 <= i < s.len() && update_output(#[trigger] s[i]) == output
}

/// No output has two entries.
pub open spec fn distinct_outputs(s: Seq<OutputConfigurationUpdate>) -> bool {
    forall|i: int, j: int|
        0 <= i < j < s.len() ==> update_output(#[trigger] s[i]) != update_output(#[trigger] s[j])
}

/// A configuration is made for the current configuration serial only; for a stale one the
/// client is told it was cancelled (`None`).
pub fn create_configuration(serial: u32, current_serial: u32) -> (r: Option<OutputConfiguration>)
    ensures
        r.is_some() == (serial == current_serial),
        r.is_some() ==> r.unwrap().updates@.len() == 0 && !r.unwrap().used,
{
    if serial != current_serial {
        None
    } else {
        Some(OutputConfiguration { updates: Vec::new(), used: false })
    }
}

impl OutputConfiguration {
    pub open spec fn wf(&self) -> bool {
        distinct_outputs(self.updates@)
    }

    /// The entry for `output`, if the configuration has one.
    pub fn update_for_output(&self, output: u64) -> (r: Option<usize>)
        ensures
            r.is_some() == configures(self.updates@, output),
            r.is_some() ==> r.unwrap() < self.updates@.len() && update_output(
                self.updates@[r.unwrap() as int],
            ) == output,
    {
        let mut i: usize = 0;
        while i < self.updates.len()
            invariant
                0 <= i <= self.updates@.len(),
                forall|j: int| 0 <= j < i ==> update_output(#[trigger] self.updates@[j]) != output,
            decreases self.updates@.len() - i,
        {
            let o = match self.updates[i] {
                OutputConfigurationUpdate::Enable(h) => h.output,
                OutputConfigurationUpdate::Disable(o) => o,
            };
            if o == output {
                return Some(i);
            }
            i = i + 1;
        }
        None
    }

    fn add_update(&mut self, u: OutputConfigurationUpdate) -> (r: Result<(), ConfigurationError>)
        requires
            old(self).wf(),
        ensures
            final(self).wf(),
            final(self).used == old(self).used,
            r == (if old(self).used {
                Err(ConfigurationError::AlreadyUsed)
            } else if configures(old(self).updates@, update_output(u)) {
                Err(ConfigurationError::AlreadyConfiguredHead)
            } else {
                Ok(())
            }),
            r is Ok ==> final(self).updates@ == old(self).updates@.push(u),
            r is Err ==> final(self).updates@ == old(self).updates@,
    {
        if self.used {
            return Err(ConfigurationError::AlreadyUsed);
        }
        let o = match u {
            OutputConfigurationUpdate::Enable(h) => h.output,
            OutputConfigurationUpdate::Disable(o) => o,
        };
        match self.update_for_output(o) {
            Some(_) => Err(ConfigurationError::AlreadyConfiguredHead),
            None => {
                self.updates.push(u);
                Ok(())
            },
        }
    }

    /// Asks for `output` to be enabled.
    pub fn enable_head(&mut self, output: u64) -> (r: Result<(), ConfigurationError>)
        requires
            old(self).wf(),
        ensures
            final(self).wf(),
            final(self).used == old(self).used,
            r == (if old(self).used {
                Err(ConfigurationError::AlreadyUsed)
            } else if configures(old(self).updates@, output) {
                Err(ConfigurationError::AlreadyConfiguredHead)
            } else {
                Ok(())
            }),
            r is Ok ==> final(self).updates@ == old(self).updates@.push(
                OutputConfigurationUpdate::Enable(
                    ConfigHead {
                        output,
                        mode: None,
                        position: None,
                        transform: None,
                        scale_bits: None,
                        adaptive_sync: None,
                    },
                ),
            ),
            r is Err ==> final(self).updates@ == old(self).updates@,
    {
        self.add_update(OutputConfigurationUpdate::Enable(ConfigHead::new(output)))
    }

    /// Asks for `output` to be disabled.
    pub fn disable_head(&mut self, output: u64) -> (r: Result<(), ConfigurationError>)
        requires
            old(self).wf(),
        ensures
            final(self).wf(),
            final(self).used == old(self).used,
            r == (if old(self).used {
                Err(ConfigurationError::AlreadyUsed)
            } else if configures(old(self).updates@, output) {
                Err(ConfigurationError::AlreadyConfiguredHead)
            } else {
                Ok(())
            }),
            r is Ok ==> final(self).updates@ == old(self).updates@.push(
                OutputConfigurationUpdate::Disable(output),
            ),
            r is Err ==> final(self).updates@ == old(self).updates@,
    {
        self.add_update(OutputConfigurationUpdate::Disable(output))
    }

    /// Marks the configuration tested or applied; that can happen once.
    pub fn mark_used(&mut self) -> (r: Result<(), ConfigurationError>)
        ensures
            final(self).updates@ == old(self).updates@,
            final(self).used,
            r == (if old(self).used { Err(ConfigurationError::AlreadyUsed) } else { Ok(()) }),
    {
        if self.used {
            Err(ConfigurationError::AlreadyUsed)
        } else {
            self.used = true;
            Ok(())
        }
    }

    /// A configuration head object was destroyed: the entry that enables its output leaves the
    /// configuration, the others stay in order.  `true` when there was one.
    pub fn head_destroyed(&mut self, output: u64) -> (removed: bool)
        requires
            old(self).wf(),
        ensures
            final(self).wf(),
            final(self).used == old(self).used,
            removed == exists|i: int|
                0 <= i < old(self).updates@.len() && #[trigger] old(self).updates@[i] is Enable && update_output(
                    old(self).updates@[i],
                ) == output,
            removed ==> exists|i: int|
                0 <= i < old(self).updates@.len() && #[trigger] old(self).updates@[i] is Enable && update_output(
                    old(self).updates@[i],
                ) == output && final(self).updates@ == old(self).updates@.remove(i),
            !removed ==> final(self).updates@ == old(self).updates@,
    {
        let ghost u0 = self.updates@;
        match self.update_for_output(output) {
            None => {
                assert(!exists|i: int|
                    0 <= i < u0.len() && #[trigger] u0[i] is Enable && update_output(u0[i]) == output);
                false
            },
            Some(i) => {
                let is_enable = match self.updates[i] {
                    OutputConfigurationUpdate::Enable(_) => true,
                    OutputConfigurationUpdate::Disable(_) => false,
                };
                if !is_enable {
                    assert forall|j: int| 0 <= j < u0.len() && #[trigger] u0[j] is Enable implies update_output(u0[j]) != output by {
                        if j != i as int && update_output(u0[j]) == output {
                            if j < i { assert(update_output(u0[j]) != update_output(u0[i as int])); }
                            else { assert(update_output(u0[i as int]) != update_output(u0[j])); }
                        }
                    }
                    return false;
                }
                self.updates.remove(i);
                proof {
                    assert(self.updates@ == u0.remove(i as int));
                    assert forall|a: int, b: int| 0 <= a < b < self.updates@.len() implies update_output(
                        #[trigger] self.updates@[a],
                    ) != update_output(#[trigger] self.updates@[b]) by {
                        let a0 = if a < i { a } else { a + 1 };
                        let b0 = if b < i { b } else { b + 1 };
                        assert(self.updates@[a] == u0[a0]);
                        assert(self.updates@[b] == u0[b0]);
                    }
                    assert(u0[i as int] is Enable);
                }
                true
            },
        }
    }

    /// Handles a request on the enabled head at `index`.
    pub fn head_request(&mut self, index: usize, req: HeadRequest) -> (r: Result<(), HeadRequestFailure>)
        requires
            index < old(self).updates@.len(),
            old(self).updates@[index as int] is Enable,
        ensures
            final(self).used == old(self).used,
            old(self).used ==> r == Err::<(), HeadRequestFailure>(
                HeadRequestFailure::Configuration(ConfigurationError::AlreadyUsed),
            ) && final(self).updates@ == old(self).updates@,
            !old(self).used ==> ({
                let (h, res) = spec_head_request(old(self).updates@[index as int]->Enable_0, req);
                &&& final(self).updates@ == old(self).updates@.update(
                    index as int,
                    OutputConfigurationUpdate::Enable(h),
                )
                &&& r == match res {
                    Ok(()) => Ok(()),
                    Err(e) => Err(HeadRequestFailure::Head(e)),
                }
            }),
    {
        if self.used {
            return Err(HeadRequestFailure::Configuration(ConfigurationError::AlreadyUsed));
        }
        let mut head = match self.updates[index] {
            OutputConfigurationUpdate::Enable(h) => h,
            OutputConfigurationUpdate::Disable(_) => {
                return Err(HeadRequestFailure::Configuration(ConfigurationError::AlreadyUsed));
            },
        };
        let res = head.handle_request(req);
        self.updates.set(index, OutputConfigurationUpdate::Enable(head));
        match res {
            Ok(()) => Ok(()),
            Err(e) => Err(HeadRequestFailure::Head(e)),
        }
    }
}

/// Entries for the same output are never added twice, and a used configuration takes no
/// entries: whatever sequence of enable and disable requests comes, the outputs stay distinct.
pub proof fn lemma_enable_disable_keep_outputs_distinct(
    s: Seq<OutputConfigurationUpdate>,
    u: OutputConfigurationUpdate,
)
    requires
        distinct_outputs(s),
        !configures(s, update_output(u)),
    ensures
        distinct_outputs(s.push(u)),
{
    assert forall|i: int, j: int| 0 <= i < j < s.push(u).len() implies update_output(
        #[trigger] s.push(u)[i],
    ) != update_output(#[trigger] s.push(u)[j]) by {
        if j == s.len() {
            if update_output(s[i]) == update_output(u) {
                assert(configures(s, update_output(u)));
            }
        }
    }
}


/// What an output looks like now, as the output-management protocol reports it.  The scale
/// is the bit pattern of its floating-point value; scales are compared as doubles.
pub struct OutputSnapshot {
    pub modes: Vec<OutputMode>,
    pub current_mode: Option<OutputMode>,
    pub preferred_mode: Option<OutputMode>,
    pub position: Point,
    pub transform: Transform,
    pub scale_bits: u64,
}

/// What the clients were last told of an output.
pub struct HeadState {
    pub modes: Vec<OutputMode>,
    pub last_is_enabled: bool,
    pub last_current_mode: Option<OutputMode>,
    pub last_preferred_mode: Option<OutputMode>,
    pub last_position: Point,
    pub last_transform: Transform,
    pub last_scale_bits: u64,
    pub last_adaptive_sync: AdaptiveSyncState,
}

/// The ghost image of a head.
pub struct HeadView {
    pub modes: Seq<OutputMode>,
    pub last_is_enabled: bool,
    pub last_current_mode: Option<OutputMode>,
    pub last_preferred_mode: Option<OutputMode>,
    pub last_position: Point,
    pub last_transform: Transform,
    pub last_scale_bits: u64,
    pub last_adaptive_sync: AdaptiveSyncState,
}

impl View for HeadState {
    type V = HeadView;

    open spec fn view(&self) -> HeadView {
        HeadView {
            modes: self.modes@,
            last_is_enabled: self.last_is_enabled,
            last_current_mode: self.last_current_mode,
            last_preferred_mode: self.last_preferred_mode,
            last_position: self.last_position,
            last_transform: self.last_transform,
            last_scale_bits: self.last_scale_bits,
            last_adaptive_sync: self.last_adaptive_sync,
        }
    }
}

/// How an output changed since the clients were last told.
pub struct OutputDiff {
    pub enabled: Option<bool>,
    pub modes_added: Vec<OutputMode>,
    pub modes_removed: Vec<OutputMode>,
    pub current_mode: Option<Option<OutputMode>>,
    pub preferred_mode: Option<Option<OutputMode>>,
    pub position: Option<Point>,
    pub transform: Option<Transform>,
    pub scale_bits: Option<u64>,
    pub adaptive_sync: Option<AdaptiveSyncState>,
}

/// The preferred mode of an output, or else its first mode.
pub open spec fn spec_preferred_or_first(snap_preferred: Option<OutputMode>, modes: Seq<OutputMode>) -> Option<OutputMode> {
    if snap_preferred.is_some() {
        snap_preferred
    } else if modes.len() > 0 {
        Some(modes[0])
    } else {
        None
    }
}

/// Elements of `s` that do not occur in `t`, in order.
pub open spec fn modes_absent(s: Seq<OutputMode>, t: Seq<OutputMode>) -> Seq<OutputMode>
    decreases s.len(),
{
    if s.len() == 0 {
        Seq::empty()
    } else if t.contains(s.last()) {
        modes_absent(s.drop_last(), t)
    } else {
        modes_absent(s.drop_last(), t).push(s.last())
    }
}

fn contains_mode(v: &Vec<OutputMode>, m: OutputMode) -> (r: bool)
    ensures
        r == v@.contains(m),
{
    let mut i: usize = 0;
    while i < v.len()
        invariant
            0 <= i <= v@.len(),
            forall|j: int| 0 <= j < i ==> v@[j] != m,
        decreases v@.len() - i,
    {
        if v[i] == m {
            assert(v@[i as int] == m);
            return true;
        }
        i = i + 1;
    }
    false
}

fn modes_not_in(s: &Vec<OutputMode>, t: &Vec<OutputMode>) -> (r: Vec<OutputMode>)
    ensures
        r@ == modes_absent(s@, t@),
{
    let mut r: Vec<OutputMode> = Vec::new();
    let mut i: usize = 0;
    while i < s.len()
        invariant
            0 <= i <= s@.len(),
            r@ == modes_absent(s@.subrange(0, i as int), t@),
        decreases s@.len() - i,
    {
        let x = s[i];
        proof {
            let u = s@.subrange(0, i as int + 1);
            assert(u.drop_last() =~= s@.subrange(0, i as int));
            assert(u.last() == x);
        }
        if !contains_mode(t, x) {
            r.push(x);
        }
        i = i + 1;
    }
    assert(s@.subrange(0, s@.len() as int) =~= s@);
    r
}

pub open spec fn changed_value<T>(last: T, now: T) -> Option<T> {
    if last != now { Some(now) } else { None }
}

/// The diff of an output against what the clients were last told, when anything differs.
pub open spec fn spec_output_diff(
    modes: Seq<OutputMode>,
    current: Option<OutputMode>,
    preferred: Option<OutputMode>,
    position: Point,
    transform: Transform,
    scale_bits: u64,
    is_enabled: bool,
    h: HeadView,
) -> (
    Option<bool>,
    Seq<OutputMode>,
    Seq<OutputMode>,
    Option<Option<OutputMode>>,
    Option<Option<OutputMode>>,
    Option<Point>,
    Option<Transform>,
    Option<u64>,
    Option<AdaptiveSyncState>,
) {
    (
        changed_value(h.last_is_enabled, is_enabled && current.is_some()),
        modes_absent(modes, h.modes),
        modes_absent(h.modes, modes),
        changed_value(h.last_current_mode, current),
        changed_value(h.last_preferred_mode, spec_preferred_or_first(preferred, modes)),
        changed_value(h.last_position, position),
        changed_value(h.last_transform, transform),
        if f64_eq(h.last_scale_bits, scale_bits) { None } else { Some(scale_bits) },
        changed_value(h.last_adaptive_sync, AdaptiveSyncState::Disabled),
    )
}

impl OutputDiff {
    pub open spec fn parts(&self) -> (
        Option<bool>,
        Seq<OutputMode>,
        Seq<OutputMode>,
        Option<Option<OutputMode>>,
        Option<Option<OutputMode>>,
        Option<Point>,
        Option<Transform>,
        Option<u64>,
        Option<AdaptiveSyncState>,
    ) {
        (
            self.enabled,
            self.modes_added@,
            self.modes_removed@,
            self.current_mode,
            self.preferred_mode,
            self.position,
            self.transform,
            self.scale_bits,
            self.adaptive_sync,
        )
    }

    pub open spec fn is_empty_spec(&self) -> bool {
        self.enabled.is_none() && self.modes_added@.len() == 0 && self.modes_removed@.len() == 0
            && self.current_mode.is_none() && self.preferred_mode.is_none() && self.position.is_none()
            && self.transform.is_none() && self.scale_bits.is_none() && self.adaptive_sync.is_none()
    }

    /// How `output` differs from what the clients were last told of it; `None` when nothing does.
    pub fn new(output: &OutputSnapshot, is_enabled: bool, head: &HeadState) -> (r: Option<OutputDiff>)
        ensures
            ({
                let d = spec_output_diff(
                    output.modes@,
                    output.current_mode,
                    output.preferred_mode,
                    output.position,
                    output.transform,
                    output.scale_bits,
                    is_enabled,
                    head@,
                );
                match r {
                    Some(diff) => diff.parts() == d && !diff.is_empty_spec(),
                    None => d.0.is_none() && d.1.len() == 0 && d.2.len() == 0 && d.3.is_none()
                        && d.4.is_none() && d.5.is_none() && d.6.is_none() && d.7.is_none()
                        && d.8.is_none(),
                }
            }),
    {
        let modes_added = modes_not_in(&output.modes, &head.modes);
        let modes_removed = modes_not_in(&head.modes, &output.modes);
        let enabled = is_enabled && output.current_mode.is_some();
        let preferred = if output.preferred_mode.is_some() {
            output.preferred_mode
        } else if output.modes.len() > 0 {
            Some(output.modes[0])
        } else {
            None
        };
        let diff = OutputDiff {
            enabled: if head.last_is_enabled != enabled { Some(enabled) } else { None },
            modes_added,
            modes_removed,
            current_mode: if head.last_current_mode != output.current_mode {
                Some(output.current_mode)
            } else {
                None
            },
            preferred_mode: if head.last_preferred_mode != preferred { Some(preferred) } else { None },
            position: if head.last_position != output.position { Some(output.position) } else { None },
            transform: if head.last_transform != output.transform { Some(output.transform) } else { None },
            scale_bits: if f64_bits_eq(head.last_scale_bits, output.scale_bits) {
                None
            } else {
                Some(output.scale_bits)
            },
            adaptive_sync: if head.last_adaptive_sync != AdaptiveSyncState::Disabled {
                Some(AdaptiveSyncState::Disabled)
            } else {
                None
            },
        };
        if diff.enabled.is_some() || diff.modes_added.len() > 0 || diff.modes_removed.len() > 0
            || diff.current_mode.is_some() || diff.preferred_mode.is_some() || diff.position.is_some()
            || diff.transform.is_some() || diff.scale_bits.is_some() || diff.adaptive_sync.is_some() {
            Some(diff)
        } else {
            None
        }
    }
}

impl HeadState {
    /// What clients are first told of a new output: it is not yet enabled.
    pub fn new(output: &OutputSnapshot) -> (r: HeadState)
        ensures
            r@ == (HeadView {
                modes: output.modes@,
                last_is_enabled: false,
                last_current_mode: output.current_mode,
                last_preferred_mode: spec_preferred_or_first(output.preferred_mode, output.modes@),
                last_position: output.position,
                last_transform: output.transform,
                last_scale_bits: output.scale_bits,
                last_adaptive_sync: AdaptiveSyncState::Disabled,
            }),
    {
        let mut modes: Vec<OutputMode> = Vec::new();
        let mut i: usize = 0;
        while i < output.modes.len()
            invariant
                0 <= i <= output.modes@.len(),
                modes@ == output.modes@.subrange(0, i as int),
            decreases output.modes@.len() - i,
        {
            modes.push(output.modes[i]);
            i = i + 1;
        }
        assert(output.modes@.subrange(0, output.modes@.len() as int) =~= output.modes@);
        let preferred = if output.preferred_mode.is_some() {
            output.preferred_mode
        } else if output.modes.len() > 0 {
            Some(output.modes[0])
        } else {
            None
        };
        HeadState {
            modes,
            last_is_enabled: false,
            last_current_mode: output.current_mode,
            last_preferred_mode: preferred,
            last_position: output.position,
            last_transform: output.transform,
            last_scale_bits: output.scale_bits,
            last_adaptive_sync: AdaptiveSyncState::Disabled,
        }
    }
}


/// What the clients are told of a changed output, once for each head handle.
#[derive(Clone, Copy, Debug, PartialEq, Eq, Structural)]
pub enum HeadEvent {
    ModeAdded { mode: OutputMode, is_current: bool, is_preferred: bool },
    ModeFinished(OutputMode),
    Enabled(bool),
    CurrentMode(OutputMode),
    Position(Point),
    Transform(Transform),
    Scale(u64),
    Preferred(OutputMode),
    AdaptiveSync(AdaptiveSyncState),
}

pub open spec fn is_first_pos(s: Seq<OutputMode>, x: OutputMode, i: int) -> bool {
    0 <= i < s.len() && s[i] == x && forall|j: int| 0 <= j < i ==> s[j] != x
}

/// `s` without the first occurrence of `x`.
pub open spec fn remove_first(s: Seq<OutputMode>, x: OutputMode) -> Seq<OutputMode> {
    if exists|i: int| is_first_pos(s, x, i) {
        s.remove(choose|i: int| is_first_pos(s, x, i))
    } else {
        s
    }
}

/// The modes left and the events sent when `removed` are taken out of `modes` one by one.
pub open spec fn remove_modes(modes: Seq<OutputMode>, removed: Seq<OutputMode>) -> (Seq<OutputMode>, Seq<HeadEvent>)
    decreases removed.len(),
{
    if removed.len() == 0 {
        (modes, Seq::empty())
    } else {
        let (m1, e1) = remove_modes(modes, removed.drop_last());
        let x = removed.last();
        if m1.contains(x) {
            (remove_first(m1, x), e1.push(HeadEvent::ModeFinished(x)))
        } else {
            (m1, e1)
        }
    }
}

pub open spec fn added_event(m: OutputMode, current: Option<OutputMode>, preferred: Option<OutputMode>) -> HeadEvent {
    HeadEvent::ModeAdded { mode: m, is_current: current == Some(m), is_preferred: preferred == Some(m) }
}

pub open spec fn opt_seq<T>(cond: bool, x: T) -> Seq<T> {
    if cond { seq![x] } else { Seq::empty() }
}

/// Position, transform and scale: announced to enabled heads, and remembered.
pub open spec fn spec_apply_placement(
    h: HeadView,
    position: Option<Point>,
    transform: Option<Transform>,
    scale_bits: Option<u64>,
) -> (HeadView, Seq<HeadEvent>) {
    let pos = match position {
        Some(p) => p,
        None => h.last_position,
    };
    let tr = match transform {
        Some(t) => t,
        None => h.last_transform,
    };
    let sc = match scale_bits {
        Some(b) => b,
        None => h.last_scale_bits,
    };
    (
        HeadView { last_position: pos, last_transform: tr, last_scale_bits: sc, ..h },
        opt_seq(position.is_some() && h.last_is_enabled, HeadEvent::Position(pos)) + opt_seq(
            transform.is_some() && h.last_is_enabled,
            HeadEvent::Transform(tr),
        ) + opt_seq(scale_bits.is_some() && h.last_is_enabled, HeadEvent::Scale(sc)),
    )
}

/// Enabling, disabling and the current mode.  A head counts as enabled when it is meant to be
/// and has a current mode that it offers; a newly enabled head is told its placement again.
pub open spec fn spec_apply_enablement(
    h: HeadView,
    enabled: Option<bool>,
    current_mode: Option<Option<OutputMode>>,
) -> (HeadView, Seq<HeadEvent>) {
    let cm = match current_mode {
        Some(Some(m)) => Some(m),
        _ => h.last_current_mode,
    };
    let en_now = (match enabled {
        Some(e) => e,
        None => h.last_is_enabled,
    }) && cm.is_some();
    let newly = enabled == Some(true);
    let mode_changed = current_mode.is_some();
    if en_now && h.modes.contains(cm.unwrap()) {
        (
            HeadView { last_is_enabled: true, last_current_mode: cm, ..h },
            if newly || mode_changed {
                opt_seq(newly, HeadEvent::Enabled(true)) + seq![HeadEvent::CurrentMode(cm.unwrap())] + (if newly {
                    seq![
                        HeadEvent::Position(h.last_position),
                        HeadEvent::Transform(h.last_transform),
                        HeadEvent::Scale(h.last_scale_bits),
                    ]
                } else {
                    Seq::empty()
                })
            } else {
                Seq::empty()
            },
        )
    } else if enabled == Some(false) {
        (HeadView { last_is_enabled: false, ..h }, seq![HeadEvent::Enabled(false)])
    } else {
        (h, Seq::empty())
    }
}

/// The preferred mode, announced when the head offers it, and adaptive sync.
pub open spec fn spec_apply_preferences(
    h: HeadView,
    preferred_mode: Option<Option<OutputMode>>,
    adaptive_sync: Option<AdaptiveSyncState>,
) -> (HeadView, Seq<HeadEvent>) {
    let pm2 = match preferred_mode {
        Some(pm) => pm,
        None => h.last_preferred_mode,
    };
    let e_pref = match preferred_mode {
        Some(Some(m)) => opt_seq(h.modes.contains(m), HeadEvent::Preferred(m)),
        _ => Seq::empty(),
    };
    let as2 = match adaptive_sync {
        Some(a) => a,
        None => h.last_adaptive_sync,
    };
    let e_as = match adaptive_sync {
        Some(a) => seq![HeadEvent::AdaptiveSync(a)],
        None => Seq::empty(),
    };
    (HeadView { last_preferred_mode: pm2, last_adaptive_sync: as2, ..h }, e_pref + e_as)
}

/// The head after the scalar parts of a diff, and the events they send.
pub open spec fn spec_apply_rest(
    h: HeadView,
    enabled: Option<bool>,
    current_mode: Option<Option<OutputMode>>,
    preferred_mode: Option<Option<OutputMode>>,
    position: Option<Point>,
    transform: Option<Transform>,
    scale_bits: Option<u64>,
    adaptive_sync: Option<AdaptiveSyncState>,
) -> (HeadView, Seq<HeadEvent>) {
    let (h1, e1) = spec_apply_placement(h, position, transform, scale_bits);
    let (h2, e2) = spec_apply_enablement(h1, enabled, current_mode);
    let (h3, e3) = spec_apply_preferences(h2, preferred_mode, adaptive_sync);
    (h3, e1 + e2 + e3)
}

/// The head after a whole diff, and the events it sends, in order.
pub open spec fn spec_apply_diff(
    h: HeadView,
    d: (
        Option<bool>,
        Seq<OutputMode>,
        Seq<OutputMode>,
        Option<Option<OutputMode>>,
        Option<Option<OutputMode>>,
        Option<Point>,
        Option<Transform>,
        Option<u64>,
        Option<AdaptiveSyncState>,
    ),
    current: Option<OutputMode>,
    preferred: Option<OutputMode>,
) -> (HeadView, Seq<HeadEvent>) {
    let e_add = d.1.map_values(|m: OutputMode| added_event(m, current, preferred));
    let (modes2, e_rm) = remove_modes(h.modes + d.1, d.2);
    let (h3, e_rest) = spec_apply_rest(HeadView { modes: modes2, ..h }, d.0, d.3, d.4, d.5, d.6, d.7, d.8);
    (h3, e_add + e_rm + e_rest)
}

fn remove_one_mode(modes: &mut Vec<OutputMode>, x: OutputMode) -> (r: bool)
    ensures
        r == old(modes)@.contains(x),
        final(modes)@ == (if r { remove_first(old(modes)@, x) } else { old(modes)@ }),
{
    let mut i: usize = 0;
    while i < modes.len()
        invariant
            0 <= i <= modes@.len(),
            modes@ == old(modes)@,
            forall|j: int| 0 <= j < i ==> modes@[j] != x,
        decreases modes@.len() - i,
    {
        if modes[i] == x {
            assert(old(modes)@[i as int] == x);
            let ghost s = modes@;
            proof {
                assert(is_first_pos(s, x, i as int));
                let c = choose|k: int| is_first_pos(s, x, k);
                assert(is_first_pos(s, x, c));
                if c < i {
                    assert(s[c] != x);
                }
                if c > i {
                    assert(s[i as int] != x);
                }
                assert(c == i);
            }
            modes.remove(i);
            return true;
        }
        i = i + 1;
    }
    false
}

impl HeadState {
    fn push_added_modes(
        &mut self,
        added: &Vec<OutputMode>,
        current: Option<OutputMode>,
        preferred: Option<OutputMode>,
        events: &mut Vec<HeadEvent>,
    )
        ensures
            final(self)@ == (HeadView { modes: old(self)@.modes + added@, ..old(self)@ }),
            final(events)@ == old(events)@ + added@.map_values(
                |m: OutputMode| added_event(m, current, preferred),
            ),
    {
        let ghost h0 = self@;
        let ghost ev_start = events@;
        let mut i: usize = 0;
        while i < added.len()
            invariant
                0 <= i <= added@.len(),
                self@ == (HeadView { modes: h0.modes + added@.subrange(0, i as int), ..h0 }),
                events@ == ev_start + added@.subrange(0, i as int).map_values(
                    |m: OutputMode| added_event(m, current, preferred),
                ),
            decreases added@.len() - i,
        {
            let m = added[i];
            let is_current = current == Some(m);
            let is_preferred = preferred == Some(m);
            events.push(HeadEvent::ModeAdded { mode: m, is_current, is_preferred });
            self.modes.push(m);
            proof {
                let sub = added@.subrange(0, i as int + 1);
                assert(sub =~= added@.subrange(0, i as int).push(m));
                assert(h0.modes + sub =~= (h0.modes + added@.subrange(0, i as int)).push(m));
                let f = |m: OutputMode| added_event(m, current, preferred);
                assert(sub.map_values(f) =~= added@.subrange(0, i as int).map_values(f).push(added_event(m, current, preferred)));
                assert(events@ =~= ev_start + sub.map_values(f));
            }
            i = i + 1;
        }
        assert(added@.subrange(0, added@.len() as int) =~= added@);
    }

    fn remove_listed_modes(&mut self, removed: &Vec<OutputMode>, events: &mut Vec<HeadEvent>)
        ensures
            final(self)@ == (HeadView { modes: remove_modes(old(self)@.modes, removed@).0, ..old(self)@ }),
            final(events)@ == old(events)@ + remove_modes(old(self)@.modes, removed@).1,
    {
        let ghost h1 = self@;
        let ghost e_start = events@;
        let mut k: usize = 0;
        while k < removed.len()
            invariant
                0 <= k <= removed@.len(),
                ({
                    let (m, e) = remove_modes(h1.modes, removed@.subrange(0, k as int));
                    &&& self@ == (HeadView { modes: m, ..h1 })
                    &&& events@ == e_start + e
                }),
            decreases removed@.len() - k,
        {
            let x = removed[k];
            proof {
                let sub = removed@.subrange(0, k as int + 1);
                assert(sub.drop_last() =~= removed@.subrange(0, k as int));
                assert(sub.last() == x);
            }
            let found = remove_one_mode(&mut self.modes, x);
            if found {
                events.push(HeadEvent::ModeFinished(x));
            }
            proof {
                let (m0, e0) = remove_modes(h1.modes, removed@.subrange(0, k as int));
                if found {
                    assert(e_start + e0.push(HeadEvent::ModeFinished(x)) =~= (e_start + e0).push(
                        HeadEvent::ModeFinished(x),
                    ));
                }
            }
            k = k + 1;
        }
        assert(removed@.subrange(0, removed@.len() as int) =~= removed@);
    }

    fn apply_placement(&mut self, diff: &OutputDiff, events: &mut Vec<HeadEvent>)
        ensures
            ({
                let (h1, e1) = spec_apply_placement(old(self)@, diff.position, diff.transform, diff.scale_bits);
                &&& final(self)@ == h1
                &&& final(events)@ == old(events)@ + e1
            }),
    {
        let ghost e0 = events@;
        let was_enabled = self.last_is_enabled;
        match diff.position {
            Some(p) => {
                if was_enabled {
                    events.push(HeadEvent::Position(p));
                }
                self.last_position = p;
            },
            None => {},
        }
        match diff.transform {
            Some(t) => {
                if was_enabled {
                    events.push(HeadEvent::Transform(t));
                }
                self.last_transform = t;
            },
            None => {},
        }
        match diff.scale_bits {
            Some(b) => {
                if was_enabled {
                    events.push(HeadEvent::Scale(b));
                }
                self.last_scale_bits = b;
            },
            None => {},
        }
        proof {
            let (h1, e1) = spec_apply_placement(old(self)@, diff.position, diff.transform, diff.scale_bits);
            assert(events@ =~= e0 + e1);
        }
    }

    fn apply_enablement(&mut self, diff: &OutputDiff, events: &mut Vec<HeadEvent>)
        ensures
            ({
                let (h2, e2) = spec_apply_enablement(old(self)@, diff.enabled, diff.current_mode);
                &&& final(self)@ == h2
                &&& final(events)@ == old(events)@ + e2
            }),
    {
        let ghost e0 = events@;
        let cm = match diff.current_mode {
            Some(Some(m)) => Some(m),
            _ => self.last_current_mode,
        };
        let en_now = (match diff.enabled {
            Some(e) => e,
            None => self.last_is_enabled,
        }) && cm.is_some();
        let enable_found = en_now && contains_mode(&self.modes, cm.unwrap());
        if enable_found {
            let c = cm.unwrap();
            let newly = diff.enabled == Some(true);
            let mode_changed = diff.current_mode.is_some();
            if newly || mode_changed {
                if newly {
                    events.push(HeadEvent::Enabled(true));
                }
                events.push(HeadEvent::CurrentMode(c));
                if newly {
                    events.push(HeadEvent::Position(self.last_position));
                    events.push(HeadEvent::Transform(self.last_transform));
                    events.push(HeadEvent::Scale(self.last_scale_bits));
                }
            }
            self.last_is_enabled = true;
            self.last_current_mode = Some(c);
        } else if diff.enabled == Some(false) {
            events.push(HeadEvent::Enabled(false));
            self.last_is_enabled = false;
        }
        proof {
            let (h2, e2) = spec_apply_enablement(old(self)@, diff.enabled, diff.current_mode);
            assert(events@ =~= e0 + e2);
        }
    }

    fn apply_preferences(&mut self, diff: &OutputDiff, events: &mut Vec<HeadEvent>)
        ensures
            ({
                let (h3, e3) = spec_apply_preferences(old(self)@, diff.preferred_mode, diff.adaptive_sync);
                &&& final(self)@ == h3
                &&& final(events)@ == old(events)@ + e3
            }),
    {
        let ghost e0 = events@;
        match diff.preferred_mode {
            Some(pm) => {
                match pm {
                    Some(m) => {
                        if contains_mode(&self.modes, m) {
                            events.push(HeadEvent::Preferred(m));
                        }
                    },
                    None => {},
                }
                self.last_preferred_mode = pm;
            },
            None => {},
        }
        match diff.adaptive_sync {
            Some(a) => {
                events.push(HeadEvent::AdaptiveSync(a));
                self.last_adaptive_sync = a;
            },
            None => {},
        }
        proof {
            let (h3, e3) = spec_apply_preferences(old(self)@, diff.preferred_mode, diff.adaptive_sync);
            assert(events@ =~= e0 + e3);
        }
    }

    /// Brings the head up to date with a diff of its output, and says what the clients are told.
    pub fn apply_diff(&mut self, diff: &OutputDiff, output: &OutputSnapshot) -> (r: Vec<HeadEvent>)
        ensures
            (final(self)@, r@) == spec_apply_diff(
                old(self)@,
                diff.parts(),
                output.current_mode,
                output.preferred_mode,
            ),
    {
        let mut events: Vec<HeadEvent> = Vec::new();
        let ghost h0 = self@;
        self.push_added_modes(&diff.modes_added, output.current_mode, output.preferred_mode, &mut events);
        let ghost e1 = events@;
        self.remove_listed_modes(&diff.modes_removed, &mut events);
        let ghost e2 = events@;
        self.apply_placement(diff, &mut events);
        self.apply_enablement(diff, &mut events);
        self.apply_preferences(diff, &mut events);
        proof {
            let f = |m: OutputMode| added_event(m, output.current_mode, output.preferred_mode);
            assert(e1 =~= diff.modes_added@.map_values(f));
            let (modes2, e_rm) = remove_modes(h0.modes + diff.modes_added@, diff.modes_removed@);
            let (h3, e_rest) = spec_apply_rest(
                HeadView { modes: modes2, ..h0 },
                diff.enabled,
                diff.current_mode,
                diff.preferred_mode,
                diff.position,
                diff.transform,
                diff.scale_bits,
                diff.adaptive_sync,
            );
            assert(events@ =~= e1 + e_rm + e_rest);
        }
        events
    }
}


/// The configuration objects made for the current serial that were not used yet, in order.
pub open spec fn unused_objects(p: Seq<(u32, bool)>) -> Seq<u32>
    decreases p.len(),
{
    if p.len() == 0 {
        Seq::empty()
    } else if p.last().1 {
        unused_objects(p.drop_last())
    } else {
        unused_objects(p.drop_last()).push(p.last().0)
    }
}

/// The serial clients configure against, and the configuration objects made for it, each with
/// whether it was tested or applied.
pub struct ConfigurationSerials {
    pub current_serial: u32,
    pub pending: Vec<(u32, bool)>,
}

pub struct ConfigurationSerialsView {
    pub current_serial: u32,
    pub pending: Seq<(u32, bool)>,
}

impl View for ConfigurationSerials {
    type V = ConfigurationSerialsView;

    open spec fn view(&self) -> ConfigurationSerialsView {
        ConfigurationSerialsView { current_serial: self.current_serial, pending: self.pending@ }
    }
}

/// A client made configuration `object` against `serial`: kept when the serial is the current
/// one, else stale and nothing changes.
pub open spec fn spec_configuration_created(v: ConfigurationSerialsView, object: u32, serial: u32) -> (ConfigurationSerialsView, bool) {
    if serial == v.current_serial {
        (ConfigurationSerialsView { pending: v.pending.push((object, false)), ..v }, true)
    } else {
        (v, false)
    }
}

/// The outputs changed: the new serial, no pending configuration, and the unused ones to cancel.
pub open spec fn spec_outputs_changed(v: ConfigurationSerialsView, new_serial: u32) -> (ConfigurationSerialsView, Seq<u32>) {
    (ConfigurationSerialsView { current_serial: new_serial, pending: Seq::empty() }, unused_objects(v.pending))
}

impl ConfigurationSerials {
    /// Configurations are made against `serial`; none is made yet.
    pub fn new(serial: u32) -> (r: ConfigurationSerials)
        ensures
            r@ == (ConfigurationSerialsView { current_serial: serial, pending: Seq::empty() }),
    {
        let r = ConfigurationSerials { current_serial: serial, pending: Vec::new() };
        assert(r@.pending =~= Seq::<(u32, bool)>::empty());
        r
    }

    /// A client made configuration `object` against `serial`.  It is kept when the serial is
    /// the current one (`true`); otherwise it is stale, nothing is kept, and the client is to be
    /// told it was cancelled (`false`).
    pub fn configuration_created(&mut self, object: u32, serial: u32) -> (kept: bool)
        ensures
            (final(self)@, kept) == spec_configuration_created(old(self)@, object, serial),
    {
        if serial == self.current_serial {
            self.pending.push((object, false));
            true
        } else {
            false
        }
    }

    /// Configuration `object` was tested or applied: it is no longer cancelled when the
    /// outputs change.  Returns whether it was pending.
    pub fn configuration_used(&mut self, object: u32) -> (found: bool)
        ensures
            final(self)@.current_serial == old(self)@.current_serial,
            found == (exists|i: int| 0 <= i < old(self)@.pending.len() && (#[trigger] old(self)@.pending[i]).0 == object),
            final(self)@.pending.len() == old(self)@.pending.len(),
            forall|i: int|
                0 <= i < old(self)@.pending.len() ==> (#[trigger] final(self)@.pending[i]) == if old(
                    self,
                )@.pending[i].0 == object {
                    (object, true)
                } else {
                    old(self)@.pending[i]
                },
    {
        let mut found = false;
        let mut i: usize = 0;
        let ghost p0 = self.pending@;
        while i < self.pending.len()
            invariant
                0 <= i <= self.pending@.len(),
                self.pending@.len() == p0.len(),
                self.current_serial == old(self).current_serial,
                p0 == old(self).pending@,
                found == (exists|j: int| 0 <= j < i && (#[trigger] p0[j]).0 == object),
                forall|j: int|
                    0 <= j < p0.len() ==> (#[trigger] self.pending@[j]) == if j < i && p0[j].0 == object {
                        (object, true)
                    } else {
                        p0[j]
                    },
            decreases self.pending@.len() - i,
        {
            if self.pending[i].0 == object {
                self.pending.set(i, (object, true));
                found = true;
            }
            i = i + 1;
        }
        proof {
            if found {
                let j = choose|j: int| 0 <= j < i && (#[trigger] p0[j]).0 == object;
                assert(old(self)@.pending[j].0 == object);
            } else {
                assert forall|j: int| 0 <= j < old(self)@.pending.len() implies (#[trigger] old(
                    self,
                )@.pending[j]).0 != object by {
                    assert(p0[j] == old(self)@.pending[j]);
                }
            }
        }
        found
    }

    /// The outputs changed, or one came or went: configurations are now made against
    /// `new_serial`, every pending configuration is dropped, and those not used yet are
    /// returned, in order, to be told they were cancelled.
    pub fn outputs_changed(&mut self, new_serial: u32) -> (cancelled: Vec<u32>)
        ensures
            (final(self)@, cancelled@) == spec_outputs_changed(old(self)@, new_serial),
    {
        let mut out: Vec<u32> = Vec::new();
        let mut i: usize = 0;
        let ghost p0 = self.pending@;
        while i < self.pending.len()
            invariant
                0 <= i <= self.pending@.len(),
                self.pending@ == p0,
                out@ == unused_objects(p0.subrange(0, i as int)),
            decreases self.pending@.len() - i,
        {
            let (object, used) = self.pending[i];
            proof {
                let sub = p0.subrange(0, i as int + 1);
                assert(sub.drop_last() =~= p0.subrange(0, i as int));
                assert(sub.last() == (object, used));
            }
            if !used {
                out.push(object);
            }
            i = i + 1;
        }
        assert(p0.subrange(0, p0.len() as int) =~= p0);
        self.current_serial = new_serial;
        self.pending = Vec::new();
        assert(self@.pending =~= Seq::<(u32, bool)>::empty());
        out
    }
}

proof fn lemma_unused_objects_push(p: Seq<(u32, bool)>, object: u32)
    ensures
        unused_objects(p.push((object, false))) == unused_objects(p).push(object),
{
    assert(p.push((object, false)).drop_last() =~= p);
}

/// Once the outputs changed to a new serial, a configuration made against the serial before is
/// refused and changes nothing; and a configuration made before the change and never used is
/// among those cancelled by it.
pub proof fn lemma_outputs_change_cancels(v: ConfigurationSerialsView, object: u32, new_serial: u32)
    requires
        new_serial != v.current_serial,
    ensures
        ({
            let after = spec_outputs_changed(v, new_serial).0;
            spec_configuration_created(after, object, v.current_serial) == (after, false)
        }),
        spec_outputs_changed(spec_configuration_created(v, object, v.current_serial).0, new_serial).1
            == unused_objects(v.pending).push(object),
{
    lemma_unused_objects_push(v.pending, object);
}

} // verus!
