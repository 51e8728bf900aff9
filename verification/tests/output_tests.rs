use xfwl4::geometry::{Point, Rect, Size};
use xfwl4::output_config::{
    create_configuration, AdaptiveSyncState, ConfigHead, ConfigurationError, ConfiguredMode, HeadEvent, HeadRequest,
    HeadRequestError, HeadRequestFailure, HeadState, OutputConfigurationUpdate, OutputDiff, OutputMode,
    OutputSnapshot, Transform,
};
use xfwl4::output_state::{decode_u16_words, GammaControlError, GammaControls, GammaOutput, PointerOutputs, XfceOutputInfo, XfceOutputManagementState, split_gamma_ramps};
use xfwl4::power::{set_mode_outcome, OutputPower, PowerMode, SetModeOutcome, WlrOutputPowerError};

fn mode(w: i32, h: i32, r: i32) -> OutputMode {
    OutputMode { width: w, height: h, refresh: r }
}

#[test]
fn config_head_accepts_each_property_once() {
    let mut h = ConfigHead::new(1);
    assert_eq!(h.handle_request(HeadRequest::SetMode(Some(mode(1920, 1080, 60000)))), Ok(()));
    assert_eq!(h.mode, Some(ConfiguredMode::Advertised(mode(1920, 1080, 60000))));
    assert_eq!(
        h.handle_request(HeadRequest::SetCustomMode { width: 800, height: 600, refresh: 60000 }),
        Err(HeadRequestError::AlreadySet)
    );
    assert_eq!(h.handle_request(HeadRequest::SetPosition { x: 10, y: -5 }), Ok(()));
    assert_eq!(h.position, Some(Point { x: 10, y: -5 }));
    assert_eq!(h.handle_request(HeadRequest::SetPosition { x: 1, y: 1 }), Err(HeadRequestError::AlreadySet));
}

#[test]
fn config_head_rejects_invalid_values() {
    let mut h = ConfigHead::new(1);
    assert_eq!(h.handle_request(HeadRequest::SetMode(None)), Err(HeadRequestError::InvalidMode));
    assert_eq!(
        h.handle_request(HeadRequest::SetCustomMode { width: 800, height: 600, refresh: 1000 }),
        Err(HeadRequestError::InvalidCustomMode)
    );
    assert_eq!(h.handle_request(HeadRequest::SetScale { bits: 0 }), Err(HeadRequestError::InvalidScale));
    assert_eq!(h.handle_request(HeadRequest::SetTransform(9)), Err(HeadRequestError::InvalidTransform(9)));
    assert_eq!(h.handle_request(HeadRequest::SetAdaptiveSync(2)), Err(HeadRequestError::InvalidAdaptiveSyncState(2)));
    assert_eq!(h, ConfigHead::new(1));
}

#[test]
fn negative_position_on_both_axes_is_ignored() {
    let mut h = ConfigHead::new(1);
    assert_eq!(h.handle_request(HeadRequest::SetPosition { x: -1, y: -1 }), Ok(()));
    assert_eq!(h.position, None);
}

#[test]
fn scale_does_not_block_transform_or_adaptive_sync() {
    let mut h = ConfigHead::new(1);
    assert_eq!(h.handle_request(HeadRequest::SetScale { bits: 1.5f64.to_bits() }), Ok(()));
    assert_eq!(h.handle_request(HeadRequest::SetTransform(1)), Ok(()));
    assert_eq!(h.transform, Some(Transform::Rotate90));
    assert_eq!(h.handle_request(HeadRequest::SetAdaptiveSync(1)), Ok(()));
    assert_eq!(h.handle_request(HeadRequest::SetTransform(2)), Err(HeadRequestError::AlreadySet));
    assert_eq!(h.handle_request(HeadRequest::SetAdaptiveSync(0)), Err(HeadRequestError::AlreadySet));
    assert_eq!(h.handle_request(HeadRequest::SetScale { bits: 2.0f64.to_bits() }), Err(HeadRequestError::AlreadySet));
    assert_eq!(h.transform, Some(Transform::Rotate90));
}

#[test]
fn scale_must_be_above_zero_and_at_most_ten() {
    for s in [10.0f64, 0.25, f64::MIN_POSITIVE] {
        let mut h = ConfigHead::new(1);
        assert_eq!(h.handle_request(HeadRequest::SetScale { bits: s.to_bits() }), Ok(()));
    }
    for s in [0.0f64, -0.0, -1.0, 10.000001, f64::NAN, f64::INFINITY] {
        let mut h = ConfigHead::new(1);
        assert_eq!(h.handle_request(HeadRequest::SetScale { bits: s.to_bits() }), Err(HeadRequestError::InvalidScale));
    }
}

#[test]
fn configuration_takes_each_output_once_and_is_used_once() {
    let mut c = create_configuration(5, 5).unwrap();
    assert!(create_configuration(4, 5).is_none());
    assert_eq!(c.enable_head(1), Ok(()));
    assert_eq!(c.disable_head(2), Ok(()));
    assert_eq!(c.disable_head(1), Err(ConfigurationError::AlreadyConfiguredHead));
    assert_eq!(c.update_for_output(2), Some(1));
    assert_eq!(c.head_request(0, HeadRequest::SetTransform(2)), Ok(()));
    assert_eq!(c.mark_used(), Ok(()));
    assert_eq!(c.mark_used(), Err(ConfigurationError::AlreadyUsed));
    assert_eq!(c.enable_head(3), Err(ConfigurationError::AlreadyUsed));
    assert_eq!(
        c.head_request(0, HeadRequest::SetTransform(3)),
        Err(HeadRequestFailure::Configuration(ConfigurationError::AlreadyUsed))
    );
    match c.updates[0] {
        OutputConfigurationUpdate::Enable(h) => assert_eq!(h.transform, Some(Transform::Rotate180)),
        _ => panic!("expected an enabled head"),
    }
}

fn snapshot() -> OutputSnapshot {
    OutputSnapshot {
        modes: vec![mode(1920, 1080, 60000), mode(1280, 720, 60000)],
        current_mode: Some(mode(1920, 1080, 60000)),
        preferred_mode: None,
        position: Point { x: 0, y: 0 },
        transform: Transform::Normal,
        scale_bits: 0x3ff0000000000000,
    }
}

#[test]
fn new_head_prefers_first_mode_and_is_disabled() {
    let h = HeadState::new(&snapshot());
    assert!(!h.last_is_enabled);
    assert_eq!(h.last_preferred_mode, Some(mode(1920, 1080, 60000)));
    assert_eq!(h.last_adaptive_sync, AdaptiveSyncState::Disabled);
}

#[test]
fn enabling_an_output_announces_mode_and_placement() {
    let snap = snapshot();
    let mut h = HeadState::new(&snap);
    let diff = OutputDiff::new(&snap, true, &h).unwrap();
    assert_eq!(diff.enabled, Some(true));
    let events = h.apply_diff(&diff, &snap);
    assert_eq!(
        events,
        vec![
            HeadEvent::Enabled(true),
            HeadEvent::CurrentMode(mode(1920, 1080, 60000)),
            HeadEvent::Position(Point { x: 0, y: 0 }),
            HeadEvent::Transform(Transform::Normal),
            HeadEvent::Scale(0x3ff0000000000000),
        ]
    );
    assert!(h.last_is_enabled);
    assert!(OutputDiff::new(&snap, true, &h).is_none());
}

#[test]
fn mode_list_changes_are_announced() {
    let snap = snapshot();
    let mut h = HeadState::new(&snap);
    let mut snap2 = snapshot();
    snap2.modes = vec![mode(1920, 1080, 60000), mode(2560, 1440, 60000)];
    let diff = OutputDiff::new(&snap2, false, &h).unwrap();
    let events = h.apply_diff(&diff, &snap2);
    assert_eq!(
        events,
        vec![
            HeadEvent::ModeAdded { mode: mode(2560, 1440, 60000), is_current: false, is_preferred: false },
            HeadEvent::ModeFinished(mode(1280, 720, 60000)),
        ]
    );
    assert_eq!(h.modes, vec![mode(1920, 1080, 60000), mode(2560, 1440, 60000)]);
}

#[test]
fn xfce_output_announces_becoming_primary_only() {
    let mut o = XfceOutputInfo::new(1, Size { w: 1920, h: 1080 }, false);
    assert_eq!(o.workarea, Rect::new(0, 0, 1920, 1080));
    let ch = o.apply_change(Some(true), None);
    assert!(ch.send_primary && ch.done);
    let ch = o.apply_change(Some(false), Some(Rect::new(0, 30, 1920, 1050)));
    assert!(!ch.send_primary);
    assert_eq!(ch.workarea, Some(Rect::new(0, 30, 1920, 1050)));
    assert!(!o.is_primary);
}

#[test]
fn pointer_outputs_follow_each_seat() {
    let mut p = PointerOutputs::new();
    assert_eq!(p.pointer_output_changed(1, Some(10)), Some((None, Some(10))));
    assert_eq!(p.pointer_output_changed(1, Some(10)), None);
    assert_eq!(p.pointer_output_changed(2, Some(10)), Some((None, Some(10))));
    assert_eq!(p.pointer_output_changed(1, Some(11)), Some((Some(10), Some(11))));
    assert_eq!(p.current(1), Some(11));
    assert_eq!(p.output_destroyed(10), vec![2]);
    assert_eq!(p.current(2), None);
}

#[test]
fn one_gamma_control_per_output() {
    let mut g = GammaControls::new();
    g.outputs.push(GammaOutput { output: 7, control: None, orig_gamma: Some((vec![1], vec![2], vec![3])), gamma_length: 256 });
    assert_eq!(g.get_gamma_control(7, 100), Ok(256));
    assert_eq!(g.get_gamma_control(7, 101), Err(GammaControlError::AlreadyExists));
    assert_eq!(g.get_gamma_control(8, 102), Err(GammaControlError::InvalidOutput));
    assert_eq!(g.control_destroyed(100), Some((7, Some((vec![1], vec![2], vec![3])))));
    assert_eq!(g.get_gamma_control(7, 103), Ok(256));
}

#[test]
fn gamma_ramps_split_in_three() {
    let (r, gr, b) = split_gamma_ramps(&vec![1, 2, 3, 4, 5, 6], 2);
    assert_eq!((r, gr, b), (vec![1, 2], vec![3, 4], vec![5, 6]));
}

#[test]
fn power_mode_outcomes() {
    assert_eq!(PowerMode::from_protocol(1), Some(PowerMode::On));
    assert_eq!(set_mode_outcome(0, Ok(())), SetModeOutcome::Keep);
    assert_eq!(set_mode_outcome(1, Err(WlrOutputPowerError::TransientFailure)), SetModeOutcome::Keep);
    assert_eq!(set_mode_outcome(1, Err(WlrOutputPowerError::PermissionDenied)), SetModeOutcome::Drop);
    assert_eq!(set_mode_outcome(5, Ok(())), SetModeOutcome::InvalidMode(5));
    assert_eq!(WlrOutputPowerError::OutputNotFound.message(), "Output not found");
    let mut p = OutputPower { output: 1, cur_mode: PowerMode::On };
    assert!(p.mode_changed(PowerMode::Off));
    assert!(!p.mode_changed(PowerMode::Off));
}

#[test]
fn xfce_output_management_announces_done_once_per_serial() {
    let mut s = XfceOutputManagementState::new();
    assert_eq!(s.bind(1), None);
    let (index, managers) = s.output_created(50, 7);
    assert_eq!(index, 0);
    assert_eq!(managers, vec![1]);
    s.head_sent(0, 100);
    assert_eq!(s.last_config_serial, Some(7));
    assert_eq!(s.output_changed(7), None);
    assert_eq!(s.output_changed(8), Some(vec![1]));
    assert_eq!(s.bind(2), Some(8));
    s.head_sent(0, 101);
    s.head_released(100);
    assert_eq!(s.heads[0].instances, vec![101]);
    assert_eq!(s.output_destroyed(99, 8), None);
    assert_eq!(s.output_destroyed(50, 8), Some(vec![1, 2]));
    assert!(s.heads.is_empty());
    s.manager_destroyed(1);
    assert_eq!(s.managers, vec![2]);
    assert_eq!(s.output_changed(9), Some(vec![2]));
}

#[test]
fn gamma_words_are_read_in_native_order() {
    let mut bytes: Vec<u8> = [1u16, 0xabcd, 65535].iter().flat_map(|v| v.to_ne_bytes()).collect();
    bytes.push(7);
    assert_eq!(decode_u16_words(&bytes), vec![1, 0xabcd, 65535]);
}

#[test]
fn output_scale_changes_compare_as_doubles() {
    let scaled = |bits: u64| OutputSnapshot { scale_bits: bits, ..snapshot() };
    let h = HeadState::new(&scaled(0.0f64.to_bits()));
    assert!(OutputDiff::new(&scaled((-0.0f64).to_bits()), false, &h).is_none());
    let n = HeadState::new(&scaled(f64::NAN.to_bits()));
    assert!(OutputDiff::new(&scaled(f64::NAN.to_bits()), false, &n).is_some());
}

#[test]
fn destroyed_configuration_head_leaves_only_its_own_entry() {
    let mut c = create_configuration(5, 5).unwrap();
    assert_eq!(c.enable_head(1), Ok(()));
    assert_eq!(c.disable_head(2), Ok(()));
    assert_eq!(c.enable_head(3), Ok(()));
    assert!(!c.head_destroyed(2));
    assert!(!c.head_destroyed(9));
    assert!(c.head_destroyed(1));
    assert_eq!(c.updates.len(), 2);
    assert_eq!(c.update_for_output(3), Some(1));
    assert_eq!(c.update_for_output(2), Some(0));
}

#[test]
fn output_change_cancels_unused_configurations() {
    let mut s = xfwl4::output_config::ConfigurationSerials::new(7);
    assert!(s.configuration_created(1, 7));
    assert!(s.configuration_created(2, 7));
    assert!(s.configuration_created(3, 7));
    assert!(!s.configuration_created(4, 6));
    assert!(s.configuration_used(2));
    assert!(!s.configuration_used(9));
    assert_eq!(s.outputs_changed(8), vec![1, 3]);
    assert_eq!(s.current_serial, 8);
    assert!(s.pending.is_empty());
    assert!(!s.configuration_created(5, 7));
    assert!(s.configuration_created(6, 8));
    assert_eq!(s.outputs_changed(9), vec![6]);
}
