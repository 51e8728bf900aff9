use xfwl4::decor_layout::{ButtonSizes, DecorationLayout, FrameMetrics, LayoutConfig, TitleBackground};
use xfwl4::decorations::{
    button_name, button_state, ButtonHoverState, ButtonPressedState, ButtonToggledStates, DecorBackgroundState,
    DecorButtonName, DecorButtonState, TitleAlignment, TitlebarButton, TOGGLED_MAXIMIZE,
};
use xfwl4::dialog::{DialogAnswer, DialogButton, DialogConfig};
use xfwl4::geometry::{Point, Rect, Size};
use xfwl4::gtk_settings::{
    title_to_kebab, xfconf_property_name_to_gtk_setting_name, GtkSettingsValue, GtkSettingsValueError,
    SettingsValueContent,
};
use xfwl4::input_devices::{DeviceEvent, DeviceQuery, DeviceSettings, InputDeviceList, Pair, Triple, BitsPair, Matrix, MatrixPair, Area, AreaPair};
use xfwl4::placement::{
    choose_icon, desktop_file_name, find_window_geometry, orphaned_windows, output_offsets, placement_zone,
    random_window_position, IconBuffer, IconChoice, XdgSurfaceProps,
};
use xfwl4::resize::{resize_target_size, ResizeData, ResizeEdge, ResizeMotion, ResizeState, X11ResizeEdge, EDGE_LEFT, EDGE_TOP};
use xfwl4::screencopy::{output_rect_for_frame, ready_timestamp, ScreencopyFrame};
use xfwl4::supervisor::{restart_delays, restart_delays_fit, supervise_step, SupervisorStep, WaitOutcome};
use xfwl4::workspace::{ClientRequest, WorkspaceInfo, WorkspaceManagerUserData};

#[test]
fn gtk_setting_names_from_xfconf() {
    assert_eq!(title_to_kebab("CursorThemeName"), "cursor-theme-name");
    assert_eq!(xfconf_property_name_to_gtk_setting_name("/Gtk/CursorThemeName"), Some("gtk-cursor-theme-name".to_string()));
    assert_eq!(xfconf_property_name_to_gtk_setting_name("/Net/ThemeName"), Some("gtk-theme-name".to_string()));
    assert_eq!(xfconf_property_name_to_gtk_setting_name("/Xft/HintStyle"), Some("gtk-xft-hintstyle".to_string()));
    assert_eq!(xfconf_property_name_to_gtk_setting_name("/Other/Thing"), None);
}

#[test]
fn gtk_settings_values() {
    assert!(matches!(GtkSettingsValue::try_from_content(SettingsValueContent::Int32(4)), Ok(GtkSettingsValue::Int32(4))));
    assert_eq!(
        GtkSettingsValue::try_from_content(SettingsValueContent::Text(String::new())).err(),
        Some(GtkSettingsValueError::EmptyString)
    );
    assert_eq!(
        GtkSettingsValue::try_from_content(SettingsValueContent::Unsupported("gdouble".to_string())).err(),
        Some(GtkSettingsValueError::UnhandledType("gdouble".to_string()))
    );
}

#[test]
fn supervisor_decisions() {
    assert_eq!(supervise_step(WaitOutcome::Exited(0)), SupervisorStep::Exit);
    assert_eq!(supervise_step(WaitOutcome::Exited(3)), SupervisorStep::Restart);
    assert_eq!(supervise_step(WaitOutcome::Signaled(9)), SupervisorStep::Restart);
    assert_eq!(supervise_step(WaitOutcome::Error(5)), SupervisorStep::Fail(5));
    assert_eq!(supervise_step(WaitOutcome::RetryableError), SupervisorStep::WaitAgain(None));
}

#[test]
fn restart_delay_doubles_and_resets() {
    let (pause, next) = restart_delays(8_000_000, 1_000);
    assert_eq!(pause, 8_000_000);
    assert_eq!(next, 16_000_000);
    let (pause, _) = restart_delays(512_000_000, 3_000_000_000);
    assert_eq!(pause, 8_000_000);
}

#[test]
fn resize_edges_convert_both_ways() {
    for v in [0u32, 1, 2, 4, 5, 6, 8, 9, 10] {
        assert_eq!(ResizeEdge::from_xdg(v).to_xdg(), v);
    }
    assert_eq!(ResizeEdge::from_x11(X11ResizeEdge::TopLeft), ResizeEdge { bits: EDGE_TOP | EDGE_LEFT });
}

#[test]
fn resize_target_clamps_to_limits() {
    let edges = ResizeEdge::from_xdg(4);
    let m = ResizeMotion { width_plus: 50, width_minus: 300, height_plus: 500, height_minus: 10 };
    let r = resize_target_size(edges, Size { w: 200, h: 100 }, m, Size { w: 100, h: 0 }, Size { w: 250, h: 0 });
    assert_eq!(r, Size { w: 250, h: 100 });
}

#[test]
fn resize_handshake() {
    let d = ResizeData { edges: ResizeEdge::from_xdg(8), initial_window_location: Point::new(0, 0), initial_window_size: Size::new(10, 10) };
    let s = ResizeState::Resizing(d).released(5, Size::new(20, 10));
    assert_eq!(s, ResizeState::WaitingForFinalAck(d, 5, Size::new(20, 10)));
    let s = s.acked(4, true);
    assert_eq!(s, ResizeState::WaitingForFinalAck(d, 5, Size::new(20, 10)));
    let s = s.acked(5, true);
    assert_eq!(s.committed(Size::new(19, 10)).0, ResizeState::WaitingForCommit(d, Size::new(20, 10)));
    assert_eq!(s.committed(Size::new(20, 10)).0, ResizeState::NotResizing);
}

#[test]
fn decoration_button_names_and_states() {
    let toggled = ButtonToggledStates::empty().with(TOGGLED_MAXIMIZE, true);
    assert_eq!(button_name(TitlebarButton::Maximize, toggled), DecorButtonName::MaximizeToggled);
    assert_eq!(
        button_state(TitlebarButton::Close, DecorBackgroundState::Active, ButtonHoverState::Close, ButtonPressedState::Close),
        DecorButtonState::Pressed
    );
    assert_eq!(
        button_state(TitlebarButton::Close, DecorBackgroundState::Inactive, ButtonHoverState::Close, ButtonPressedState::NoButton),
        DecorButtonState::Inactive
    );
}

#[test]
fn frame_pieces_surround_the_window() {
    let cfg = LayoutConfig {
        frame_border_top: 0,
        borderless_maximize: false,
        maximized_offset: 0,
        button_offset: 0,
        button_spacing: 0,
        title_vertical_offset_active: 0,
        title_vertical_offset_inactive: 0,
        title_horizontal_offset: 0,
        title_shadow_active: 0,
        title_shadow_inactive: 0,
        full_width_title: false,
        title_alignment: TitleAlignment::Center,
        button_layout_start: vec![],
        button_layout_end: vec![],
    };
    let m = FrameMetrics {
        left_w: 4,
        right_w: 4,
        top_h: 20,
        bottom_h: 4,
        top_left: Size::new(8, 20),
        top_right: Size::new(8, 20),
        bottom_left: Size::new(8, 8),
        bottom_right: Size::new(8, 8),
        title: TitleBackground::Stretched,
    };
    let z = Size::new(0, 0);
    let bs = ButtonSizes { menu: z, hide: z, stick: z, shade: z, close: z, maximize: z };
    let (l, _) = DecorationLayout::new(Size::new(200, 100), &cfg, &m, &bs, z);
    assert_eq!(l.frame.top_left, Rect::new(0, 0, 8, 20));
    assert_eq!(l.frame.top_right, Rect::new(200, 0, 8, 20));
    assert_eq!(l.frame.bottom_left, Rect::new(0, 116, 8, 8));
    assert_eq!(l.frame.bottom_right, Rect::new(200, 116, 8, 8));
    assert_eq!(l.frame.bottom, Rect::new(8, 120, 192, 4));
    assert_eq!(l.frame.left, Rect::new(0, 20, 4, 96));
    assert_eq!(l.frame.right, Rect::new(204, 20, 4, 96));
    assert_eq!(l.left_decoration_width(), 4);
    assert_eq!(l.bottom_decoration_height(), 4);
    assert!(l.point_is_in_decorations(Point::new(1, 50)));
    assert!(!l.point_is_in_decorations(Point::new(100, 60)));
}

#[test]
fn screencopy_region_is_clipped_to_output() {
    let out = Some(Rect::new(100, 50, 800, 600));
    assert_eq!(output_rect_for_frame(out, None), Some(Rect::new(0, 0, 800, 600)));
    assert_eq!(output_rect_for_frame(out, Some(Rect::new(700, 500, 200, 200))), Some(Rect::new(700, 500, 100, 100)));
    assert_eq!(output_rect_for_frame(out, Some(Rect::new(900, 0, 10, 10))), None);
    assert_eq!(output_rect_for_frame(None, None), None);
}

#[test]
fn screencopy_frame_finishes_once() {
    let mut f = ScreencopyFrame::new(Rect::new(0, 0, 10, 10), Size::new(10, 10), false);
    assert!(f.may_send_flags());
    f.request_copy(true);
    assert!(f.may_send_damage(3, 2));
    assert!(f.may_send_damage(2, 2));
    assert!(!f.may_send_damage(1, 2));
    assert!(f.finish());
    assert!(!f.finish());
    assert!(!f.may_send_flags());
    assert_eq!(ready_timestamp(12_345, 12_345_678), (12, 345_678_000));
}

#[test]
fn workspace_requests_queue_until_commit() {
    let mut d = WorkspaceManagerUserData::new();
    d.request_activate("ws1".to_string(), false);
    d.request_activate("ws2".to_string(), true);
    d.request_deactivate("ws3".to_string(), true);
    let taken = d.commit();
    assert_eq!(taken.len(), 2);
    assert!(matches!(&taken[0], ClientRequest::Activate(id) if id == "ws1"));
    assert!(matches!(&taken[1], ClientRequest::Deactivate(id) if id == "ws3"));
    assert!(d.commit().is_empty());
}

#[test]
fn workspace_state_is_announced_when_it_changes() {
    let mut w = WorkspaceInfo { name: "1".to_string(), coordinates: (0, 0), active: false };
    let ch = w.apply_change(Some("One".to_string()), None, Some(false));
    assert_eq!(ch.name, Some("One".to_string()));
    assert_eq!(ch.active, None);
    let ch = w.apply_change(None, Some((1, 0)), Some(true));
    assert_eq!(ch.active, Some(true));
    assert_eq!(w.coordinates, (1, 0));
}

fn query() -> DeviceQuery {
    let p = Pair { default: 0, current: 1 };
    let t = Triple { supported: 3, default: 1, current: 2 };
    let mx = Matrix { m0: 1, m1: 0, m2: 0, m3: 0, m4: 1, m5: 0 };
    let ar = Area { x1: 0, y1: 0, x2: 1, y2: 1 };
    DeviceQuery {
        send_events: t,
        accel_available: true,
        accel_speed: BitsPair { default: 0, current: 5 },
        accel_profile_count: 0,
        accel_profile: t,
        natural_scroll_available: true,
        natural_scroll: p,
        scroll_method_count: 2,
        scroll_has_button_down: false,
        scroll_method: t,
        scroll_button: p,
        scroll_button_lock: p,
        click_method_count: 0,
        click_has_clickfinger: false,
        click_method: t,
        clickfinger_button_map: p,
        left_handed_available: false,
        left_handed: p,
        middle_emulation_available: false,
        middle_emulation: p,
        tap_finger_count: 0,
        tap: p,
        tap_button_map: p,
        tap_drag: p,
        tap_drag_lock: p,
        three_finger_max: 0,
        three_finger: p,
        dwt_available: false,
        dwt: p,
        dwtp_available: false,
        dwtp: p,
        rotation_available: false,
        rotation: p,
        calibration_available: true,
        calibration_default: Some(mx),
        calibration_current: None,
        area_available: false,
        area: AreaPair { default: ar, current: ar },
    }
}

#[test]
fn device_settings_announce_what_the_device_has() {
    let s = DeviceSettings::from_query(&query());
    assert_eq!(s.scroll_button, None);
    assert_eq!(s.tap_finger_count, None);
    let events = s.emit(None);
    assert_eq!(events.len(), 5);
    assert_eq!(events[0], DeviceEvent::SendEvents(Triple { supported: 3, default: 1, current: 2 }));
    assert_eq!(events[1], DeviceEvent::AccelSpeed(BitsPair { default: 0, current: 5 }));
    assert!(s.emit(Some(s)).is_empty());
    let mut q = query();
    q.natural_scroll = Pair { default: 0, current: 0 };
    let s2 = DeviceSettings::from_query(&q);
    assert_eq!(s2.emit(Some(s)), vec![DeviceEvent::NaturalScroll(Pair { default: 0, current: 0 })]);
}

#[test]
fn outputs_are_laid_out_left_to_right() {
    assert_eq!(output_offsets(&vec![1920, 1280, 800]), vec![0, 1920, 3200]);
}

#[test]
fn windows_off_every_output_are_found() {
    let zones = vec![Rect::new(0, 0, 100, 100), Rect::new(100, 0, 100, 100)];
    let corners = vec![Point::new(10, 10), Point::new(250, 10), Point::new(150, 99), Point::new(-1, 5)];
    assert_eq!(orphaned_windows(&corners, &zones), vec![1, 3]);
}

#[test]
fn placement_zone_and_position() {
    let z = placement_zone(None, None);
    assert_eq!(z, Rect::new(0, 0, 800, 800));
    assert_eq!(placement_zone(Some(Rect::new(5, 5, 10, 10)), Some(z)), Rect::new(5, 5, 10, 10));
    let p = random_window_position(z, 533, 533);
    assert!(p.x >= 0 && p.x < 533 && p.y >= 0 && p.y < 533);
}

#[test]
fn window_size_falls_back_in_order() {
    assert_eq!(find_window_geometry(Size::new(0, 0), Size::new(5, 5), None), Some(Size::new(5, 5)));
    assert_eq!(find_window_geometry(Size::new(0, 0), Size::new(0, 5), Some(Size::new(3, 4))), Some(Size::new(3, 4)));
    assert_eq!(find_window_geometry(Size::new(0, 0), Size::new(0, 0), Some(Size::new(0, 4))), None);
}

#[test]
fn desktop_file_names() {
    assert_eq!(desktop_file_name("org.xfce.mousepad"), "org.xfce.mousepad.desktop");
    assert_eq!(desktop_file_name("firefox.desktop"), "firefox.desktop");
}

#[test]
fn icons_are_chosen_by_name_then_buffers() {
    assert_eq!(choose_icon(Some("/usr/share/icon.png".to_string()), &vec![], 1), Some(IconChoice::File("/usr/share/icon.png".to_string())));
    assert_eq!(choose_icon(Some("firefox".to_string()), &vec![], 1), Some(IconChoice::Named("firefox".to_string())));
    let bufs = vec![
        IconBuffer { scale: 2, size: 64 },
        IconBuffer { scale: 1, size: 48 },
        IconBuffer { scale: 2, size: 32 },
        IconBuffer { scale: 1, size: 16 },
    ];
    assert_eq!(choose_icon(None, &bufs, 2), Some(IconChoice::Buffer(2)));
    assert_eq!(choose_icon(None, &bufs, 3), Some(IconChoice::Buffer(3)));
    assert_eq!(choose_icon(None, &vec![], 1), None);
    assert!(!XdgSurfaceProps::new().inner.is_minimized);
}

#[test]
fn dialog_buttons_and_answers() {
    let config = DialogConfig {
        title: "Quit?".to_string(),
        primary_text: None,
        secondary_text: None,
        icon_name: None,
        cancel_button: DialogButton { text: "Cancel".to_string(), action_id: "cancel".to_string() },
        additional_buttons: vec![DialogButton { text: "Quit".to_string(), action_id: "quit".to_string() }],
    };
    let buttons = config.buttons();
    assert_eq!(buttons.len(), 2);
    assert_eq!(buttons[0].action_id, "cancel");
    assert_eq!(buttons[1].text, "Quit");
    assert_eq!(config.default_button(), 1);
    assert_eq!(config.window_icon_name(), "dialog-info");
    let mut a = DialogAnswer::new(2);
    assert!(a.clicked(1));
    assert!(!a.clicked(1));
    assert!(!a.closed());
    let mut b = DialogAnswer::new(2);
    assert!(b.closed());
    assert!(!b.closed());
}

#[test]
fn restart_pause_must_fit_a_duration_when_doubled() {
    assert!(restart_delays_fit(8_000_000, 0));
    let max_half: u128 = 0xffff_ffff_ffff_ffffu128 * 500_000_000 + 499_999_999;
    assert!(restart_delays_fit(max_half, 0));
    assert!(!restart_delays_fit(max_half + 1, 0));
    assert!(restart_delays_fit(max_half + 1, 2_000_000_001));
}

#[test]
fn input_device_list_tracks_devices_and_their_objects() {
    let s = DeviceSettings::from_query(&query());
    let mut list = InputDeviceList::new();
    assert_eq!(list.input_device_added(7, 1, s), 0);
    assert_eq!(list.input_device_added(9, 2, s), 1);
    let first = list.device_sent(0, 100);
    assert_eq!(first, s.emit(None));
    list.device_sent(0, 101);
    list.device_sent(1, 102);

    let mut q = query();
    q.natural_scroll = Pair { default: 0, current: 0 };
    let s2 = DeviceSettings::from_query(&q);
    let (objects, events) = list.input_device_changed(7, s2).unwrap();
    assert_eq!(objects, vec![100, 101]);
    assert_eq!(events, vec![DeviceEvent::NaturalScroll(Pair { default: 0, current: 0 })]);
    assert_eq!(list.devices[0].settings, s2);
    assert!(list.input_device_changed(8, s2).is_none());

    list.device_object_released(101);
    assert_eq!(list.devices[0].instances, vec![100]);
    assert_eq!(list.input_device_removed(7), Some(vec![100]));
    assert_eq!(list.devices.len(), 1);
    assert_eq!(list.devices[0].device, 9);
    assert_eq!(list.input_device_removed(7), None);
}

#[test]
fn float_settings_compare_as_doubles() {
    let mut q = query();
    q.accel_speed = BitsPair { default: 0.0f64.to_bits(), current: 0.0f64.to_bits() };
    let a = DeviceSettings::from_query(&q);
    q.accel_speed = BitsPair { default: 0.0f64.to_bits(), current: (-0.0f64).to_bits() };
    let b = DeviceSettings::from_query(&q);
    assert!(b.emit(Some(a)).is_empty());
    q.accel_speed = BitsPair { default: 0.0f64.to_bits(), current: f64::NAN.to_bits() };
    let n = DeviceSettings::from_query(&q);
    assert_eq!(n.emit(Some(n)), vec![DeviceEvent::AccelSpeed(q.accel_speed)]);
}

#[test]
fn calibration_falls_back_to_the_identity() {
    let s = DeviceSettings::from_query(&query());
    let one = 1.0f64.to_bits();
    let identity = Matrix { m0: one, m1: 0, m2: 0, m3: 0, m4: one, m5: 0 };
    let c = s.calibration.unwrap();
    assert_eq!(c.current, identity);
    assert_eq!(c.default, Matrix { m0: 1, m1: 0, m2: 0, m3: 0, m4: 1, m5: 0 });
}
