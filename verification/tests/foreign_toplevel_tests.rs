use xfwl4::foreign_toplevel::{
    check_icon_pixels, icon_pixels_reply, new_session_id, new_toplevel_id, sort_icon_sizes, wlr_states, xfce_states,
    IconEvent, IconPixelsError, IconPixelsReply, IconSize, ToplevelHandleData, ToplevelId, WlrToplevelInfo,
    WlrToplevelState, XfceToplevelInfo, XfceToplevelState, STATE_ACTIVATED, STATE_FULLSCREEN, STATE_KEEP_ABOVE,
    STATE_MAXIMIZED, STATE_SHADED, STATE_STICKY, USED_STATES_V1,
};

#[test]
fn icon_size_is_larger_side_over_scale() {
    let s = IconSize::new(64, 48, 2);
    assert_eq!(s, IconSize { size: 32, scale: 2 });
}

#[test]
fn toplevel_ids_are_32_alphanumerics_and_differ() {
    let a = new_toplevel_id();
    let b = new_toplevel_id();
    assert_eq!(a.0.len(), 32);
    assert!(a.0.chars().all(|c| c.is_ascii_alphanumeric()));
    assert_ne!(a, b);
    let s = new_session_id();
    assert_eq!(s.len(), 32);
    let h = ToplevelHandleData(a.clone());
    assert_eq!(h.toplevel_id(), &a);
}

#[test]
fn state_arrays_follow_protocol_order() {
    assert_eq!(
        wlr_states(STATE_ACTIVATED | STATE_MAXIMIZED | STATE_FULLSCREEN),
        vec![WlrToplevelState::Maximized, WlrToplevelState::Activated, WlrToplevelState::Fullscreen]
    );
    assert_eq!(xfce_states(STATE_KEEP_ABOVE | STATE_SHADED), vec![XfceToplevelState::Shaded, XfceToplevelState::Above]);
}

#[test]
fn icon_sizes_sort_by_physical_size_stably() {
    let sizes = vec![
        IconSize { size: 32, scale: 2 },
        IconSize { size: 16, scale: 1 },
        IconSize { size: 64, scale: 1 },
        IconSize { size: 16, scale: 4 },
    ];
    assert_eq!(
        sort_icon_sizes(sizes),
        vec![
            IconSize { size: 16, scale: 1 },
            IconSize { size: 32, scale: 2 },
            IconSize { size: 64, scale: 1 },
            IconSize { size: 16, scale: 4 },
        ]
    );
}

fn wlr_info() -> WlrToplevelInfo {
    WlrToplevelInfo {
        title: "Terminal".to_string(),
        app_id: "xfce4-terminal".to_string(),
        state: STATE_ACTIVATED,
        outputs: vec![1, 2],
        parent: None,
    }
}

#[test]
fn wlr_change_announces_only_differences() {
    let mut info = wlr_info();
    let ch = info.apply_change(
        Some("Terminal".to_string()),
        Some("other".to_string()),
        Some(STATE_ACTIVATED | STATE_STICKY),
        vec![2, 3, 3],
        vec![1, 5],
        None,
    );
    assert!(ch.sent);
    assert_eq!(ch.title, None);
    assert_eq!(ch.app_id, Some("other".to_string()));
    assert_eq!(ch.state, Some(STATE_ACTIVATED));
    assert!(!ch.state_changed);
    assert_eq!(ch.added_outputs, vec![3, 3]);
    assert_eq!(ch.removed_outputs, vec![1]);
    assert_eq!(info.outputs, vec![2, 3]);
    assert_eq!(info.app_id, "other");
}

#[test]
fn wlr_state_event_depends_on_version() {
    let mut info = wlr_info();
    let ch = info.apply_change(None, None, Some(STATE_FULLSCREEN), vec![], vec![], None);
    assert!(ch.state_changed && ch.state_v1_changed);
    assert_eq!(ch.state_event(2), Some(STATE_FULLSCREEN));
    assert_eq!(ch.state_event(1), Some(STATE_FULLSCREEN & USED_STATES_V1));
}

#[test]
fn wlr_repeated_change_is_not_announced() {
    let mut info = wlr_info();
    let first = info.apply_change(Some("Editor".to_string()), None, None, vec![], vec![], Some(Some(ToplevelId("p".to_string()))));
    assert!(first.sent);
    let second = info.apply_change(Some("Editor".to_string()), None, None, vec![], vec![], Some(Some(ToplevelId("p".to_string()))));
    assert!(!second.sent);
    assert_eq!(second.parent, None);
}

#[test]
fn xfce_change_sorts_icon_sizes_and_updates() {
    let mut info = XfceToplevelInfo { state: 0, workspace_id: None, icon_name: None, icon_sizes: vec![] };
    let ch = info.apply_change(
        Some(STATE_STICKY),
        Some(Some("ws1".to_string())),
        None,
        Some(vec![IconSize { size: 48, scale: 1 }, IconSize { size: 16, scale: 1 }]),
    );
    assert!(ch.sent && ch.icon_changed);
    assert_eq!(ch.state, Some(STATE_STICKY));
    assert_eq!(info.icon_sizes, vec![IconSize { size: 16, scale: 1 }, IconSize { size: 48, scale: 1 }]);
    assert_eq!(info.workspace_id, Some("ws1".to_string()));
    let events = info.icon_events();
    assert_eq!(events, vec![IconEvent::Size(IconSize { size: 16, scale: 1 }), IconEvent::Size(IconSize { size: 48, scale: 1 })]);
}

#[test]
fn toplevel_without_icon_reports_no_icon() {
    let info = XfceToplevelInfo { state: 0, workspace_id: None, icon_name: None, icon_sizes: vec![] };
    assert_eq!(info.icon_events(), vec![IconEvent::NoIcon]);
    let named = XfceToplevelInfo { state: 0, workspace_id: None, icon_name: Some("firefox".to_string()), icon_sizes: vec![] };
    assert_eq!(named.icon_events(), vec![IconEvent::Name("firefox".to_string())]);
}

#[test]
fn icon_pixels_are_checked() {
    assert_eq!(check_icon_pixels(64, 4, 4, 16), Ok(()));
    assert_eq!(check_icon_pixels(60, 4, 4, 16), Err(IconPixelsError::LengthMismatch));
    assert_eq!(check_icon_pixels(48, 4, 4, 12), Err(IconPixelsError::WidthTooLarge));
}

#[test]
fn icon_pixels_reply_choices() {
    assert_eq!(icon_pixels_reply(false, Some(1u8)), IconPixelsReply::NoPixelData);
    assert_eq!(icon_pixels_reply(true, Some(1u8)), IconPixelsReply::Pixels(1));
    assert_eq!(icon_pixels_reply::<u8>(true, None), IconPixelsReply::InvalidArgs);
}

#[test]
fn handle_finds_its_toplevel() {
    let ts = vec![
        (ToplevelId("a".to_string()), vec![1, 2]),
        (ToplevelId("b".to_string()), vec![3]),
        (ToplevelId("c".to_string()), vec![3, 4]),
    ];
    assert_eq!(xfwl4::foreign_toplevel::toplevel_for_handle(&ts, 2), Some(ToplevelId("a".to_string())));
    assert_eq!(xfwl4::foreign_toplevel::toplevel_for_handle(&ts, 3), Some(ToplevelId("b".to_string())));
    assert_eq!(xfwl4::foreign_toplevel::toplevel_for_handle(&ts, 4), Some(ToplevelId("c".to_string())));
    assert_eq!(xfwl4::foreign_toplevel::toplevel_for_handle(&ts, 9), None);
}
