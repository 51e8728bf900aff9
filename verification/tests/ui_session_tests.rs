use xfwl4::compositor_ui::{ActionType, Direction, WindowMenuAction};
use xfwl4::tabwin::TabwinMode;
use xfwl4::ui_session::{
    decode_icon_sizes, ui_client_may_view, CompositorUiState, IconSizeHints, TabwinNotice, TabwinRequest,
    UiRequestError, WindowMenuNotice, WindowMenuRequest, WindowMenuSession,
};

fn hints() -> IconSizeHints {
    IconSizeHints { tabwin_mode: TabwinMode::Grid, tabwin_show_window_previews: true }
}

fn bound_state() -> CompositorUiState {
    let mut s = CompositorUiState::new(hints());
    s.set_ui_client_pid(Some(4242));
    assert!(s.bind(7));
    s
}

#[test]
fn nothing_is_shown_before_the_ui_process_binds() {
    let mut s = CompositorUiState::new(hints());
    assert_eq!(s.client_pid(), None);
    assert_eq!(s.check_create_tabwin(true), Err(UiRequestError::NoClient));
    assert_eq!(s.check_create_window_menu(true), Err(UiRequestError::NoClient));
    s.set_ui_client_pid(Some(4242));
    assert_eq!(s.client_pid(), Some(4242));
    assert!(s.bind(7));
    assert!(!s.bind(8));
    assert_eq!(s.manager, Some(7));
    assert_eq!(s.check_create_tabwin(true), Ok(()));
    assert_eq!(s.check_create_tabwin(false), Err(UiRequestError::NoClient));
}

#[test]
fn only_the_ui_process_may_view_the_manager() {
    assert!(ui_client_may_view(Some(10), Some(10)));
    assert!(!ui_client_may_view(Some(10), Some(11)));
    assert!(!ui_client_may_view(Some(10), None));
    assert!(!ui_client_may_view(None, Some(10)));
}

#[test]
fn a_second_tabwin_is_refused_and_finishing_reports_once() {
    let mut s = bound_state();
    s.tabwin_created(20, true, vec![(1, 21), (2, 22)]);
    assert_eq!(s.check_create_tabwin(true), Err(UiRequestError::TabwinAlreadyUp));
    assert_eq!(s.tabwin_request(TabwinRequest::Hover(2)), TabwinNotice::Hover(2));
    assert!(s.tabwin.is_some());
    assert_eq!(s.tabwin_request(TabwinRequest::Finished(2)), TabwinNotice::Finished(Some(2)));
    assert!(s.tabwin.is_none());
    assert_eq!(s.tabwin_destroyed(20), None);
}

#[test]
fn tabwin_destroyed_before_finishing_is_dismissed() {
    let mut s = bound_state();
    s.tabwin_created(20, false, Vec::new());
    assert_eq!(s.tabwin_destroyed(99), None);
    assert!(s.tabwin.is_some());
    assert_eq!(s.tabwin_destroyed(20), Some(TabwinNotice::Finished(None)));
    assert!(s.tabwin.is_none());
    s.tabwin_created(30, false, Vec::new());
    assert_eq!(s.tabwin_request(TabwinRequest::Dismissed), TabwinNotice::Finished(None));
}

#[test]
fn adding_windows_to_the_tabwin() {
    let mut s = bound_state();
    assert_eq!(s.check_tabwin_add_window(true), Err(UiRequestError::TabwinNotUp));
    assert!(!s.tabwin_remove_window());
    s.tabwin_created(20, true, vec![(1, 21)]);
    assert_eq!(s.check_tabwin_add_window(true), Ok(true));
    s.tabwin_window_sent(2, 22);
    s.tabwin_window_sent(3, 23);
    assert!(s.tabwin_remove_window());
    s.tabwin_window_destroyed(22);
    assert_eq!(s.tabwin.as_ref().unwrap().windows, vec![(1, 21), (3, 23)]);
    assert_eq!(s.check_tabwin_add_window(false), Err(UiRequestError::TabwinClientGone));
    assert!(s.tabwin.is_none());
}

#[test]
fn window_menu_requests_count_only_from_the_open_menu() {
    let mut s = bound_state();
    s.window_menu_created(40, 5);
    assert_eq!(s.check_create_window_menu(true), Err(UiRequestError::WindowMenuAlreadyUp));
    assert_eq!(s.window_menu_request(41, WindowMenuRequest::Ready), None);
    assert_eq!(s.window_menu_request(40, WindowMenuRequest::Ready), Some(WindowMenuNotice::Ready));
    assert_eq!(
        s.window_menu_request(40, WindowMenuRequest::Action(Some(ActionType::Close))),
        Some(WindowMenuNotice::Action(5, WindowMenuAction::Action(ActionType::Close)))
    );
    assert_eq!(s.window_menu_request(40, WindowMenuRequest::Action(None)), None);
    assert_eq!(
        s.window_menu_request(40, WindowMenuRequest::MoveToWorkspace(2)),
        Some(WindowMenuNotice::Action(5, WindowMenuAction::MoveToWorkspace(2)))
    );
    assert_eq!(
        s.window_menu_request(40, WindowMenuRequest::MoveToOutput(Some(Direction::Left))),
        Some(WindowMenuNotice::Action(5, WindowMenuAction::MoveToOutput(Direction::Left)))
    );
    assert_eq!(s.window_menu, Some(WindowMenuSession { object: 40, window_id: 5 }));
    assert_eq!(s.window_menu_request(40, WindowMenuRequest::Dismissed), Some(WindowMenuNotice::Dismissed));
    assert_eq!(s.window_menu, None);
    assert!(!s.window_menu_destroyed(40));
}

#[test]
fn window_menu_destroyed_before_dismissal_is_dismissed() {
    let mut s = bound_state();
    s.window_menu_created(40, 5);
    assert!(!s.window_menu_destroyed(41));
    assert!(s.window_menu_destroyed(40));
    assert_eq!(s.window_menu_request(40, WindowMenuRequest::Dismissed), None);
}

#[test]
fn a_new_ui_process_forgets_the_old_one() {
    let mut s = bound_state();
    s.tabwin_created(20, true, Vec::new());
    s.window_menu_created(40, 5);
    s.set_ui_client_pid(Some(5151));
    assert_eq!(s.manager, None);
    assert!(s.tabwin.is_none());
    assert_eq!(s.window_menu, None);
    assert_eq!(s.icon_size_hints, hints());
}

#[test]
fn quitting_and_disconnects() {
    let mut s = bound_state();
    assert!(s.set_icon_size_hints(IconSizeHints { tabwin_mode: TabwinMode::List, tabwin_show_window_previews: false }));
    assert_eq!(s.icon_size_hints.tabwin_mode, TabwinMode::List);
    assert!(s.manager_destroyed(99));
    assert_eq!(s.manager, Some(7));
    assert!(s.send_quit());
    assert!(s.shutting_down);
    assert!(!s.manager_destroyed(7));
    assert_eq!(s.manager, None);
    assert!(!s.send_quit());
    assert!(!s.set_icon_size_hints(hints()));
}

#[test]
fn request_error_messages() {
    assert_eq!(UiRequestError::NoClient.message(), "No UI process bound or client gone");
    assert_eq!(UiRequestError::TabwinAlreadyUp.message(), "Attempt to raise tabwin while it's already up");
    assert_eq!(UiRequestError::TabwinNotUp.message(), "Attempt to add window to tabwin when it's not up");
    assert_eq!(
        UiRequestError::TabwinClientGone.message(),
        "Attempt to add window to tabwin, but the UI process client is gone"
    );
    assert_eq!(
        UiRequestError::WindowMenuAlreadyUp.message(),
        "Attempt to create the window menu when it's already up"
    );
}

#[test]
fn icon_sizes_are_decoded_once_each() {
    let mut bytes: Vec<u8> = [48i32, 24, 48, -1].iter().flat_map(|v| v.to_ne_bytes()).collect();
    bytes.push(1);
    bytes.push(2);
    assert_eq!(decode_icon_sizes(&bytes), vec![48, 24, -1]);
    assert_eq!(decode_icon_sizes(&Vec::new()), Vec::<i32>::new());
}
