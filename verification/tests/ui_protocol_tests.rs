use xfwl4::compositor_ui::{
    ActionType, Direction, Icon, Pixels, StackingState, TabwinWindow, TabwinWindowEvent, TabwinWindowState,
    WindowMenuAction as CompositorMenuAction, WindowMenuState as CompositorMenuState,
};
use xfwl4::tabwin::{ShortcutKey, TabwinKeyAction, TabwinShortcuts};
use xfwl4::ui_protocol::{finish_tabwin, ui_socket_path, SocketPathError, TabwinGathering, WindowMenuAction, WindowMenuState};
use xfwl4::window_menu::{create_menu, MenuItemKind, MenuText};

fn window(id: u32, title: &str) -> TabwinWindow {
    TabwinWindow {
        window_id: id,
        app_name: Some("App".to_string()),
        title: title.to_string(),
        preview: Some(Pixels { bytes: vec![0, 0, 0, 255], width: 1, height: 1 }),
        app_icon: Some(Icon::Named("app-icon".to_string())),
        is_minimized: true,
    }
}

fn gather(events: Vec<TabwinWindowEvent>) -> TabwinWindowState {
    let mut s = TabwinWindowState::new();
    for e in events {
        s.apply(e);
    }
    s
}

#[test]
fn window_round_trips_through_events() {
    let w = gather(window(7, "Editor").into_events(true)).finish().unwrap();
    assert_eq!(w.window_id, 7);
    assert_eq!(w.title, "Editor");
    assert_eq!(w.app_name, Some("App".to_string()));
    assert!(w.is_minimized);
    assert_eq!(w.preview.map(|p| p.bytes), Some(vec![0, 0, 0, 255]));
    assert!(matches!(w.app_icon, Some(Icon::Named(ref n)) if n == "app-icon"));
}

#[test]
fn previews_are_not_sent_when_hidden() {
    let events = window(7, "Editor").into_events(false);
    assert!(!events.iter().any(|e| matches!(e, TabwinWindowEvent::Preview(_))));
    let w = gather(events).finish().unwrap();
    assert!(w.preview.is_none());
}

#[test]
fn window_without_title_is_not_shown() {
    let mut s = TabwinWindowState::new();
    s.apply(TabwinWindowEvent::WindowId(3));
    assert!(s.finish().is_none());
}

#[test]
fn tabwin_selects_second_window_by_default() {
    let states = vec![gather(window(1, "a").into_events(true)), gather(window(2, "b").into_events(true))];
    let (ws, sel) = finish_tabwin(states, None).unwrap();
    assert_eq!(ws.len(), 2);
    assert_eq!(sel, 2);
    let single = vec![gather(window(5, "only").into_events(true)), TabwinWindowState::new()];
    let (ws, sel) = finish_tabwin(single, None).unwrap();
    assert_eq!(ws.len(), 1);
    assert_eq!(sel, 5);
    let named = vec![gather(window(1, "a").into_events(true))];
    assert_eq!(finish_tabwin(named, Some(42)).unwrap().1, 42);
    assert!(finish_tabwin(vec![TabwinWindowState::new()], Some(1)).is_none());
}

fn compositor_menu() -> CompositorMenuState {
    CompositorMenuState {
        window_id: 9,
        maximize_state: Some(true),
        can_minimize: true,
        can_move: false,
        can_resize: true,
        stacking_state: StackingState::AlwaysOnTop,
        shaded_state: None,
        fullscreen_state: Some(false),
        sticky: true,
        workspace_names: vec!["One".to_string(), "Two".to_string(), "Three".to_string()],
        current_workspace: 1,
        adjacent_outputs: vec![Direction::Left, Direction::Up],
        can_close: true,
    }
}

#[test]
fn window_menu_round_trips_through_events() {
    let menu = compositor_menu();
    let mut ui = WindowMenuState::new();
    for e in menu.events() {
        ui.apply(e);
    }
    assert_eq!(ui.window_id, Some(9));
    assert_eq!(ui.maximized, Some(true));
    assert!(ui.can_minimize && !ui.can_move && ui.can_resize);
    assert_eq!(ui.stacking_state, StackingState::AlwaysOnTop);
    assert_eq!(ui.shaded, None);
    assert_eq!(ui.fullscreen, Some(false));
    assert!(ui.sticky && ui.can_close);
    assert_eq!(ui.workspace_names, vec!["One".to_string(), "Two".to_string(), "Three".to_string()]);
    assert_eq!(ui.current_workspace, Some(1));
    assert_eq!(ui.adjacent_outputs, vec![Direction::Left, Direction::Up]);
}

#[test]
fn current_workspace_outside_the_list_is_not_marked() {
    let mut menu = compositor_menu();
    menu.current_workspace = 7;
    let mut ui = WindowMenuState::new();
    for e in menu.events() {
        ui.apply(e);
    }
    assert_eq!(ui.current_workspace, None);
}

#[test]
fn menu_choices_map_to_requests() {
    assert_eq!(WindowMenuAction::Fullscreen.request(), CompositorMenuAction::Action(ActionType::ToggleFullscreen));
    assert_eq!(WindowMenuAction::MoveToWorkspace(2).request(), CompositorMenuAction::MoveToWorkspace(2));
    assert_eq!(WindowMenuAction::MoveToOutput(Direction::Down).request(), CompositorMenuAction::MoveToOutput(Direction::Down));
}

#[test]
fn window_menu_entries() {
    let names = vec!["One".to_string(), "Two".to_string()];
    let model = create_menu(
        Some(true),
        false,
        true,
        true,
        StackingState::Normal,
        None,
        Some(true),
        false,
        Some(0),
        &names,
        &vec![],
        true,
    );
    assert_eq!(model.items.len(), 17);
    assert_eq!(model.items[0].text, Some(MenuText::Unmaximize));
    assert!(model.items[0].sensitive);
    assert!(!model.items[1].sensitive);
    assert_eq!(model.items[7].kind, MenuItemKind::Radio { active: true });
    assert_eq!(model.items[10].text, Some(MenuText::RollWindowUp));
    assert!(!model.items[10].sensitive);
    assert_eq!(model.items[11].text, Some(MenuText::Unfullscreen));
    assert_eq!(model.items[16].action, Some(WindowMenuAction::Close));
    assert_eq!(model.workspace_items.len(), 2);
    assert!(!model.workspace_items[0].sensitive);
    assert!(model.workspace_items[1].sensitive);
    assert_eq!(model.workspace_items[1].name, Some("Two".to_string()));
    assert!(model.monitor_items.is_empty());
}

#[test]
fn window_menu_has_monitor_submenu_with_adjacent_outputs() {
    let model = create_menu(
        None,
        true,
        true,
        true,
        StackingState::AlwaysBelow,
        Some(false),
        None,
        true,
        None,
        &vec![],
        &vec![Direction::Right],
        false,
    );
    assert_eq!(model.items.len(), 18);
    assert_eq!(model.items[15].text, Some(MenuText::MoveToAnotherMonitor));
    assert!(!model.items[14].sensitive);
    assert_eq!(model.monitor_items[0].text, Some(MenuText::MonitorRight));
    assert_eq!(model.monitor_items[0].action, Some(WindowMenuAction::MoveToOutput(Direction::Right)));
}

fn key(keysym: u32, modifiers: u32) -> ShortcutKey {
    ShortcutKey { keysym, modifiers }
}

fn default_keys() -> TabwinShortcuts {
    TabwinShortcuts {
        next: key(0xff09, 8),
        prev: key(0xfe20, 9),
        up: key(0xff52, 0),
        down: key(0xff54, 0),
        left: key(0xff51, 0),
        right: key(0xff53, 0),
        cancel: key(0xff1b, 0),
    }
}

#[test]
fn unset_switcher_keys_fall_back_to_defaults() {
    let mut g = TabwinGathering::new();
    g.windows.push(gather(window(1, "a").into_events(true)));
    g.windows.push(gather(window(2, "b").into_events(true)));
    g.bindings.bind(TabwinKeyAction::Next, key(0x61, 4));
    g.bindings.bind(TabwinKeyAction::Cancel, key(0x71, 0));
    g.bindings.bind(TabwinKeyAction::Cancel, key(0x72, 0));
    let (ws, sel, keys) = g.done(&default_keys()).unwrap();
    assert_eq!(ws.len(), 2);
    assert_eq!(sel, 2);
    assert_eq!(keys.next, key(0x61, 4));
    assert_eq!(keys.cancel, key(0x72, 0));
    assert_eq!(keys.prev, default_keys().prev);
    assert_eq!(keys.up, default_keys().up);
    assert_eq!(keys.down, default_keys().down);
    assert_eq!(keys.left, default_keys().left);
    assert_eq!(keys.right, default_keys().right);
}

#[test]
fn switcher_with_no_window_is_dismissed() {
    let mut g = TabwinGathering::new();
    g.windows.push(TabwinWindowState::new());
    g.initial_selection = Some(3);
    assert!(g.done(&default_keys()).is_none());
}

fn bytes(s: &str) -> Vec<u8> {
    s.as_bytes().to_vec()
}

#[test]
fn ui_socket_path_follows_the_runtime_dir() {
    assert_eq!(ui_socket_path(&bytes("/tmp/ui-0"), None), Ok(bytes("/tmp/ui-0")));
    assert_eq!(ui_socket_path(&bytes("xfwl4-ui-0"), Some(bytes("/run/user/1000"))), Ok(bytes("/run/user/1000/xfwl4-ui-0")));
    assert_eq!(ui_socket_path(&bytes("xfwl4-ui-0"), Some(bytes("/run/user/1000/"))), Ok(bytes("/run/user/1000/xfwl4-ui-0")));
    assert_eq!(ui_socket_path(&bytes("xfwl4-ui-0"), None), Err(SocketPathError::NoRuntimeDir));
    assert_eq!(ui_socket_path(&bytes("xfwl4-ui-0"), Some(bytes("run/user"))), Err(SocketPathError::RelativeRuntimeDir));
    assert_eq!(ui_socket_path(&bytes("xfwl4-ui-0"), Some(bytes(""))), Err(SocketPathError::RelativeRuntimeDir));
}
