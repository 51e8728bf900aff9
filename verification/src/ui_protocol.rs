//! The UI process's side of the private compositor protocol: gathering the window menu's state
//! and the window switcher's window list from the compositor's events, and answering with the
//! user's choice.

use vstd::prelude::*;
use crate::compositor_ui::{
    ActionType, Direction, StackingState, TabwinWindow, TabwinWindowState, TabwinWindowView,
    TabwinWindowStateView, WindowMenuEvent, WindowMenuEventView, spec_finish_window, spec_menu_events, if_seq,
    workspace_events, monitor_events, opt_event, opt_window_view,
};
use crate::compositor_ui::WindowMenuAction as RequestedAction;
use crate::tabwin::{ShortcutKey, TabwinKeyAction, TabwinShortcuts};

verus! {

/// What the UI process has gathered of the window menu's window so far.
pub struct WindowMenuState {
    pub window_id: Option<u32>,
    pub maximized: Option<bool>,
    pub can_minimize: bool,
    pub can_move: bool,
    pub can_resize: bool,
    pub stacking_state: StackingState,
    pub shaded: Option<bool>,
    pub fullscreen: Option<bool>,
    pub sticky: bool,
    pub current_workspace: Option<u32>,
    pub workspace_names: Vec<String>,
    pub adjacent_outputs: Vec<Direction>,
    pub can_close: bool,
}

pub struct WindowMenuStateView {
    pub window_id: Option<u32>,
    pub maximized: Option<bool>,
    pub can_minimize: bool,
    pub can_move: bool,
    pub can_resize: bool,
    pub stacking_state: StackingState,
    pub shaded: Option<bool>,
    pub fullscreen: Option<bool>,
    pub sticky: bool,
    pub current_workspace: Option<u32>,
    pub workspace_names: Seq<Seq<char>>,
    pub adjacent_outputs: Seq<Direction>,
    pub can_close: bool,
}

impl View for WindowMenuState {
    type V = WindowMenuStateView;

    open spec fn view(&self) -> WindowMenuStateView {
        WindowMenuStateView {
            window_id: self.window_id,
            maximized: self.maximized,
            can_minimize: self.can_minimize,
            can_move: self.can_move,
            can_resize: self.can_resize,
            stacking_state: self.stacking_state,
            shaded: self.shaded,
            fullscreen: self.fullscreen,
            sticky: self.sticky,
            current_workspace: self.current_workspace,
            workspace_names: self.workspace_names@.map_values(|n: String| n@),
            adjacent_outputs: self.adjacent_outputs@,
            can_close: self.can_close,
        }
    }
}

pub open spec fn empty_menu_state() -> WindowMenuStateView {
    WindowMenuStateView {
        window_id: None,
        maximized: None,
        can_minimize: false,
        can_move: false,
        can_resize: false,
        stacking_state: StackingState::Normal,
        shaded: None,
        fullscreen: None,
        sticky: false,
        current_workspace: None,
        workspace_names: Seq::empty(),
        adjacent_outputs: Seq::empty(),
        can_close: false,
    }
}

/// A window-menu event recorded.  A workspace marked current becomes current under the index
/// it gets in the list.
pub open spec fn spec_apply_menu_event(s: WindowMenuStateView, e: WindowMenuEventView) -> WindowMenuStateView {
    match e {
        WindowMenuEventView::WindowId(id) => WindowMenuStateView { window_id: Some(id), ..s },
        WindowMenuEventView::IsMaximized(b) => WindowMenuStateView { maximized: Some(b), ..s },
        WindowMenuEventView::CanMinimize => WindowMenuStateView { can_minimize: true, ..s },
        WindowMenuEventView::CanMove => WindowMenuStateView { can_move: true, ..s },
        WindowMenuEventView::CanResize => WindowMenuStateView { can_resize: true, ..s },
        WindowMenuEventView::StackingState(st) => WindowMenuStateView { stacking_state: st, ..s },
        WindowMenuEventView::IsShaded(b) => WindowMenuStateView { shaded: Some(b), ..s },
        WindowMenuEventView::IsFullscreen(b) => WindowMenuStateView { fullscreen: Some(b), ..s },
        WindowMenuEventView::Sticky => WindowMenuStateView { sticky: true, ..s },
        WindowMenuEventView::Workspace { name, is_current } => WindowMenuStateView {
            current_workspace: if is_current {
                Some(s.workspace_names.len() as u32)
            } else {
                s.current_workspace
            },
            workspace_names: s.workspace_names.push(name),
            ..s
        },
        WindowMenuEventView::AdjacentMonitor(d) => WindowMenuStateView {
            adjacent_outputs: s.adjacent_outputs.push(d),
            ..s
        },
        WindowMenuEventView::CanClose => WindowMenuStateView { can_close: true, ..s },
        WindowMenuEventView::Done => s,
    }
}

pub open spec fn spec_apply_menu_events(s: WindowMenuStateView, es: Seq<WindowMenuEventView>) -> WindowMenuStateView
    decreases es.len(),
{
    if es.len() == 0 {
        s
    } else {
        spec_apply_menu_event(spec_apply_menu_events(s, es.drop_last()), es.last())
    }
}

impl WindowMenuState {
    pub fn new() -> (r: WindowMenuState)
        ensures
            r@ == empty_menu_state(),
    {
        let r = WindowMenuState {
            window_id: None,
            maximized: None,
            can_minimize: false,
            can_move: false,
            can_resize: false,
            stacking_state: StackingState::Normal,
            shaded: None,
            fullscreen: None,
            sticky: false,
            current_workspace: None,
            workspace_names: Vec::new(),
            adjacent_outputs: Vec::new(),
            can_close: false,
        };
        assert(r@.workspace_names =~= Seq::<Seq<char>>::empty());
        r
    }

    /// Records one event.
    pub fn apply(&mut self, e: WindowMenuEvent)
        requires
            old(self).workspace_names@.len() < u32::MAX,
        ensures
            final(self)@ == spec_apply_menu_event(old(self)@, e@),
    {
        match e {
            WindowMenuEvent::WindowId(id) => { self.window_id = Some(id); },
            WindowMenuEvent::IsMaximized(b) => { self.maximized = Some(b); },
            WindowMenuEvent::CanMinimize => { self.can_minimize = true; },
            WindowMenuEvent::CanMove => { self.can_move = true; },
            WindowMenuEvent::CanResize => { self.can_resize = true; },
            WindowMenuEvent::StackingState(st) => { self.stacking_state = st; },
            WindowMenuEvent::IsShaded(b) => { self.shaded = Some(b); },
            WindowMenuEvent::IsFullscreen(b) => { self.fullscreen = Some(b); },
            WindowMenuEvent::Sticky => { self.sticky = true; },
            WindowMenuEvent::Workspace { name, is_current } => {
                if is_current {
                    let cur_num = self.workspace_names.len() as u32;
                    self.current_workspace = Some(cur_num);
                }
                let ghost before = self.workspace_names@;
                let ghost nv = name@;
                self.workspace_names.push(name);
                assert(self.workspace_names@.map_values(|n: String| n@) =~= before.map_values(
                    |n: String| n@,
                ).push(nv));
            },
            WindowMenuEvent::AdjacentMonitor(d) => { self.adjacent_outputs.push(d); },
            WindowMenuEvent::CanClose => { self.can_close = true; },
            WindowMenuEvent::Done => {},
        }
    }
}

proof fn lemma_apply_menu_concat(s: WindowMenuStateView, a: Seq<WindowMenuEventView>, b: Seq<WindowMenuEventView>)
    ensures
        spec_apply_menu_events(s, a + b) == spec_apply_menu_events(spec_apply_menu_events(s, a), b),
    decreases b.len(),
{
    if b.len() == 0 {
        assert(a + b =~= a);
    } else {
        lemma_apply_menu_concat(s, a, b.drop_last());
        assert((a + b).drop_last() =~= a + b.drop_last());
        assert((a + b).last() == b.last());
    }
}

proof fn lemma_apply_menu_short(s: WindowMenuStateView, a: Seq<WindowMenuEventView>)
    requires
        a.len() <= 1,
    ensures
        spec_apply_menu_events(s, a) == (if a.len() == 0 { s } else { spec_apply_menu_event(s, a[0]) }),
{
    if a.len() == 1 {
        assert(a.drop_last() =~= Seq::<WindowMenuEventView>::empty());
        assert(spec_apply_menu_events(s, a.drop_last()) == s);
        assert(a.last() == a[0]);
    }
}

proof fn lemma_apply_workspaces(s: WindowMenuStateView, names: Seq<Seq<char>>, current: u32)
    requires
        s.workspace_names.len() == 0,
        s.current_workspace.is_none(),
        names.len() <= u32::MAX,
    ensures
        spec_apply_menu_events(s, workspace_events(names, current)) == (WindowMenuStateView {
            workspace_names: names,
            current_workspace: if current < names.len() { Some(current) } else { None },
            ..s
        }),
    decreases names.len(),
{
    if names.len() == 0 {
        assert(workspace_events(names, current) =~= Seq::<WindowMenuEventView>::empty());
        assert(s.workspace_names =~= names);
    } else {
        let init = names.drop_last();
        lemma_apply_workspaces(s, init, current);
        let es = workspace_events(names, current);
        assert(es.drop_last() =~= workspace_events(init, current));
        assert(es.last() == WindowMenuEventView::Workspace {
            name: names.last(),
            is_current: names.len() - 1 == current,
        });
        assert(init.len() as u32 == init.len());
        assert(init.push(names.last()) =~= names);
    }
}

proof fn lemma_apply_monitors(s: WindowMenuStateView, dirs: Seq<Direction>)
    ensures
        spec_apply_menu_events(s, monitor_events(dirs)) == (WindowMenuStateView {
            adjacent_outputs: s.adjacent_outputs + dirs,
            ..s
        }),
    decreases dirs.len(),
{
    if dirs.len() == 0 {
        assert(monitor_events(dirs) =~= Seq::<WindowMenuEventView>::empty());
        assert(s.adjacent_outputs + dirs =~= s.adjacent_outputs);
    } else {
        lemma_apply_monitors(s, dirs.drop_last());
        assert(monitor_events(dirs).drop_last() =~= monitor_events(dirs.drop_last()));
        assert(s.adjacent_outputs + dirs =~= (s.adjacent_outputs + dirs.drop_last()).push(dirs.last()));
    }
}

/// The menu state the UI process gathers from the events the compositor sends is the
/// compositor's: every flag, the workspace list, and the current workspace when its index
/// lies within the list.
pub proof fn lemma_menu_round_trip(
    window_id: u32,
    maximize_state: Option<bool>,
    can_minimize: bool,
    can_move: bool,
    can_resize: bool,
    stacking_state: StackingState,
    shaded_state: Option<bool>,
    fullscreen_state: Option<bool>,
    sticky: bool,
    workspace_names: Seq<Seq<char>>,
    current_workspace: u32,
    adjacent_outputs: Seq<Direction>,
    can_close: bool,
)
    requires
        workspace_names.len() <= u32::MAX,
    ensures
        spec_apply_menu_events(
            empty_menu_state(),
            spec_menu_events(
                window_id,
                maximize_state,
                can_minimize,
                can_move,
                can_resize,
                stacking_state,
                shaded_state,
                fullscreen_state,
                sticky,
                workspace_names,
                current_workspace,
                adjacent_outputs,
                can_close,
            ),
        ) == (WindowMenuStateView {
            window_id: Some(window_id),
            maximized: maximize_state,
            can_minimize,
            can_move,
            can_resize,
            stacking_state,
            shaded: shaded_state,
            fullscreen: fullscreen_state,
            sticky,
            current_workspace: if current_workspace < workspace_names.len() {
                Some(current_workspace)
            } else {
                None
            },
            workspace_names,
            adjacent_outputs,
            can_close,
        }),
{
    let a10 = workspace_events(workspace_names, current_workspace);
    let a11 = monitor_events(adjacent_outputs);
    let a12 = if_seq(can_close, WindowMenuEventView::CanClose);
    let a13 = seq![WindowMenuEventView::Done];
    let p9 = head_part(
        window_id,
        maximize_state,
        can_minimize,
        can_move,
        can_resize,
        stacking_state,
        shaded_state,
        fullscreen_state,
        sticky,
    );
    let s0 = empty_menu_state();
    lemma_head_part(
        window_id,
        maximize_state,
        can_minimize,
        can_move,
        can_resize,
        stacking_state,
        shaded_state,
        fullscreen_state,
        sticky,
    );
    let p10 = p9 + a10;
    let p11 = p10 + a11;
    let p12 = p11 + a12;
    lemma_apply_menu_concat(s0, p12, a13);
    lemma_apply_menu_concat(s0, p11, a12);
    lemma_apply_menu_concat(s0, p10, a11);
    lemma_apply_menu_concat(s0, p9, a10);
    let s9 = spec_apply_menu_events(s0, p9);
    lemma_apply_workspaces(s9, workspace_names, current_workspace);
    let s10 = spec_apply_menu_events(s9, a10);
    lemma_apply_monitors(s10, adjacent_outputs);
    let s11 = spec_apply_menu_events(s10, a11);
    assert(s10.adjacent_outputs + adjacent_outputs =~= adjacent_outputs);
    let s12 = spec_apply_menu_events(s11, a12);
    lemma_apply_menu_short(s11, a12);
    lemma_apply_menu_short(s12, a13);
    assert(spec_menu_events(
        window_id,
        maximize_state,
        can_minimize,
        can_move,
        can_resize,
        stacking_state,
        shaded_state,
        fullscreen_state,
        sticky,
        workspace_names,
        current_workspace,
        adjacent_outputs,
        can_close,
    ) == p12 + a13);
}

spec fn head_part(
    window_id: u32,
    maximize_state: Option<bool>,
    can_minimize: bool,
    can_move: bool,
    can_resize: bool,
    stacking_state: StackingState,
    shaded_state: Option<bool>,
    fullscreen_state: Option<bool>,
    sticky: bool,
) -> Seq<WindowMenuEventView> {
    seq![WindowMenuEventView::WindowId(window_id)] + opt_event(
        maximize_state,
        |b: bool| WindowMenuEventView::IsMaximized(b),
    ) + if_seq(can_minimize, WindowMenuEventView::CanMinimize) + if_seq(can_move, WindowMenuEventView::CanMove)
        + if_seq(can_resize, WindowMenuEventView::CanResize) + seq![
        WindowMenuEventView::StackingState(stacking_state),
    ] + opt_event(shaded_state, |b: bool| WindowMenuEventView::IsShaded(b)) + opt_event(
        fullscreen_state,
        |b: bool| WindowMenuEventView::IsFullscreen(b),
    ) + if_seq(sticky, WindowMenuEventView::Sticky)
}

#[verifier::spinoff_prover]
#[verifier::rlimit(80)]
proof fn lemma_head_part(
    window_id: u32,
    maximize_state: Option<bool>,
    can_minimize: bool,
    can_move: bool,
    can_resize: bool,
    stacking_state: StackingState,
    shaded_state: Option<bool>,
    fullscreen_state: Option<bool>,
    sticky: bool,
)
    ensures
        spec_apply_menu_events(
            empty_menu_state(),
            head_part(
                window_id,
                maximize_state,
                can_minimize,
                can_move,
                can_resize,
                stacking_state,
                shaded_state,
                fullscreen_state,
                sticky,
            ),
        ) == (WindowMenuStateView {
            window_id: Some(window_id),
            maximized: maximize_state,
            can_minimize,
            can_move,
            can_resize,
            stacking_state,
            shaded: shaded_state,
            fullscreen: fullscreen_state,
            sticky,
            ..empty_menu_state()
        }),
{
    let a1 = seq![WindowMenuEventView::WindowId(window_id)];
    let a2 = opt_event(maximize_state, |b: bool| WindowMenuEventView::IsMaximized(b));
    let a3 = if_seq(can_minimize, WindowMenuEventView::CanMinimize);
    let a4 = if_seq(can_move, WindowMenuEventView::CanMove);
    let a5 = if_seq(can_resize, WindowMenuEventView::CanResize);
    let a6 = seq![WindowMenuEventView::StackingState(stacking_state)];
    let a7 = opt_event(shaded_state, |b: bool| WindowMenuEventView::IsShaded(b));
    let a8 = opt_event(fullscreen_state, |b: bool| WindowMenuEventView::IsFullscreen(b));
    let a9 = if_seq(sticky, WindowMenuEventView::Sticky);
    let p1 = a1;
    let p2 = p1 + a2;
    let p3 = p2 + a3;
    let p4 = p3 + a4;
    let p5 = p4 + a5;
    let p6 = p5 + a6;
    let p7 = p6 + a7;
    let p8 = p7 + a8;
    let s0 = empty_menu_state();
    lemma_apply_menu_concat(s0, p8, a9);
    lemma_apply_menu_concat(s0, p7, a8);
    lemma_apply_menu_concat(s0, p6, a7);
    lemma_apply_menu_concat(s0, p5, a6);
    lemma_apply_menu_concat(s0, p4, a5);
    lemma_apply_menu_concat(s0, p3, a4);
    lemma_apply_menu_concat(s0, p2, a3);
    lemma_apply_menu_concat(s0, p1, a2);
    let s1 = spec_apply_menu_events(s0, a1);
    lemma_apply_menu_short(s0, a1);
    let s2 = spec_apply_menu_events(s1, a2);
    lemma_apply_menu_short(s1, a2);
    let s3 = spec_apply_menu_events(s2, a3);
    lemma_apply_menu_short(s2, a3);
    let s4 = spec_apply_menu_events(s3, a4);
    lemma_apply_menu_short(s3, a4);
    let s5 = spec_apply_menu_events(s4, a5);
    lemma_apply_menu_short(s4, a5);
    let s6 = spec_apply_menu_events(s5, a6);
    lemma_apply_menu_short(s5, a6);
    let s7 = spec_apply_menu_events(s6, a7);
    lemma_apply_menu_short(s6, a7);
    let s8 = spec_apply_menu_events(s7, a8);
    lemma_apply_menu_short(s7, a8);
    lemma_apply_menu_short(s8, a9);
}


/// What the user chose in the window menu, as the UI process knows it.
#[derive(Clone, Copy, Debug, PartialEq, Eq, Structural)]
pub enum WindowMenuAction {
    ToggleMaximize,
    Minimize,
    MinimizeOtherWindows,
    Move,
    Resize,
    StackOnTop,
    StackNormal,
    StackBelow,
    ToggleShade,
    Fullscreen,
    ToggleSticky,
    MoveToWorkspace(u32),
    MoveToOutput(Direction),
    Close,
}

pub open spec fn spec_action_request(a: WindowMenuAction) -> RequestedAction {
    match a {
        WindowMenuAction::ToggleMaximize => RequestedAction::Action(ActionType::ToggleMaximize),
        WindowMenuAction::Minimize => RequestedAction::Action(ActionType::Minimize),
        WindowMenuAction::MinimizeOtherWindows => RequestedAction::Action(ActionType::MinimizeOtherWindows),
        WindowMenuAction::Move => RequestedAction::Action(ActionType::Move),
        WindowMenuAction::Resize => RequestedAction::Action(ActionType::Resize),
        WindowMenuAction::StackOnTop => RequestedAction::Action(ActionType::StackOnTop),
        WindowMenuAction::StackNormal => RequestedAction::Action(ActionType::StackNormal),
        WindowMenuAction::StackBelow => RequestedAction::Action(ActionType::StackBelow),
        WindowMenuAction::ToggleShade => RequestedAction::Action(ActionType::ToggleShade),
        WindowMenuAction::Fullscreen => RequestedAction::Action(ActionType::ToggleFullscreen),
        WindowMenuAction::ToggleSticky => RequestedAction::Action(ActionType::ToggleSticky),
        WindowMenuAction::Close => RequestedAction::Action(ActionType::Close),
        WindowMenuAction::MoveToWorkspace(i) => RequestedAction::MoveToWorkspace(i),
        WindowMenuAction::MoveToOutput(d) => RequestedAction::MoveToOutput(d),
    }
}

impl WindowMenuAction {
    /// The request that tells the compositor of the choice.
    pub fn request(self) -> (r: RequestedAction)
        ensures
            r == spec_action_request(self),
    {
        match self {
            WindowMenuAction::ToggleMaximize => RequestedAction::Action(ActionType::ToggleMaximize),
            WindowMenuAction::Minimize => RequestedAction::Action(ActionType::Minimize),
            WindowMenuAction::MinimizeOtherWindows => RequestedAction::Action(ActionType::MinimizeOtherWindows),
            WindowMenuAction::Move => RequestedAction::Action(ActionType::Move),
            WindowMenuAction::Resize => RequestedAction::Action(ActionType::Resize),
            WindowMenuAction::StackOnTop => RequestedAction::Action(ActionType::StackOnTop),
            WindowMenuAction::StackNormal => RequestedAction::Action(ActionType::StackNormal),
            WindowMenuAction::StackBelow => RequestedAction::Action(ActionType::StackBelow),
            WindowMenuAction::ToggleShade => RequestedAction::Action(ActionType::ToggleShade),
            WindowMenuAction::Fullscreen => RequestedAction::Action(ActionType::ToggleFullscreen),
            WindowMenuAction::ToggleSticky => RequestedAction::Action(ActionType::ToggleSticky),
            WindowMenuAction::Close => RequestedAction::Action(ActionType::Close),
            WindowMenuAction::MoveToWorkspace(i) => RequestedAction::MoveToWorkspace(i),
            WindowMenuAction::MoveToOutput(d) => RequestedAction::MoveToOutput(d),
        }
    }
}

/// Different choices in the menu reach the compositor as different requests.
pub proof fn lemma_action_requests_distinct(a: WindowMenuAction, b: WindowMenuAction)
    requires
        a != b,
    ensures
        spec_action_request(a) != spec_action_request(b),
{
}

/// The windows shown: those whose identifier and title both arrived, in order.
pub open spec fn spec_shown_windows(s: Seq<TabwinWindowStateView>) -> Seq<TabwinWindowView>
    decreases s.len(),
{
    if s.len() == 0 {
        Seq::empty()
    } else {
        match spec_finish_window(s.last()) {
            Some(w) => spec_shown_windows(s.drop_last()).push(w),
            None => spec_shown_windows(s.drop_last()),
        }
    }
}


/// The window first selected: the one the compositor named, else the second window shown,
/// else the first.  With no window to show the switcher is dismissed (`None`).
pub open spec fn spec_tabwin_selection(shown: Seq<TabwinWindowView>, initial: Option<u32>) -> Option<u32> {
    if shown.len() == 0 {
        None
    } else {
        match initial {
            Some(id) => Some(id),
            None => if shown.len() > 1 { Some(shown[1].window_id) } else { Some(shown[0].window_id) },
        }
    }
}

/// The switcher's windows and initial selection once the compositor is done, or `None` when
/// there is no window to show.
pub fn finish_tabwin(windows: Vec<TabwinWindowState>, initial_selection: Option<u32>) -> (r: Option<(Vec<TabwinWindow>, u32)>)
    ensures
        ({
            let shown = spec_shown_windows(windows@.map_values(|w: TabwinWindowState| w@));
            match r {
                Some((ws, sel)) => ws@.map_values(|w: TabwinWindow| w@) == shown && spec_tabwin_selection(
                    shown,
                    initial_selection,
                ) == Some(sel),
                None => spec_tabwin_selection(shown, initial_selection).is_none(),
            }
        }),
{
    let ghost orig = windows@.map_values(|w: TabwinWindowState| w@);
    let mut rest = windows;
    let mut shown: Vec<TabwinWindow> = Vec::new();
    let n = rest.len();
    let mut i: usize = 0;
    while i < n
        invariant
            n == orig.len(),
            0 <= i <= n,
            rest@.len() == n - i,
            forall|k: int| 0 <= k < rest@.len() ==> (#[trigger] rest@[k])@ == orig[i + k],
            shown@.map_values(|w: TabwinWindow| w@) == spec_shown_windows(orig.subrange(0, i as int)),
        decreases n - i,
    {
        let w = rest.remove(0);
        let ghost wv = w@;
        assert(wv == orig[i as int]);
        let ghost before = shown@.map_values(|w: TabwinWindow| w@);
        proof {
            let sub = orig.subrange(0, i as int + 1);
            assert(sub.drop_last() =~= orig.subrange(0, i as int));
            assert(sub.last() == wv);
        }
        match w.finish() {
            Some(tw) => {
                let ghost tv = tw@;
                shown.push(tw);
                assert(shown@.map_values(|w: TabwinWindow| w@) =~= before.push(tv));
            },
            None => {},
        }
        i = i + 1;
    }
    assert(orig.subrange(0, n as int) =~= orig);
    if shown.len() == 0 {
        return None;
    }
    let ghost sv = shown@.map_values(|w: TabwinWindow| w@);
    let fallback = if shown.len() > 1 { shown[1].window_id } else { shown[0].window_id };
    assert(shown.len() > 1 ==> sv[1].window_id == shown@[1].window_id);
    assert(sv[0].window_id == shown@[0].window_id);
    let sel = match initial_selection {
        Some(id) => id,
        None => fallback,
    };
    Some((shown, sel))
}


/// A key the compositor sent, else the default one.
pub open spec fn key_or(o: Option<ShortcutKey>, d: ShortcutKey) -> ShortcutKey {
    match o {
        Some(k) => k,
        None => d,
    }
}

/// The switcher keys the compositor has sent so far, one per action.
#[derive(Clone, Copy, Debug)]
pub struct TabwinKeyBindings {
    pub next: Option<ShortcutKey>,
    pub prev: Option<ShortcutKey>,
    pub up: Option<ShortcutKey>,
    pub down: Option<ShortcutKey>,
    pub left: Option<ShortcutKey>,
    pub right: Option<ShortcutKey>,
    pub cancel: Option<ShortcutKey>,
}

impl TabwinKeyBindings {
    /// The bindings after `key` arrived for `action`: it replaces any earlier key of that action.
    pub open spec fn spec_bind(self, action: TabwinKeyAction, key: ShortcutKey) -> TabwinKeyBindings {
        match action {
            TabwinKeyAction::Next => TabwinKeyBindings { next: Some(key), ..self },
            TabwinKeyAction::Previous => TabwinKeyBindings { prev: Some(key), ..self },
            TabwinKeyAction::Up => TabwinKeyBindings { up: Some(key), ..self },
            TabwinKeyAction::Down => TabwinKeyBindings { down: Some(key), ..self },
            TabwinKeyAction::Left => TabwinKeyBindings { left: Some(key), ..self },
            TabwinKeyAction::Right => TabwinKeyBindings { right: Some(key), ..self },
            TabwinKeyAction::Cancel => TabwinKeyBindings { cancel: Some(key), ..self },
        }
    }

    /// The switcher's keys: each action's key as sent, else its default.
    pub open spec fn spec_shortcuts(self, d: TabwinShortcuts) -> TabwinShortcuts {
        TabwinShortcuts {
            next: key_or(self.next, d.next),
            prev: key_or(self.prev, d.prev),
            up: key_or(self.up, d.up),
            down: key_or(self.down, d.down),
            left: key_or(self.left, d.left),
            right: key_or(self.right, d.right),
            cancel: key_or(self.cancel, d.cancel),
        }
    }

    /// No key sent yet.
    pub fn new() -> (r: TabwinKeyBindings)
        ensures
            r.next.is_none() && r.prev.is_none() && r.up.is_none() && r.down.is_none(),
            r.left.is_none() && r.right.is_none() && r.cancel.is_none(),
    {
        TabwinKeyBindings { next: None, prev: None, up: None, down: None, left: None, right: None, cancel: None }
    }

    /// Records the key the compositor sent for an action.
    pub fn bind(&mut self, action: TabwinKeyAction, key: ShortcutKey)
        ensures
            *final(self) == old(self).spec_bind(action, key),
    {
        match action {
            TabwinKeyAction::Next => self.next = Some(key),
            TabwinKeyAction::Previous => self.prev = Some(key),
            TabwinKeyAction::Up => self.up = Some(key),
            TabwinKeyAction::Down => self.down = Some(key),
            TabwinKeyAction::Left => self.left = Some(key),
            TabwinKeyAction::Right => self.right = Some(key),
            TabwinKeyAction::Cancel => self.cancel = Some(key),
        }
    }

    /// The switcher's keys, falling back to `defaults` for each action no key was sent for.
    pub fn shortcuts(&self, defaults: &TabwinShortcuts) -> (r: TabwinShortcuts)
        ensures
            r == self.spec_shortcuts(*defaults),
    {
        TabwinShortcuts {
            next: match self.next { Some(k) => k, None => defaults.next },
            prev: match self.prev { Some(k) => k, None => defaults.prev },
            up: match self.up { Some(k) => k, None => defaults.up },
            down: match self.down { Some(k) => k, None => defaults.down },
            left: match self.left { Some(k) => k, None => defaults.left },
            right: match self.right { Some(k) => k, None => defaults.right },
            cancel: match self.cancel { Some(k) => k, None => defaults.cancel },
        }
    }
}

/// What the UI process gathers for the window switcher until the compositor is done.
pub struct TabwinGathering {
    pub windows: Vec<TabwinWindowState>,
    pub initial_selection: Option<u32>,
    pub bindings: TabwinKeyBindings,
}

impl TabwinGathering {
    /// Nothing gathered yet.
    pub fn new() -> (r: TabwinGathering)
        ensures
            r.windows@.len() == 0,
            r.initial_selection.is_none(),
            r.bindings.next.is_none() && r.bindings.prev.is_none() && r.bindings.up.is_none(),
            r.bindings.down.is_none() && r.bindings.left.is_none() && r.bindings.right.is_none(),
            r.bindings.cancel.is_none(),
    {
        TabwinGathering { windows: Vec::new(), initial_selection: None, bindings: TabwinKeyBindings::new() }
    }

    /// The compositor is done: the windows to show, the first selection and the switcher's keys
    /// (each unset key its default), or `None` when there is no window to show and the switcher
    /// is dismissed.
    pub fn done(self, defaults: &TabwinShortcuts) -> (r: Option<(Vec<TabwinWindow>, u32, TabwinShortcuts)>)
        ensures
            ({
                let shown = spec_shown_windows(self.windows@.map_values(|w: TabwinWindowState| w@));
                match r {
                    Some((ws, sel, keys)) => {
                        &&& ws@.map_values(|w: TabwinWindow| w@) == shown
                        &&& spec_tabwin_selection(shown, self.initial_selection) == Some(sel)
                        &&& keys == self.bindings.spec_shortcuts(*defaults)
                    },
                    None => spec_tabwin_selection(shown, self.initial_selection).is_none(),
                }
            }),
    {
        let keys = self.bindings.shortcuts(defaults);
        match finish_tabwin(self.windows, self.initial_selection) {
            Some((ws, sel)) => Some((ws, sel, keys)),
            None => None,
        }
    }
}


/// Why no path could be made for the compositor's UI socket.
#[derive(Clone, Copy, Debug, PartialEq, Eq, Structural)]
pub enum SocketPathError {
    /// The name is relative and there is no runtime directory to put it in.
    NoRuntimeDir,
    /// The name is relative and the runtime directory is not an absolute path.
    RelativeRuntimeDir,
}

/// A path is absolute when it starts at the root, `/`.
pub open spec fn is_absolute_path(p: Seq<u8>) -> bool {
    p.len() > 0 && p[0] == 0x2f
}

/// `dir` with `name` below it: a `/` goes between them unless `dir` already ends in one.
pub open spec fn path_join(dir: Seq<u8>, name: Seq<u8>) -> Seq<u8> {
    if dir.len() > 0 && dir.last() == 0x2f {
        dir + name
    } else {
        dir + seq![0x2fu8] + name
    }
}

/// The path of the compositor's UI socket: an absolute socket name is the path itself; a
/// relative one lies in the runtime directory (`XDG_RUNTIME_DIR`), which must be absolute.
pub open spec fn spec_ui_socket_path(name: Seq<u8>, runtime_dir: Option<Seq<u8>>) -> Result<Seq<u8>, SocketPathError> {
    if is_absolute_path(name) {
        Ok(name)
    } else {
        match runtime_dir {
            None => Err(SocketPathError::NoRuntimeDir),
            Some(dir) => if is_absolute_path(dir) {
                Ok(path_join(dir, name))
            } else {
                Err(SocketPathError::RelativeRuntimeDir)
            },
        }
    }
}

/// The path to connect to for the UI socket `name`, given the runtime directory if it is set.
pub fn ui_socket_path(name: &Vec<u8>, runtime_dir: Option<Vec<u8>>) -> (r: Result<Vec<u8>, SocketPathError>)
    ensures
        match (r, spec_ui_socket_path(name@, match runtime_dir {
            Some(d) => Some(d@),
            None => None,
        })) {
            (Ok(p), Ok(q)) => p@ == q,
            (Err(e), Err(f)) => e == f,
            _ => false,
        },
{
    if name.len() > 0 && name[0] == 0x2f {
        return Ok(name.clone());
    }
    match runtime_dir {
        None => Err(SocketPathError::NoRuntimeDir),
        Some(dir) => {
            if !(dir.len() > 0 && dir[0] == 0x2f) {
                return Err(SocketPathError::RelativeRuntimeDir);
            }
            let mut p = dir;
            let ghost d0 = p@;
            if p[p.len() - 1] != 0x2f {
                p.push(0x2f);
            }
            let ghost mid = p@;
            let mut i: usize = 0;
            while i < name.len()
                invariant
                    0 <= i <= name@.len(),
                    p@ == mid + name@.subrange(0, i as int),
                decreases name@.len() - i,
            {
                p.push(name[i]);
                i = i + 1;
                assert(p@ =~= mid + name@.subrange(0, i as int));
            }
            assert(name@.subrange(0, name@.len() as int) =~= name@);
            assert(d0.len() > 0 && d0.last() == 0x2f ==> mid == d0);
            assert(!(d0.len() > 0 && d0.last() == 0x2f) ==> mid =~= d0 + seq![0x2fu8]);
            Ok(p)
        },
    }
}

} // verus!
