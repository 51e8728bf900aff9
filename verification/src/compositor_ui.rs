//! The private protocol between the compositor and its UI process: the window list the
//! compositor sends for the window switcher, the window menu's state, and how the UI process
//! gathers both back from the events it receives.

use vstd::prelude::*;
use crate::util::{ov, clone_opt_str};

verus! {

/// Raw RGBA pixels of an image, four bytes a pixel.
pub struct Pixels {
    pub bytes: Vec<u8>,
    pub width: u32,
    pub height: u32,
}

pub struct PixelsView {
    pub bytes: Seq<u8>,
    pub width: u32,
    pub height: u32,
}

impl View for Pixels {
    type V = PixelsView;

    open spec fn view(&self) -> PixelsView {
        PixelsView { bytes: self.bytes@, width: self.width, height: self.height }
    }
}

/// An application icon: a themed icon name, a file path, or pixels.
pub enum Icon {
    Named(String),
    File(String),
    Pixels(Pixels),
}

pub enum IconView {
    Named(Seq<char>),
    File(Seq<char>),
    Pixels(PixelsView),
}

impl View for Icon {
    type V = IconView;

    open spec fn view(&self) -> IconView {
        match self {
            Icon::Named(n) => IconView::Named(n@),
            Icon::File(p) => IconView::File(p@),
            Icon::Pixels(p) => IconView::Pixels(p@),
        }
    }
}

pub open spec fn opt_pixels_view(o: Option<Pixels>) -> Option<PixelsView> {
    match o {
        Some(p) => Some(p@),
        None => None,
    }
}

pub open spec fn opt_icon_view(o: Option<Icon>) -> Option<IconView> {
    match o {
        Some(i) => Some(i@),
        None => None,
    }
}

/// A window as the window switcher shows it.
pub struct TabwinWindow {
    pub window_id: u32,
    pub app_name: Option<String>,
    pub title: String,
    pub preview: Option<Pixels>,
    pub app_icon: Option<Icon>,
    pub is_minimized: bool,
}

pub struct TabwinWindowView {
    pub window_id: u32,
    pub app_name: Option<Seq<char>>,
    pub title: Seq<char>,
    pub preview: Option<PixelsView>,
    pub app_icon: Option<IconView>,
    pub is_minimized: bool,
}

impl View for TabwinWindow {
    type V = TabwinWindowView;

    open spec fn view(&self) -> TabwinWindowView {
        TabwinWindowView {
            window_id: self.window_id,
            app_name: ov(self.app_name),
            title: self.title@,
            preview: opt_pixels_view(self.preview),
            app_icon: opt_icon_view(self.app_icon),
            is_minimized: self.is_minimized,
        }
    }
}

/// An event on a window of the window switcher.
pub enum TabwinWindowEvent {
    WindowId(u32),
    AppName(String),
    Title(String),
    Minimized,
    Preview(Pixels),
    AppIconNamed(String),
    AppIconFile(String),
    AppIconPixels(Pixels),
    Done,
}

pub enum TabwinWindowEventView {
    WindowId(u32),
    AppName(Seq<char>),
    Title(Seq<char>),
    Minimized,
    Preview(PixelsView),
    AppIconNamed(Seq<char>),
    AppIconFile(Seq<char>),
    AppIconPixels(PixelsView),
    Done,
}

impl View for TabwinWindowEvent {
    type V = TabwinWindowEventView;

    open spec fn view(&self) -> TabwinWindowEventView {
        match self {
            TabwinWindowEvent::WindowId(id) => TabwinWindowEventView::WindowId(*id),
            TabwinWindowEvent::AppName(n) => TabwinWindowEventView::AppName(n@),
            TabwinWindowEvent::Title(t) => TabwinWindowEventView::Title(t@),
            TabwinWindowEvent::Minimized => TabwinWindowEventView::Minimized,
            TabwinWindowEvent::Preview(p) => TabwinWindowEventView::Preview(p@),
            TabwinWindowEvent::AppIconNamed(n) => TabwinWindowEventView::AppIconNamed(n@),
            TabwinWindowEvent::AppIconFile(f) => TabwinWindowEventView::AppIconFile(f@),
            TabwinWindowEvent::AppIconPixels(p) => TabwinWindowEventView::AppIconPixels(p@),
            TabwinWindowEvent::Done => TabwinWindowEventView::Done,
        }
    }
}

pub open spec fn events_view(s: Seq<TabwinWindowEvent>) -> Seq<TabwinWindowEventView> {
    s.map_values(|e: TabwinWindowEvent| e@)
}

pub open spec fn if_seq<T>(cond: bool, x: T) -> Seq<T> {
    if cond { seq![x] } else { Seq::empty() }
}

/// What the compositor tells the UI process of one window: its identifier, application name if
/// known, title, whether it is minimized, its preview when previews are shown and there is one,
/// its icon if any, then "done".
pub open spec fn spec_window_events(w: TabwinWindowView, show_previews: bool) -> Seq<TabwinWindowEventView> {
    seq![TabwinWindowEventView::WindowId(w.window_id)] + (match w.app_name {
        Some(n) => seq![TabwinWindowEventView::AppName(n)],
        None => Seq::empty(),
    }) + seq![TabwinWindowEventView::Title(w.title)] + if_seq(w.is_minimized, TabwinWindowEventView::Minimized)
        + (match w.preview {
        Some(p) => if_seq(show_previews, TabwinWindowEventView::Preview(p)),
        None => Seq::empty(),
    }) + (match w.app_icon {
        Some(IconView::Named(n)) => seq![TabwinWindowEventView::AppIconNamed(n)],
        Some(IconView::File(f)) => seq![TabwinWindowEventView::AppIconFile(f)],
        Some(IconView::Pixels(p)) => seq![TabwinWindowEventView::AppIconPixels(p)],
        None => Seq::empty(),
    }) + seq![TabwinWindowEventView::Done]
}

impl TabwinWindow {
    /// The events that describe this window to the UI process.
    pub fn into_events(self, show_previews: bool) -> (r: Vec<TabwinWindowEvent>)
        ensures
            events_view(r@) == spec_window_events(self@, show_previews),
    {
        let ghost w = self@;
        let mut r: Vec<TabwinWindowEvent> = Vec::new();
        r.push(TabwinWindowEvent::WindowId(self.window_id));
        match self.app_name {
            Some(n) => { r.push(TabwinWindowEvent::AppName(n)); },
            None => {},
        }
        r.push(TabwinWindowEvent::Title(self.title));
        if self.is_minimized {
            r.push(TabwinWindowEvent::Minimized);
        }
        if show_previews {
            match self.preview {
                Some(p) => { r.push(TabwinWindowEvent::Preview(p)); },
                None => {},
            }
        }
        match self.app_icon {
            Some(Icon::Named(n)) => { r.push(TabwinWindowEvent::AppIconNamed(n)); },
            Some(Icon::File(f)) => { r.push(TabwinWindowEvent::AppIconFile(f)); },
            Some(Icon::Pixels(p)) => { r.push(TabwinWindowEvent::AppIconPixels(p)); },
            None => {},
        }
        r.push(TabwinWindowEvent::Done);
        assert(events_view(r@) =~= spec_window_events(w, show_previews));
        r
    }
}

/// What the UI process has gathered of one window so far.
pub struct TabwinWindowState {
    pub window_id: Option<u32>,
    pub app_name: Option<String>,
    pub title: Option<String>,
    pub minimized: bool,
    pub preview: Option<Pixels>,
    pub app_icon: Option<Icon>,
}

pub struct TabwinWindowStateView {
    pub window_id: Option<u32>,
    pub app_name: Option<Seq<char>>,
    pub title: Option<Seq<char>>,
    pub minimized: bool,
    pub preview: Option<PixelsView>,
    pub app_icon: Option<IconView>,
}

impl View for TabwinWindowState {
    type V = TabwinWindowStateView;

    open spec fn view(&self) -> TabwinWindowStateView {
        TabwinWindowStateView {
            window_id: self.window_id,
            app_name: ov(self.app_name),
            title: ov(self.title),
            minimized: self.minimized,
            preview: opt_pixels_view(self.preview),
            app_icon: opt_icon_view(self.app_icon),
        }
    }
}

pub open spec fn empty_window_state() -> TabwinWindowStateView {
    TabwinWindowStateView {
        window_id: None,
        app_name: None,
        title: None,
        minimized: false,
        preview: None,
        app_icon: None,
    }
}

/// A window event recorded: each sets its part; a later one of a kind replaces an earlier.
pub open spec fn spec_apply_window_event(s: TabwinWindowStateView, e: TabwinWindowEventView) -> TabwinWindowStateView {
    match e {
        TabwinWindowEventView::WindowId(id) => TabwinWindowStateView { window_id: Some(id), ..s },
        TabwinWindowEventView::AppName(n) => TabwinWindowStateView { app_name: Some(n), ..s },
        TabwinWindowEventView::Title(t) => TabwinWindowStateView { title: Some(t), ..s },
        TabwinWindowEventView::Minimized => TabwinWindowStateView { minimized: true, ..s },
        TabwinWindowEventView::Preview(p) => TabwinWindowStateView { preview: Some(p), ..s },
        TabwinWindowEventView::AppIconNamed(n) => TabwinWindowStateView { app_icon: Some(IconView::Named(n)), ..s },
        TabwinWindowEventView::AppIconFile(f) => TabwinWindowStateView { app_icon: Some(IconView::File(f)), ..s },
        TabwinWindowEventView::AppIconPixels(p) => TabwinWindowStateView {
            app_icon: Some(IconView::Pixels(p)),
            ..s
        },
        TabwinWindowEventView::Done => s,
    }
}

pub open spec fn spec_apply_window_events(s: TabwinWindowStateView, es: Seq<TabwinWindowEventView>) -> TabwinWindowStateView
    decreases es.len(),
{
    if es.len() == 0 {
        s
    } else {
        spec_apply_window_event(spec_apply_window_events(s, es.drop_last()), es.last())
    }
}

/// A gathered window is shown when both its identifier and its title arrived.
pub open spec fn spec_finish_window(s: TabwinWindowStateView) -> Option<TabwinWindowView> {
    match (s.window_id, s.title) {
        (Some(id), Some(t)) => Some(
            TabwinWindowView {
                window_id: id,
                app_name: s.app_name,
                title: t,
                preview: s.preview,
                app_icon: s.app_icon,
                is_minimized: s.minimized,
            },
        ),
        _ => None,
    }
}

pub open spec fn opt_window_view(o: Option<TabwinWindow>) -> Option<TabwinWindowView> {
    match o {
        Some(w) => Some(w@),
        None => None,
    }
}

impl TabwinWindowState {
    pub fn new() -> (r: TabwinWindowState)
        ensures
            r@ == empty_window_state(),
    {
        TabwinWindowState {
            window_id: None,
            app_name: None,
            title: None,
            minimized: false,
            preview: None,
            app_icon: None,
        }
    }

    /// Records one event on the window.
    pub fn apply(&mut self, e: TabwinWindowEvent)
        ensures
            final(self)@ == spec_apply_window_event(old(self)@, e@),
    {
        match e {
            TabwinWindowEvent::WindowId(id) => { self.window_id = Some(id); },
            TabwinWindowEvent::AppName(n) => { self.app_name = Some(n); },
            TabwinWindowEvent::Title(t) => { self.title = Some(t); },
            TabwinWindowEvent::Minimized => { self.minimized = true; },
            TabwinWindowEvent::Preview(p) => { self.preview = Some(p); },
            TabwinWindowEvent::AppIconNamed(n) => { self.app_icon = Some(Icon::Named(n)); },
            TabwinWindowEvent::AppIconFile(f) => { self.app_icon = Some(Icon::File(f)); },
            TabwinWindowEvent::AppIconPixels(p) => { self.app_icon = Some(Icon::Pixels(p)); },
            TabwinWindowEvent::Done => {},
        }
    }

    /// The window to show, when both its identifier and its title arrived.
    pub fn finish(self) -> (r: Option<TabwinWindow>)
        ensures
            opt_window_view(r) == spec_finish_window(self@),
    {
        match (self.window_id, self.title) {
            (Some(id), Some(t)) => Some(
                TabwinWindow {
                    window_id: id,
                    app_name: self.app_name,
                    title: t,
                    preview: self.preview,
                    app_icon: self.app_icon,
                    is_minimized: self.minimized,
                },
            ),
            _ => None,
        }
    }
}

proof fn lemma_apply_concat(
    s: TabwinWindowStateView,
    a: Seq<TabwinWindowEventView>,
    b: Seq<TabwinWindowEventView>,
)
    ensures
        spec_apply_window_events(s, a + b) == spec_apply_window_events(spec_apply_window_events(s, a), b),
    decreases b.len(),
{
    if b.len() == 0 {
        assert(a + b =~= a);
    } else {
        lemma_apply_concat(s, a, b.drop_last());
        assert((a + b).drop_last() =~= a + b.drop_last());
        assert((a + b).last() == b.last());
    }
}

proof fn lemma_apply_short(s: TabwinWindowStateView, a: Seq<TabwinWindowEventView>)
    requires
        a.len() <= 1,
    ensures
        spec_apply_window_events(s, a) == (if a.len() == 0 { s } else { spec_apply_window_event(s, a[0]) }),
{
    if a.len() == 1 {
        assert(a.drop_last() =~= Seq::<TabwinWindowEventView>::empty());
        assert(spec_apply_window_events(s, a.drop_last()) == s);
        assert(a.last() == a[0]);
    }
}

/// The window the UI process rebuilds from the events the compositor sent for `w` is `w`
/// itself, without its preview when previews are not shown.
pub proof fn lemma_window_round_trip(w: TabwinWindowView, show_previews: bool)
    ensures
        spec_finish_window(spec_apply_window_events(empty_window_state(), spec_window_events(w, show_previews)))
            == Some(TabwinWindowView { preview: if show_previews { w.preview } else { None }, ..w }),
{
    let a1 = seq![TabwinWindowEventView::WindowId(w.window_id)];
    let a2 = match w.app_name {
        Some(n) => seq![TabwinWindowEventView::AppName(n)],
        None => Seq::empty(),
    };
    let a3 = seq![TabwinWindowEventView::Title(w.title)];
    let a4 = if_seq(w.is_minimized, TabwinWindowEventView::Minimized);
    let a5 = match w.preview {
        Some(p) => if_seq(show_previews, TabwinWindowEventView::Preview(p)),
        None => Seq::empty(),
    };
    let a6 = match w.app_icon {
        Some(IconView::Named(n)) => seq![TabwinWindowEventView::AppIconNamed(n)],
        Some(IconView::File(f)) => seq![TabwinWindowEventView::AppIconFile(f)],
        Some(IconView::Pixels(p)) => seq![TabwinWindowEventView::AppIconPixels(p)],
        None => Seq::empty(),
    };
    let a7 = seq![TabwinWindowEventView::Done];
    let s0 = empty_window_state();
    lemma_apply_concat(s0, a1 + a2 + a3 + a4 + a5 + a6, a7);
    lemma_apply_concat(s0, a1 + a2 + a3 + a4 + a5, a6);
    lemma_apply_concat(s0, a1 + a2 + a3 + a4, a5);
    lemma_apply_concat(s0, a1 + a2 + a3, a4);
    lemma_apply_concat(s0, a1 + a2, a3);
    lemma_apply_concat(s0, a1, a2);
    let s1 = spec_apply_window_events(s0, a1);
    lemma_apply_short(s0, a1);
    let s2 = spec_apply_window_events(s1, a2);
    lemma_apply_short(s1, a2);
    let s3 = spec_apply_window_events(s2, a3);
    lemma_apply_short(s2, a3);
    let s4 = spec_apply_window_events(s3, a4);
    lemma_apply_short(s3, a4);
    let s5 = spec_apply_window_events(s4, a5);
    lemma_apply_short(s4, a5);
    let s6 = spec_apply_window_events(s5, a6);
    lemma_apply_short(s5, a6);
    lemma_apply_short(s6, a7);
}


/// How a window stacks against others.
#[derive(Clone, Copy, Debug, PartialEq, Eq, Structural)]
pub enum StackingState {
    Normal,
    AlwaysOnTop,
    AlwaysBelow,
}

/// A direction in which another monitor lies.
#[derive(Clone, Copy, Debug, PartialEq, Eq, Structural)]
pub enum Direction {
    Up,
    Down,
    Left,
    Right,
}

/// A window-menu action that takes no argument.
#[derive(Clone, Copy, Debug, PartialEq, Eq, Structural)]
pub enum ActionType {
    ToggleMaximize,
    Minimize,
    MinimizeOtherWindows,
    Move,
    Resize,
    StackOnTop,
    StackNormal,
    StackBelow,
    ToggleShade,
    ToggleFullscreen,
    ToggleSticky,
    Close,
}

/// What the user chose in a window menu, as the compositor receives it.
#[derive(Clone, Copy, Debug, PartialEq, Eq, Structural)]
pub enum WindowMenuAction {
    Action(ActionType),
    MoveToWorkspace(u32),
    MoveToOutput(Direction),
}

/// What the compositor knows of a window when it opens the window menu for it.
pub struct WindowMenuState {
    pub window_id: u32,
    pub maximize_state: Option<bool>,
    pub can_minimize: bool,
    pub can_move: bool,
    pub can_resize: bool,
    pub stacking_state: StackingState,
    pub shaded_state: Option<bool>,
    pub fullscreen_state: Option<bool>,
    pub sticky: bool,
    pub workspace_names: Vec<String>,
    pub current_workspace: u32,
    pub adjacent_outputs: Vec<Direction>,
    pub can_close: bool,
}

/// An event that describes the window menu's window to the UI process.
pub enum WindowMenuEvent {
    WindowId(u32),
    IsMaximized(bool),
    CanMinimize,
    CanMove,
    CanResize,
    StackingState(StackingState),
    IsShaded(bool),
    IsFullscreen(bool),
    Sticky,
    Workspace { name: String, is_current: bool },
    AdjacentMonitor(Direction),
    CanClose,
    Done,
}

pub enum WindowMenuEventView {
    WindowId(u32),
    IsMaximized(bool),
    CanMinimize,
    CanMove,
    CanResize,
    StackingState(StackingState),
    IsShaded(bool),
    IsFullscreen(bool),
    Sticky,
    Workspace { name: Seq<char>, is_current: bool },
    AdjacentMonitor(Direction),
    CanClose,
    Done,
}

impl View for WindowMenuEvent {
    type V = WindowMenuEventView;

    open spec fn view(&self) -> WindowMenuEventView {
        match self {
            WindowMenuEvent::WindowId(id) => WindowMenuEventView::WindowId(*id),
            WindowMenuEvent::IsMaximized(b) => WindowMenuEventView::IsMaximized(*b),
            WindowMenuEvent::CanMinimize => WindowMenuEventView::CanMinimize,
            WindowMenuEvent::CanMove => WindowMenuEventView::CanMove,
            WindowMenuEvent::CanResize => WindowMenuEventView::CanResize,
            WindowMenuEvent::StackingState(s) => WindowMenuEventView::StackingState(*s),
            WindowMenuEvent::IsShaded(b) => WindowMenuEventView::IsShaded(*b),
            WindowMenuEvent::IsFullscreen(b) => WindowMenuEventView::IsFullscreen(*b),
            WindowMenuEvent::Sticky => WindowMenuEventView::Sticky,
            WindowMenuEvent::Workspace { name, is_current } => WindowMenuEventView::Workspace {
                name: name@,
                is_current: *is_current,
            },
            WindowMenuEvent::AdjacentMonitor(d) => WindowMenuEventView::AdjacentMonitor(*d),
            WindowMenuEvent::CanClose => WindowMenuEventView::CanClose,
            WindowMenuEvent::Done => WindowMenuEventView::Done,
        }
    }
}

pub open spec fn menu_events_view(s: Seq<WindowMenuEvent>) -> Seq<WindowMenuEventView> {
    s.map_values(|e: WindowMenuEvent| e@)
}

pub open spec fn names_view(s: Seq<String>) -> Seq<Seq<char>> {
    s.map_values(|n: String| n@)
}

/// One workspace event for each workspace name, in order, the current one marked.
pub open spec fn workspace_events(names: Seq<Seq<char>>, current: u32) -> Seq<WindowMenuEventView> {
    Seq::new(
        names.len(),
        |i: int| WindowMenuEventView::Workspace { name: names[i], is_current: i == current },
    )
}

pub open spec fn monitor_events(dirs: Seq<Direction>) -> Seq<WindowMenuEventView> {
    dirs.map_values(|d: Direction| WindowMenuEventView::AdjacentMonitor(d))
}

pub open spec fn opt_event<T>(o: Option<T>, f: spec_fn(T) -> WindowMenuEventView) -> Seq<WindowMenuEventView> {
    match o {
        Some(x) => seq![f(x)],
        None => Seq::empty(),
    }
}

/// The events the compositor sends to open the window menu, in the protocol's order.
pub open spec fn spec_menu_events(
    window_id: u32,
    maximize_state: Option<bool>,
    can_minimize: bool,
    can_move: bool,
    can_resize: bool,
    stacking_state: StackingState,
    shaded_state: Option<bool>,
    fullscreen_state: Option<bool>,
    sticky: bool,
    workspace_names: Seq<Seq<char>>,
    current_workspace: u32,
    adjacent_outputs: Seq<Direction>,
    can_close: bool,
) -> Seq<WindowMenuEventView> {
    seq![WindowMenuEventView::WindowId(window_id)] + opt_event(
        maximize_state,
        |b: bool| WindowMenuEventView::IsMaximized(b),
    ) + if_seq(can_minimize, WindowMenuEventView::CanMinimize) + if_seq(can_move, WindowMenuEventView::CanMove)
        + if_seq(can_resize, WindowMenuEventView::CanResize) + seq![
        WindowMenuEventView::StackingState(stacking_state),
    ] + opt_event(shaded_state, |b: bool| WindowMenuEventView::IsShaded(b)) + opt_event(
        fullscreen_state,
        |b: bool| WindowMenuEventView::IsFullscreen(b),
    ) + if_seq(sticky, WindowMenuEventView::Sticky) + workspace_events(workspace_names, current_workspace)
        + monitor_events(adjacent_outputs) + if_seq(can_close, WindowMenuEventView::CanClose) + seq![
        WindowMenuEventView::Done,
    ]
}

impl WindowMenuState {
    pub open spec fn spec_events(&self) -> Seq<WindowMenuEventView> {
        spec_menu_events(
            self.window_id,
            self.maximize_state,
            self.can_minimize,
            self.can_move,
            self.can_resize,
            self.stacking_state,
            self.shaded_state,
            self.fullscreen_state,
            self.sticky,
            names_view(self.workspace_names@),
            self.current_workspace,
            self.adjacent_outputs@,
            self.can_close,
        )
    }

    pub open spec fn head_events(&self) -> Seq<WindowMenuEventView> {
        seq![WindowMenuEventView::WindowId(self.window_id)] + opt_event(
            self.maximize_state,
            |b: bool| WindowMenuEventView::IsMaximized(b),
        ) + if_seq(self.can_minimize, WindowMenuEventView::CanMinimize) + if_seq(
            self.can_move,
            WindowMenuEventView::CanMove,
        ) + if_seq(self.can_resize, WindowMenuEventView::CanResize) + seq![
            WindowMenuEventView::StackingState(self.stacking_state),
        ] + opt_event(self.shaded_state, |b: bool| WindowMenuEventView::IsShaded(b)) + opt_event(
            self.fullscreen_state,
            |b: bool| WindowMenuEventView::IsFullscreen(b),
        ) + if_seq(self.sticky, WindowMenuEventView::Sticky)
    }

    fn push_opt_flag(r: &mut Vec<WindowMenuEvent>, cond: bool, e: WindowMenuEvent)
        ensures
            menu_events_view(final(r)@) == menu_events_view(old(r)@) + if_seq(cond, e@),
    {
        let ghost r0 = menu_events_view(r@);
        let ghost ev = e@;
        if cond {
            r.push(e);
            assert(menu_events_view(r@) =~= r0 + if_seq(cond, ev));
        } else {
            assert(menu_events_view(r@) =~= r0 + if_seq(cond, ev));
        }
    }

    fn head_event_list(&self) -> (r: Vec<WindowMenuEvent>)
        ensures
            menu_events_view(r@) == self.head_events(),
    {
        let mut r: Vec<WindowMenuEvent> = Vec::new();
        r.push(WindowMenuEvent::WindowId(self.window_id));
        assert(menu_events_view(r@) =~= seq![WindowMenuEventView::WindowId(self.window_id)]);
        Self::push_opt_flag(&mut r, self.maximize_state.is_some(), WindowMenuEvent::IsMaximized(self.maximize_state == Some(true)));
        assert(if_seq(self.maximize_state.is_some(), WindowMenuEventView::IsMaximized(self.maximize_state == Some(true)))
            =~= opt_event(self.maximize_state, |b: bool| WindowMenuEventView::IsMaximized(b)));
        Self::push_opt_flag(&mut r, self.can_minimize, WindowMenuEvent::CanMinimize);
        Self::push_opt_flag(&mut r, self.can_move, WindowMenuEvent::CanMove);
        Self::push_opt_flag(&mut r, self.can_resize, WindowMenuEvent::CanResize);
        Self::push_opt_flag(&mut r, true, WindowMenuEvent::StackingState(self.stacking_state));
        Self::push_opt_flag(&mut r, self.shaded_state.is_some(), WindowMenuEvent::IsShaded(self.shaded_state == Some(true)));
        assert(if_seq(self.shaded_state.is_some(), WindowMenuEventView::IsShaded(self.shaded_state == Some(true)))
            =~= opt_event(self.shaded_state, |b: bool| WindowMenuEventView::IsShaded(b)));
        Self::push_opt_flag(
            &mut r,
            self.fullscreen_state.is_some(),
            WindowMenuEvent::IsFullscreen(self.fullscreen_state == Some(true)),
        );
        assert(if_seq(self.fullscreen_state.is_some(), WindowMenuEventView::IsFullscreen(self.fullscreen_state == Some(true)))
            =~= opt_event(self.fullscreen_state, |b: bool| WindowMenuEventView::IsFullscreen(b)));
        Self::push_opt_flag(&mut r, self.sticky, WindowMenuEvent::Sticky);
        assert(if_seq(true, WindowMenuEventView::StackingState(self.stacking_state)) =~= seq![
            WindowMenuEventView::StackingState(self.stacking_state),
        ]);
        r
    }

    fn push_workspace_events(&self, r: &mut Vec<WindowMenuEvent>)
        ensures
            menu_events_view(final(r)@) == menu_events_view(old(r)@) + workspace_events(
                names_view(self.workspace_names@),
                self.current_workspace,
            ),
    {
        let ghost head = menu_events_view(r@);
        let ghost orig_names = self.workspace_names@;
        let current = self.current_workspace;
        let n = self.workspace_names.len();
        let mut i: usize = 0;
        while i < n
            invariant
                n == orig_names.len(),
                orig_names == self.workspace_names@,
                current == self.current_workspace,
                0 <= i <= n,
                menu_events_view(r@) =~= head + workspace_events(
                    names_view(orig_names.subrange(0, i as int)),
                    current,
                ),
            decreases n - i,
        {
            let ghost r0 = menu_events_view(r@);
            let name = self.workspace_names[i].clone();
            let is_current = i as u64 == current as u64;
            r.push(WindowMenuEvent::Workspace { name, is_current });
            proof {
                let ev = WindowMenuEventView::Workspace { name: orig_names[i as int]@, is_current: i == current };
                assert(menu_events_view(r@) =~= r0.push(ev));
                assert(workspace_events(names_view(orig_names.subrange(0, i as int + 1)), current)
                    =~= workspace_events(names_view(orig_names.subrange(0, i as int)), current).push(ev));
            }
            i = i + 1;
        }
        assert(orig_names.subrange(0, n as int) =~= orig_names);
    }

    fn push_monitor_events(&self, r: &mut Vec<WindowMenuEvent>)
        ensures
            menu_events_view(final(r)@) == menu_events_view(old(r)@) + monitor_events(self.adjacent_outputs@),
    {
        let ghost mid = menu_events_view(r@);
        let mut j: usize = 0;
        while j < self.adjacent_outputs.len()
            invariant
                0 <= j <= self.adjacent_outputs@.len(),
                menu_events_view(r@) =~= mid + monitor_events(self.adjacent_outputs@.subrange(0, j as int)),
            decreases self.adjacent_outputs@.len() - j,
        {
            let ghost r0 = menu_events_view(r@);
            let d = self.adjacent_outputs[j];
            r.push(WindowMenuEvent::AdjacentMonitor(d));
            proof {
                assert(menu_events_view(r@) =~= r0.push(WindowMenuEventView::AdjacentMonitor(d)));
                assert(monitor_events(self.adjacent_outputs@.subrange(0, j as int + 1)) =~= monitor_events(
                    self.adjacent_outputs@.subrange(0, j as int),
                ).push(WindowMenuEventView::AdjacentMonitor(d)));
            }
            j = j + 1;
        }
        assert(self.adjacent_outputs@.subrange(0, self.adjacent_outputs@.len() as int) =~= self.adjacent_outputs@);
    }

    /// The events that describe the window to the UI process.
    pub fn events(&self) -> (r: Vec<WindowMenuEvent>)
        ensures
            menu_events_view(r@) == self.spec_events(),
    {
        let mut r = self.head_event_list();
        self.push_workspace_events(&mut r);
        self.push_monitor_events(&mut r);
        let ghost r0 = menu_events_view(r@);
        if self.can_close {
            r.push(WindowMenuEvent::CanClose);
        }
        r.push(WindowMenuEvent::Done);
        assert(menu_events_view(r@) =~= r0 + if_seq(self.can_close, WindowMenuEventView::CanClose) + seq![
            WindowMenuEventView::Done,
        ]);
        assert(menu_events_view(r@) =~= self.spec_events());
        r
    }
}

} // verus!
