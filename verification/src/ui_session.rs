//! The compositor's side of its session with the UI process: which client may bind the UI
//! manager, whether a window switcher or a window menu is up, and what each request of the UI
//! process means.  Protocol objects are named by their ids; the calls that create and send
//! them are made by the caller, in the order these functions allow.

use vstd::prelude::*;
use crate::compositor_ui::{ActionType, Direction, WindowMenuAction};
use crate::tabwin::TabwinMode;
use crate::util::push_unique;

verus! {

/// What the UI process is told of the switcher so that it can guess the icon sizes it needs.
#[derive(Clone, Copy, Debug, PartialEq, Eq, Structural)]
pub struct IconSizeHints {
    pub tabwin_mode: TabwinMode,
    pub tabwin_show_window_previews: bool,
}

/// A window switcher that is up: its protocol object, whether it shows previews, and each
/// window sent to it as `(window id, protocol object)`.
pub struct TabwinSession {
    pub object: u32,
    pub show_window_previews: bool,
    pub windows: Vec<(u32, u32)>,
}

/// A window menu that is up: its protocol object and the window it is for.
#[derive(Clone, Copy, Debug, PartialEq, Eq, Structural)]
pub struct WindowMenuSession {
    pub object: u32,
    pub window_id: u32,
}

/// Why the compositor could not do what it meant to with the UI process.
#[derive(Clone, Copy, Debug, PartialEq, Eq, Structural)]
pub enum UiRequestError {
    /// No UI manager is bound, or its client is gone.
    NoClient,
    TabwinAlreadyUp,
    TabwinNotUp,
    /// The switcher's client went away; the switcher is forgotten.
    TabwinClientGone,
    WindowMenuAlreadyUp,
}

impl UiRequestError {
    /// What the error says.
    pub fn message(&self) -> (r: &'static str)
        ensures
            r@ == (match *self {
                UiRequestError::NoClient => "No UI process bound or client gone"@,
                UiRequestError::TabwinAlreadyUp => "Attempt to raise tabwin while it's already up"@,
                UiRequestError::TabwinNotUp => "Attempt to add window to tabwin when it's not up"@,
                UiRequestError::TabwinClientGone => "Attempt to add window to tabwin, but the UI process client is gone"@,
                UiRequestError::WindowMenuAlreadyUp => "Attempt to create the window menu when it's already up"@,
            }),
    {
        match self {
            UiRequestError::NoClient => "No UI process bound or client gone",
            UiRequestError::TabwinAlreadyUp => "Attempt to raise tabwin while it's already up",
            UiRequestError::TabwinNotUp => "Attempt to add window to tabwin when it's not up",
            UiRequestError::TabwinClientGone => "Attempt to add window to tabwin, but the UI process client is gone",
            UiRequestError::WindowMenuAlreadyUp => "Attempt to create the window menu when it's already up",
        }
    }
}

/// A request of the UI process on the switcher.
#[derive(Clone, Copy, Debug, PartialEq, Eq, Structural)]
pub enum TabwinRequest {
    Hover(u32),
    Finished(u32),
    Dismissed,
}

/// What the compositor learns from the switcher: the window hovered, or the end of the
/// switcher with the window chosen (none when it was dismissed).
#[derive(Clone, Copy, Debug, PartialEq, Eq, Structural)]
pub enum TabwinNotice {
    Hover(u32),
    Finished(Option<u32>),
}

/// A request of the UI process on the window menu; an enum value the compositor does not
/// know arrives as `None`.
#[derive(Clone, Copy, Debug, PartialEq, Eq, Structural)]
pub enum WindowMenuRequest {
    Ready,
    Action(Option<ActionType>),
    MoveToWorkspace(u32),
    MoveToOutput(Option<Direction>),
    Dismissed,
}

/// What the compositor learns from the window menu.
#[derive(Clone, Copy, Debug, PartialEq, Eq, Structural)]
pub enum WindowMenuNotice {
    Ready,
    Action(u32, WindowMenuAction),
    Dismissed,
}

/// The compositor's record of its session with the UI process.
pub struct CompositorUiState {
    /// The process allowed to bind the UI manager.
    pub client_pid: Option<i32>,
    /// The bound UI manager's protocol object.
    pub manager: Option<u32>,
    pub icon_size_hints: IconSizeHints,
    pub tabwin: Option<TabwinSession>,
    pub window_menu: Option<WindowMenuSession>,
    pub shutting_down: bool,
}

pub struct TabwinSessionView {
    pub object: u32,
    pub show_window_previews: bool,
    pub windows: Seq<(u32, u32)>,
}

pub struct UiSessionView {
    pub client_pid: Option<i32>,
    pub manager: Option<u32>,
    pub icon_size_hints: IconSizeHints,
    pub tabwin: Option<TabwinSessionView>,
    pub window_menu: Option<WindowMenuSession>,
    pub shutting_down: bool,
}

impl View for TabwinSession {
    type V = TabwinSessionView;

    open spec fn view(&self) -> TabwinSessionView {
        TabwinSessionView {
            object: self.object,
            show_window_previews: self.show_window_previews,
            windows: self.windows@,
        }
    }
}

pub open spec fn tabwin_view(t: Option<TabwinSession>) -> Option<TabwinSessionView> {
    match t {
        Some(t) => Some(t@),
        None => None,
    }
}

impl View for CompositorUiState {
    type V = UiSessionView;

    open spec fn view(&self) -> UiSessionView {
        UiSessionView {
            client_pid: self.client_pid,
            manager: self.manager,
            icon_size_hints: self.icon_size_hints,
            tabwin: tabwin_view(self.tabwin),
            window_menu: self.window_menu,
            shutting_down: self.shutting_down,
        }
    }
}

/// Only the UI process may see the UI manager: a client whose process id could be read and is
/// the one recorded.
pub open spec fn spec_may_view(client_pid: Option<i32>, peer_pid: Option<i32>) -> bool {
    client_pid is Some && peer_pid == client_pid
}

/// Whether a client may see the UI manager; `peer_pid` is `None` when its credentials could
/// not be read.
pub fn ui_client_may_view(client_pid: Option<i32>, peer_pid: Option<i32>) -> (r: bool)
    ensures
        r == spec_may_view(client_pid, peer_pid),
{
    match client_pid {
        None => false,
        Some(pid) => match peer_pid {
            None => false,
            Some(peer) => peer == pid,
        },
    }
}

/// A new UI process (or none): everything of the old one is forgotten.
pub open spec fn spec_set_ui_client_pid(s: UiSessionView, client_pid: Option<i32>) -> UiSessionView {
    UiSessionView { client_pid, manager: None, tabwin: None, window_menu: None, ..s }
}

/// The first binding of the UI manager is kept, a later one ignored.
pub open spec fn spec_bind(s: UiSessionView, object: u32) -> (UiSessionView, bool) {
    if s.manager is None {
        (UiSessionView { manager: Some(object), ..s }, true)
    } else {
        (s, false)
    }
}

pub open spec fn spec_check_create_tabwin(s: UiSessionView, client_alive: bool) -> Result<(), UiRequestError> {
    if s.tabwin is Some {
        Err(UiRequestError::TabwinAlreadyUp)
    } else if s.manager is None || !client_alive {
        Err(UiRequestError::NoClient)
    } else {
        Ok(())
    }
}

pub open spec fn spec_check_create_window_menu(s: UiSessionView, client_alive: bool) -> Result<(), UiRequestError> {
    if s.window_menu is Some {
        Err(UiRequestError::WindowMenuAlreadyUp)
    } else if s.manager is None || !client_alive {
        Err(UiRequestError::NoClient)
    } else {
        Ok(())
    }
}

/// Hovering is passed on; finishing or dismissing ends the switcher.
pub open spec fn spec_tabwin_request(s: UiSessionView, req: TabwinRequest) -> (UiSessionView, TabwinNotice) {
    match req {
        TabwinRequest::Hover(id) => (s, TabwinNotice::Hover(id)),
        TabwinRequest::Finished(id) => (UiSessionView { tabwin: None, ..s }, TabwinNotice::Finished(Some(id))),
        TabwinRequest::Dismissed => (UiSessionView { tabwin: None, ..s }, TabwinNotice::Finished(None)),
    }
}

/// The switcher's object was destroyed before it finished: it ends as dismissed.
pub open spec fn spec_tabwin_destroyed(s: UiSessionView, object: u32) -> (UiSessionView, Option<TabwinNotice>) {
    if s.tabwin matches Some(t) && t.object == object {
        (UiSessionView { tabwin: None, ..s }, Some(TabwinNotice::Finished(None)))
    } else {
        (s, None)
    }
}

pub open spec fn spec_window_menu_notice(menu: WindowMenuSession, req: WindowMenuRequest) -> Option<WindowMenuNotice> {
    match req {
        WindowMenuRequest::Ready => Some(WindowMenuNotice::Ready),
        WindowMenuRequest::Action(Some(a)) => Some(
            WindowMenuNotice::Action(menu.window_id, WindowMenuAction::Action(a)),
        ),
        WindowMenuRequest::Action(None) => None,
        WindowMenuRequest::MoveToWorkspace(i) => Some(
            WindowMenuNotice::Action(menu.window_id, WindowMenuAction::MoveToWorkspace(i)),
        ),
        WindowMenuRequest::MoveToOutput(Some(d)) => Some(
            WindowMenuNotice::Action(menu.window_id, WindowMenuAction::MoveToOutput(d)),
        ),
        WindowMenuRequest::MoveToOutput(None) => None,
        WindowMenuRequest::Dismissed => Some(WindowMenuNotice::Dismissed),
    }
}

/// A request on a window menu object counts only from the menu that is up; dismissing ends it.
pub open spec fn spec_window_menu_request(s: UiSessionView, object: u32, req: WindowMenuRequest) -> (
    UiSessionView,
    Option<WindowMenuNotice>,
) {
    if s.window_menu matches Some(m) && m.object == object {
        (
            if req is Dismissed { UiSessionView { window_menu: None, ..s } } else { s },
            spec_window_menu_notice(s.window_menu->0, req),
        )
    } else {
        (s, None)
    }
}

/// The menu's object was destroyed before it was dismissed: it ends as dismissed.
pub open spec fn spec_window_menu_destroyed(s: UiSessionView, object: u32) -> (UiSessionView, bool) {
    if s.window_menu matches Some(m) && m.object == object {
        (UiSessionView { window_menu: None, ..s }, true)
    } else {
        (s, false)
    }
}

/// The windows of a switcher other than the one whose protocol object is `object`.
pub open spec fn without_object(windows: Seq<(u32, u32)>, object: u32) -> Seq<(u32, u32)> {
    windows.filter(|w: (u32, u32)| w.1 != object)
}

impl CompositorUiState {
    /// No UI process yet, nothing up.
    pub fn new(icon_size_hints: IconSizeHints) -> (r: CompositorUiState)
        ensures
            r@ == (UiSessionView {
                client_pid: None,
                manager: None,
                icon_size_hints,
                tabwin: None,
                window_menu: None,
                shutting_down: false,
            }),
    {
        CompositorUiState {
            client_pid: None,
            manager: None,
            icon_size_hints,
            tabwin: None,
            window_menu: None,
            shutting_down: false,
        }
    }

    pub fn client_pid(&self) -> (r: Option<i32>)
        ensures
            r == self.client_pid,
    {
        self.client_pid
    }

    /// A new UI process (or none): everything of the old one is forgotten.
    pub fn set_ui_client_pid(&mut self, client_pid: Option<i32>)
        ensures
            final(self)@ == spec_set_ui_client_pid(old(self)@, client_pid),
    {
        self.client_pid = client_pid;
        self.manager = None;
        self.tabwin = None;
        self.window_menu = None;
    }

    /// New hints; `true` when they are to be sent to the bound UI manager.
    pub fn set_icon_size_hints(&mut self, hints: IconSizeHints) -> (send: bool)
        ensures
            final(self)@ == (UiSessionView { icon_size_hints: hints, ..old(self)@ }),
            send == (old(self).manager is Some),
    {
        self.icon_size_hints = hints;
        self.manager.is_some()
    }

    /// A client bound the UI manager: the first binding is kept (and is sent the icon size
    /// hints), a later one is ignored.  `true` when this one was kept.
    pub fn bind(&mut self, object: u32) -> (kept: bool)
        ensures
            (final(self)@, kept) == spec_bind(old(self)@, object),
    {
        if self.manager.is_none() {
            self.manager = Some(object);
            true
        } else {
            false
        }
    }

    /// A UI manager object was destroyed; `true` when the UI process went away while the
    /// compositor was not shutting down.
    pub fn manager_destroyed(&mut self, object: u32) -> (unexpected: bool)
        ensures
            final(self)@ == (UiSessionView {
                manager: if old(self).manager == Some(object) { None } else { old(self).manager },
                ..old(self)@
            }),
            unexpected == !old(self).shutting_down,
    {
        if self.manager == Some(object) {
            self.manager = None;
        }
        !self.shutting_down
    }

    /// Whether a switcher may be raised: none is up, and a UI manager is bound whose client is
    /// alive.
    pub fn check_create_tabwin(&self, client_alive: bool) -> (r: Result<(), UiRequestError>)
        ensures
            r == spec_check_create_tabwin(self@, client_alive),
    {
        if self.tabwin.is_some() {
            Err(UiRequestError::TabwinAlreadyUp)
        } else if self.manager.is_none() || !client_alive {
            Err(UiRequestError::NoClient)
        } else {
            Ok(())
        }
    }

    /// The switcher was raised and its windows sent.
    pub fn tabwin_created(&mut self, object: u32, show_window_previews: bool, windows: Vec<(u32, u32)>)
        requires
            old(self).tabwin is None,
        ensures
            final(self)@ == (UiSessionView {
                tabwin: Some(TabwinSessionView { object, show_window_previews, windows: windows@ }),
                ..old(self)@
            }),
    {
        self.tabwin = Some(TabwinSession { object, show_window_previews, windows });
    }

    /// Whether a window may be added to the switcher: it must be up, and its client alive;
    /// when the client is gone the switcher is forgotten.  On success, the previews setting
    /// to send the window with.
    pub fn check_tabwin_add_window(&mut self, client_alive: bool) -> (r: Result<bool, UiRequestError>)
        ensures
            old(self).tabwin is None ==> r == Err::<bool, UiRequestError>(UiRequestError::TabwinNotUp)
                && final(self)@ == old(self)@,
            old(self).tabwin is Some && !client_alive ==> r == Err::<bool, UiRequestError>(
                UiRequestError::TabwinClientGone,
            ) && final(self)@ == (UiSessionView { tabwin: None, ..old(self)@ }),
            old(self).tabwin is Some && client_alive ==> r == Ok::<bool, UiRequestError>(
                old(self).tabwin->0.show_window_previews,
            ) && final(self)@ == old(self)@,
    {
        match &self.tabwin {
            None => Err(UiRequestError::TabwinNotUp),
            Some(t) => {
                if client_alive {
                    Ok(t.show_window_previews)
                } else {
                    self.tabwin = None;
                    Err(UiRequestError::TabwinClientGone)
                }
            },
        }
    }

    /// A window was sent to the switcher.
    pub fn tabwin_window_sent(&mut self, window_id: u32, object: u32)
        requires
            old(self).tabwin is Some,
        ensures
            final(self)@ == (UiSessionView {
                tabwin: Some(
                    TabwinSessionView {
                        windows: old(self).tabwin->0.windows@.push((window_id, object)),
                        ..old(self).tabwin->0@
                    },
                ),
                ..old(self)@
            }),
    {
        let t = self.tabwin.take();
        match t {
            Some(mut t) => {
                t.windows.push((window_id, object));
                self.tabwin = Some(t);
            },
            None => {},
        }
    }

    /// Whether the switcher is to be told that a window is gone: only while it is up.
    pub fn tabwin_remove_window(&self) -> (send: bool)
        ensures
            send == (self.tabwin is Some),
    {
        self.tabwin.is_some()
    }

    /// The switcher was closed by the compositor.
    pub fn tabwin_closed(&mut self)
        ensures
            final(self)@ == (UiSessionView { tabwin: None, ..old(self)@ }),
    {
        self.tabwin = None;
    }

    /// A request of the UI process on the switcher.
    pub fn tabwin_request(&mut self, req: TabwinRequest) -> (n: TabwinNotice)
        ensures
            (final(self)@, n) == spec_tabwin_request(old(self)@, req),
    {
        match req {
            TabwinRequest::Hover(id) => TabwinNotice::Hover(id),
            TabwinRequest::Finished(id) => {
                self.tabwin = None;
                TabwinNotice::Finished(Some(id))
            },
            TabwinRequest::Dismissed => {
                self.tabwin = None;
                TabwinNotice::Finished(None)
            },
        }
    }

    /// A switcher object was destroyed.
    pub fn tabwin_destroyed(&mut self, object: u32) -> (n: Option<TabwinNotice>)
        ensures
            (final(self)@, n) == spec_tabwin_destroyed(old(self)@, object),
    {
        let is_up = match &self.tabwin {
            Some(t) => t.object == object,
            None => false,
        };
        if is_up {
            self.tabwin = None;
            Some(TabwinNotice::Finished(None))
        } else {
            None
        }
    }

    /// A switcher window object was destroyed: the switcher forgets it.
    pub fn tabwin_window_destroyed(&mut self, object: u32)
        ensures
            final(self)@ == (UiSessionView {
                tabwin: match old(self)@.tabwin {
                    Some(t) => Some(TabwinSessionView { windows: without_object(t.windows, object), ..t }),
                    None => None,
                },
                ..old(self)@
            }),
    {
        let t = self.tabwin.take();
        match t {
            Some(t) => {
                let mut kept: Vec<(u32, u32)> = Vec::new();
                let mut i: usize = 0;
                while i < t.windows.len()
                    invariant
                        0 <= i <= t.windows@.len(),
                        kept@ == without_object(t.windows@.subrange(0, i as int), object),
                    decreases t.windows@.len() - i,
                {
                    let w = t.windows[i];
                    proof {
                        let s = t.windows@.subrange(0, i as int + 1);
                        assert(s.drop_last() =~= t.windows@.subrange(0, i as int));
                        reveal_with_fuel(Seq::filter, 1);
                    }
                    if w.1 != object {
                        kept.push(w);
                    }
                    i = i + 1;
                }
                proof {
                    assert(t.windows@.subrange(0, t.windows@.len() as int) =~= t.windows@);
                }
                self.tabwin = Some(TabwinSession {
                    object: t.object,
                    show_window_previews: t.show_window_previews,
                    windows: kept,
                });
            },
            None => {},
        }
    }

    /// Whether a window menu may be created: none is up, and a UI manager is bound whose
    /// client is alive.
    pub fn check_create_window_menu(&self, client_alive: bool) -> (r: Result<(), UiRequestError>)
        ensures
            r == spec_check_create_window_menu(self@, client_alive),
    {
        if self.window_menu.is_some() {
            Err(UiRequestError::WindowMenuAlreadyUp)
        } else if self.manager.is_none() || !client_alive {
            Err(UiRequestError::NoClient)
        } else {
            Ok(())
        }
    }

    /// The window menu was created and sent.
    pub fn window_menu_created(&mut self, object: u32, window_id: u32)
        requires
            old(self).window_menu is None,
        ensures
            final(self)@ == (UiSessionView {
                window_menu: Some(WindowMenuSession { object, window_id }),
                ..old(self)@
            }),
    {
        self.window_menu = Some(WindowMenuSession { object, window_id });
    }

    /// A request of the UI process on a window menu object.
    pub fn window_menu_request(&mut self, object: u32, req: WindowMenuRequest) -> (n: Option<WindowMenuNotice>)
        ensures
            (final(self)@, n) == spec_window_menu_request(old(self)@, object, req),
    {
        let menu = match self.window_menu {
            Some(m) => if m.object == object { m } else { return None; },
            None => { return None; },
        };
        match req {
            WindowMenuRequest::Ready => Some(WindowMenuNotice::Ready),
            WindowMenuRequest::Action(Some(a)) => Some(
                WindowMenuNotice::Action(menu.window_id, WindowMenuAction::Action(a)),
            ),
            WindowMenuRequest::Action(None) => None,
            WindowMenuRequest::MoveToWorkspace(i) => Some(
                WindowMenuNotice::Action(menu.window_id, WindowMenuAction::MoveToWorkspace(i)),
            ),
            WindowMenuRequest::MoveToOutput(Some(d)) => Some(
                WindowMenuNotice::Action(menu.window_id, WindowMenuAction::MoveToOutput(d)),
            ),
            WindowMenuRequest::MoveToOutput(None) => None,
            WindowMenuRequest::Dismissed => {
                self.window_menu = None;
                Some(WindowMenuNotice::Dismissed)
            },
        }
    }

    /// A window menu object was destroyed; `true` when the menu that is up ended with it.
    pub fn window_menu_destroyed(&mut self, object: u32) -> (dismissed: bool)
        ensures
            (final(self)@, dismissed) == spec_window_menu_destroyed(old(self)@, object),
    {
        let up = match self.window_menu {
            Some(m) => m.object == object,
            None => false,
        };
        if up {
            self.window_menu = None;
        }
        up
    }

    /// The compositor is shutting down; `true` when the bound UI manager is to be told to quit.
    pub fn send_quit(&mut self) -> (send: bool)
        ensures
            final(self)@ == (UiSessionView { shutting_down: true, ..old(self)@ }),
            send == (old(self).manager is Some),
    {
        self.shutting_down = true;
        self.manager.is_some()
    }
}

/// The signed value of four bytes, least significant first.
pub open spec fn word_le(b0: u8, b1: u8, b2: u8, b3: u8) -> int {
    let u = b0 as int + 0x100 * b1 + 0x1_0000 * b2 + 0x100_0000 * b3;
    if u >= 0x8000_0000 { u - 0x1_0000_0000 } else { u }
}

/// The signed value of four bytes, most significant first.
pub open spec fn word_be(b0: u8, b1: u8, b2: u8, b3: u8) -> int {
    word_le(b3, b2, b1, b0)
}

/// `i32::from_ne_bytes` on four bytes: their value in the machine's byte order, which is
/// least significant byte first or most significant byte first.  Which of the two is not
/// stated: it is a property of the machine.
#[verifier::external_body]
pub(crate) fn i32_from_ne_bytes(b0: u8, b1: u8, b2: u8, b3: u8) -> (r: i32)
    ensures
        r as int == word_le(b0, b1, b2, b3) || r as int == word_be(b0, b1, b2, b3),
{
    i32::from_ne_bytes([b0, b1, b2, b3])
}

/// The value of four bytes in the given order: least significant first when `le`.
pub open spec fn word_in_order(le: bool, b0: u8, b1: u8, b2: u8, b3: u8) -> int {
    if le { word_le(b0, b1, b2, b3) } else { word_be(b0, b1, b2, b3) }
}

fn word_value(le: bool, b0: u8, b1: u8, b2: u8, b3: u8) -> (r: i32)
    ensures
        r as int == word_in_order(le, b0, b1, b2, b3),
{
    let (a, b, c, d) = if le { (b0, b1, b2, b3) } else { (b3, b2, b1, b0) };
    let u: i64 = a as i64 + 0x100 * b as i64 + 0x1_0000 * c as i64 + 0x100_0000 * d as i64;
    let v: i64 = if u >= 0x8000_0000 { u - 0x1_0000_0000 } else { u };
    v as i32
}

/// `w` is the `i`-th four-byte word of `bytes`, read in the order given by `le`.
pub open spec fn is_word_of(bytes: Seq<u8>, i: int, w: i32, le: bool) -> bool {
    w as int == word_in_order(le, bytes[4 * i], bytes[4 * i + 1], bytes[4 * i + 2], bytes[4 * i + 3])
}

/// `ws` are the whole four-byte words of `bytes`, all read in one byte order, a trailing
/// partial word dropped.
pub open spec fn words_of(bytes: Seq<u8>, ws: Seq<i32>, le: bool) -> bool {
    &&& ws.len() == bytes.len() / 4
    &&& forall|i: int| 0 <= i < ws.len() ==> #[trigger] is_word_of(bytes, i, ws[i], le)
}

/// The icon sizes the UI process asked for: the four-byte words of its array, all read in the
/// machine's byte order, each size once.
pub fn decode_icon_sizes(bytes: &Vec<u8>) -> (r: Vec<i32>)
    ensures
        r@.no_duplicates(),
        exists|le: bool, ws: Seq<i32>| #[trigger] words_of(bytes@, ws, le) && r@.to_set() == ws.to_set(),
{
    // The machine reads the bytes 1, 0, 0, 0 as 1 exactly when it puts the least significant
    // byte first.
    let le = i32_from_ne_bytes(1, 0, 0, 0) == 1;
    let mut r: Vec<i32> = Vec::new();
    let ghost mut ws: Seq<i32> = Seq::empty();
    let len = bytes.len();
    let n = len / 4;
    let mut i: usize = 0;
    while i < n
        invariant
            0 <= i <= n,
            len == bytes@.len(),
            n == bytes@.len() / 4,
            4 * n <= bytes@.len(),
            ws.len() == i,
            forall|j: int| 0 <= j < i ==> #[trigger] is_word_of(bytes@, j, ws[j], le),
            r@.no_duplicates(),
            r@.to_set() == ws.to_set(),
        decreases n - i,
    {
        let k = 4 * i;
        let w = word_value(le, bytes[k], bytes[k + 1], bytes[k + 2], bytes[k + 3]);
        let ghost old_ws = ws;
        proof {
            ws = ws.push(w);
            assert forall|j: int| 0 <= j < i + 1 implies #[trigger] is_word_of(bytes@, j, ws[j], le) by {
                if j < i {
                    assert(ws[j] == old_ws[j]);
                }
            }
            assert(ws.to_set() =~= old_ws.to_set().insert(w)) by {
                assert forall|x: i32| #[trigger] ws.to_set().contains(x) <==> old_ws.to_set().insert(w).contains(x) by {
                    if ws.to_set().contains(x) {
                        let j = choose|j: int| 0 <= j < ws.len() && ws[j] == x;
                        if j < i {
                            assert(old_ws[j] == x);
                        }
                    }
                    if old_ws.to_set().contains(x) {
                        let j = choose|j: int| 0 <= j < old_ws.len() && old_ws[j] == x;
                        assert(ws[j] == x);
                    }
                    if x == w {
                        assert(ws[i as int] == x);
                    }
                }
            }
        }
        push_unique(&mut r, w);
        i = i + 1;
    }
    proof {
        assert(words_of(bytes@, ws, le));
    }
    r
}

/// A switcher is reported finished once: once the UI process finished or dismissed it, the
/// destruction of any switcher object reports nothing more.
pub proof fn lemma_tabwin_finishes_once(s: UiSessionView, req: TabwinRequest, object: u32)
    requires
        !(req is Hover),
    ensures
        spec_tabwin_destroyed(spec_tabwin_request(s, req).0, object).1 is None,
{
}

/// A window menu is reported dismissed once, whichever of its dismissal and its destruction
/// comes first.
pub proof fn lemma_window_menu_dismissed_once(s: UiSessionView, object: u32)
    ensures
        !spec_window_menu_destroyed(spec_window_menu_request(s, object, WindowMenuRequest::Dismissed).0, object).1,
        spec_window_menu_destroyed(s, object).1 ==> spec_window_menu_request(
            spec_window_menu_destroyed(s, object).0,
            object,
            WindowMenuRequest::Dismissed,
        ).1 is None,
{
}

/// A new UI process must bind the UI manager before a switcher or a window menu is shown
/// through it, and a second binding is refused.
pub proof fn lemma_new_client_must_bind(s: UiSessionView, pid: Option<i32>, alive: bool, o1: u32, o2: u32)
    ensures
        spec_check_create_tabwin(spec_set_ui_client_pid(s, pid), alive) == Err::<(), UiRequestError>(
            UiRequestError::NoClient,
        ),
        spec_check_create_window_menu(spec_set_ui_client_pid(s, pid), alive) == Err::<(), UiRequestError>(
            UiRequestError::NoClient,
        ),
        spec_bind(spec_set_ui_client_pid(s, pid), o1).1,
        !spec_bind(spec_bind(s, o1).0, o2).1,
{
}

} // verus!
