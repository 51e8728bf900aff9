//! The window menu the UI process shows: which entries it has, how they read, which can be
//! chosen, and what choosing each does.

use vstd::prelude::*;
use crate::compositor_ui::{Direction, StackingState};
use crate::ui_protocol::WindowMenuAction;

verus! {

/// A fixed text of the menu, translated when shown (but for the monitor submenu's title).
#[derive(Clone, Copy, Debug, PartialEq, Eq, Structural)]
pub enum MenuText {
    Maximize,
    Unmaximize,
    Minimize,
    MinimizeOtherWindows,
    Move,
    Resize,
    AlwaysOnTop,
    SameAsOtherWindows,
    AlwaysBelowOtherWindows,
    RollWindowUp,
    RollWindowDown,
    Fullscreen,
    Unfullscreen,
    AlwaysOnVisibleWorkspace,
    MoveToAnotherWorkspace,
    MoveToAnotherMonitor,
    MonitorLeft,
    MonitorRight,
    MonitorUp,
    MonitorDown,
    Close,
}

/// How an entry behaves.
#[derive(Clone, Copy, Debug, PartialEq, Eq, Structural)]
pub enum MenuItemKind {
    Plain,
    Radio { active: bool },
    Check { active: bool },
    Separator,
    Submenu,
}

/// A menu entry with a fixed text, or a workspace entry named after its workspace.
pub struct MenuItem {
    pub text: Option<MenuText>,
    pub name: Option<String>,
    pub kind: MenuItemKind,
    pub sensitive: bool,
    pub action: Option<WindowMenuAction>,
}

pub struct MenuItemView {
    pub text: Option<MenuText>,
    pub name: Option<Seq<char>>,
    pub kind: MenuItemKind,
    pub sensitive: bool,
    pub action: Option<WindowMenuAction>,
}

impl View for MenuItem {
    type V = MenuItemView;

    open spec fn view(&self) -> MenuItemView {
        MenuItemView {
            text: self.text,
            name: crate::util::ov(self.name),
            kind: self.kind,
            sensitive: self.sensitive,
            action: self.action,
        }
    }
}

pub open spec fn items_view(s: Seq<MenuItem>) -> Seq<MenuItemView> {
    s.map_values(|i: MenuItem| i@)
}

pub open spec fn fixed(text: MenuText, kind: MenuItemKind, sensitive: bool, action: Option<WindowMenuAction>) -> MenuItemView {
    MenuItemView { text: Some(text), name: None, kind, sensitive, action }
}

pub open spec fn separator() -> MenuItemView {
    MenuItemView { text: None, name: None, kind: MenuItemKind::Separator, sensitive: true, action: None }
}

/// The entries of the window menu, top level.
pub open spec fn spec_menu_items(
    maximized: Option<bool>,
    can_minimize: bool,
    can_move: bool,
    can_resize: bool,
    stacking_state: StackingState,
    shaded: Option<bool>,
    fullscreen: Option<bool>,
    sticky: bool,
    has_workspaces: bool,
    has_monitors: bool,
    can_close: bool,
) -> Seq<MenuItemView> {
    seq![
        fixed(
            if maximized == Some(true) { MenuText::Unmaximize } else { MenuText::Maximize },
            MenuItemKind::Plain,
            maximized.is_some(),
            Some(WindowMenuAction::ToggleMaximize),
        ),
        fixed(MenuText::Minimize, MenuItemKind::Plain, can_minimize, Some(WindowMenuAction::Minimize)),
        fixed(MenuText::MinimizeOtherWindows, MenuItemKind::Plain, true, Some(WindowMenuAction::MinimizeOtherWindows)),
        fixed(MenuText::Move, MenuItemKind::Plain, can_move, Some(WindowMenuAction::Move)),
        fixed(MenuText::Resize, MenuItemKind::Plain, can_resize, Some(WindowMenuAction::Resize)),
        separator(),
        fixed(
            MenuText::AlwaysOnTop,
            MenuItemKind::Radio { active: stacking_state == StackingState::AlwaysOnTop },
            true,
            Some(WindowMenuAction::StackOnTop),
        ),
        fixed(
            MenuText::SameAsOtherWindows,
            MenuItemKind::Radio { active: stacking_state == StackingState::Normal },
            true,
            Some(WindowMenuAction::StackNormal),
        ),
        fixed(
            MenuText::AlwaysBelowOtherWindows,
            MenuItemKind::Radio { active: stacking_state == StackingState::AlwaysBelow },
            true,
            Some(WindowMenuAction::StackBelow),
        ),
        separator(),
        fixed(
            if shaded == Some(true) { MenuText::RollWindowDown } else { MenuText::RollWindowUp },
            MenuItemKind::Plain,
            shaded.is_some(),
            Some(WindowMenuAction::ToggleShade),
        ),
        fixed(
            if fullscreen == Some(true) { MenuText::Unfullscreen } else { MenuText::Fullscreen },
            MenuItemKind::Plain,
            fullscreen.is_some(),
            Some(WindowMenuAction::Fullscreen),
        ),
        separator(),
        fixed(
            MenuText::AlwaysOnVisibleWorkspace,
            MenuItemKind::Check { active: sticky },
            true,
            Some(WindowMenuAction::ToggleSticky),
        ),
        fixed(MenuText::MoveToAnotherWorkspace, MenuItemKind::Submenu, has_workspaces, None),
    ] + (if has_monitors {
        seq![fixed(MenuText::MoveToAnotherMonitor, MenuItemKind::Submenu, true, None)]
    } else {
        Seq::empty()
    }) + seq![
        separator(),
        fixed(MenuText::Close, MenuItemKind::Plain, can_close, Some(WindowMenuAction::Close)),
    ]
}

/// Each entry of the window menu reflects the window: the maximize, shade and fullscreen
/// entries name the way back from the state the window is in and are offered when the window
/// can change it; exactly the stacking choice the window is in is checked; the sticky entry is
/// checked exactly when the window is sticky; moving to another workspace is offered when
/// there are workspaces; closing comes last and is offered when the window can be closed.
pub proof fn lemma_menu_entries_reflect_window(
    maximized: Option<bool>,
    can_minimize: bool,
    can_move: bool,
    can_resize: bool,
    stacking_state: StackingState,
    shaded: Option<bool>,
    fullscreen: Option<bool>,
    sticky: bool,
    has_workspaces: bool,
    has_monitors: bool,
    can_close: bool,
)
    ensures
        ({
            let s = spec_menu_items(
                maximized,
                can_minimize,
                can_move,
                can_resize,
                stacking_state,
                shaded,
                fullscreen,
                sticky,
                has_workspaces,
                has_monitors,
                can_close,
            );
            &&& s.len() == if has_monitors { 18int } else { 17int }
            &&& (s[0].text == Some(MenuText::Unmaximize) <==> maximized == Some(true))
            &&& s[0].text != Some(MenuText::Unmaximize) ==> s[0].text == Some(MenuText::Maximize)
            &&& s[0].sensitive == maximized.is_some()
            &&& s[0].action == Some(WindowMenuAction::ToggleMaximize)
            &&& s[1].text == Some(MenuText::Minimize) && s[1].sensitive == can_minimize
            &&& s[3].text == Some(MenuText::Move) && s[3].sensitive == can_move
            &&& s[4].text == Some(MenuText::Resize) && s[4].sensitive == can_resize
            &&& s[6].kind == (MenuItemKind::Radio { active: stacking_state == StackingState::AlwaysOnTop })
            &&& s[7].kind == (MenuItemKind::Radio { active: stacking_state == StackingState::Normal })
            &&& s[8].kind == (MenuItemKind::Radio { active: stacking_state == StackingState::AlwaysBelow })
            &&& s[6].action == Some(WindowMenuAction::StackOnTop)
            &&& s[7].action == Some(WindowMenuAction::StackNormal)
            &&& s[8].action == Some(WindowMenuAction::StackBelow)
            &&& (s[10].text == Some(MenuText::RollWindowDown) <==> shaded == Some(true))
            &&& s[10].text != Some(MenuText::RollWindowDown) ==> s[10].text == Some(MenuText::RollWindowUp)
            &&& s[10].sensitive == shaded.is_some()
            &&& (s[11].text == Some(MenuText::Unfullscreen) <==> fullscreen == Some(true))
            &&& s[11].text != Some(MenuText::Unfullscreen) ==> s[11].text == Some(MenuText::Fullscreen)
            &&& s[11].sensitive == fullscreen.is_some()
            &&& s[13].text == Some(MenuText::AlwaysOnVisibleWorkspace)
            &&& s[13].kind == (MenuItemKind::Check { active: sticky })
            &&& s[13].action == Some(WindowMenuAction::ToggleSticky)
            &&& s[14].text == Some(MenuText::MoveToAnotherWorkspace) && s[14].sensitive == has_workspaces
            &&& has_monitors ==> s[15].text == Some(MenuText::MoveToAnotherMonitor)
            &&& s.last().text == Some(MenuText::Close) && s.last().sensitive == can_close
            &&& s.last().action == Some(WindowMenuAction::Close)
        }),
{
}

/// The workspace submenu: one entry per workspace, each but the current one sensitive.
pub open spec fn spec_workspace_items(names: Seq<Seq<char>>, current: Option<u32>) -> Seq<MenuItemView> {
    Seq::new(
        names.len(),
        |i: int|
            MenuItemView {
                text: None,
                name: Some(names[i]),
                kind: MenuItemKind::Plain,
                sensitive: match current {
                    Some(c) => c != i,
                    None => true,
                },
                action: Some(WindowMenuAction::MoveToWorkspace(i as u32)),
            },
    )
}

pub open spec fn direction_text(d: Direction) -> MenuText {
    match d {
        Direction::Left => MenuText::MonitorLeft,
        Direction::Right => MenuText::MonitorRight,
        Direction::Up => MenuText::MonitorUp,
        Direction::Down => MenuText::MonitorDown,
    }
}

/// The monitor submenu: one entry per adjacent monitor.
pub open spec fn spec_monitor_items(dirs: Seq<Direction>) -> Seq<MenuItemView> {
    dirs.map_values(
        |d: Direction| fixed(direction_text(d), MenuItemKind::Plain, true, Some(WindowMenuAction::MoveToOutput(d))),
    )
}

/// The whole window menu: its entries and its two submenus.
pub struct WindowMenuModel {
    pub items: Vec<MenuItem>,
    pub workspace_items: Vec<MenuItem>,
    pub monitor_items: Vec<MenuItem>,
}

fn fixed_item(text: MenuText, kind: MenuItemKind, sensitive: bool, action: Option<WindowMenuAction>) -> (r: MenuItem)
    ensures
        r@ == fixed(text, kind, sensitive, action),
{
    MenuItem { text: Some(text), name: None, kind, sensitive, action }
}

fn separator_item() -> (r: MenuItem)
    ensures
        r@ == separator(),
{
    MenuItem { text: None, name: None, kind: MenuItemKind::Separator, sensitive: true, action: None }
}

fn direction_menu_text(d: Direction) -> (r: MenuText)
    ensures
        r == direction_text(d),
{
    match d {
        Direction::Left => MenuText::MonitorLeft,
        Direction::Right => MenuText::MonitorRight,
        Direction::Up => MenuText::MonitorUp,
        Direction::Down => MenuText::MonitorDown,
    }
}

fn workspace_items(names: &Vec<String>, current: Option<u32>) -> (r: Vec<MenuItem>)
    requires
        names@.len() <= u32::MAX,
    ensures
        items_view(r@) == spec_workspace_items(names@.map_values(|n: String| n@), current),
{
    let ghost nv = names@.map_values(|n: String| n@);
    let mut r: Vec<MenuItem> = Vec::new();
    let mut i: usize = 0;
    while i < names.len()
        invariant
            0 <= i <= names@.len(),
            names@.len() <= u32::MAX,
            nv == names@.map_values(|n: String| n@),
            items_view(r@) =~= spec_workspace_items(nv, current).subrange(0, i as int),
        decreases names@.len() - i,
    {
        let idx = i as u32;
        let sensitive = match current {
            Some(c) => c != idx,
            None => true,
        };
        let ghost r0 = items_view(r@);
        r.push(MenuItem {
            text: None,
            name: Some(names[i].clone()),
            kind: MenuItemKind::Plain,
            sensitive,
            action: Some(WindowMenuAction::MoveToWorkspace(idx)),
        });
        proof {
            assert(items_view(r@) =~= r0.push(spec_workspace_items(nv, current)[i as int]));
            assert(spec_workspace_items(nv, current).subrange(0, i as int + 1) =~= spec_workspace_items(
                nv,
                current,
            ).subrange(0, i as int).push(spec_workspace_items(nv, current)[i as int]));
        }
        i = i + 1;
    }
    r
}

fn monitor_items(dirs: &Vec<Direction>) -> (r: Vec<MenuItem>)
    ensures
        items_view(r@) == spec_monitor_items(dirs@),
{
    let mut r: Vec<MenuItem> = Vec::new();
    let mut i: usize = 0;
    while i < dirs.len()
        invariant
            0 <= i <= dirs@.len(),
            items_view(r@) =~= spec_monitor_items(dirs@).subrange(0, i as int),
        decreases dirs@.len() - i,
    {
        let d = dirs[i];
        let ghost r0 = items_view(r@);
        r.push(fixed_item(direction_menu_text(d), MenuItemKind::Plain, true, Some(WindowMenuAction::MoveToOutput(d))));
        proof {
            assert(items_view(r@) =~= r0.push(spec_monitor_items(dirs@)[i as int]));
            assert(spec_monitor_items(dirs@).subrange(0, i as int + 1) =~= spec_monitor_items(dirs@).subrange(
                0,
                i as int,
            ).push(spec_monitor_items(dirs@)[i as int]));
        }
        i = i + 1;
    }
    r
}

/// Builds the window menu for a window.
pub fn create_menu(
    maximized: Option<bool>,
    can_minimize: bool,
    can_move: bool,
    can_resize: bool,
    stacking_state: StackingState,
    shaded: Option<bool>,
    fullscreen: Option<bool>,
    sticky: bool,
    current_workspace: Option<u32>,
    workspace_names: &Vec<String>,
    adjacent_outputs: &Vec<Direction>,
    can_close: bool,
) -> (r: WindowMenuModel)
    requires
        workspace_names@.len() <= u32::MAX,
    ensures
        items_view(r.items@) == spec_menu_items(
            maximized,
            can_minimize,
            can_move,
            can_resize,
            stacking_state,
            shaded,
            fullscreen,
            sticky,
            workspace_names@.len() > 0,
            adjacent_outputs@.len() > 0,
            can_close,
        ),
        items_view(r.workspace_items@) == spec_workspace_items(
            workspace_names@.map_values(|n: String| n@),
            current_workspace,
        ),
        items_view(r.monitor_items@) == spec_monitor_items(adjacent_outputs@),
        r.items@.len() == if adjacent_outputs@.len() > 0 { 18int } else { 17int },
        r.items@[0]@.text == Some(MenuText::Unmaximize) <==> maximized == Some(true),
        r.items@[0]@.sensitive == maximized.is_some(),
        r.items@[6]@.kind == (MenuItemKind::Radio { active: stacking_state == StackingState::AlwaysOnTop }),
        r.items@[7]@.kind == (MenuItemKind::Radio { active: stacking_state == StackingState::Normal }),
        r.items@[8]@.kind == (MenuItemKind::Radio { active: stacking_state == StackingState::AlwaysBelow }),
        r.items@[10]@.text == Some(MenuText::RollWindowDown) <==> shaded == Some(true),
        r.items@[11]@.text == Some(MenuText::Unfullscreen) <==> fullscreen == Some(true),
        r.items@[13]@.text == Some(MenuText::AlwaysOnVisibleWorkspace),
        r.items@[13]@.kind == (MenuItemKind::Check { active: sticky }),
        r.items@[13]@.action == Some(WindowMenuAction::ToggleSticky),
        r.items@[14]@.sensitive == (workspace_names@.len() > 0),
        r.items@.last()@.text == Some(MenuText::Close),
        r.items@.last()@.sensitive == can_close,
        r.workspace_items@.len() == workspace_names@.len(),
        forall|k: int|
            0 <= k < workspace_names@.len() ==> (#[trigger] r.workspace_items@[k])@.name == Some(workspace_names@[k]@)
                && r.workspace_items@[k]@.sensitive == (current_workspace != Some(k as u32))
                && r.workspace_items@[k]@.action == Some(WindowMenuAction::MoveToWorkspace(k as u32)),
        r.monitor_items@.len() == adjacent_outputs@.len(),
        forall|k: int|
            0 <= k < adjacent_outputs@.len() ==> (#[trigger] r.monitor_items@[k])@.action == Some(
                WindowMenuAction::MoveToOutput(adjacent_outputs@[k]),
            ),
{
    proof {
        lemma_menu_entries_reflect_window(
            maximized,
            can_minimize,
            can_move,
            can_resize,
            stacking_state,
            shaded,
            fullscreen,
            sticky,
            workspace_names@.len() > 0,
            adjacent_outputs@.len() > 0,
            can_close,
        );
    }
    let mut items: Vec<MenuItem> = Vec::new();
    items.push(fixed_item(
        if maximized == Some(true) { MenuText::Unmaximize } else { MenuText::Maximize },
        MenuItemKind::Plain,
        maximized.is_some(),
        Some(WindowMenuAction::ToggleMaximize),
    ));
    items.push(fixed_item(MenuText::Minimize, MenuItemKind::Plain, can_minimize, Some(WindowMenuAction::Minimize)));
    items.push(fixed_item(
        MenuText::MinimizeOtherWindows,
        MenuItemKind::Plain,
        true,
        Some(WindowMenuAction::MinimizeOtherWindows),
    ));
    items.push(fixed_item(MenuText::Move, MenuItemKind::Plain, can_move, Some(WindowMenuAction::Move)));
    items.push(fixed_item(MenuText::Resize, MenuItemKind::Plain, can_resize, Some(WindowMenuAction::Resize)));
    items.push(separator_item());
    items.push(fixed_item(
        MenuText::AlwaysOnTop,
        MenuItemKind::Radio { active: stacking_state == StackingState::AlwaysOnTop },
        true,
        Some(WindowMenuAction::StackOnTop),
    ));
    items.push(fixed_item(
        MenuText::SameAsOtherWindows,
        MenuItemKind::Radio { active: stacking_state == StackingState::Normal },
        true,
        Some(WindowMenuAction::StackNormal),
    ));
    items.push(fixed_item(
        MenuText::AlwaysBelowOtherWindows,
        MenuItemKind::Radio { active: stacking_state == StackingState::AlwaysBelow },
        true,
        Some(WindowMenuAction::StackBelow),
    ));
    items.push(separator_item());
    items.push(fixed_item(
        if shaded == Some(true) { MenuText::RollWindowDown } else { MenuText::RollWindowUp },
        MenuItemKind::Plain,
        shaded.is_some(),
        Some(WindowMenuAction::ToggleShade),
    ));
    items.push(fixed_item(
        if fullscreen == Some(true) { MenuText::Unfullscreen } else { MenuText::Fullscreen },
        MenuItemKind::Plain,
        fullscreen.is_some(),
        Some(WindowMenuAction::Fullscreen),
    ));
    items.push(separator_item());
    items.push(fixed_item(
        MenuText::AlwaysOnVisibleWorkspace,
        MenuItemKind::Check { active: sticky },
        true,
        Some(WindowMenuAction::ToggleSticky),
    ));
    items.push(fixed_item(MenuText::MoveToAnotherWorkspace, MenuItemKind::Submenu, workspace_names.len() > 0, None));
    let ws = workspace_items(workspace_names, current_workspace);
    let mons = monitor_items(adjacent_outputs);
    assert(items_view(mons@).len() == mons@.len());
    assert(mons@.len() == adjacent_outputs@.len());
    let ghost before = items@;
    if mons.len() > 0 {
        items.push(fixed_item(MenuText::MoveToAnotherMonitor, MenuItemKind::Submenu, true, None));
    }
    items.push(separator_item());
    items.push(fixed_item(MenuText::Close, MenuItemKind::Plain, can_close, Some(WindowMenuAction::Close)));
    assert(before.len() == 15);
    assert(items_view(items@).len() == spec_menu_items(
        maximized,
        can_minimize,
        can_move,
        can_resize,
        stacking_state,
        shaded,
        fullscreen,
        sticky,
        workspace_names@.len() > 0,
        adjacent_outputs@.len() > 0,
        can_close,
    ).len());
    assert(items_view(items@) =~= spec_menu_items(
        maximized,
        can_minimize,
        can_move,
        can_resize,
        stacking_state,
        shaded,
        fullscreen,
        sticky,
        workspace_names@.len() > 0,
        adjacent_outputs@.len() > 0,
        can_close,
    ));
    proof {
        let names = workspace_names@.map_values(|n: String| n@);
        assert(items_view(ws@).len() == ws@.len());
        assert forall|k: int| 0 <= k < workspace_names@.len() implies (#[trigger] ws@[k])@.name == Some(
            workspace_names@[k]@,
        ) && ws@[k]@.sensitive == (current_workspace != Some(k as u32)) && ws@[k]@.action == Some(
            WindowMenuAction::MoveToWorkspace(k as u32),
        ) by {
            assert(items_view(ws@)[k] == ws@[k]@);
            assert(names[k] == workspace_names@[k]@);
        }
        assert(items_view(mons@).len() == mons@.len());
        assert forall|k: int| 0 <= k < adjacent_outputs@.len() implies (#[trigger] mons@[k])@.action == Some(
            WindowMenuAction::MoveToOutput(adjacent_outputs@[k]),
        ) by {
            assert(items_view(mons@)[k] == mons@[k]@);
        }
    }
    WindowMenuModel { items, workspace_items: ws, monitor_items: mons }
}

} // verus!
