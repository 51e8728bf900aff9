use xfwl4::tabwin::{
    grid_cell, modifier_mask_for_keyval, shortcut_from_parsed, ShortcutKey, TabwinKeyAction, TabwinMode,
    TabwinSelection, TabwinShortcuts, CONTROL_MASK, KEY_ALT_L, KEY_ISO_LEFT_TAB, KEY_SHIFT_L, KEY_TAB, LOCK_MASK,
    MOD1_MASK, SHIFT_MASK, TABWIN_DEFAULT_CSS, TABWIN_WIDGET_NAME,
};

#[test]
pub fn ensure_tabwin_css_name_correct() {
    let leading = format!("#{TABWIN_WIDGET_NAME}");
    assert!(TABWIN_DEFAULT_CSS.starts_with(&leading));
}

#[test]
fn tabwin_mode_from_settings_value() {
    assert_eq!(TabwinMode::try_from_i32(0), Ok(TabwinMode::Grid));
    assert_eq!(TabwinMode::try_from_i32(1), Ok(TabwinMode::List));
    assert_eq!(TabwinMode::try_from_i32(7), Err(7));
}

#[test]
fn grid_fills_rows_and_list_fills_columns() {
    assert_eq!(grid_cell(TabwinMode::Grid, 5, 4, 3), (1, 1));
    assert_eq!(grid_cell(TabwinMode::List, 5, 4, 3), (1, 2));
}

#[test]
fn selection_cycles_and_wraps() {
    let ids = vec![10u32, 20, 30, 20];
    let mut s = TabwinSelection::new(&ids, 10, TabwinMode::Grid, 3, 1);
    assert_eq!(s.ids, vec![10, 20, 30]);
    assert_eq!(s.select_next(), Some(20));
    assert_eq!(s.select_next(), Some(30));
    assert_eq!(s.select_next(), Some(10));
    assert_eq!(s.select_previous(), Some(30));
}

#[test]
fn next_then_previous_returns_to_start() {
    let ids = vec![1u32, 2, 3, 4];
    let mut s = TabwinSelection::new(&ids, 3, TabwinMode::List, 1, 4);
    s.select_next();
    assert_eq!(s.select_previous(), Some(3));
}

#[test]
fn selection_of_unknown_window_does_not_move() {
    let ids = vec![1u32, 2];
    let mut s = TabwinSelection::new(&ids, 9, TabwinMode::Grid, 2, 1);
    assert_eq!(s.select_next(), None);
    assert_eq!(s.selected(), Some(9));
}

#[test]
fn shift_tab_becomes_iso_left_tab() {
    assert_eq!(
        shortcut_from_parsed(KEY_TAB, SHIFT_MASK),
        Some(ShortcutKey { keysym: KEY_ISO_LEFT_TAB, modifiers: SHIFT_MASK })
    );
    assert_eq!(shortcut_from_parsed(KEY_TAB, MOD1_MASK), Some(ShortcutKey { keysym: KEY_TAB, modifiers: MOD1_MASK }));
    assert_eq!(shortcut_from_parsed(0, 0), None);
}

fn shortcuts() -> TabwinShortcuts {
    TabwinShortcuts {
        next: ShortcutKey { keysym: KEY_TAB, modifiers: MOD1_MASK },
        prev: ShortcutKey { keysym: KEY_ISO_LEFT_TAB, modifiers: MOD1_MASK | SHIFT_MASK },
        up: ShortcutKey { keysym: 0xff52, modifiers: 0 },
        down: ShortcutKey { keysym: 0xff54, modifiers: 0 },
        left: ShortcutKey { keysym: 0xff51, modifiers: 0 },
        right: ShortcutKey { keysym: 0xff53, modifiers: 0 },
        cancel: ShortcutKey { keysym: 0xff1b, modifiers: 0 },
    }
}

#[test]
fn key_press_matches_cycle_and_direction_keys() {
    let sc = shortcuts();
    assert_eq!(sc.key_press_action(KEY_TAB, MOD1_MASK | LOCK_MASK), Some(TabwinKeyAction::Next));
    assert_eq!(sc.key_press_action(KEY_ISO_LEFT_TAB, MOD1_MASK | SHIFT_MASK), Some(TabwinKeyAction::Previous));
    assert_eq!(sc.key_press_action(0xff52, MOD1_MASK), Some(TabwinKeyAction::Up));
    assert_eq!(sc.key_press_action(0xff1b, MOD1_MASK), Some(TabwinKeyAction::Cancel));
    assert_eq!(sc.key_press_action(0xff52, CONTROL_MASK), None);
}

#[test]
fn releasing_the_cycle_modifier_finishes() {
    let sc = shortcuts();
    assert!(sc.key_release_finishes(KEY_ALT_L, MOD1_MASK));
    assert!(!sc.key_release_finishes(KEY_SHIFT_L, MOD1_MASK | SHIFT_MASK));
    assert_eq!(modifier_mask_for_keyval(KEY_SHIFT_L), SHIFT_MASK);
    assert_eq!(modifier_mask_for_keyval(0x61), 0);
}
