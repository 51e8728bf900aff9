use xfwl4::decor_layout::{ButtonSizes, DecorationLayout, FrameMetrics, LayoutConfig, TitleBackground};
use xfwl4::decorations::{TitleAlignment, TitlebarButton, TOGGLED_MAXIMIZE, TOGGLED_SHADE};
use xfwl4::geometry::{Rect, Size};

fn config(borderless: bool, start: Vec<TitlebarButton>, end: Vec<TitlebarButton>) -> LayoutConfig {
    LayoutConfig {
        frame_border_top: 0,
        borderless_maximize: borderless,
        maximized_offset: 0,
        button_offset: 0,
        button_spacing: 2,
        title_vertical_offset_active: 0,
        title_vertical_offset_inactive: 0,
        title_horizontal_offset: 0,
        title_shadow_active: 0,
        title_shadow_inactive: 0,
        full_width_title: false,
        title_alignment: TitleAlignment::Center,
        button_layout_start: start,
        button_layout_end: end,
    }
}

fn metrics() -> FrameMetrics {
    FrameMetrics {
        left_w: 4,
        right_w: 4,
        top_h: 20,
        bottom_h: 4,
        top_left: Size::new(8, 20),
        top_right: Size::new(8, 20),
        bottom_left: Size::new(8, 8),
        bottom_right: Size::new(8, 8),
        title: TitleBackground::Stretched,
    }
}

fn sizes() -> ButtonSizes {
    let s = Size::new(16, 16);
    ButtonSizes { menu: s, hide: s, stick: s, shade: s, close: s, maximize: s }
}

#[test]
fn empty_or_negative_window_is_left_alone() {
    let cfg = config(false, vec![TitlebarButton::Menu], vec![TitlebarButton::Close]);
    let (mut l, drawn) = DecorationLayout::new(Size::new(-5, 100), &cfg, &metrics(), &sizes(), Size::new(10, 10));
    assert!(!drawn);
    assert_eq!(l.frame.top_left, Rect::zero());
    assert_eq!(l.buttons.menu, Rect::zero());
    assert!(l.set_window_size(Size::new(300, 0)));
    assert!(!l.relayout(&cfg, &metrics(), &sizes(), Size::new(10, 10)));
    assert_eq!(l.frame.left, Rect::zero());
    assert_eq!(l.buttons.close, Rect::zero());
}

#[test]
fn borderless_maximized_window_has_no_frame() {
    let cfg = config(true, vec![], vec![]);
    let (mut l, _) = DecorationLayout::new(Size::new(200, 100), &cfg, &metrics(), &sizes(), Size::new(0, 0));
    assert_eq!(l.frame.left, Rect::new(0, 20, 4, 96));
    assert!(l.set_toggled(TOGGLED_MAXIMIZE, true));
    l.relayout(&cfg, &metrics(), &sizes(), Size::new(0, 0));
    assert_eq!(l.frame.top_left, Rect::zero());
    assert_eq!(l.frame.top_right, Rect::zero());
    assert_eq!(l.frame.bottom, Rect::zero());
    assert_eq!(l.frame.bottom_left, Rect::zero());
    assert_eq!(l.frame.bottom_right, Rect::zero());
    assert_eq!(l.frame.left, Rect::zero());
    assert_eq!(l.frame.right, Rect::zero());
    assert_eq!(l.left_decoration_width(), 0);
    assert_eq!(l.bottom_decoration_height(), 0);
}

#[test]
fn shaded_window_has_no_sides() {
    let cfg = config(false, vec![], vec![]);
    let (mut l, _) = DecorationLayout::new(Size::new(200, 100), &cfg, &metrics(), &sizes(), Size::new(0, 0));
    assert!(l.set_toggled(TOGGLED_SHADE, true));
    l.relayout(&cfg, &metrics(), &sizes(), Size::new(0, 0));
    assert_eq!(l.frame.left, Rect::zero());
    assert_eq!(l.frame.right, Rect::zero());
    assert_eq!(l.frame.bottom, Rect::new(8, 20, 192, 4));
}

#[test]
fn unlisted_buttons_get_no_extents() {
    let cfg = config(false, vec![TitlebarButton::Menu], vec![TitlebarButton::Close]);
    let (l, _) = DecorationLayout::new(Size::new(200, 100), &cfg, &metrics(), &sizes(), Size::new(0, 0));
    assert_eq!(l.buttons.menu, Rect::new(4, 2, 16, 16));
    assert_eq!(l.buttons.close, Rect::new(188, 2, 16, 16));
    assert_eq!(l.buttons.hide, Rect::zero());
    assert_eq!(l.buttons.stick, Rect::zero());
    assert_eq!(l.buttons.shade, Rect::zero());
    assert_eq!(l.buttons.maximize, Rect::zero());
}
