//! Verified core of the xfwl4 Wayland compositor: geometry, window decoration
//! layout, interactive resizing, the window switcher, protocol bookkeeping and
//! the UI process supervisor policy.

pub mod geometry;
pub mod util;
pub mod decorations;
pub mod decor_layout;
pub mod resize;
pub mod tabwin;
pub mod gtk_settings;
pub mod supervisor;
pub mod foreign_toplevel;
pub mod output_config;
pub mod compositor_ui;
pub mod ui_protocol;
pub mod window_menu;
pub mod session;
pub mod output_state;
pub mod screencopy;
pub mod workspace;
pub mod power;
pub mod input_devices;
pub mod placement;
pub mod dialog;
pub mod tabwin_metrics;
pub mod ui_session;
