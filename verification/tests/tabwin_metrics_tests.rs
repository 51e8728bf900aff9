use std::collections::HashSet;
use xfwl4::tabwin_metrics::{calculate_tabwin_metrics, guess_icon_sizes, TabwinMetrics};

#[test]
fn list_mode_rows_fill_four_fifths_of_the_height() {
    let m = calculate_tabwin_metrics(true, 50, true, 1920, 1000, 0, 20, 48, 256, 24);
    assert_eq!(
        m,
        TabwinMetrics { cycle_preview: false, icon_size: 24, label_height: 20, grid_cols: 3, grid_rows: 23 }
    );
}

#[test]
fn measured_label_height_wins_over_default() {
    let m = calculate_tabwin_metrics(true, 5, false, 1920, 1000, 17, 20, 48, 256, 24);
    assert_eq!(m.label_height, 17);
}

#[test]
fn grid_that_fits_keeps_standard_icon() {
    let m = calculate_tabwin_metrics(false, 10, false, 1920, 1080, 0, 20, 48, 256, 24);
    assert_eq!(
        m,
        TabwinMetrics { cycle_preview: false, icon_size: 48, label_height: 20, grid_cols: 19, grid_rows: 1 }
    );
}

#[test]
fn grid_previews_halve_until_they_fit() {
    let m = calculate_tabwin_metrics(false, 20, true, 1000, 500, 0, 20, 48, 256, 24);
    assert_eq!(
        m,
        TabwinMetrics { cycle_preview: true, icon_size: 64, label_height: 20, grid_cols: 8, grid_rows: 3 }
    );
}

#[test]
fn grid_icons_stop_at_eight_pixels() {
    let m = calculate_tabwin_metrics(false, 30, false, 100, 100, 0, 20, 48, 256, 24);
    assert_eq!(
        m,
        TabwinMetrics { cycle_preview: false, icon_size: 8, label_height: 20, grid_cols: 2, grid_rows: 15 }
    );
}

#[test]
fn guessed_sizes_are_listed_once_each() {
    let monitors = vec![(400u32, 300u32), (1920u32, 1080u32)];
    let sizes = guess_icon_sizes(false, false, &monitors, 20, 48, 256, 24);
    assert_eq!(sizes, HashSet::from([48, 24, 12, 8]));
}

#[test]
fn list_mode_guesses_only_the_list_icon_size() {
    let monitors = vec![(400u32, 300u32), (1920u32, 1080u32)];
    assert_eq!(guess_icon_sizes(true, true, &monitors, 20, 48, 256, 24), HashSet::from([24]));
    assert_eq!(guess_icon_sizes(true, true, &Vec::new(), 20, 48, 256, 24), HashSet::<i32>::new());
}
