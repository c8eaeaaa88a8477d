use screencrab::monitors::{get_current_monitor_index, get_monitor_position};
use screencrab::settings::helper_label;

fn names(xs: &[&str]) -> Vec<String> {
    xs.iter().map(|x| x.to_string()).collect()
}

#[test]
fn monitor_index_counts_from_one() {
    let n = names(&["DP-1", "HDMI-1", "eDP-1"]);
    assert_eq!(get_current_monitor_index(&n, "DP-1"), 1);
    assert_eq!(get_current_monitor_index(&n, "eDP-1"), 3);
}

#[test]
fn monitor_index_of_unknown_display_is_one() {
    assert_eq!(get_current_monitor_index(&names(&["a", "b"]), "c"), 1);
    assert_eq!(get_current_monitor_index(&names(&[]), "c"), 1);
}

#[test]
fn monitor_index_takes_first_of_equal_names() {
    assert_eq!(get_current_monitor_index(&names(&["x", "y", "y"]), "y"), 2);
}

#[test]
fn get_monitor_position_adds_widths_before() {
    let w = vec![1920u32, 2560, 1280];
    assert_eq!(get_monitor_position(&w, 0), (0, 0));
    assert_eq!(get_monitor_position(&w, 1), (1920, 0));
    assert_eq!(get_monitor_position(&w, 2), (4480, 0));
    assert_eq!(get_monitor_position(&w, 3), (5760, 0));
    assert_eq!(get_monitor_position(&w, 10), (5760, 0));
}

#[test]
fn get_monitor_position_takes_widths_as_i32() {
    assert_eq!(get_monitor_position(&vec![u32::MAX, 10], 2), (9, 0));
}

#[test]
fn helper_labels() {
    assert_eq!(helper_label(0), "helper_0");
    assert_eq!(helper_label(12), "helper_12");
}
