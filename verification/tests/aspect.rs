use timer_windows::aspect::{correct_size, Size};

fn size(width: u32, height: u32) -> Size {
    Size { width, height }
}

#[test]
fn too_wide_window_loses_width() {
    assert_eq!(correct_size(size(400, 100)), Some(size(250, 100)));
}

#[test]
fn too_tall_window_loses_height() {
    assert_eq!(correct_size(size(300, 150)), Some(size(300, 120)));
}

#[test]
fn default_size_is_within_tolerance() {
    assert_eq!(correct_size(size(312, 125)), None);
}

#[test]
fn exact_ratio_is_left_alone() {
    assert_eq!(correct_size(size(250, 100)), None);
    assert_eq!(correct_size(size(5, 2)), None);
    assert_eq!(correct_size(size(1000, 400)), None);
}

#[test]
fn slightly_wide_window_within_tolerance_is_left_alone() {
    // 626 / 250 = 2.504: above the target, but closer than 0.01.
    assert_eq!(correct_size(size(626, 250)), None);
    // 624 / 250 = 2.496: below the target, closer than 0.01.
    assert_eq!(correct_size(size(624, 250)), None);
}

#[test]
fn tolerance_bound_itself_is_corrected() {
    // 251 / 100 = 2.51 and 249 / 100 = 2.49 are exactly 0.01 away.
    assert_eq!(correct_size(size(251, 100)), Some(size(250, 100)));
    assert_eq!(correct_size(size(249, 100)), Some(size(249, 99)));
    assert_eq!(correct_size(size(502, 200)), Some(size(500, 200)));
}

#[test]
fn just_inside_the_tolerance_bound_is_left_alone() {
    // 2509 / 1000 and 2491 / 1000 are 0.009 away.
    assert_eq!(correct_size(size(2509, 1000)), None);
    assert_eq!(correct_size(size(2491, 1000)), None);
    // 2510 / 1000 and 2490 / 1000 are 0.01 away.
    assert_eq!(correct_size(size(2510, 1000)), Some(size(2500, 1000)));
    assert_eq!(correct_size(size(2490, 1000)), Some(size(2490, 996)));
}

#[test]
fn corrected_width_is_rounded_down() {
    // 101 * 2.5 = 252.5
    assert_eq!(correct_size(size(400, 101)), Some(size(252, 101)));
    // 3 * 2.5 = 7.5
    assert_eq!(correct_size(size(9, 3)), Some(size(7, 3)));
}

#[test]
fn corrected_height_is_rounded_down() {
    // 301 / 2.5 = 120.4
    assert_eq!(correct_size(size(301, 150)), Some(size(301, 120)));
    // 304 / 2.5 = 121.6
    assert_eq!(correct_size(size(304, 150)), Some(size(304, 121)));
}

#[test]
fn small_odd_height_may_stay_as_far_from_target() {
    // 3 / 1 is 0.5 above the target, 2 / 1 is 0.5 below it.
    assert_eq!(correct_size(size(3, 1)), Some(size(2, 1)));
}

#[test]
fn zero_height_collapses_to_empty() {
    assert_eq!(correct_size(size(7, 0)), Some(size(0, 0)));
    assert_eq!(correct_size(size(0, 0)), Some(size(0, 0)));
}

#[test]
fn zero_width_collapses_to_empty() {
    assert_eq!(correct_size(size(0, 50)), Some(size(0, 0)));
}

#[test]
fn largest_sizes_do_not_overflow() {
    let max = u32::MAX;
    // floor(4294967295 / 2.5) = 1717986918
    assert_eq!(correct_size(size(max, max)), Some(size(max, 1_717_986_918)));
    // floor(1 * 2.5) = 2
    assert_eq!(correct_size(size(max, 1)), Some(size(2, 1)));
    assert_eq!(correct_size(size(1, max)), Some(size(1, 0)));
    // floor(1717986918 * 2.5) = 4294967295: the ratio is exact.
    assert_eq!(correct_size(size(max, 1_717_986_918)), None);
}

#[test]
fn correction_never_enlarges() {
    let widths: [u32; 8] = [0, 1, 7, 100, 249, 250, 313, 5000];
    let heights: [u32; 8] = [0, 1, 3, 99, 100, 125, 126, 2001];
    for w in widths {
        for h in heights {
            if let Some(s) = correct_size(size(w, h)) {
                assert!(s.width <= w && s.height <= h);
                assert!(s.width == w || s.height == h);
            }
        }
    }
}

#[test]
fn correction_of_a_tall_enough_window_is_stable() {
    let widths: [u32; 6] = [600, 777, 1001, 1234, 4000, 65_535];
    let heights: [u32; 6] = [201, 250, 333, 400, 1000, 30_000];
    for w in widths {
        for h in heights {
            if let Some(s) = correct_size(size(w, h)) {
                if s.height > 200 {
                    assert_eq!(correct_size(s), None);
                }
            }
        }
    }
}

#[test]
fn corrections_settle_in_two_passes_above_fifty_pixels() {
    // (252, 150) -> (252, 100) -> (250, 100) -> stable
    let first = correct_size(size(252, 150));
    assert_eq!(first, Some(size(252, 100)));
    let second = correct_size(size(252, 100));
    assert_eq!(second, Some(size(250, 100)));
    assert_eq!(correct_size(size(250, 100)), None);
}
