use quiet_timer::frame::{format_time, time_digits, FRAME_CELLS};

fn expected_frame(elapsed_field: &str, target_field: &str) -> String {
    let mut s = String::new();
    s.push_str("    ");
    s.push_str(elapsed_field);
    for _ in 0..40 {
        s.push(' ');
    }
    s.push_str(target_field);
    s.push_str("    ");
    s
}

#[test]
fn time_digits_reduces_minutes_and_hours() {
    // 3661 s is 1 h, 1 min, 1 s; minutes and hours are taken modulo
    // their unit, not by raw division.
    assert_eq!(time_digits(3661), (1, 1, 1));
}

#[test]
fn time_digits_plain_values() {
    assert_eq!(time_digits(0), (0, 0, 0));
    assert_eq!(time_digits(59), (0, 0, 59));
    assert_eq!(time_digits(60), (0, 1, 0));
    assert_eq!(time_digits(180), (0, 3, 0));
    assert_eq!(time_digits(1860), (0, 31, 0));
    assert_eq!(time_digits(3600), (1, 0, 0));
    assert_eq!(time_digits(u16::MAX), (18, 12, 15));
}

#[test]
fn frame_is_always_full_width() {
    // One- and two-digit fields alike must fill exactly the display's
    // cell count.
    for &(e, t) in &[
        (0u16, 0u16),
        (1, 9),
        (90, 180),
        (3661, 1860),
        (u16::MAX, u16::MAX),
    ] {
        let f = format_time(e, t);
        assert_eq!(f.as_str().chars().count(), FRAME_CELLS);
        assert_eq!(f.as_str().len(), FRAME_CELLS);
    }
}

#[test]
fn frame_layout_ninety_of_one_eighty() {
    let f = format_time(90, 180);
    assert_eq!(f.as_str(), expected_frame("00:01:30", "00:03:00"));
}

#[test]
fn frame_layout_expired() {
    let f = format_time(0, 1860);
    assert_eq!(f.as_str(), expected_frame("00:00:00", "00:31:00"));
}

#[test]
fn frame_pads_single_digit_values() {
    let f = format_time(3661, 5);
    assert_eq!(f.as_str(), expected_frame("01:01:01", "00:00:05"));
}
