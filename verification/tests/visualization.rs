use engine::color::calculate_freq_color;
use engine::color::calculate_level_color;
use engine::samples::sum_samples;

fn pack(r: u32, g: u32, b: u32) -> u32 {
    (r << 16) | (g << 8) | b
}

#[test]
fn freq_color_at_zero_height() {
    assert_eq!(calculate_freq_color(0, false), pack(50, 50, 100));
    assert_eq!(calculate_freq_color(0, false), 0x323264);
    assert_eq!(calculate_freq_color(0, true), pack(50, 100, 50));
    assert_eq!(calculate_freq_color(0, true), 0x326432);
}

#[test]
fn freq_color_overflows_its_byte_unclamped() {
    // Height 200 gives intensity 300, which bleeds past the blue byte into
    // the green field: the exact unclamped arithmetic result, not a clamp.
    let c = calculate_freq_color(200, false);
    assert_eq!(c, pack(50, 50, 300));
    assert_eq!(c, 0x32332c);
    assert_eq!(c & 0xffff, (50 << 8) | 300);
}

#[test]
fn freq_color_right_channel_varies_green() {
    assert_eq!(calculate_freq_color(55, true), pack(50, 155, 50));
    assert_eq!(calculate_freq_color(155, true), pack(50, 255, 50));
}

#[test]
fn level_color_at_zero() {
    assert_eq!(calculate_level_color(0, false), pack(50, 50, 100));
    assert_eq!(calculate_level_color(0, false), 0x323264);
    assert_eq!(calculate_level_color(0, true), pack(50, 100, 50));
}

#[test]
fn level_color_clamps_to_a_byte() {
    assert_eq!(calculate_level_color(154, false), pack(50, 50, 254));
    assert_eq!(calculate_level_color(155, false), pack(50, 50, 255));
    assert_eq!(calculate_level_color(255, false), pack(50, 50, 255));
    assert_eq!(calculate_level_color(1000, true), pack(50, 255, 50));
    assert_eq!(calculate_level_color(u32::MAX, true), pack(50, 255, 50));
}

#[test]
fn level_color_variable_channel_stays_in_range() {
    for level in [0u32, 1, 99, 100, 154, 155, 200, 255, 256, 70000, u32::MAX] {
        let blue = calculate_level_color(level, false) & 0xff;
        assert!((100..=255).contains(&blue));
        let green = (calculate_level_color(level, true) >> 8) & 0xff;
        assert!((100..=255).contains(&green));
    }
}

#[test]
fn sum_of_empty_buffer_is_zero() {
    assert_eq!(sum_samples(&[]), 0);
}

#[test]
fn sum_of_small_buffers() {
    assert_eq!(sum_samples(&[10, 20, 30]), 60);
    assert_eq!(sum_samples(&[40, 50, 60]), 150);
    assert_eq!(sum_samples(&[255]), 255);
    assert_eq!(sum_samples(&[0, 0, 0, 0]), 0);
}

#[test]
fn mean_of_constant_buffer_is_the_value() {
    let data = [7u8; 5];
    let sum = sum_samples(&data);
    assert_eq!(sum, 35);
    let mean = sum as f64 / data.len() as f64;
    assert_eq!(mean, 7.0);
}

#[test]
fn mean_stays_within_sample_range() {
    let data = [10u8, 255, 0, 128, 33];
    let sum = sum_samples(&data);
    assert!(sum <= 255 * data.len() as u64);
    let mean = sum as f64 / data.len() as f64;
    assert!((0.0..=255.0).contains(&mean));
}
