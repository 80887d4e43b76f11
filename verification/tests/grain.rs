//! Tests for the additive-noise per-pixel core.

use adaptivegrain::grain::{clip, grain_sample};

#[test]
fn clip_passes_values_inside_the_range() {
    assert_eq!(clip(5, 0, 255), 5);
    assert_eq!(clip(0, 0, 255), 0);
    assert_eq!(clip(255, 0, 255), 255);
}

#[test]
fn clip_clamps_values_outside_the_range() {
    assert_eq!(clip(-3, 0, 255), 0);
    assert_eq!(clip(300, 0, 255), 255);
}

#[test]
fn grain_sample_adds_and_clamps() {
    assert_eq!(grain_sample(128, 7), 135);
    assert_eq!(grain_sample(128, -7), 121);
    assert_eq!(grain_sample(250, 20), 255);
    assert_eq!(grain_sample(5, -20), 0);
    assert_eq!(grain_sample(0, 0), 0);
    assert_eq!(grain_sample(255, 20), 255);
}
