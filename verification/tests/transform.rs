//! End-to-end tests of the per-frame transform.

use adaptivegrain::fixed::{Q32, DOMAIN_SIZE};
use adaptivegrain::mask::MaskError;
use adaptivegrain::plane::{process_frame, FloatPlane, FrameInput, FrameOutput, Plane};

/// The mask value, evaluated in 32-bit floats exactly as the host does.
fn get_mask_value(x: f32, y: f32, luma_scaling: f32) -> f32 {
    f32::powf(
        1.0 - (x * (1.124 + x * (-9.466 + x * (36.624 + x * (-45.47 + x * 18.188))))),
        (y * y) * luma_scaling,
    )
}

/// A real value encoded as Q32.32.
fn q(v: f64) -> Q32 {
    Q32::new((v * 4294967296.0) as i64)
}

/// The 256 mask values for one frame, fixed-point encoded.
fn mask_values(y: f32, luma_scaling: f32) -> Vec<Q32> {
    (0..DOMAIN_SIZE)
        .map(|i| q(get_mask_value(i as f32 / 256.0, y, luma_scaling) as f64))
        .collect()
}

fn int_frame(depth: u8, width: usize, height: usize, sample: u64) -> FrameInput {
    FrameInput::Integer { depth, plane: Plane { width, height, samples: vec![sample; width * height] } }
}

#[test]
fn eight_bit_midgray_frame() {
    // 8-bit plane, every sample 128, average 0.5, scaling 10:
    // every output sample is round(mask(128/256, 0.5, 10) · 255) = 45.
    let mask = mask_values(0.5, 10.0);
    let input = int_frame(8, 4, 2, 128);
    let expected = (get_mask_value(0.5, 0.5, 10.0) as f64 * 255.0).round() as u64;
    assert_eq!(expected, 45);
    match process_frame(q(10.0), Some(q(0.5)), &input, &mask) {
        Ok(FrameOutput::Integer(o)) => {
            assert_eq!(o.width, 4);
            assert_eq!(o.height, 2);
            assert_eq!(o.samples.len(), 8);
            assert!(o.samples.iter().all(|&s| s == expected));
        },
        _ => panic!("expected an integer output plane"),
    }
}

#[test]
fn float_frame_quarter_gray() {
    // Float plane, every sample 0.25, average 0.8, scaling 10, statistics in
    // range: every output sample is mask(floor(0.25·256)/256, 0.8, 10).
    let mask = mask_values(0.8, 10.0);
    let plane = FloatPlane { width: 3, height: 3, samples: vec![q(0.25); 9] };
    let input = FrameInput::Float {
        stats_min: Some(q(0.0)),
        stats_max: Some(q(1.0)),
        plane,
    };
    let expected = q(get_mask_value(0.25, 0.8, 10.0) as f64);
    match process_frame(q(10.0), Some(q(0.8)), &input, &mask) {
        Ok(FrameOutput::Float(o)) => {
            assert_eq!(o.samples.len(), 9);
            assert!(o.samples.iter().all(|s| s.raw == expected.raw));
        },
        _ => panic!("expected a float output plane"),
    }
}

#[test]
fn zero_average_is_identity_to_full_scale() {
    // With average 0 the mask is exactly 1, so every output sample is the
    // largest value of its depth, whatever the input samples were.
    let mask = mask_values(0.0, 10.0);
    for (depth, max) in [(8u8, 255u64), (16, 65535), (32, 4294967295)] {
        let samples: Vec<u64> = (0..6u64).map(|k| k * 37 % (max + 1)).collect();
        let plane = Plane { width: 3, height: 2, samples };
        let input = FrameInput::Integer { depth, plane };
        match process_frame(q(10.0), Some(q(0.0)), &input, &mask) {
            Ok(FrameOutput::Integer(o)) => assert!(o.samples.iter().all(|&s| s == max)),
            _ => panic!("expected an integer output plane"),
        }
    }
}

#[test]
fn depth_dispatch_consistency() {
    // The same logical level at 8 and at 16 bits (v against v·257) picks the
    // same table step, so the outputs agree on a common scale up to the
    // 16-bit table's finer quantization.
    let mask = mask_values(0.5, 10.0);
    for v in [0u64, 30, 77, 128, 200, 255] {
        let out8 = match process_frame(q(10.0), Some(q(0.5)), &int_frame(8, 1, 1, v), &mask) {
            Ok(FrameOutput::Integer(o)) => o.samples[0],
            _ => panic!("expected an integer output plane"),
        };
        let out16 = match process_frame(q(10.0), Some(q(0.5)), &int_frame(16, 1, 1, v * 257), &mask)
        {
            Ok(FrameOutput::Integer(o)) => o.samples[0],
            _ => panic!("expected an integer output plane"),
        };
        assert!(
            257 * out8 <= out16 && out16 <= 257 * out8 + 256,
            "depth dispatch disagrees at {v}: {out8} vs {out16}"
        );
    }
}

#[test]
fn mixed_plane_maps_each_sample_through_the_table() {
    // At 8 bits the lookup index is the sample itself, so each output
    // position holds floor(mask(sample/256) · 255) for its own sample.
    let mask = mask_values(0.5, 10.0);
    let samples = vec![0u64, 128, 255, 64];
    let plane = Plane { width: 2, height: 2, samples: samples.clone() };
    let input = FrameInput::Integer { depth: 8, plane };
    match process_frame(q(10.0), Some(q(0.5)), &input, &mask) {
        Ok(FrameOutput::Integer(o)) => {
            for (j, &s) in samples.iter().enumerate() {
                let m = get_mask_value(s as f32 / 256.0, 0.5, 10.0) as f64;
                assert_eq!(o.samples[j], (m * 255.0).floor() as u64, "position {j}");
            }
            assert_eq!(o.samples[0], 255);
            assert_eq!(o.samples[1], 45);
        },
        _ => panic!("expected an integer output plane"),
    }
}

#[test]
fn missing_average_statistic_is_reported() {
    let mask = mask_values(0.5, 10.0);
    let r = process_frame(q(10.0), None, &int_frame(8, 1, 1, 0), &mask);
    assert_eq!(r.unwrap_err(), MaskError::MissingStatistic);
}

#[test]
fn unsupported_depth_is_reported() {
    let mask = mask_values(0.5, 10.0);
    for depth in [0u8, 7, 33, 64] {
        let r = process_frame(q(10.0), Some(q(0.5)), &int_frame(depth, 1, 1, 0), &mask);
        assert_eq!(r.unwrap_err(), MaskError::UnsupportedDepth);
    }
}

#[test]
fn oversized_sample_is_reported() {
    // An 8-bit plane carrying the value 256 does not fit its depth: its
    // lookup index would leave the table domain.
    let mask = mask_values(0.5, 10.0);
    let r = process_frame(q(10.0), Some(q(0.5)), &int_frame(8, 1, 1, 256), &mask);
    assert_eq!(r.unwrap_err(), MaskError::DomainIndexOverflow);
}

#[test]
fn out_of_range_float_statistics_are_reported() {
    let mask = mask_values(0.5, 10.0);
    let plane = FloatPlane { width: 1, height: 1, samples: vec![q(0.5)] };
    let input = FrameInput::Float {
        stats_min: Some(q(-0.01)),
        stats_max: Some(q(1.0)),
        plane,
    };
    let r = process_frame(q(10.0), Some(q(0.5)), &input, &mask);
    assert_eq!(r.unwrap_err(), MaskError::OutOfRangeInput);
}

#[test]
fn absent_float_statistics_default_to_valid() {
    let mask = mask_values(0.5, 10.0);
    let plane = FloatPlane { width: 1, height: 1, samples: vec![q(0.5)] };
    let input = FrameInput::Float { stats_min: None, stats_max: None, plane };
    assert!(process_frame(q(10.0), Some(q(0.5)), &input, &mask).is_ok());
}

#[test]
fn float_output_stays_in_unit_range() {
    let mask = mask_values(0.9, 25.0);
    let samples: Vec<Q32> = (0..64).map(|k| q(k as f64 / 64.0)).collect();
    let plane = FloatPlane { width: 8, height: 8, samples };
    let input = FrameInput::Float { stats_min: Some(q(0.0)), stats_max: Some(q(1.0)), plane };
    match process_frame(q(25.0), Some(q(0.9)), &input, &mask) {
        Ok(FrameOutput::Float(o)) => {
            assert!(o.samples.iter().all(|s| 0 <= s.raw && s.raw <= 4294967296));
        },
        _ => panic!("expected a float output plane"),
    }
}
