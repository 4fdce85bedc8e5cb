use timelapse::blank::{is_blank_frame, sample_grid, PixelSample};
use timelapse::errors::EngineError;

fn gray(level: u16) -> PixelSample {
    PixelSample { red: level, green: level, blue: level }
}

#[test]
fn test_blank_at_low_mean_luminance() {
    // Mean luminance 0.005 (channels at 50/10000): classified blank.
    let samples = vec![gray(50); 16];
    assert_eq!(is_blank_frame(&samples).unwrap(), true);
}

#[test]
fn test_non_blank_at_moderate_mean_luminance() {
    // Mean luminance 0.05 (channels at 500/10000): classified non-blank.
    let samples = vec![gray(500); 16];
    assert_eq!(is_blank_frame(&samples).unwrap(), false);
}

#[test]
fn test_blank_threshold_boundary() {
    // Mean luminance exactly 0.01 is NOT below the threshold.
    let samples = vec![gray(100); 4];
    assert_eq!(is_blank_frame(&samples).unwrap(), false);
    // Just below.
    let samples = vec![gray(99); 4];
    assert_eq!(is_blank_frame(&samples).unwrap(), true);
}

#[test]
fn test_blank_weights_by_channel() {
    // Green dominates luminance: a green-only pixel at 200/10000 gives
    // 587*200 = 117400 >= 100000 (non-blank); the same level of blue gives
    // 114*200 = 22800 < 100000 (blank).
    let green_only = vec![PixelSample { red: 0, green: 200, blue: 0 }];
    assert_eq!(is_blank_frame(&green_only).unwrap(), false);
    let blue_only = vec![PixelSample { red: 0, green: 0, blue: 200 }];
    assert_eq!(is_blank_frame(&blue_only).unwrap(), true);
}

#[test]
fn test_zero_samples_is_a_failure() {
    let samples: Vec<PixelSample> = Vec::new();
    let r = is_blank_frame(&samples);
    match r {
        Err(EngineError::UnableToCheckIfImageIsBlack { reason }) => {
            assert_eq!(reason, "No pixels could be sampled");
        }
        _ => panic!("expected a classification failure"),
    }
}

#[test]
fn test_sample_grid_shape() {
    // 25x14 image: columns at x = 0, 10, 20; rows at y = 0, 10.
    let grid = sample_grid(25, 14);
    assert_eq!(
        grid,
        vec![(0, 0), (10, 0), (20, 0), (0, 10), (10, 10), (20, 10)]
    );

    // Degenerate images sample nothing.
    assert_eq!(sample_grid(0, 100).len(), 0);
    assert_eq!(sample_grid(100, 0).len(), 0);

    // Exact multiples of the stride.
    let grid = sample_grid(20, 10);
    assert_eq!(grid, vec![(0, 0), (10, 0)]);
}
