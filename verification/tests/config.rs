use raytrace::config::{Config, MAX_WORK_ITEMS};
use raytrace::error::RenderError;

fn config(width: u32, height: u32) -> Config {
    Config { width, height, min_bounces: 0, max_bounces: 3, samples_per_pixel: 1 }
}

#[test]
fn pixel_count_is_width_times_height() {
    assert_eq!(config(4, 4).pixel_count(), 16);
    assert_eq!(config(1024, 1024).pixel_count(), 1_048_576);
    assert_eq!(config(0, 7).pixel_count(), 0);
    assert_eq!(config(u32::MAX, u32::MAX).pixel_count(), 0xFFFF_FFFE_0000_0001);
}

#[test]
fn validate_accepts_consistent_parameters() {
    assert_eq!(config(100, 100).validate(), Ok(10_000));
    assert_eq!(config(1, 1).validate(), Ok(1));
    assert_eq!(config(65_535, 65_537).validate(), Ok(u32::MAX));
    assert_eq!(MAX_WORK_ITEMS, u32::MAX as u64);
    let equal_bounces =
        Config { width: 2, height: 3, min_bounces: 3, max_bounces: 3, samples_per_pixel: 8 };
    assert_eq!(equal_bounces.validate(), Ok(6));
}

#[test]
fn validate_rejects_zero_dimensions() {
    assert_eq!(config(0, 4).validate(), Err(RenderError::InvalidConfig { width: 0, height: 4 }));
    assert_eq!(config(4, 0).validate(), Err(RenderError::InvalidConfig { width: 4, height: 0 }));
    assert_eq!(config(0, 0).validate(), Err(RenderError::InvalidConfig { width: 0, height: 0 }));
}

#[test]
fn validate_rejects_inconsistent_parameters() {
    let bounces =
        Config { width: 4, height: 4, min_bounces: 5, max_bounces: 3, samples_per_pixel: 1 };
    assert_eq!(bounces.validate(), Err(RenderError::InvalidConfig { width: 4, height: 4 }));
    let samples =
        Config { width: 4, height: 4, min_bounces: 0, max_bounces: 3, samples_per_pixel: 0 };
    assert_eq!(samples.validate(), Err(RenderError::InvalidConfig { width: 4, height: 4 }));
}

#[test]
fn validate_rejects_frames_beyond_one_dispatch() {
    assert_eq!(
        config(65_536, 65_536).validate(),
        Err(RenderError::InvalidConfig { width: 65_536, height: 65_536 })
    );
    assert_eq!(
        config(u32::MAX, 2).validate(),
        Err(RenderError::InvalidConfig { width: u32::MAX, height: 2 })
    );
}
