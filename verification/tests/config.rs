use xcursorlocate::config::{ConfigError, IndicatorConfig, Kind};

#[test]
fn defaults_are_the_documented_ones() {
    let c = IndicatorConfig::default();
    assert_eq!(c.max_size, 300);
    assert_eq!(c.duration, 500);
    assert_eq!(c.thickness, 1);
    assert_eq!(c.frame_count, 30);
    assert_eq!(c.color, 0xFFFFFF);
    assert_eq!(c.animation_kind, Kind::Grow);
    assert_eq!(c.validate(), Ok(()));
}

#[test]
fn kinds_split_by_direction_and_erasing() {
    assert!(Kind::Grow.is_growing() && !Kind::Grow.is_clearing());
    assert!(Kind::GrowOutline.is_growing() && Kind::GrowOutline.is_clearing());
    assert!(!Kind::Shrink.is_growing() && !Kind::Shrink.is_clearing());
    assert!(!Kind::ShrinkOutline.is_growing() && Kind::ShrinkOutline.is_clearing());
}

#[test]
fn zero_frame_count_is_invalid() {
    let c = IndicatorConfig { frame_count: 0, ..IndicatorConfig::default() };
    assert_eq!(c.validate(), Err(ConfigError::InvalidFrameCount));
}

#[test]
fn zero_duration_is_invalid() {
    let c = IndicatorConfig { duration: 0, ..IndicatorConfig::default() };
    assert_eq!(c.validate(), Err(ConfigError::InvalidDuration));
}

#[test]
fn oversized_surface_is_invalid() {
    let c = IndicatorConfig { max_size: 65535, thickness: 1, ..IndicatorConfig::default() };
    assert_eq!(c.validate(), Err(ConfigError::SurfaceTooLarge));
    let wide = IndicatorConfig { max_size: 0, thickness: 0x1_0000, ..IndicatorConfig::default() };
    assert_eq!(wide.validate(), Err(ConfigError::SurfaceTooLarge));
}

#[test]
fn faults_are_reported_in_order() {
    let all = IndicatorConfig {
        frame_count: 0,
        duration: 0,
        max_size: 65535,
        thickness: 9,
        ..IndicatorConfig::default()
    };
    assert_eq!(all.validate(), Err(ConfigError::InvalidFrameCount));
    let two = IndicatorConfig { frame_count: 1, ..all };
    assert_eq!(two.validate(), Err(ConfigError::InvalidDuration));
    let one = IndicatorConfig { duration: 1, ..two };
    assert_eq!(one.validate(), Err(ConfigError::SurfaceTooLarge));
}

#[test]
fn surface_is_size_plus_thickness() {
    assert_eq!(IndicatorConfig::default().surface_size(), Some(301));
    let c = IndicatorConfig { max_size: 65000, thickness: 535, ..IndicatorConfig::default() };
    assert_eq!(c.surface_size(), Some(65535));
    let d = IndicatorConfig { max_size: 65000, thickness: 536, ..IndicatorConfig::default() };
    assert_eq!(d.surface_size(), None);
    let e = IndicatorConfig { max_size: 1, thickness: 0x1_0000, ..IndicatorConfig::default() };
    assert_eq!(e.surface_size(), None);
    let f = IndicatorConfig { max_size: 1, thickness: u32::MAX, ..IndicatorConfig::default() };
    assert_eq!(f.surface_size(), None);
    let g = IndicatorConfig { max_size: 0, thickness: 0, ..IndicatorConfig::default() };
    assert_eq!(g.surface_size(), Some(0));
}
