use xcursorlocate::animations::Animation;
use xcursorlocate::command::{clear_region, Command, Region, ARC_START, ARC_SWEEP, CLEAR_EXTENT};
use xcursorlocate::config::{ConfigError, IndicatorConfig, Kind};
use xcursorlocate::frame::{frame_sequence, Frame};
use xcursorlocate::timing::Interval;

fn config(max_size: u16, frame_count: u16, duration: u64, kind: Kind) -> IndicatorConfig {
    IndicatorConfig {
        max_size,
        frame_count,
        duration,
        animation_kind: kind,
        ..IndicatorConfig::default()
    }
}

#[test]
fn default_animation_has_thirty_draws() {
    let a = Animation::from_config(config(300, 30, 500, Kind::Grow)).unwrap();
    assert_eq!(a.duration_per_frame, Interval { millis: 16, nanos: 666_666 });
    assert!(!a.clear);
    assert_eq!(a.frames, frame_sequence(300, 30, Kind::Grow).unwrap());
    let played = a.play();
    assert_eq!(played.len(), 90);
    assert_eq!(played.iter().filter(|c| matches!(c, Command::Draw(_))).count(), 30);
    assert_eq!(played[0], Command::Draw(Frame { x: 145, y: 145, width: 10, height: 10 }));
    assert_eq!(played[87], Command::Draw(Frame { x: 0, y: 0, width: 300, height: 300 }));
}

#[test]
fn single_frame_animation() {
    let a = Animation::from_config(config(300, 1, 500, Kind::Grow)).unwrap();
    let full = Frame { x: 0, y: 0, width: 300, height: 300 };
    assert_eq!(a.frames, vec![full]);
    assert_eq!(a.duration_per_frame, Interval { millis: 500, nanos: 0 });
    assert_eq!(
        a.play(),
        vec![
            Command::Draw(full),
            Command::Flush,
            Command::Sleep(Interval { millis: 500, nanos: 0 }),
        ]
    );
}

#[test]
fn plain_kinds_draw_flush_and_sleep() {
    let a = Animation::from_config(config(20, 2, 10, Kind::Shrink)).unwrap();
    let pace = Interval { millis: 5, nanos: 0 };
    assert_eq!(
        a.play(),
        vec![
            Command::Draw(Frame { x: 0, y: 0, width: 20, height: 20 }),
            Command::Flush,
            Command::Sleep(pace),
            Command::Draw(Frame { x: 5, y: 5, width: 10, height: 10 }),
            Command::Flush,
            Command::Sleep(pace),
        ]
    );
}

#[test]
fn outline_kinds_erase_after_the_flush() {
    let a = Animation::from_config(config(20, 2, 10, Kind::GrowOutline)).unwrap();
    assert!(a.clear);
    let pace = Interval { millis: 5, nanos: 0 };
    assert_eq!(
        a.play(),
        vec![
            Command::Draw(Frame { x: 5, y: 5, width: 10, height: 10 }),
            Command::Flush,
            Command::Clear(Region { x: 5, y: 5, width: 2000, height: 2000 }),
            Command::Sleep(pace),
            Command::Draw(Frame { x: 0, y: 0, width: 20, height: 20 }),
            Command::Flush,
            Command::Clear(Region { x: 0, y: 0, width: 2000, height: 2000 }),
            Command::Sleep(pace),
        ]
    );
}

#[test]
fn erased_region_covers_the_frame() {
    assert_eq!(CLEAR_EXTENT, 2000);
    assert_eq!(
        clear_region(Frame { x: 3, y: 4, width: 10, height: 20 }),
        Region { x: 3, y: 4, width: 2000, height: 2000 }
    );
    assert_eq!(
        clear_region(Frame { x: 0, y: 0, width: 2000, height: 2001 }),
        Region { x: 0, y: 0, width: 2000, height: 2001 }
    );
    assert_eq!(
        clear_region(Frame { x: 7, y: 7, width: 65535, height: 65535 }),
        Region { x: 7, y: 7, width: 65535, height: 65535 }
    );
}

#[test]
fn arcs_are_full_circles() {
    assert_eq!(ARC_START, 0);
    assert_eq!(ARC_SWEEP, 360 << 6);
}

#[test]
fn an_animation_without_frames_plays_nothing() {
    let a = Animation::circles(IndicatorConfig::default(), &[], true).unwrap();
    assert!(a.play().is_empty());
}

#[test]
fn playing_leaves_the_animation_as_it_was() {
    let a = Animation::from_config(config(64, 8, 80, Kind::ShrinkOutline)).unwrap();
    let first = a.play();
    let second = a.play();
    assert_eq!(first, second);
    assert_eq!(first.len(), 32);
}

#[test]
fn invalid_configurations_give_no_animation() {
    assert_eq!(
        Animation::from_config(config(300, 0, 500, Kind::Grow)).unwrap_err(),
        ConfigError::InvalidFrameCount
    );
    assert_eq!(
        Animation::from_config(config(300, 30, 0, Kind::Grow)).unwrap_err(),
        ConfigError::InvalidDuration
    );
    assert_eq!(
        Animation::from_config(config(65535, 30, 500, Kind::Grow)).unwrap_err(),
        ConfigError::SurfaceTooLarge
    );
}
