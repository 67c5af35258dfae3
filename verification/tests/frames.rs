use xcursorlocate::animations::Animation;
use xcursorlocate::config::{ConfigError, IndicatorConfig, Kind};
use xcursorlocate::frame::{frame_at, frame_sequence, Frame};

const KINDS: [Kind; 4] = [Kind::Grow, Kind::GrowOutline, Kind::Shrink, Kind::ShrinkOutline];

#[test]
fn grow_starts_small_and_ends_at_full_size() {
    let frames = frame_sequence(300, 30, Kind::Grow).unwrap();
    assert_eq!(frames.len(), 30);
    assert_eq!(frames[0], Frame { x: 145, y: 145, width: 10, height: 10 });
    assert_eq!(frames[1], Frame { x: 140, y: 140, width: 20, height: 20 });
    assert_eq!(frames[29], Frame { x: 0, y: 0, width: 300, height: 300 });
    let smallest = frames.iter().map(|f| f.width).min().unwrap();
    assert_eq!(frames[0].width, smallest);
}

#[test]
fn shrink_starts_at_full_size() {
    let frames = frame_sequence(300, 30, Kind::Shrink).unwrap();
    assert_eq!(frames.len(), 30);
    assert_eq!(frames[0], Frame { x: 0, y: 0, width: 300, height: 300 });
    assert_eq!(frames[29], Frame { x: 145, y: 145, width: 10, height: 10 });
}

#[test]
fn single_frame_is_the_full_circle() {
    for kind in KINDS {
        let frames = frame_sequence(300, 1, kind).unwrap();
        assert_eq!(frames, vec![Frame { x: 0, y: 0, width: 300, height: 300 }]);
    }
}

#[test]
fn zero_frames_are_rejected() {
    for kind in KINDS {
        assert_eq!(frame_sequence(300, 0, kind), Err(ConfigError::InvalidFrameCount));
    }
}

#[test]
fn every_frame_is_a_circle_within_the_size() {
    for (max_size, frame_count) in [(100u16, 7u16), (5, 10), (0, 3), (65535, 65535), (65535, 2)] {
        for kind in KINDS {
            let frames = frame_sequence(max_size, frame_count, kind).unwrap();
            assert_eq!(frames.len(), frame_count as usize);
            for f in &frames {
                assert_eq!(f.width, f.height);
                assert_eq!(f.x, f.y);
                assert!(f.width <= max_size);
                assert!(f.x >= 0);
            }
        }
    }
}

#[test]
fn grow_is_shrink_reversed() {
    for (max_size, frame_count) in [(300u16, 30u16), (100, 7), (5, 10), (1000, 1)] {
        let grow = frame_sequence(max_size, frame_count, Kind::Grow).unwrap();
        let mut shrink = frame_sequence(max_size, frame_count, Kind::ShrinkOutline).unwrap();
        for i in 0..grow.len() {
            assert_eq!(grow[i], shrink[grow.len() - 1 - i]);
        }
        shrink.reverse();
        assert_eq!(grow, shrink);
    }
}

#[test]
fn widths_are_monotonic() {
    for (max_size, frame_count) in [(300u16, 30u16), (100, 7), (5, 10), (65535, 1000)] {
        let grow = frame_sequence(max_size, frame_count, Kind::GrowOutline).unwrap();
        assert!(grow.windows(2).all(|w| w[0].width <= w[1].width));
        let shrink = frame_sequence(max_size, frame_count, Kind::Shrink).unwrap();
        assert!(shrink.windows(2).all(|w| w[0].width >= w[1].width));
    }
}

#[test]
fn generating_twice_gives_the_same_frames() {
    for kind in KINDS {
        assert_eq!(frame_sequence(123, 11, kind), frame_sequence(123, 11, kind));
    }
    assert_eq!(frame_sequence(123, 0, Kind::Grow), frame_sequence(123, 0, Kind::Grow));
}

#[test]
fn division_truncates_before_multiplying() {
    // step 100 / 30 = 3, half step 100 / 60 = 1
    assert_eq!(frame_at(100, 30, 29), Frame { x: 29, y: 29, width: 13, height: 13 });
    assert_eq!(frame_at(100, 30, 0), Frame { x: 0, y: 0, width: 100, height: 100 });
    // step 7 / 2 = 3, half step 7 / 4 = 1
    assert_eq!(frame_at(7, 2, 1), Frame { x: 1, y: 1, width: 4, height: 4 });
}

#[test]
fn more_frames_than_pixels_keep_the_full_size() {
    let frames = frame_sequence(5, 10, Kind::Shrink).unwrap();
    assert!(frames.iter().all(|f| *f == Frame { x: 0, y: 0, width: 5, height: 5 }));
}

#[test]
fn zero_size_gives_points() {
    let frames = frame_sequence(0, 4, Kind::Grow).unwrap();
    assert_eq!(frames, vec![Frame { x: 0, y: 0, width: 0, height: 0 }; 4]);
}

#[test]
fn an_index_past_the_end_never_underflows() {
    assert_eq!(frame_at(100, 10, 10), Frame { x: 50, y: 50, width: 0, height: 0 });
    assert_eq!(frame_at(100, 10, 11), Frame { x: 55, y: 55, width: 0, height: 0 });
    assert_eq!(frame_at(65535, 1, 65535), Frame { x: 32767, y: 32767, width: 0, height: 0 });
    assert_eq!(frame_at(65535, 1, 2), Frame { x: 32767, y: 32767, width: 0, height: 0 });
    assert_eq!(frame_at(65535, 1, 1), Frame { x: 32767, y: 32767, width: 0, height: 0 });
    assert_eq!(frame_at(65534, 1, 1), Frame { x: 32767, y: 32767, width: 0, height: 0 });
    assert_eq!(frame_at(65534, 2, 1), Frame { x: 16383, y: 16383, width: 32767, height: 32767 });
}

#[test]
fn largest_parameters_fit() {
    let frames = frame_sequence(65535, 65535, Kind::Shrink).unwrap();
    assert_eq!(frames.len(), 65535);
    assert_eq!(frames[0], Frame { x: 0, y: 0, width: 65535, height: 65535 });
    assert_eq!(frames[65534], Frame { x: 0, y: 0, width: 1, height: 1 });
}

#[test]
fn circles_follow_the_given_indices() {
    let config = IndicatorConfig { max_size: 300, frame_count: 30, ..IndicatorConfig::default() };
    let a = Animation::circles(config, &[29, 0, 15, 15, 40], true).unwrap();
    assert_eq!(
        a.frames,
        vec![
            Frame { x: 145, y: 145, width: 10, height: 10 },
            Frame { x: 0, y: 0, width: 300, height: 300 },
            Frame { x: 75, y: 75, width: 150, height: 150 },
            Frame { x: 75, y: 75, width: 150, height: 150 },
            Frame { x: 200, y: 200, width: 0, height: 0 },
        ]
    );
    assert!(a.clear);
    let none = Animation::circles(config, &[], false).unwrap();
    assert!(none.frames.is_empty());
    assert!(!none.clear);
}

#[test]
fn circles_reject_zero_frames() {
    let config = IndicatorConfig { frame_count: 0, ..IndicatorConfig::default() };
    assert_eq!(
        Animation::circles(config, &[0, 1], false).unwrap_err(),
        ConfigError::InvalidFrameCount
    );
    let no_duration = IndicatorConfig { duration: 0, ..IndicatorConfig::default() };
    assert!(Animation::circles(no_duration, &[0, 1], false).is_ok());
}
