//! Plain data types: configuration, directions, chart wrappers.

use rrr::bench::BenchmarkData;
use rrr::chart::{Beat, RuntimeChart};
use rrr::config::Config;
use rrr::note::{Color, Note, NoteRow, RuntimeNote};
use rrr::play::Difference;
use rrr::types::{Direction, ReceptorPosition, ScrollDirection, SongID};

#[test]
fn default_config() {
    let config = Config::default();
    assert_eq!(config.width, 768);
    assert_eq!(config.height, 512);
    assert_eq!(config.window_x, 0);
    assert_eq!(config.window_y, 0);
}

#[test]
fn test_direction_ordinals() {
    // the ordinal encoding 0-3 is part of the wire contract
    assert_eq!(Direction::Left.ordinal(), 0);
    assert_eq!(Direction::Down.ordinal(), 1);
    assert_eq!(Direction::Up.ordinal(), 2);
    assert_eq!(Direction::Right.ordinal(), 3);
}

#[test]
fn test_type_defaults() {
    assert_eq!(ReceptorPosition::default(), ReceptorPosition(64));
    assert_eq!(ScrollDirection::default(), ScrollDirection::Up);
    let id = SongID(77);
    assert_eq!(id.0, 77);
}

#[test]
fn test_chart_duration_is_leading_note() {
    let first = RuntimeNote {
        beat_position: 10,
        color: Color::Blue,
        direction: Direction::Left,
        timestamp: 4000,
    };
    let second = RuntimeNote {
        beat_position: 20,
        color: Color::Red,
        direction: Direction::Up,
        timestamp: 9000,
    };
    let chart = RuntimeChart::new(vec![first, second]);
    assert_eq!(chart.get_duration().unwrap(), 4000);
    let empty = RuntimeChart::new(Vec::new());
    assert!(empty.get_duration().is_err());
}

#[test]
fn test_note_row_and_beat() {
    let row = NoteRow::new(4, vec![Note::new(0), Note::new(3)]);
    let beat = Beat::new(vec![row.clone()], 8);
    assert_eq!(beat, Beat::new(vec![row], 8));
}

#[test]
fn test_note_ordering_keys() {
    let a = RuntimeNote {
        beat_position: 1,
        color: Color::Red,
        direction: Direction::Left,
        timestamp: 0,
    };
    let b = RuntimeNote { color: Color::Blue, ..a };
    // equal beats: the colour rank decides
    assert!(a.le(&b));
    assert!(!b.le(&a));
    let c = RuntimeNote { beat_position: 0, ..b };
    assert!(c.le(&a));
}

#[test]
fn test_difference_trait() {
    assert_eq!(10u32.abs_difference(&3), 7);
    assert_eq!(3u32.abs_difference(&10), 7);
    assert_eq!(10u32.difference(&3), 7);
    assert_eq!(3u32.difference(&10), 0);
}

#[test]
fn test_benchmark_data() {
    let mut data = BenchmarkData::new();
    data.add_frame_time(16);
    data.add_frame_time(17);
    assert_eq!(data.frame_times, vec![16, 17]);
}
