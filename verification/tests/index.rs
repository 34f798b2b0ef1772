//! Inclusive range queries against the interval index.

use rrr::index::IntervalIndex;
use rrr::note::{Color, RuntimeNote};
use rrr::types::Direction;

fn note(beat: u32, ts: u32, dir: Direction, color: Color) -> RuntimeNote {
    RuntimeNote { beat_position: beat, color, direction: dir, timestamp: ts }
}

#[test]
fn test_range_inclusive_bounds() {
    let notes = vec![
        note(1, 100, Direction::Left, Color::Blue),
        note(2, 200, Direction::Down, Color::Red),
        note(3, 300, Direction::Up, Color::Green),
        note(4, 400, Direction::Right, Color::White),
    ];
    let index = IntervalIndex::new(&notes);
    let hits = index.range(200, 300);
    assert_eq!(hits.len(), 2);
    assert_eq!(hits[0].0, 200);
    assert_eq!(hits[1].0, 300);
    assert_eq!(hits[0].1, notes[1]);
    assert_eq!(hits[1].1, notes[2]);
}

#[test]
fn test_range_includes_all_boundary_duplicates() {
    // a chord: three notes share the boundary timestamp
    let notes = vec![
        note(1, 100, Direction::Left, Color::Blue),
        note(2, 200, Direction::Down, Color::Blue),
        note(3, 200, Direction::Up, Color::Red),
        note(4, 200, Direction::Right, Color::Green),
        note(5, 300, Direction::Left, Color::Blue),
    ];
    let index = IntervalIndex::new(&notes);
    let hits = index.range(100, 200);
    assert_eq!(hits.len(), 4);
    // ascending by timestamp, insertion-stable among equal timestamps
    assert_eq!(hits[0].1, notes[0]);
    assert_eq!(hits[1].1, notes[1]);
    assert_eq!(hits[2].1, notes[2]);
    assert_eq!(hits[3].1, notes[3]);
}

#[test]
fn test_range_orders_unsorted_input() {
    let notes = vec![
        note(3, 300, Direction::Up, Color::Blue),
        note(1, 100, Direction::Left, Color::Blue),
        note(2, 200, Direction::Down, Color::Blue),
    ];
    let index = IntervalIndex::new(&notes);
    let hits = index.range(0, 400);
    assert_eq!(hits.len(), 3);
    assert_eq!(hits[0].0, 100);
    assert_eq!(hits[1].0, 200);
    assert_eq!(hits[2].0, 300);
}

#[test]
fn test_range_empty_when_nothing_matches() {
    let notes = vec![note(1, 100, Direction::Left, Color::Blue)];
    let index = IntervalIndex::new(&notes);
    assert_eq!(index.range(101, 1000).len(), 0);
    assert_eq!(index.range(0, 99).len(), 0);
    // an inverted range holds nothing
    assert_eq!(index.range(500, 400).len(), 0);
}

#[test]
fn test_range_single_point() {
    let notes = vec![
        note(1, 100, Direction::Left, Color::Blue),
        note(2, 150, Direction::Down, Color::Blue),
    ];
    let index = IntervalIndex::new(&notes);
    let hits = index.range(150, 150);
    assert_eq!(hits.len(), 1);
    assert_eq!(hits[0].0, 150);
}

#[test]
fn test_index_len_and_last_key() {
    let notes = vec![
        note(1, 700, Direction::Left, Color::Blue),
        note(2, 200, Direction::Down, Color::Blue),
    ];
    let index = IntervalIndex::new(&notes);
    assert_eq!(index.len(), 2);
    assert_eq!(index.last_key(), 700);
    assert_eq!(index.entry_at(0).0, 200);
}
