//! The bytecode interpreter on raw action streams, including every way an
//! action tag can fail.

use rrr::bytecode::{parse_action, ChartParseError};
use rrr::note::Color;
use rrr::types::Direction;

/// A constant-pool record over the given strings.
fn pool_record(strings: &[&[u8]]) -> Vec<u8> {
    let mut pool = Vec::new();
    pool.extend_from_slice(&(strings.len() as u16).to_le_bytes());
    for s in strings {
        pool.extend_from_slice(s);
        pool.push(0);
    }
    let mut a = vec![0x88];
    a.extend_from_slice(&(pool.len() as u16).to_le_bytes());
    a.extend_from_slice(&pool);
    a
}

/// The standard pool: the chart marker, the four directions, one colour.
fn standard_pool() -> Vec<u8> {
    pool_record(&[b"beatBox", b"L", b"U", b"D", b"R", b"red"])
}

/// A push record over raw value bytes.
fn push_record(values: &[u8]) -> Vec<u8> {
    let mut a = vec![0x96];
    a.extend_from_slice(&(values.len() as u16).to_le_bytes());
    a.extend_from_slice(values);
    a
}

fn int_value(v: i32) -> Vec<u8> {
    let mut b = vec![7];
    b.extend_from_slice(&v.to_le_bytes());
    b
}

fn pool_value(ix: u8) -> Vec<u8> {
    vec![8, ix]
}

#[test]
fn test_parse_action_one_note() {
    let mut a = standard_pool();
    let mut values = Vec::new();
    values.extend_from_slice(&pool_value(1)); // "L"
    values.extend_from_slice(&int_value(60)); // beat
    values.extend_from_slice(&int_value(2)); // field count
    a.extend_from_slice(&push_record(&values));
    a.push(0x42);
    a.push(0x00);
    let notes = parse_action(&a).expect("one note should come out");
    assert_eq!(notes.len(), 1);
    assert_eq!(notes[0].direction, Direction::Left);
    assert_eq!(notes[0].beat_position, 60);
    assert_eq!(notes[0].color, Color::Blue);
    assert_eq!(notes[0].timestamp, 2000);
}

#[test]
fn test_parse_action_negative_operands_take_magnitude() {
    let mut a = standard_pool();
    let mut values = Vec::new();
    values.extend_from_slice(&int_value(-4321)); // explicit timestamp
    values.extend_from_slice(&pool_value(5)); // "red"
    values.extend_from_slice(&pool_value(4)); // "R"
    values.extend_from_slice(&int_value(-90)); // beat
    values.extend_from_slice(&int_value(4));
    a.extend_from_slice(&push_record(&values));
    a.push(0x42);
    a.push(0x00);
    let notes = parse_action(&a).unwrap();
    assert_eq!(notes[0].beat_position, 90);
    assert_eq!(notes[0].timestamp, 4321);
    assert_eq!(notes[0].color, Color::Red);
}

#[test]
fn test_parse_action_not_chart_data() {
    // the marker is present but no note record follows
    let mut a = standard_pool();
    a.push(0x00);
    assert_eq!(parse_action(&a), Err(ChartParseError::NotChartData));
}

#[test]
fn test_parse_action_init_count_error() {
    // the operand under the init-array is not numeric
    let mut a = standard_pool();
    a.extend_from_slice(&push_record(&pool_value(1)));
    a.push(0x42);
    a.push(0x00);
    assert_eq!(parse_action(&a), Err(ChartParseError::InitCount));
}

#[test]
fn test_parse_action_beat_position_error() {
    let mut a = standard_pool();
    let mut values = vec![2]; // a null value where the beat belongs
    values.extend_from_slice(&int_value(1));
    a.extend_from_slice(&push_record(&values));
    a.push(0x42);
    a.push(0x00);
    assert_eq!(parse_action(&a), Err(ChartParseError::BeatPosition));
}

#[test]
fn test_parse_action_direction_error() {
    // the direction operand is numeric instead of a pool reference
    let mut a = standard_pool();
    let mut values = Vec::new();
    values.extend_from_slice(&int_value(5));
    values.extend_from_slice(&int_value(60));
    values.extend_from_slice(&int_value(2));
    a.extend_from_slice(&push_record(&values));
    a.push(0x42);
    a.push(0x00);
    assert_eq!(parse_action(&a), Err(ChartParseError::NoteDirection));
}

#[test]
fn test_parse_action_direction_error_without_pool() {
    // no constant pool was loaded, so the reference cannot resolve; the
    // interpreter reports the mismatch instead of crashing
    let mut a = Vec::new();
    let mut values = Vec::new();
    values.extend_from_slice(&pool_value(1));
    values.extend_from_slice(&int_value(60));
    values.extend_from_slice(&int_value(2));
    a.extend_from_slice(&push_record(&values));
    // a first init-array over a non-empty stack
    a.push(0x42);
    a.push(0x00);
    assert_eq!(parse_action(&a), Err(ChartParseError::NoteDirection));
}

#[test]
fn test_parse_action_color_error() {
    let mut a = standard_pool();
    let mut values = Vec::new();
    values.extend_from_slice(&int_value(9)); // numeric where the colour belongs
    values.extend_from_slice(&pool_value(1));
    values.extend_from_slice(&int_value(60));
    values.extend_from_slice(&int_value(3));
    a.extend_from_slice(&push_record(&values));
    a.push(0x42);
    a.push(0x00);
    assert_eq!(parse_action(&a), Err(ChartParseError::NoteColor));
}

#[test]
fn test_parse_action_timestamp_error() {
    let mut a = standard_pool();
    let mut values = Vec::new();
    values.extend_from_slice(&pool_value(5)); // a reference where the timestamp belongs
    values.extend_from_slice(&pool_value(5));
    values.extend_from_slice(&pool_value(1));
    values.extend_from_slice(&int_value(60));
    values.extend_from_slice(&int_value(4));
    a.extend_from_slice(&push_record(&values));
    a.push(0x42);
    a.push(0x00);
    assert_eq!(parse_action(&a), Err(ChartParseError::Timestamp));
}

#[test]
fn test_parse_action_pool_without_marker_stops() {
    let mut a = pool_record(&[b"unrelated"]);
    a.push(0x00);
    assert_eq!(parse_action(&a), Err(ChartParseError::NotChartData));
}

#[test]
fn test_parse_action_underfilled_init_array_ends_chart() {
    // the count asks for more items than the stack holds: what was built
    // so far stands
    let mut a = standard_pool();
    let mut values = Vec::new();
    values.extend_from_slice(&pool_value(1));
    values.extend_from_slice(&int_value(30));
    values.extend_from_slice(&int_value(2));
    a.extend_from_slice(&push_record(&values));
    a.push(0x42);
    a.extend_from_slice(&push_record(&int_value(9)));
    a.push(0x42); // count 9 over an empty stack
    a.push(0x00);
    let notes = parse_action(&a).unwrap();
    assert_eq!(notes.len(), 1);
    assert_eq!(notes[0].beat_position, 30);
}

#[test]
fn test_parse_action_skips_unknown_opcodes() {
    let mut a = standard_pool();
    a.push(0x1c); // get-variable: ignored
    let mut values = Vec::new();
    values.extend_from_slice(&pool_value(3)); // "D"
    values.extend_from_slice(&int_value(120));
    values.extend_from_slice(&int_value(2));
    a.extend_from_slice(&push_record(&values));
    a.push(0x4f); // set-member: ignored
    a.push(0x42);
    a.push(0x00);
    let notes = parse_action(&a).unwrap();
    assert_eq!(notes.len(), 1);
    assert_eq!(notes[0].direction, Direction::Down);
    assert_eq!(notes[0].timestamp, 4000);
}

#[test]
fn test_parse_action_derived_timestamp_wraps() {
    // the largest beat magnitude: the derived timestamp wraps in 32 bits
    let mut a = standard_pool();
    let mut values = Vec::new();
    values.extend_from_slice(&pool_value(1));
    values.extend_from_slice(&int_value(i32::MIN)); // magnitude 2^31
    values.extend_from_slice(&int_value(2));
    a.extend_from_slice(&push_record(&values));
    a.push(0x42);
    a.push(0x00);
    let notes = parse_action(&a).unwrap();
    assert_eq!(notes[0].beat_position, 2_147_483_648);
    // 2^31 / 30 * 1000 modulo 2^32
    assert_eq!(notes[0].timestamp, 2_863_311_264);
}
