//! Pressing synthetic container assets through the extraction pipeline.

use flate2::write::ZlibEncoder;
use flate2::Compression;
use rrr::chart::RuntimeChart;
use rrr::note::Color;
use rrr::press::{Press, PressError, RecordPressBuilder, SwfChart};
use rrr::types::Direction;
use std::io::Write;

/// One tag of the container stream: the code-and-length word, then payload.
fn tag(code: u16, payload: &[u8]) -> Vec<u8> {
    let mut out = Vec::new();
    if payload.len() < 0x3f {
        let word = (code << 6) | payload.len() as u16;
        out.extend_from_slice(&word.to_le_bytes());
    } else {
        let word = (code << 6) | 0x3f;
        out.extend_from_slice(&word.to_le_bytes());
        out.extend_from_slice(&(payload.len() as u32).to_le_bytes());
    }
    out.extend_from_slice(payload);
    out
}

/// An uncompressed container around the given tag stream: signature,
/// version, total length, an empty stage rectangle, frame rate and count.
fn container(tags: &[u8]) -> Vec<u8> {
    let mut body = Vec::new();
    body.push(0x00u8); // stage rectangle with zero-bit coordinates
    body.extend_from_slice(&0x0100u16.to_le_bytes()); // frame rate 1.0
    body.extend_from_slice(&1u16.to_le_bytes()); // one frame
    body.extend_from_slice(tags);
    let mut out = Vec::new();
    out.extend_from_slice(b"FWS");
    out.push(6); // container version
    out.extend_from_slice(&((body.len() + 8) as u32).to_le_bytes());
    out.extend_from_slice(&body);
    out
}

/// A zlib-compressed container around the same body.
fn compressed_container(tags: &[u8]) -> Vec<u8> {
    let mut body = Vec::new();
    body.push(0x00u8);
    body.extend_from_slice(&0x0100u16.to_le_bytes());
    body.extend_from_slice(&1u16.to_le_bytes());
    body.extend_from_slice(tags);
    let mut out = Vec::new();
    out.extend_from_slice(b"CWS");
    out.push(6);
    out.extend_from_slice(&((body.len() + 8) as u32).to_le_bytes());
    let mut enc = ZlibEncoder::new(Vec::new(), Compression::default());
    enc.write_all(&body).unwrap();
    out.extend_from_slice(&enc.finish().unwrap());
    out
}

/// An action stream holding a constant pool and the given cells.
///
/// The pool is `["beatBox", "L", "U", "D", "R", "red"]`. Each cell is a
/// push of its values followed by an init-array; a leading empty init-array
/// stands in for the garbage the authoring tool emits.
fn action_stream(cells: &[&[(u8, i32)]]) -> Vec<u8> {
    let mut a = Vec::new();
    // constant pool
    let strings: [&[u8]; 6] = [b"beatBox", b"L", b"U", b"D", b"R", b"red"];
    let mut pool = Vec::new();
    pool.extend_from_slice(&(strings.len() as u16).to_le_bytes());
    for s in strings {
        pool.extend_from_slice(s);
        pool.push(0);
    }
    a.push(0x88);
    a.extend_from_slice(&(pool.len() as u16).to_le_bytes());
    a.extend_from_slice(&pool);
    // the first init-array is discarded over an empty stack
    a.push(0x42);
    for cell in cells {
        // one push per cell: values in wire order, then the field count
        let mut push = Vec::new();
        for &(kind, value) in *cell {
            if kind == 7 {
                push.push(7);
                push.extend_from_slice(&value.to_le_bytes());
            } else {
                push.push(8);
                push.push(value as u8);
            }
        }
        push.push(7);
        push.extend_from_slice(&(cell.len() as i32).to_le_bytes());
        a.push(0x96);
        a.extend_from_slice(&(push.len() as u16).to_le_bytes());
        a.extend_from_slice(&push);
        a.push(0x42);
    }
    a.push(0x00);
    a
}

fn press_bytes(bytes: Vec<u8>) -> Result<rrr::record::Record, PressError> {
    let press: Press<SwfChart> = RecordPressBuilder::from_swf(bytes);
    press.press()
}

/// Extracts the raw chart through the typestate parser, as a caller that
/// wants the notes before assembly would.
fn parse_chart(bytes: Vec<u8>) -> (Vec<u8>, RuntimeChart) {
    let parser = rrr::press::SwfParser::new(bytes);
    let ready = parser.decompress().expect("container should decompress");
    let mut parsing = ready.parse();
    let _state = parsing.tick();
    let parsed = parsing.finish().consume();
    (parsed.mp3, parsed.chart)
}

// pool indices: 1 = "L", 2 = "U", 3 = "D", 4 = "R", 5 = "red"

#[test]
fn test_press_two_field_cell() {
    // a two-field cell: direction and beat position only
    let cells: &[&[(u8, i32)]] = &[&[(8, 1), (7, 60)]];
    let swf = container(&tag(12, &action_stream(cells)));
    let (_mp3, chart) = parse_chart(swf);
    assert_eq!(chart.notes.len(), 1);
    assert_eq!(chart.notes[0].color, Color::Blue);
    assert_eq!(chart.notes[0].direction, Direction::Left);
    assert_eq!(chart.notes[0].beat_position, 60);
    // the timestamp is derived: 60 / 30 * 1000
    assert_eq!(chart.notes[0].timestamp, 2000);
}

#[test]
fn test_press_three_field_cell() {
    // a three-field cell carries its colour; the timestamp is still derived
    let cells: &[&[(u8, i32)]] = &[&[(8, 5), (8, 2), (7, 90)]];
    let swf = container(&tag(12, &action_stream(cells)));
    let (_mp3, chart) = parse_chart(swf);
    assert_eq!(chart.notes.len(), 1);
    assert_eq!(chart.notes[0].color, Color::Red);
    assert_eq!(chart.notes[0].direction, Direction::Up);
    assert_eq!(chart.notes[0].timestamp, 3000);
}

#[test]
fn test_press_four_field_cell() {
    // a four-field cell carries an explicit timestamp
    let cells: &[&[(u8, i32)]] = &[&[(7, 4321), (8, 5), (8, 3), (7, 90)]];
    let swf = container(&tag(12, &action_stream(cells)));
    let (_mp3, chart) = parse_chart(swf);
    assert_eq!(chart.notes.len(), 1);
    assert_eq!(chart.notes[0].color, Color::Red);
    assert_eq!(chart.notes[0].direction, Direction::Down);
    assert_eq!(chart.notes[0].beat_position, 90);
    assert_eq!(chart.notes[0].timestamp, 4321);
}

#[test]
fn test_press_deterministic() {
    let cells: &[&[(u8, i32)]] = &[&[(8, 1), (7, 30)], &[(8, 4), (7, 60)]];
    let mut tags = tag(12, &action_stream(cells));
    tags.extend_from_slice(&tag(19, b"headmp3 frame"));
    let swf = container(&tags);
    let first = press_bytes(swf.clone()).expect("press should succeed");
    let second = press_bytes(swf).expect("press should succeed");
    assert_eq!(first.mp3(), second.mp3());
    assert_eq!(first.duration(), second.duration());
    let a = first.range(0, u32::MAX);
    let b = second.range(0, u32::MAX);
    assert_eq!(a, b);
}

#[test]
fn test_press_invalid_container() {
    // a buffer that is no compressed container fails the whole ingestion
    let r = press_bytes(vec![1, 2, 3, 4, 5, 6, 7, 8, 9]);
    assert!(matches!(r, Err(PressError::Format)));
}

#[test]
fn test_press_empty_chart() {
    // a valid container without chart data yields an empty-chart error
    let swf = container(&tag(19, b"soundonly"));
    let r = press_bytes(swf);
    assert!(matches!(r, Err(PressError::EmptyChart)));
}

#[test]
fn test_press_block_audio() {
    // streamed-audio blocks land in the record's audio buffer whole
    let cells: &[&[(u8, i32)]] = &[&[(8, 1), (7, 30)]];
    let mut tags = tag(12, &action_stream(cells));
    tags.extend_from_slice(&tag(19, b"blockbytes"));
    let swf = container(&tags);
    let record = press_bytes(swf).expect("press should succeed");
    assert_eq!(record.mp3().as_slice(), b"blockbytes");
}

#[test]
fn test_press_define_sound_skips_header() {
    // an audio-definition tag drops its seven-byte sound header
    let cells: &[&[(u8, i32)]] = &[&[(8, 1), (7, 30)]];
    let mut sound = Vec::new();
    sound.extend_from_slice(&1u16.to_le_bytes()); // sound id
    sound.push(0); // format
    sound.extend_from_slice(&0u32.to_le_bytes()); // sample count
    sound.extend_from_slice(b"mp3data");
    let mut tags = tag(14, &sound);
    tags.extend_from_slice(&tag(12, &action_stream(cells)));
    let swf = container(&tags);
    let record = press_bytes(swf).expect("press should succeed");
    assert_eq!(record.mp3().as_slice(), b"mp3data");
}

#[test]
fn test_press_compressed_container() {
    // the same chart pressed from a zlib-compressed container
    let cells: &[&[(u8, i32)]] = &[&[(8, 1), (7, 60)]];
    let tags = tag(12, &action_stream(cells));
    let plain = press_bytes(container(&tags)).expect("press should succeed");
    let packed = press_bytes(compressed_container(&tags)).expect("press should succeed");
    assert_eq!(plain.duration(), packed.duration());
    assert_eq!(plain.range(0, u32::MAX), packed.range(0, u32::MAX));
}

#[test]
fn test_press_unknown_tags_ignored() {
    // unrelated tags are skipped without affecting audio or chart
    let cells: &[&[(u8, i32)]] = &[&[(8, 1), (7, 30)]];
    let mut tags = tag(1, b""); // a show-frame tag
    tags.extend_from_slice(&tag(9, &[0, 0, 0])); // a background-colour tag
    tags.extend_from_slice(&tag(12, &action_stream(cells)));
    let swf = container(&tags);
    let record = press_bytes(swf).expect("press should succeed");
    assert_eq!(record.mp3().len(), 0);
    assert_eq!(record.range(0, u32::MAX).len(), 1);
}

#[test]
fn test_press_pool_without_marker() {
    // an action tag whose pool lacks the chart marker yields no chart
    let mut a = Vec::new();
    let mut pool = Vec::new();
    pool.extend_from_slice(&1u16.to_le_bytes());
    pool.extend_from_slice(b"other\0");
    a.push(0x88);
    a.extend_from_slice(&(pool.len() as u16).to_le_bytes());
    a.extend_from_slice(&pool);
    a.push(0x00);
    let swf = container(&tag(12, &a));
    let r = press_bytes(swf);
    assert!(matches!(r, Err(PressError::EmptyChart)));
}
