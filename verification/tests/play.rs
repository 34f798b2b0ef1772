//! The play session: ticks, inputs, the miss sweep and the counters.

use rrr::chart::RuntimeChart;
use rrr::note::{Color, RuntimeNote};
use rrr::play::Play;
use rrr::record::Record;
use rrr::turntable::{Turntable, ViewError};
use rrr::types::Direction;

fn note(beat: u32, ts: u32, dir: Direction) -> RuntimeNote {
    RuntimeNote { beat_position: beat, color: Color::Blue, direction: dir, timestamp: ts }
}

fn session(notes: Vec<RuntimeNote>) -> Play<rrr::play::Active> {
    let chart = RuntimeChart::new(notes);
    let record = Record::new(Vec::new(), chart).expect("chart is not empty");
    let turntable = Turntable::load(record);
    Play::new(turntable).start()
}

#[test]
fn test_record_rejects_empty_chart() {
    let chart = RuntimeChart::new(Vec::new());
    assert!(Record::new(Vec::new(), chart).is_err());
}

#[test]
fn test_record_duration_is_last_timestamp() {
    // notes arrive unsorted; the duration is the largest timestamp
    let notes = vec![
        note(2, 4000, Direction::Left),
        note(1, 1000, Direction::Down),
        note(3, 2500, Direction::Up),
    ];
    let chart = RuntimeChart::new(notes);
    let record = Record::new(Vec::new(), chart).unwrap();
    assert_eq!(record.duration(), 4000);
}

#[test]
fn test_turntable_states_and_clock() {
    let notes = vec![note(1, 1000, Direction::Left)];
    let record = Record::new(Vec::new(), RuntimeChart::new(notes)).unwrap();
    let loaded = Turntable::load(record);
    let mut playing = loaded.play();
    assert_eq!(playing.progress(), 0);
    assert!(!playing.is_finished());
    playing.tick(999);
    assert!(!playing.is_finished());
    playing.tick(1000);
    assert!(playing.is_finished());
    let _loaded_again = playing.stop();
}

#[test]
fn test_turntable_view_window() {
    let notes = vec![
        note(1, 100, Direction::Left),
        note(2, 500, Direction::Down),
        note(3, 900, Direction::Up),
    ];
    let record = Record::new(Vec::new(), RuntimeChart::new(notes)).unwrap();
    let mut playing = Turntable::load(record).play();
    playing.tick(500);
    // the window floor stops at zero
    let view = playing.view(600, 100).unwrap();
    assert_eq!(view.len(), 2);
    assert_eq!(view[0].0, 100);
    assert_eq!(view[1].0, 500);
}

#[test]
fn test_turntable_view_overflow() {
    let notes = vec![note(1, 1000, Direction::Left)];
    let record = Record::new(Vec::new(), RuntimeChart::new(notes)).unwrap();
    let mut playing = Turntable::load(record).play();
    playing.tick(u32::MAX);
    let r = playing.view(0, 1);
    assert_eq!(r, Err(ViewError::RangeOverflow));
}

#[test]
fn test_check_miss_counts_once() {
    // a note 300 ms behind the clock is missed exactly once
    let progress = 2000;
    let mut play = session(vec![note(1, progress - 300, Direction::Left)]);
    play.tick(progress);
    assert_eq!(play.judgement_results().misses, 1);
    assert_eq!(play.missed_notes().len(), 1);
    // the sweep at the same progress never re-counts
    play.check_miss();
    assert_eq!(play.judgement_results().misses, 1);
    play.tick(progress);
    assert_eq!(play.judgement_results().misses, 1);
    assert_eq!(play.missed_notes().len(), 1);
}

#[test]
fn test_check_miss_spares_near_notes() {
    // a note only 100 ms behind the clock is not missed yet
    let mut play = session(vec![note(1, 1900, Direction::Left)]);
    play.tick(2000);
    assert_eq!(play.judgement_results().misses, 0);
}

#[test]
fn test_do_action_without_candidate_boos() {
    // no unjudged note of the direction in the window: one boo, nothing else
    let mut play = session(vec![note(1, 1000, Direction::Left)]);
    play.tick(1000);
    play.do_action(&Direction::Right, 1000, 0);
    let report = play.judgement_results();
    assert_eq!(report.boos, 1);
    assert_eq!(report.amazings, 0);
    assert_eq!(report.perfects, 0);
    assert_eq!(report.goods, 0);
    assert_eq!(report.averages, 0);
    assert_eq!(report.misses, 0);
    assert_eq!(play.actions().len(), 0);
}

#[test]
fn test_do_action_judges_exact_window() {
    let mut play = session(vec![note(1, 1000, Direction::Left)]);
    play.tick(1000);
    // delta 17 against the note: a perfect
    play.do_action(&Direction::Left, 1017, 0);
    assert_eq!(play.judgement_results().perfects, 1);
    assert_eq!(play.judgement_results().boos, 0);
    assert_eq!(play.actions().len(), 1);
    assert_eq!(play.judgements().len(), 1);
}

#[test]
fn test_do_action_never_judges_twice() {
    let mut play = session(vec![note(1, 1000, Direction::Left)]);
    play.tick(1000);
    play.do_action(&Direction::Left, 1017, 0);
    assert_eq!(play.judgement_results().perfects, 1);
    // the note is recorded; a second input finds no candidate
    play.do_action(&Direction::Left, 1017, 0);
    assert_eq!(play.judgement_results().perfects, 1);
    assert_eq!(play.judgement_results().boos, 1);
}

#[test]
fn test_do_action_off_window_boos() {
    let mut play = session(vec![note(1, 1000, Direction::Left)]);
    play.tick(1000);
    // delta 20 falls in no window: a boo, and the note stays unjudged
    play.do_action(&Direction::Left, 1020, 0);
    assert_eq!(play.judgement_results().boos, 1);
    assert_eq!(play.actions().len(), 0);
}

#[test]
fn test_do_action_picks_first_in_range_order() {
    // two candidates: the earlier one in range order is judged, even though
    // the later one is temporally closer to the hit
    let mut play = session(vec![
        note(1, 950, Direction::Left),
        note(2, 1000, Direction::Left),
    ]);
    play.tick(1000);
    play.do_action(&Direction::Left, 1000, 0);
    // delta against the first note is 50: a good; the closer note is spared
    assert_eq!(play.judgement_results().goods, 1);
    assert_eq!(play.judgement_results().perfects, 0);
}

#[test]
fn test_judged_note_never_missed() {
    let mut play = session(vec![note(1, 1000, Direction::Left)]);
    play.tick(1000);
    play.do_action(&Direction::Left, 1017, 0);
    assert_eq!(play.judgement_results().perfects, 1);
    // the clock passes far beyond the note: no miss for a judged note
    play.tick(2000);
    assert_eq!(play.judgement_results().misses, 0);
}

#[test]
fn test_session_states_round_trip() {
    let play = session(vec![note(1, 1000, Direction::Left)]);
    let concluded = play.finish();
    assert_eq!(concluded.actions().len(), 0);
    let ready = concluded.finalize();
    let mut active = ready.start();
    active.tick(10);
    assert_eq!(active.progress(), 10);
    let _ready_again = active.stop();
}
