//! The timing-window classification and the judgement report.

use rrr::judge::{judge_hit, saturating_plus, Judge, JudgeWindow, JudgementReport};
use rrr::note::{Color, RuntimeNote};
use rrr::types::Direction;

fn note_at(ts: u32) -> RuntimeNote {
    RuntimeNote {
        beat_position: 0,
        color: Color::Blue,
        direction: Direction::Left,
        timestamp: ts,
    }
}

#[test]
fn test_judge_exact_boundaries() {
    // the eight exact boundary deltas, around a note at 1000 ms
    let cases: [(i32, i8); 8] = [
        (-118, -118),
        (-85, -85),
        (-51, -51),
        (-18, -18),
        (17, 17),
        (50, 50),
        (84, 84),
        (117, 117),
    ];
    for (delta, window) in cases {
        let hit = (1000 + delta) as u32;
        assert_eq!(judge_hit(hit, 1000), Some(JudgeWindow(window)));
    }
}

#[test]
fn test_judge_rejects_everything_else() {
    for delta in -130i32..130i32 {
        let named = matches!(delta, -118 | -85 | -51 | -18 | 17 | 50 | 84 | 117);
        let hit = (1000 + delta) as u32;
        assert_eq!(judge_hit(hit, 1000).is_some(), named, "delta {delta}");
    }
    assert_eq!(judge_hit(0, 1000), None);
    assert_eq!(judge_hit(100000, 1000), None);
}

#[test]
fn test_judge_method_matches_free_function() {
    let judge = Judge::new();
    let note = note_at(500);
    assert_eq!(judge.judge(517, &note), Some(JudgeWindow(17)));
    assert_eq!(judge.judge(500, &note), None);
}

#[test]
fn test_report_counts_each_window_once() {
    let mut report = JudgementReport::new();
    report.count_window(JudgeWindow(-18));
    report.count_window(JudgeWindow(-51));
    report.count_window(JudgeWindow(17));
    report.count_window(JudgeWindow(-85));
    report.count_window(JudgeWindow(50));
    report.count_window(JudgeWindow(84));
    report.count_window(JudgeWindow(-118));
    report.count_window(JudgeWindow(117));
    assert_eq!(report.amazings, 1);
    assert_eq!(report.perfects, 2);
    assert_eq!(report.goods, 3);
    assert_eq!(report.averages, 2);
    assert_eq!(report.misses, 0);
    assert_eq!(report.boos, 0);
}

#[test]
fn test_report_boos_and_misses() {
    let mut report = JudgementReport::new();
    report.count_boo();
    report.count_boo();
    report.count_misses(3);
    assert_eq!(report.boos, 2);
    assert_eq!(report.misses, 3);
    assert_eq!(report.amazings, 0);
}

#[test]
fn test_saturating_plus_sticks_at_top() {
    assert_eq!(saturating_plus(1, 2), 3);
    assert_eq!(saturating_plus(usize::MAX, 1), usize::MAX);
    assert_eq!(saturating_plus(usize::MAX - 1, 5), usize::MAX);
}

#[test]
fn test_judgement_records_notes() {
    let mut judge = Judge::new();
    let note = note_at(1000);
    assert!(!judge.judgements.contains_key(&note));
    judge.judgements.record(note, JudgeWindow(17));
    assert!(judge.judgements.contains_key(&note));
    assert_eq!(judge.judgements.len(), 1);
}
