use neon_ffmpeg::consts::NOPTS_VALUE;
use neon_ffmpeg::decode::video_frame_pts;
use neon_ffmpeg::pts::PtsCorrection;

fn fresh() -> PtsCorrection {
    PtsCorrection { num_faulty_pts: 0, num_faulty_dts: 0, last_pts: i64::MIN, last_dts: i64::MIN }
}

#[test]
fn present_pts_is_chosen_and_remembered() {
    let mut c = fresh();
    assert_eq!(c.guess_correct_pts(100, 90), 100);
    assert_eq!(c, PtsCorrection { num_faulty_pts: 0, num_faulty_dts: 0, last_pts: 100, last_dts: 90 });
}

#[test]
fn repeated_dts_counts_a_fault() {
    let mut c = fresh();
    c.guess_correct_pts(100, 90);
    assert_eq!(c.guess_correct_pts(110, 90), 110);
    assert_eq!(c.num_faulty_dts, 1);
    assert_eq!(c.num_faulty_pts, 0);
}

#[test]
fn going_back_in_pts_counts_a_fault() {
    let mut c = fresh();
    c.guess_correct_pts(100, 10);
    c.guess_correct_pts(50, 20);
    assert_eq!(c.num_faulty_pts, 1);
    assert_eq!(c.last_pts, 50);
}

#[test]
fn dts_chosen_when_pts_missing_and_pts_more_faulty() {
    let mut c = PtsCorrection { num_faulty_pts: 2, num_faulty_dts: 0, last_pts: 5, last_dts: 5 };
    assert_eq!(c.guess_correct_pts(NOPTS_VALUE, 10), 10);
    assert_eq!(c, PtsCorrection { num_faulty_pts: 2, num_faulty_dts: 0, last_pts: 10, last_dts: 10 });
}

#[test]
fn missing_pts_kept_when_dts_not_better() {
    let mut c = PtsCorrection { num_faulty_pts: 1, num_faulty_dts: 1, last_pts: 5, last_dts: 5 };
    assert_eq!(c.guess_correct_pts(NOPTS_VALUE, 10), NOPTS_VALUE);
}

#[test]
fn no_timestamps_change_nothing() {
    let start = PtsCorrection { num_faulty_pts: 3, num_faulty_dts: 4, last_pts: 7, last_dts: 8 };
    let mut c = start;
    assert_eq!(c.guess_correct_pts(NOPTS_VALUE, NOPTS_VALUE), NOPTS_VALUE);
    assert_eq!(c, start);
}

#[test]
fn missing_dts_takes_pts_as_last_dts() {
    let mut c = fresh();
    assert_eq!(c.guess_correct_pts(42, NOPTS_VALUE), 42);
    assert_eq!(c.last_dts, 42);
    assert_eq!(c.last_pts, 42);
}

#[test]
fn increasing_dts_never_faulty() {
    let mut c = fresh();
    for i in 1..20i64 {
        c.guess_correct_pts(i * 10, i * 10 - 5);
    }
    assert_eq!(c.num_faulty_dts, 0);
    assert_eq!(c.num_faulty_pts, 0);
}

#[test]
fn video_pts_uses_correction_only_with_dts() {
    let mut c = fresh();
    assert_eq!(video_frame_pts(&mut c, false, 100, 90), 0);
    assert_eq!(c, fresh());
    assert_eq!(video_frame_pts(&mut c, true, 100, 90), 100);
    assert_eq!(c.last_dts, 90);
}

#[test]
fn video_pts_missing_becomes_zero() {
    let mut c = fresh();
    assert_eq!(video_frame_pts(&mut c, true, NOPTS_VALUE, NOPTS_VALUE), 0);
}

#[test]
fn video_pts_near_missing_reads_as_missing() {
    assert_eq!((i64::MIN + 512) as f64, i64::MIN as f64);
    assert_ne!((i64::MIN + 513) as f64, i64::MIN as f64);
    let mut c = fresh();
    assert_eq!(video_frame_pts(&mut c, true, i64::MIN + 512, 7), 0);
    let mut c = fresh();
    assert_eq!(video_frame_pts(&mut c, true, i64::MIN + 513, 7), i64::MIN + 513);
}

#[test]
fn overflow_guard() {
    let c = PtsCorrection { num_faulty_pts: i64::MAX, num_faulty_dts: i64::MAX, last_pts: 10, last_dts: 10 };
    assert!(!c.can_correct(5, NOPTS_VALUE));
    assert!(!c.can_correct(NOPTS_VALUE, 5));
    assert!(c.can_correct(11, 11));
    assert!(c.can_correct(NOPTS_VALUE, NOPTS_VALUE));
}
