use mediaplan::calc::crf_from_quality;
use mediaplan::calc::loops_needed;
use mediaplan::plan::MediaError;
use mediaplan::transcode::build_loop_plan;

#[test]
fn loops_equal_duration_is_one() {
    assert_eq!(loops_needed(5000, 5000), 1);
    assert_eq!(loops_needed(1, 1), 1);
    assert_eq!(loops_needed(123456, 123456), 1);
}

#[test]
fn loops_equal_duration_is_rejected() {
    let r = build_loop_plan("a/b.mp4", "", 5000, 5000);
    match r {
        Err(MediaError::InvalidRequest(m)) => {
            assert_eq!(m, "Target duration must be longer than original");
        }
        _ => panic!("a no-op loop request must be rejected"),
    }
}

#[test]
fn loops_examples() {
    assert_eq!(loops_needed(10, 25), 3);
    assert_eq!(loops_needed(0, 25), 0);
}

#[test]
fn loops_edge_values() {
    assert_eq!(loops_needed(10, 0), 0);
    assert_eq!(loops_needed(10, 1), 1);
    assert_eq!(loops_needed(10, 11), 2);
    assert_eq!(loops_needed(10, 20), 2);
    assert_eq!(loops_needed(10, 21), 3);
    assert_eq!(loops_needed(1, u64::MAX), u64::MAX);
}

#[test]
fn crf_extremes() {
    assert_eq!(crf_from_quality(100), 0);
    assert_eq!(crf_from_quality(0), 51);
}

#[test]
fn crf_examples() {
    assert_eq!(crf_from_quality(50), 26);
    assert_eq!(crf_from_quality(99), 1);
    assert_eq!(crf_from_quality(1), 51);
}

#[test]
fn crf_monotone_spot_checks() {
    let mut prev = crf_from_quality(0);
    for q in 1..=100u32 {
        let c = crf_from_quality(q);
        assert!(c <= prev, "CRF must not increase with quality");
        prev = c;
    }
}

#[test]
fn zero_source_duration_is_rejected() {
    let r = build_loop_plan("a/b.mp4", "", 0, 25000);
    match r {
        Err(MediaError::InvalidRequest(m)) => {
            assert_eq!(m, "Invalid file duration");
        }
        _ => panic!("a zero source duration must be rejected"),
    }
}
