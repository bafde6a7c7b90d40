use tracker_core::session::{
    check_manifest, CourtEnd, ManifestError, ManifestFacts, MatchSetup, SCHEMA_VERSION,
};

struct Segment {
    start: f64,
    end: f64,
}

/// The checked facts of a manifest recorded at `fps`, computed from its
/// times the way the recording application computes them.
fn facts(
    schema_version: u32,
    fps: u32,
    segments: &[Segment],
    first_frame: f64,
    matrix: Option<Vec<Vec<f64>>>,
    sync_numbers: [f64; 3],
) -> ManifestFacts {
    let tolerance = 1.0 / fps as f64;
    let mut starts = Vec::new();
    for (i, s) in segments.iter().enumerate() {
        starts.push(i == 0 || s.start - segments[i - 1].end <= tolerance);
    }
    let first_frame_in_first_segment = match segments.first() {
        Some(first) => !(first_frame < first.start - tolerance || first_frame > first.end),
        None => true,
    };
    ManifestFacts {
        schema_version,
        segment_starts_in_time: starts,
        first_frame_in_first_segment,
        intrinsic_row_lengths: matrix.map(|m| m.iter().map(|row| row.len()).collect()),
        sync_model_finite: sync_numbers.iter().all(|x| x.is_finite()),
    }
}

fn matrix() -> Option<Vec<Vec<f64>>> {
    Some(vec![
        vec![1580.0, 0.0, 960.0],
        vec![0.0, 1580.0, 540.0],
        vec![0.0, 0.0, 1.0],
    ])
}

fn sample_segments() -> Vec<Segment> {
    vec![Segment { start: 123456.789, end: 123756.789 }]
}

fn sample() -> ManifestFacts {
    facts(2, 120, &sample_segments(), 123456.789012, matrix(), [0.0142, 7.3, 0.9])
}

#[test]
fn validate_accepts_well_formed_manifest() {
    assert!(check_manifest(&sample(), &MatchSetup::default_singles()).is_ok());
}

#[test]
fn validate_rejects_wrong_schema_version() {
    let f = facts(1, 120, &sample_segments(), 123456.789012, matrix(), [0.0142, 7.3, 0.9]);
    assert_eq!(
        check_manifest(&f, &MatchSetup::default_singles()),
        Err(ManifestError::UnsupportedSchemaVersion { version: 1 })
    );
    assert_eq!(SCHEMA_VERSION, 2);
}

#[test]
fn validate_rejects_empty_segments() {
    let f = facts(2, 120, &[], 123456.789012, matrix(), [0.0142, 7.3, 0.9]);
    assert_eq!(check_manifest(&f, &MatchSetup::default_singles()), Err(ManifestError::NoSegments));
}

#[test]
fn validate_rejects_non_contiguous_segments() {
    let segments = vec![Segment { start: 100.0, end: 400.0 }, Segment { start: 420.0, end: 720.0 }];
    let f = facts(2, 120, &segments, 100.0, matrix(), [0.0142, 7.3, 0.9]);
    assert_eq!(
        check_manifest(&f, &MatchSetup::default_singles()),
        Err(ManifestError::SegmentsNotContiguous { index: 1 })
    );
}

#[test]
fn validate_accepts_segments_within_one_frame() {
    let segments = vec![
        Segment { start: 100.0, end: 400.0 },
        Segment { start: 400.0 + 1.0 / 240.0, end: 700.0 },
    ];
    let f = facts(2, 120, &segments, 100.0, matrix(), [0.0142, 7.3, 0.9]);
    assert!(check_manifest(&f, &MatchSetup::default_singles()).is_ok());
}

#[test]
fn validate_rejects_first_frame_outside_first_segment() {
    let f = facts(2, 120, &sample_segments(), 999999.0, matrix(), [0.0142, 7.3, 0.9]);
    assert_eq!(
        check_manifest(&f, &MatchSetup::default_singles()),
        Err(ManifestError::FirstFrameOutsideFirstSegment)
    );
}

#[test]
fn validate_rejects_malformed_intrinsics() {
    let f = facts(
        2,
        120,
        &sample_segments(),
        123456.789012,
        Some(vec![vec![1.0, 0.0], vec![0.0, 1.0]]),
        [0.0142, 7.3, 0.9],
    );
    assert_eq!(
        check_manifest(&f, &MatchSetup::default_singles()),
        Err(ManifestError::MalformedIntrinsicMatrix)
    );
}

#[test]
fn validate_accepts_absent_intrinsics() {
    let f = facts(2, 120, &sample_segments(), 123456.789012, None, [0.0142, 7.3, 0.9]);
    assert!(check_manifest(&f, &MatchSetup::default_singles()).is_ok());
}

#[test]
fn validate_rejects_non_finite_sync_model() {
    let f = facts(2, 120, &sample_segments(), 123456.789012, matrix(), [f64::NAN, 7.3, 0.9]);
    assert_eq!(
        check_manifest(&f, &MatchSetup::default_singles()),
        Err(ManifestError::NonFiniteSyncModel)
    );
}

#[test]
fn validate_rejects_invalid_match_setup() {
    let mut setup = MatchSetup::default_singles();
    setup.players[1].start_end = CourtEnd::North;
    assert_eq!(
        check_manifest(&sample(), &setup),
        Err(ManifestError::InvalidMatchSetup {
            reason: "both players on the same court end".into()
        })
    );
}

#[test]
fn first_failing_check_decides_the_error() {
    let segments = vec![
        Segment { start: 0.0, end: 10.0 },
        Segment { start: 10.0, end: 20.0 },
        Segment { start: 50.0, end: 60.0 },
        Segment { start: 90.0, end: 100.0 },
    ];
    let f = facts(2, 30, &segments, 999.0, Some(vec![vec![1.0]]), [f64::INFINITY, 0.0, 0.0]);
    assert_eq!(
        check_manifest(&f, &MatchSetup::default_singles()),
        Err(ManifestError::SegmentsNotContiguous { index: 2 })
    );
}

#[test]
fn matrix_with_a_short_row_is_malformed() {
    let f = facts(
        2,
        120,
        &sample_segments(),
        123456.789012,
        Some(vec![vec![1.0, 0.0, 0.0], vec![0.0, 1.0], vec![0.0, 0.0, 1.0]]),
        [0.0, 0.0, 0.0],
    );
    assert_eq!(
        check_manifest(&f, &MatchSetup::default_singles()),
        Err(ManifestError::MalformedIntrinsicMatrix)
    );
}

#[test]
fn wrong_player_count_reason_carries_the_count() {
    let mut setup = MatchSetup::default_singles();
    setup.players.clear();
    assert_eq!(
        check_manifest(&sample(), &setup),
        Err(ManifestError::InvalidMatchSetup { reason: "expected 2 players, got 0".into() })
    );
}
