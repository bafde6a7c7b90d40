use vstd::prelude::*;

use super::match_setup::MatchSetup;

verus! {

/// The manifest schema version this crate writes and accepts.
pub const SCHEMA_VERSION: u32 = 2;

/// Platform of the recording device.
#[derive(Debug, Clone, Copy, PartialEq, Eq, Structural)]
pub enum Platform {
    Ios,
    Android,
}

/// Identity of the recording device.
#[derive(Debug, Clone, PartialEq)]
pub struct DeviceInfo {
    pub model: String,
    pub os_version: String,
    pub app_version: String,
}

/// Audio track parameters.
#[derive(Debug, Clone, PartialEq)]
pub struct AudioInfo {
    pub sample_rate_hz: u32,
    pub channels: u32,
    pub codec: String,
}

/// Why a manifest was rejected or could not be (de)serialised.
#[derive(Debug, Clone, PartialEq)]
pub enum ManifestError {
    UnsupportedSchemaVersion { version: u32 },
    NoSegments,
    SegmentsNotContiguous { index: u32 },
    FirstFrameOutsideFirstSegment,
    MalformedIntrinsicMatrix,
    NonFiniteSyncModel,
    InvalidMatchSetup { reason: String },
    Serialization { reason: String },
}

/// What the manifest check reads of a manifest. The time comparisons are
/// made by the caller, who holds the times: `segment_starts_in_time[i]`
/// (for `i >= 1`) tells whether segment `i` starts at most one frame after
/// segment `i - 1` ends, with one entry per segment; `first_frame_in_first_segment`
/// whether the first frame lies in the first segment, allowing one frame
/// before its start; `intrinsic_row_lengths` the length of each row of the
/// intrinsic matrix, if there is one; `sync_model_finite` whether every
/// number of the synchronisation model is finite.
pub struct ManifestFacts {
    pub schema_version: u32,
    pub segment_starts_in_time: Vec<bool>,
    pub first_frame_in_first_segment: bool,
    pub intrinsic_row_lengths: Option<Vec<usize>>,
    pub sync_model_finite: bool,
}

/// `index` is the first segment that does not join its predecessor.
pub open spec fn is_first_gap(starts_in_time: Seq<bool>, index: int) -> bool {
    &&& 1 <= index < starts_in_time.len()
    &&& !starts_in_time[index]
    &&& forall|j: int| 1 <= j < index ==> #[trigger] starts_in_time[j]
}

/// An intrinsic matrix must be 3 x 3.
pub open spec fn matrix_is_3x3(rows: Seq<usize>) -> bool {
    rows.len() == 3 && forall|i: int| 0 <= i < rows.len() ==> #[trigger] rows[i] == 3
}

/// The outcome of the checks on the manifest's own data, in order: schema
/// version, at least one segment, contiguous segments, first frame inside
/// the first segment, a 3 x 3 intrinsic matrix when present, a finite
/// synchronisation model. The match setup is checked after these.
pub open spec fn spec_check_recording(facts: ManifestFacts) -> Result<(), ManifestError> {
    let starts = facts.segment_starts_in_time@;
    if facts.schema_version != SCHEMA_VERSION {
        Err(ManifestError::UnsupportedSchemaVersion { version: facts.schema_version })
    } else if starts.len() == 0 {
        Err(ManifestError::NoSegments)
    } else if exists|i: int| is_first_gap(starts, i) {
        Err(
            ManifestError::SegmentsNotContiguous {
                index: (choose|i: int| is_first_gap(starts, i)) as u32,
            },
        )
    } else if !facts.first_frame_in_first_segment {
        Err(ManifestError::FirstFrameOutsideFirstSegment)
    } else if facts.intrinsic_row_lengths matches Some(rows) && !matrix_is_3x3(rows@) {
        Err(ManifestError::MalformedIntrinsicMatrix)
    } else if !facts.sync_model_finite {
        Err(ManifestError::NonFiniteSyncModel)
    } else {
        Ok(())
    }
}

proof fn lemma_first_gap_unique(starts: Seq<bool>, i: int, k: int)
    requires
        is_first_gap(starts, i),
        is_first_gap(starts, k),
    ensures
        i == k,
{
    if i < k {
        assert(starts[i]);
    } else if k < i {
        assert(starts[k]);
    }
}

/// Checks a manifest: first its own data as `spec_check_recording`
/// describes, then its match setup, whose error's message becomes the
/// reason of `InvalidMatchSetup`.
pub fn check_manifest(facts: &ManifestFacts, setup: &MatchSetup) -> (outcome: Result<
    (),
    ManifestError,
>)
    ensures
        spec_check_recording(*facts) is Err ==> outcome == spec_check_recording(*facts),
        spec_check_recording(*facts) is Ok ==> match setup.spec_validate() {
            Ok(()) => outcome is Ok,
            Err(e) => outcome matches Err(ManifestError::InvalidMatchSetup { reason })
                && reason@ == e.spec_message(),
        },
{
    if facts.schema_version != SCHEMA_VERSION {
        return Err(ManifestError::UnsupportedSchemaVersion { version: facts.schema_version });
    }
    let starts = &facts.segment_starts_in_time;
    if starts.len() == 0 {
        return Err(ManifestError::NoSegments);
    }
    let mut index: usize = 1;
    while index < starts.len()
        invariant
            facts.schema_version == SCHEMA_VERSION,
            starts@ == facts.segment_starts_in_time@,
            1 <= index <= starts@.len(),
            forall|j: int| 1 <= j < index ==> #[trigger] starts@[j],
        decreases starts@.len() - index,
    {
        if !starts[index] {
            proof {
                assert(is_first_gap(starts@, index as int));
                let k = choose|k: int| is_first_gap(starts@, k);
                lemma_first_gap_unique(starts@, index as int, k);
            }
            return Err(ManifestError::SegmentsNotContiguous { index: index as u32 });
        }
        index = index + 1;
    }
    assert(!exists|i: int| is_first_gap(starts@, i));
    if !facts.first_frame_in_first_segment {
        return Err(ManifestError::FirstFrameOutsideFirstSegment);
    }
    if let Some(rows) = &facts.intrinsic_row_lengths {
        let mut well_formed = rows.len() == 3;
        let mut r: usize = 0;
        while r < rows.len()
            invariant
                r <= rows@.len(),
                well_formed == (rows@.len() == 3 && forall|i: int|
                    0 <= i < r ==> #[trigger] rows@[i] == 3),
            decreases rows@.len() - r,
        {
            if rows[r] != 3 {
                well_formed = false;
            }
            r = r + 1;
        }
        if !well_formed {
            return Err(ManifestError::MalformedIntrinsicMatrix);
        }
    }
    if !facts.sync_model_finite {
        return Err(ManifestError::NonFiniteSyncModel);
    }
    match setup.validate() {
        Ok(()) => Ok(()),
        Err(error) => Err(ManifestError::InvalidMatchSetup { reason: error.message() }),
    }
}

/// What the checks on a manifest's own data decide, stated over the facts
/// themselves: the first failing condition, in the order schema version,
/// segments present, segments contiguous (the first late segment's index is
/// reported), first frame inside the first segment, intrinsic matrix (when
/// present) of three rows of three, finite synchronisation model. Each
/// condition is checked whatever the others hold, and a manifest passing all
/// of them is accepted.
pub proof fn lemma_recording_check_outcomes(facts: ManifestFacts)
    ensures
        ({
            let starts = facts.segment_starts_in_time@;
            let outcome = spec_check_recording(facts);
            let schema_ok = facts.schema_version == 2;
            let present = starts.len() > 0;
            let contiguous = forall|i: int| 1 <= i < starts.len() ==> #[trigger] starts[i];
            let matrix_ok = match facts.intrinsic_row_lengths {
                None => true,
                Some(rows) => rows@.len() == 3 && forall|r: int|
                    0 <= r < rows@.len() ==> #[trigger] rows@[r] == 3,
            };
            &&& !schema_ok ==> outcome == Err::<(), ManifestError>(
                ManifestError::UnsupportedSchemaVersion { version: facts.schema_version },
            )
            &&& schema_ok && !present ==> outcome == Err::<(), ManifestError>(
                ManifestError::NoSegments,
            )
            &&& forall|i: int|
                schema_ok && 1 <= i < starts.len() && !#[trigger] starts[i] && (forall|j: int|
                    1 <= j < i ==> starts[j]) ==> outcome == Err::<(), ManifestError>(
                    ManifestError::SegmentsNotContiguous { index: i as u32 },
                )
            &&& schema_ok && present && contiguous && !facts.first_frame_in_first_segment
                ==> outcome == Err::<(), ManifestError>(
                ManifestError::FirstFrameOutsideFirstSegment,
            )
            &&& schema_ok && present && contiguous && facts.first_frame_in_first_segment
                && !matrix_ok ==> outcome == Err::<(), ManifestError>(
                ManifestError::MalformedIntrinsicMatrix,
            )
            &&& schema_ok && present && contiguous && facts.first_frame_in_first_segment
                && matrix_ok && !facts.sync_model_finite ==> outcome == Err::<(), ManifestError>(
                ManifestError::NonFiniteSyncModel,
            )
            &&& schema_ok && present && contiguous && facts.first_frame_in_first_segment
                && matrix_ok && facts.sync_model_finite ==> outcome is Ok
        }),
{
    let starts = facts.segment_starts_in_time@;
    assert forall|i: int|
        facts.schema_version == 2 && 1 <= i < starts.len() && !#[trigger] starts[i] && (forall|
            j: int,
        | 1 <= j < i ==> starts[j]) implies spec_check_recording(facts) == Err::<
        (),
        ManifestError,
    >(ManifestError::SegmentsNotContiguous { index: i as u32 }) by {
        assert(is_first_gap(starts, i));
        let k = choose|k: int| is_first_gap(starts, k);
        lemma_first_gap_unique(starts, i, k);
    }
    if forall|i: int| 1 <= i < starts.len() ==> #[trigger] starts[i] {
        assert forall|k: int| !is_first_gap(starts, k) by {
            if 1 <= k < starts.len() {
                assert(starts[k]);
            }
        }
    }
}

} // verus!
