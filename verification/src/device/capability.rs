use vstd::prelude::*;

verus! {

/// Minimum number of (frame timestamp, delivery time) pairs needed to
/// estimate the offset between the two clock bases.
pub const MIN_TIMESTAMP_PAIRS: usize = 5;

/// Below this many frames per second recording is pointless.
pub const MIN_USABLE_FPS: u32 = 30;

/// Frames per second needed for the full tier.
pub const MIN_FULL_FPS: u32 = 60;

/// Clock base of the camera's frame timestamps.
#[derive(Debug, Clone, Copy, PartialEq, Eq, Structural)]
pub enum TimestampSource {
    /// Frame timestamps share the base of the monotonic clock.
    Realtime,
    /// Unknown base: the offset has to be estimated.
    Unknown,
}

/// What a device is good for.
#[derive(Debug, Clone, Copy, PartialEq, Eq, Structural)]
pub enum DeviceTier {
    /// Every gate passed; data also usable for stereo.
    Full,
    /// Records, with the shortcomings noted in the manifest.
    Limited,
    /// Below the threshold of usefulness.
    Rejected,
}

impl DeviceTier {
    pub open spec fn name(self) -> Seq<char> {
        match self {
            DeviceTier::Full => "full"@,
            DeviceTier::Limited => "limited"@,
            DeviceTier::Rejected => "rejected"@,
        }
    }

    pub fn as_str(self) -> (s: &'static str)
        ensures
            s@ == self.name(),
    {
        match self {
            DeviceTier::Full => "full",
            DeviceTier::Limited => "limited",
            DeviceTier::Rejected => "rejected",
        }
    }
}

/// The tier rule. Only what cannot be used at all is rejected: no exposure
/// lock whatsoever, or fewer than `MIN_USABLE_FPS` frames per second. `Full`
/// takes every gate: manual sensor control, a shortest exposure within the
/// usable maximum, focus lock, at least `MIN_FULL_FPS` frames per second and
/// realtime timestamps. Anything in between is `Limited`.
pub open spec fn spec_classify_device(
    manual_sensor: bool,
    exposure_lock: bool,
    focus_lock: bool,
    timestamp_source: TimestampSource,
    max_fps: u32,
    exposure_too_long: bool,
) -> DeviceTier {
    if !exposure_lock || max_fps < MIN_USABLE_FPS {
        DeviceTier::Rejected
    } else if manual_sensor && !exposure_too_long && focus_lock && max_fps >= MIN_FULL_FPS
        && timestamp_source == TimestampSource::Realtime {
        DeviceTier::Full
    } else {
        DeviceTier::Limited
    }
}

/// Assigns the tier of a probed device. `exposure_too_long` tells whether
/// the shortest exposure the sensor allows exceeds the usable maximum.
pub fn classify_device(
    manual_sensor: bool,
    exposure_lock: bool,
    focus_lock: bool,
    timestamp_source: TimestampSource,
    max_fps: u32,
    exposure_too_long: bool,
) -> (tier: DeviceTier)
    ensures
        tier == spec_classify_device(
            manual_sensor,
            exposure_lock,
            focus_lock,
            timestamp_source,
            max_fps,
            exposure_too_long,
        ),
{
    if !exposure_lock || max_fps < MIN_USABLE_FPS {
        DeviceTier::Rejected
    } else if manual_sensor && !exposure_too_long && focus_lock && max_fps >= MIN_FULL_FPS
        && timestamp_source == TimestampSource::Realtime {
        DeviceTier::Full
    } else {
        DeviceTier::Limited
    }
}

/// Losing the exposure lock, or falling under the usable frame rate, always
/// rejects; with both present a device is never rejected; a device passing
/// every gate is `Full`, and failing any gate of `Full` gives `Limited`.
pub proof fn lemma_tier_gates(
    manual_sensor: bool,
    focus_lock: bool,
    timestamp_source: TimestampSource,
    max_fps: u32,
    exposure_too_long: bool,
)
    ensures
        spec_classify_device(
            manual_sensor,
            false,
            focus_lock,
            timestamp_source,
            max_fps,
            exposure_too_long,
        ) == DeviceTier::Rejected,
        max_fps < MIN_USABLE_FPS ==> spec_classify_device(
            manual_sensor,
            true,
            focus_lock,
            timestamp_source,
            max_fps,
            exposure_too_long,
        ) == DeviceTier::Rejected,
        max_fps >= MIN_USABLE_FPS ==> spec_classify_device(
            manual_sensor,
            true,
            focus_lock,
            timestamp_source,
            max_fps,
            exposure_too_long,
        ) != DeviceTier::Rejected,
        spec_classify_device(
            manual_sensor,
            true,
            focus_lock,
            timestamp_source,
            max_fps,
            exposure_too_long,
        ) == DeviceTier::Full <==> (manual_sensor && focus_lock && !exposure_too_long && max_fps
            >= MIN_FULL_FPS && timestamp_source == TimestampSource::Realtime),
{
}

} // verus!
