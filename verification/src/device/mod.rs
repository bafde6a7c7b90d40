mod capability;

pub use capability::{
    classify_device, lemma_tier_gates, spec_classify_device, DeviceTier, TimestampSource,
    MIN_FULL_FPS, MIN_TIMESTAMP_PAIRS, MIN_USABLE_FPS,
};
