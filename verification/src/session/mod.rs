mod manifest;
mod match_setup;
mod ports;
mod profile;
mod recorder;

pub use manifest::{
    check_manifest, is_first_gap, lemma_recording_check_outcomes, matrix_is_3x3, spec_check_recording, AudioInfo, DeviceInfo,
    ManifestError, ManifestFacts, Platform, SCHEMA_VERSION,
};
pub use match_setup::{
    end_after_games, lemma_court_end_opposite_involution, lemma_ends_repeat_every_four_games,
    lemma_names_do_not_affect_validation, lemma_player_found_iff_some_player_has_id,
    lemma_validation_decides_by_players, lemma_players_always_face_each_other, CourtEnd, MatchFormat, MatchSetup, MatchSetupError,
    Player,
};
pub use ports::{CaptureError, StorageProbing, ThermalLevel, ThermalProbing};
pub use profile::{
    lemma_geometry_matches_name, lemma_profile_name_round_trip, lemma_profile_names_distinct, lemma_role_opposite_involution,
    CaptureProfile, SessionRole,
};
pub use recorder::{
    lemma_tick_outcomes, lemma_tick_stops_only_for_listed_reasons, spec_tick_plan, RecorderControl, RecorderError,
    RecorderState, StopReason, TickPlan,
};
