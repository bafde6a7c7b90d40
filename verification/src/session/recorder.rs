use vstd::prelude::*;

use vstd::string::*;

use super::ports::ThermalLevel;
use super::profile::{CaptureProfile, SessionRole};

verus! {

/// Why a recording session ended.
#[derive(Debug, Clone, Copy, PartialEq, Eq, Structural)]
pub enum StopReason {
    UserRequested,
    StorageExhausted,
    ThermalCritical,
    PeerSilence,
}

impl StopReason {
    pub open spec fn name(self) -> Seq<char> {
        match self {
            StopReason::UserRequested => "user-requested"@,
            StopReason::StorageExhausted => "storage-exhausted"@,
            StopReason::ThermalCritical => "thermal-critical"@,
            StopReason::PeerSilence => "peer-silence"@,
        }
    }

    pub fn as_str(self) -> (s: &'static str)
        ensures
            s@ == self.name(),
    {
        match self {
            StopReason::UserRequested => "user-requested",
            StopReason::StorageExhausted => "storage-exhausted",
            StopReason::ThermalCritical => "thermal-critical",
            StopReason::PeerSilence => "peer-silence",
        }
    }
}

/// Lifecycle of a recording session.
#[derive(Debug, Clone, Copy, PartialEq, Eq, Structural)]
pub enum RecorderState {
    Idle,
    Armed,
    Recording,
    Finalizing,
    Stopped { reason: StopReason },
}

/// Failures of recorder operations.
#[derive(Debug, Clone, PartialEq)]
pub enum RecorderError {
    WrongState,
    InsufficientStorage,
    NotStarted,
    Capture { reason: String },
    Manifest { reason: String },
}

/// What a periodic tick asks the caller to do.
#[derive(Debug, Clone, Copy, PartialEq, Eq, Structural)]
pub struct TickPlan {
    /// A new thermal level to record as a `thermal` event.
    pub thermal_event: Option<ThermalLevel>,
    /// The session ended for this reason: close the capture and record a
    /// `session-stopped` event.
    pub stop: Option<StopReason>,
    /// The current segment is due to be rolled over.
    pub roll_segment: bool,
}

/// The decision of one tick while recording, from the observed thermal
/// level, free storage, whether the peer has been silent for longer than
/// the timeout, and whether the current segment has lasted its configured
/// length. Critical heat stops first, then exhausted storage, then (on the
/// slave only) peer silence; a segment is rolled only when nothing stops.
pub open spec fn spec_tick_plan(
    role: SessionRole,
    minimum_free_bytes: i64,
    last_thermal: ThermalLevel,
    level: ThermalLevel,
    free_bytes: i64,
    peer_silent: bool,
    segment_due: bool,
) -> TickPlan {
    let thermal_event = if level != last_thermal {
        Some(level)
    } else {
        None
    };
    let stop = if level == ThermalLevel::Critical {
        Some(StopReason::ThermalCritical)
    } else if free_bytes < minimum_free_bytes {
        Some(StopReason::StorageExhausted)
    } else if role == SessionRole::Slave && peer_silent {
        Some(StopReason::PeerSilence)
    } else {
        None
    };
    TickPlan { thermal_event, stop, roll_segment: stop is None && segment_due }
}

/// The state machine of a recording session: arming, starting, periodic
/// ticks and stopping. It never reads a clock and never touches the camera:
/// the caller performs the camera and storage work and reports outcomes.
///
/// Loss of the link never stops a recording: no transition depends on it.
pub struct RecorderControl {
    role: SessionRole,
    minimum_free_bytes: i64,
    state: RecorderState,
    last_thermal: ThermalLevel,
    session_id: Option<String>,
    profile: Option<CaptureProfile>,
}

impl RecorderControl {
    /// Identifier and profile of the started session, once started.
    pub closed spec fn spec_session(&self) -> Option<(Seq<char>, CaptureProfile)> {
        match (self.session_id, self.profile) {
            (Some(id), Some(p)) => Some((id@, p)),
            _ => None,
        }
    }

    pub closed spec fn spec_role(&self) -> SessionRole {
        self.role
    }

    pub closed spec fn spec_minimum_free_bytes(&self) -> i64 {
        self.minimum_free_bytes
    }

    pub closed spec fn spec_state(&self) -> RecorderState {
        self.state
    }

    pub closed spec fn spec_last_thermal(&self) -> ThermalLevel {
        self.last_thermal
    }

    pub fn new(role: SessionRole, minimum_free_bytes: i64) -> (control: RecorderControl)
        ensures
            control.spec_role() == role,
            control.spec_minimum_free_bytes() == minimum_free_bytes,
            control.spec_state() == RecorderState::Idle,
            control.spec_last_thermal() == ThermalLevel::Nominal,
            control.spec_session() is None,
    {
        RecorderControl {
            role,
            minimum_free_bytes,
            state: RecorderState::Idle,
            last_thermal: ThermalLevel::Nominal,
            session_id: None,
            profile: None,
        }
    }

    /// Identifier and profile of the started session; `NotStarted` before
    /// a successful start.
    pub fn session(&self) -> (session: Result<(String, CaptureProfile), RecorderError>)
        ensures
            match self.spec_session() {
                Some((id, profile)) => session matches Ok((s, p)) && s@ == id && p == profile,
                None => session == Err::<(String, CaptureProfile), RecorderError>(
                    RecorderError::NotStarted,
                ),
            },
    {
        match (&self.session_id, self.profile) {
            (Some(id), Some(profile)) => Ok((id.clone(), profile)),
            _ => Err(RecorderError::NotStarted),
        }
    }

    pub fn state(&self) -> (s: RecorderState)
        ensures
            s == self.spec_state(),
    {
        self.state
    }

    pub fn role(&self) -> (r: SessionRole)
        ensures
            r == self.spec_role(),
    {
        self.role
    }

    /// Whether arming may proceed to locking the camera: only from `Idle`,
    /// and only with at least the minimum free storage.
    pub fn check_arm(&self, free_bytes: i64) -> (outcome: Result<(), RecorderError>)
        ensures
            self.spec_state() != RecorderState::Idle ==> outcome == Err::<(), RecorderError>(
                RecorderError::WrongState,
            ),
            self.spec_state() == RecorderState::Idle && free_bytes < self.spec_minimum_free_bytes()
                ==> outcome == Err::<(), RecorderError>(RecorderError::InsufficientStorage),
            self.spec_state() == RecorderState::Idle && free_bytes
                >= self.spec_minimum_free_bytes() ==> outcome is Ok,
    {
        if self.state != RecorderState::Idle {
            return Err(RecorderError::WrongState);
        }
        if free_bytes < self.minimum_free_bytes {
            return Err(RecorderError::InsufficientStorage);
        }
        Ok(())
    }

    /// Completes arming with the outcome of locking the camera settings
    /// (`Err` carries the camera's message). A failed lock leaves the
    /// recorder idle.
    pub fn complete_arm(&mut self, lock: Result<(), String>) -> (outcome: Result<(), RecorderError>)
        ensures
            final(self).spec_role() == old(self).spec_role(),
            final(self).spec_minimum_free_bytes() == old(self).spec_minimum_free_bytes(),
            final(self).spec_last_thermal() == old(self).spec_last_thermal(),
            final(self).spec_session() == old(self).spec_session(),
            old(self).spec_state() != RecorderState::Idle ==> {
                &&& outcome == Err::<(), RecorderError>(RecorderError::WrongState)
                &&& final(self).spec_state() == old(self).spec_state()
            },
            old(self).spec_state() == RecorderState::Idle ==> match lock {
                Ok(()) => outcome is Ok && final(self).spec_state() == RecorderState::Armed,
                Err(reason) => outcome == Err::<(), RecorderError>(
                    RecorderError::Capture { reason },
                ) && final(self).spec_state() == RecorderState::Idle,
            },
    {
        if self.state != RecorderState::Idle {
            return Err(RecorderError::WrongState);
        }
        match lock {
            Ok(()) => {
                self.state = RecorderState::Armed;
                Ok(())
            },
            Err(reason) => Err(RecorderError::Capture { reason }),
        }
    }

    /// Whether starting may proceed to starting the camera: only when armed.
    pub fn check_start(&self) -> (outcome: Result<(), RecorderError>)
        ensures
            self.spec_state() == RecorderState::Armed ==> outcome is Ok,
            self.spec_state() != RecorderState::Armed ==> outcome == Err::<(), RecorderError>(
                RecorderError::WrongState,
            ),
    {
        if self.state != RecorderState::Armed {
            return Err(RecorderError::WrongState);
        }
        Ok(())
    }

    /// Completes starting session `session_id` with `profile`, given the
    /// outcome of starting the camera. On success the session's identifier
    /// and profile are kept for the manifest.
    pub fn complete_start(
        &mut self,
        session_id: &str,
        profile: CaptureProfile,
        started: Result<(), String>,
    ) -> (outcome: Result<(), RecorderError>)
        ensures
            final(self).spec_role() == old(self).spec_role(),
            final(self).spec_minimum_free_bytes() == old(self).spec_minimum_free_bytes(),
            final(self).spec_last_thermal() == old(self).spec_last_thermal(),
            old(self).spec_state() != RecorderState::Armed ==> {
                &&& outcome == Err::<(), RecorderError>(RecorderError::WrongState)
                &&& final(self).spec_state() == old(self).spec_state()
                &&& final(self).spec_session() == old(self).spec_session()
            },
            old(self).spec_state() == RecorderState::Armed ==> match started {
                Ok(()) => {
                    &&& outcome is Ok
                    &&& final(self).spec_state() == RecorderState::Recording
                    &&& final(self).spec_session() == Some((session_id@, profile))
                },
                Err(reason) => {
                    &&& outcome == Err::<(), RecorderError>(RecorderError::Capture { reason })
                    &&& final(self).spec_state() == RecorderState::Armed
                    &&& final(self).spec_session() == old(self).spec_session()
                },
            },
    {
        if self.state != RecorderState::Armed {
            return Err(RecorderError::WrongState);
        }
        match started {
            Ok(()) => {
                self.session_id = Some(String::from_str(session_id));
                self.profile = Some(profile);
                self.state = RecorderState::Recording;
                Ok(())
            },
            Err(reason) => Err(RecorderError::Capture { reason }),
        }
    }

    /// One periodic tick. Outside `Recording` nothing happens. While
    /// recording, a changed thermal level is remembered and reported, and
    /// the session stops or rolls its segment as `spec_tick_plan` decides.
    pub fn tick(&mut self, level: ThermalLevel, free_bytes: i64, peer_silent: bool, segment_due: bool) -> (plan: TickPlan)
        ensures
            final(self).spec_role() == old(self).spec_role(),
            final(self).spec_minimum_free_bytes() == old(self).spec_minimum_free_bytes(),
            final(self).spec_session() == old(self).spec_session(),
            old(self).spec_state() != RecorderState::Recording ==> {
                &&& plan == TickPlan { thermal_event: None, stop: None, roll_segment: false }
                &&& final(self).spec_state() == old(self).spec_state()
                &&& final(self).spec_last_thermal() == old(self).spec_last_thermal()
            },
            old(self).spec_state() == RecorderState::Recording ==> {
                &&& plan == spec_tick_plan(
                    old(self).spec_role(),
                    old(self).spec_minimum_free_bytes(),
                    old(self).spec_last_thermal(),
                    level,
                    free_bytes,
                    peer_silent,
                    segment_due,
                )
                &&& final(self).spec_last_thermal() == level
                &&& final(self).spec_state() == match plan.stop {
                    Some(reason) => RecorderState::Stopped { reason },
                    None => RecorderState::Recording,
                }
            },
    {
        if self.state != RecorderState::Recording {
            return TickPlan { thermal_event: None, stop: None, roll_segment: false };
        }
        let thermal_event = if level != self.last_thermal {
            Some(level)
        } else {
            None
        };
        self.last_thermal = level;
        let stop = if level == ThermalLevel::Critical {
            Some(StopReason::ThermalCritical)
        } else if free_bytes < self.minimum_free_bytes {
            Some(StopReason::StorageExhausted)
        } else if self.role == SessionRole::Slave && peer_silent {
            Some(StopReason::PeerSilence)
        } else {
            None
        };
        if let Some(reason) = stop {
            self.state = RecorderState::Stopped { reason };
        }
        TickPlan { thermal_event, stop, roll_segment: stop.is_none() && segment_due }
    }

    /// A stop requested by the user. While recording the session stops
    /// with `UserRequested` and `Ok(true)` asks the caller to close the
    /// capture; a session that already stopped by itself gives `Ok(false)`
    /// and must not be touched again; any other state is `WrongState`.
    pub fn stop(&mut self) -> (outcome: Result<bool, RecorderError>)
        ensures
            final(self).spec_role() == old(self).spec_role(),
            final(self).spec_minimum_free_bytes() == old(self).spec_minimum_free_bytes(),
            final(self).spec_last_thermal() == old(self).spec_last_thermal(),
            final(self).spec_session() == old(self).spec_session(),
            match old(self).spec_state() {
                RecorderState::Recording => outcome == Ok::<bool, RecorderError>(true)
                    && final(self).spec_state() == (RecorderState::Stopped {
                    reason: StopReason::UserRequested,
                }),
                RecorderState::Stopped { .. } => outcome == Ok::<bool, RecorderError>(false)
                    && final(self).spec_state() == old(self).spec_state(),
                _ => outcome == Err::<bool, RecorderError>(RecorderError::WrongState)
                    && final(self).spec_state() == old(self).spec_state(),
            },
    {
        match self.state {
            RecorderState::Recording => {
                self.state = RecorderState::Stopped { reason: StopReason::UserRequested };
                Ok(true)
            },
            RecorderState::Stopped { .. } => Ok(false),
            _ => Err(RecorderError::WrongState),
        }
    }
}

/// A tick stops a recording only for critical heat, exhausted storage, or
/// peer silence on the slave; a master never stops for peer silence.
pub proof fn lemma_tick_stops_only_for_listed_reasons(
    role: SessionRole,
    minimum_free_bytes: i64,
    last_thermal: ThermalLevel,
    level: ThermalLevel,
    free_bytes: i64,
    peer_silent: bool,
    segment_due: bool,
)
    ensures
        ({
            let plan = spec_tick_plan(
                role,
                minimum_free_bytes,
                last_thermal,
                level,
                free_bytes,
                peer_silent,
                segment_due,
            );
            &&& plan.stop == Some(StopReason::ThermalCritical) <==> level == ThermalLevel::Critical
            &&& plan.stop == Some(StopReason::StorageExhausted) ==> free_bytes < minimum_free_bytes
            &&& plan.stop == Some(StopReason::PeerSilence) ==> role == SessionRole::Slave
                && peer_silent
            &&& plan.stop != Some(StopReason::UserRequested)
            &&& role == SessionRole::Master ==> plan.stop != Some(StopReason::PeerSilence)
            &&& (level != ThermalLevel::Critical && free_bytes >= minimum_free_bytes && (role
                == SessionRole::Master || !peer_silent)) ==> plan.stop is None
            &&& plan.roll_segment ==> plan.stop is None
        }),
{
}

/// Each outcome of a tick while recording, for either role: critical heat
/// stops the session; otherwise exhausted storage stops it, on the master
/// and on the slave alike; otherwise peer silence stops the slave (never the
/// master); otherwise nothing stops and the segment rolls exactly when it is
/// due. A thermal event is reported exactly when the level changed, and it
/// reports the new level.
pub proof fn lemma_tick_outcomes(
    role: SessionRole,
    minimum_free_bytes: i64,
    last_thermal: ThermalLevel,
    level: ThermalLevel,
    free_bytes: i64,
    peer_silent: bool,
    segment_due: bool,
)
    ensures
        ({
            let plan = spec_tick_plan(
                role,
                minimum_free_bytes,
                last_thermal,
                level,
                free_bytes,
                peer_silent,
                segment_due,
            );
            let hot = level == ThermalLevel::Critical;
            let starved = free_bytes < minimum_free_bytes;
            let abandoned = role == SessionRole::Slave && peer_silent;
            &&& hot ==> plan.stop == Some(StopReason::ThermalCritical)
            &&& !hot && starved ==> plan.stop == Some(StopReason::StorageExhausted)
            &&& !hot && !starved && abandoned ==> plan.stop == Some(StopReason::PeerSilence)
            &&& !hot && !starved && !abandoned ==> plan.stop is None
            &&& plan.roll_segment <==> (!hot && !starved && !abandoned && segment_due)
            &&& level != last_thermal ==> plan.thermal_event == Some(level)
            &&& level == last_thermal ==> plan.thermal_event is None
        }),
{
}

} // verus!
