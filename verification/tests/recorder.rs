use tracker_core::session::{
    CaptureProfile, RecorderControl, RecorderError, RecorderState, SessionRole, StopReason, ThermalLevel, TickPlan,
};

const MINIMUM_FREE_BYTES: i64 = 500_000_000;
const SEGMENT_SECONDS: f64 = 300.0;
const PEER_SILENCE_TIMEOUT: f64 = 120.0;
const PLENTY: i64 = 64_000_000_000;

/// Drives the recorder the way the recording application does: it holds
/// the times and hands the control the comparisons it makes on them.
struct Harness {
    control: RecorderControl,
    segment_started: f64,
    last_heartbeat: Option<f64>,
    thermal: ThermalLevel,
    free_bytes: i64,
    rolls: u32,
    stopped_capture: bool,
    events: Vec<String>,
}

impl Harness {
    fn new(role: SessionRole) -> Self {
        Harness {
            control: RecorderControl::new(role, MINIMUM_FREE_BYTES),
            segment_started: 0.0,
            last_heartbeat: None,
            thermal: ThermalLevel::Nominal,
            free_bytes: PLENTY,
            rolls: 0,
            stopped_capture: false,
            events: Vec::new(),
        }
    }

    fn arm(&mut self, lock: Result<(), String>) -> Result<(), RecorderError> {
        self.control.check_arm(self.free_bytes)?;
        self.control.complete_arm(lock)
    }

    fn start(&mut self, now: f64) -> Result<(), RecorderError> {
        self.control.check_start()?;
        self.control.complete_start("s-1", CaptureProfile::P1080p120, Ok(()))?;
        self.segment_started = now;
        Ok(())
    }

    fn tick(&mut self, now: f64) -> TickPlan {
        let peer_silent = self.last_heartbeat.is_some_and(|l| now - l > PEER_SILENCE_TIMEOUT);
        let segment_due = now - self.segment_started >= SEGMENT_SECONDS;
        let plan = self.control.tick(self.thermal, self.free_bytes, peer_silent, segment_due);
        if let Some(level) = plan.thermal_event {
            self.events.push(format!("thermal:{}", level.as_str()));
        }
        if let Some(reason) = plan.stop {
            self.stopped_capture = true;
            self.events.push(format!("session-stopped:{}", reason.as_str()));
        }
        if plan.roll_segment {
            self.rolls += 1;
            self.segment_started = now;
        }
        plan
    }
}

fn started(role: SessionRole, now: f64) -> Harness {
    let mut h = Harness::new(role);
    h.arm(Ok(())).unwrap();
    h.start(now).unwrap();
    h
}

#[test]
fn starts_idle() {
    assert_eq!(Harness::new(SessionRole::Master).control.state(), RecorderState::Idle);
}

#[test]
fn arm_locks_camera_settings() {
    let mut h = Harness::new(SessionRole::Master);
    h.arm(Ok(())).unwrap();
    assert_eq!(h.control.state(), RecorderState::Armed);
}

#[test]
fn start_requires_armed_state() {
    let mut h = Harness::new(SessionRole::Master);
    assert!(h.start(1000.0).is_err());
}

#[test]
fn lock_failure_leaves_recorder_idle() {
    let mut h = Harness::new(SessionRole::Master);
    assert_eq!(
        h.arm(Err("camera error: lock failed".into())),
        Err(RecorderError::Capture { reason: "camera error: lock failed".into() })
    );
    assert_eq!(h.control.state(), RecorderState::Idle);
}

#[test]
fn start_moves_to_recording() {
    let h = started(SessionRole::Master, 1000.0);
    assert_eq!(h.control.state(), RecorderState::Recording);
}

#[test]
fn segment_rolls_after_configured_duration() {
    let mut h = started(SessionRole::Master, 1000.0);

    h.tick(1200.0);
    assert_eq!(h.rolls, 0);

    h.tick(1300.1);
    assert_eq!(h.rolls, 1);

    h.tick(1600.2);
    assert_eq!(h.rolls, 2);
}

#[test]
fn critical_thermal_stops_session() {
    let mut h = started(SessionRole::Master, 1000.0);

    h.thermal = ThermalLevel::Serious;
    h.tick(1010.0);
    assert_eq!(h.control.state(), RecorderState::Recording);

    h.thermal = ThermalLevel::Critical;
    h.tick(1020.0);
    assert_eq!(h.control.state(), RecorderState::Stopped { reason: StopReason::ThermalCritical });
    assert!(h.stopped_capture);
}

#[test]
fn serious_thermal_is_recorded_as_event() {
    let mut h = started(SessionRole::Master, 1000.0);
    h.thermal = ThermalLevel::Serious;
    h.tick(1010.0);
    assert!(h.events.iter().any(|e| e == "thermal:serious"));
}

#[test]
fn low_storage_stops_session() {
    let mut h = started(SessionRole::Master, 1000.0);
    h.free_bytes = 100_000_000;
    h.tick(1010.0);
    assert_eq!(h.control.state(), RecorderState::Stopped { reason: StopReason::StorageExhausted });
}

#[test]
fn arm_rejects_insufficient_storage() {
    let mut h = Harness::new(SessionRole::Master);
    h.free_bytes = 10_000_000;
    assert_eq!(h.arm(Ok(())), Err(RecorderError::InsufficientStorage));
}

#[test]
fn slave_stops_after_peer_silence_timeout() {
    let mut h = started(SessionRole::Slave, 1000.0);

    h.last_heartbeat = Some(1050.0);
    h.tick(1150.0);
    assert_eq!(h.control.state(), RecorderState::Recording);

    h.tick(1180.0);
    assert_eq!(h.control.state(), RecorderState::Stopped { reason: StopReason::PeerSilence });
}

#[test]
fn master_ignores_peer_silence() {
    let mut h = started(SessionRole::Master, 1000.0);
    h.last_heartbeat = Some(1000.0);
    h.tick(2000.0);
    assert_eq!(h.control.state(), RecorderState::Recording);
}

#[test]
fn link_loss_does_not_stop_recording() {
    let mut h = started(SessionRole::Master, 1000.0);
    h.events.push("link-lost".into());
    h.tick(1110.0);
    assert_eq!(h.control.state(), RecorderState::Recording);
}

#[test]
fn stop_is_idempotent_after_automatic_stop() {
    let mut h = started(SessionRole::Master, 1000.0);
    h.thermal = ThermalLevel::Critical;
    h.tick(1010.0);

    assert_eq!(h.control.stop(), Ok(false));
    assert_eq!(h.control.stop(), Ok(false));
    assert_eq!(h.rolls, 0);
    assert_eq!(h.control.state(), RecorderState::Stopped { reason: StopReason::ThermalCritical });
}

#[test]
fn user_stop_while_recording_asks_to_close_the_capture() {
    let mut h = started(SessionRole::Master, 1000.0);
    assert_eq!(h.control.stop(), Ok(true));
    assert_eq!(h.control.state(), RecorderState::Stopped { reason: StopReason::UserRequested });
}

#[test]
fn stop_before_recording_is_wrong_state() {
    let mut h = Harness::new(SessionRole::Master);
    assert_eq!(h.control.stop(), Err(RecorderError::WrongState));
    h.arm(Ok(())).unwrap();
    assert_eq!(h.control.stop(), Err(RecorderError::WrongState));
    assert_eq!(h.control.state(), RecorderState::Armed);
}

#[test]
fn arming_twice_is_wrong_state() {
    let mut h = Harness::new(SessionRole::Master);
    h.arm(Ok(())).unwrap();
    assert_eq!(h.arm(Ok(())), Err(RecorderError::WrongState));
}

#[test]
fn ticks_outside_recording_do_nothing() {
    let mut h = Harness::new(SessionRole::Slave);
    h.thermal = ThermalLevel::Critical;
    let plan = h.tick(5000.0);
    assert_eq!(plan, TickPlan { thermal_event: None, stop: None, roll_segment: false });
    assert_eq!(h.control.state(), RecorderState::Idle);
}

#[test]
fn heat_takes_precedence_over_storage_and_silence() {
    let mut h = started(SessionRole::Slave, 1000.0);
    h.thermal = ThermalLevel::Critical;
    h.free_bytes = 0;
    h.last_heartbeat = Some(0.0);
    let plan = h.tick(1400.0);
    assert_eq!(plan.stop, Some(StopReason::ThermalCritical));
    assert!(!plan.roll_segment);
    assert_eq!(plan.thermal_event, Some(ThermalLevel::Critical));
}

#[test]
fn unchanged_thermal_level_is_not_reported_again() {
    let mut h = started(SessionRole::Master, 1000.0);
    h.thermal = ThermalLevel::Fair;
    assert_eq!(h.tick(1001.0).thermal_event, Some(ThermalLevel::Fair));
    assert_eq!(h.tick(1002.0).thermal_event, None);
}

#[test]
fn stop_reason_strings() {
    assert_eq!(StopReason::UserRequested.as_str(), "user-requested");
    assert_eq!(StopReason::StorageExhausted.as_str(), "storage-exhausted");
    assert_eq!(StopReason::ThermalCritical.as_str(), "thermal-critical");
    assert_eq!(StopReason::PeerSilence.as_str(), "peer-silence");
    assert_eq!(ThermalLevel::Nominal.as_str(), "nominal");
    assert_eq!(ThermalLevel::Fair.as_str(), "fair");
    assert_eq!(ThermalLevel::Serious.as_str(), "serious");
    assert_eq!(ThermalLevel::Critical.as_str(), "critical");
}

#[test]
fn camera_start_failure_keeps_the_recorder_armed() {
    let mut h = Harness::new(SessionRole::Master);
    h.arm(Ok(())).unwrap();
    assert_eq!(
        h.control.complete_start("s-1", CaptureProfile::P4k60, Err("camera unavailable".into())),
        Err(RecorderError::Capture { reason: "camera unavailable".into() })
    );
    assert_eq!(h.control.state(), RecorderState::Armed);
}

#[test]
fn session_is_known_only_after_a_successful_start() {
    let mut h = Harness::new(SessionRole::Master);
    assert_eq!(h.control.session(), Err(RecorderError::NotStarted));
    h.arm(Ok(())).unwrap();
    let _ = h.control.complete_start("s-1", CaptureProfile::P4k60, Err("no camera".into()));
    assert_eq!(h.control.session(), Err(RecorderError::NotStarted));
    h.control.complete_start("s-2", CaptureProfile::P1080p60, Ok(())).unwrap();
    assert_eq!(h.control.session(), Ok(("s-2".to_string(), CaptureProfile::P1080p60)));
}
