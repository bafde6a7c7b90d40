use vstd::prelude::*;

verus! {

/// Thermal pressure reported by the platform, in increasing severity.
#[derive(Debug, Clone, Copy, PartialEq, Eq, PartialOrd, Ord, Structural)]
pub enum ThermalLevel {
    Nominal,
    Fair,
    Serious,
    Critical,
}

impl ThermalLevel {
    pub open spec fn name(self) -> Seq<char> {
        match self {
            ThermalLevel::Nominal => "nominal"@,
            ThermalLevel::Fair => "fair"@,
            ThermalLevel::Serious => "serious"@,
            ThermalLevel::Critical => "critical"@,
        }
    }

    pub fn as_str(self) -> (s: &'static str)
        ensures
            s@ == self.name(),
    {
        match self {
            ThermalLevel::Nominal => "nominal",
            ThermalLevel::Fair => "fair",
            ThermalLevel::Serious => "serious",
            ThermalLevel::Critical => "critical",
        }
    }
}

/// Failures of the camera port.
#[derive(Debug, Clone, PartialEq)]
pub enum CaptureError {
    NoCamera,
    ProfileUnavailable { profile: String },
    NotRecording,
    Other { reason: String },
}

/// Free storage, as the platform reports it.
pub trait StorageProbing {
    fn free_bytes(&self) -> i64;
}

/// Thermal state, as the platform reports it.
pub trait ThermalProbing {
    fn thermal_level(&self) -> ThermalLevel;
}

} // verus!
