use vstd::prelude::*;

use crate::text::{decimal_digits, str_equal};

verus! {

/// Which side of the synchronisation protocol a device plays.
#[derive(Debug, Clone, Copy, PartialEq, Eq, Structural)]
pub enum SessionRole {
    Master,
    Slave,
}

impl SessionRole {
    pub open spec fn spec_opposite(self) -> SessionRole {
        match self {
            SessionRole::Master => SessionRole::Slave,
            SessionRole::Slave => SessionRole::Master,
        }
    }

    pub fn opposite(self) -> (other: SessionRole)
        ensures
            other == self.spec_opposite(),
            other != self,
    {
        match self {
            SessionRole::Master => SessionRole::Slave,
            SessionRole::Slave => SessionRole::Master,
        }
    }
}

/// Recording profile: resolution and frame rate chosen for a session.
#[derive(Debug, Clone, Copy, PartialEq, Eq, Structural)]
pub enum CaptureProfile {
    P1080p120,
    P4k60,
    P1080p60,
    P1080p30,
}

impl CaptureProfile {
    pub open spec fn spec_width(self) -> u32 {
        match self {
            CaptureProfile::P4k60 => 3840,
            _ => 1920,
        }
    }

    pub open spec fn spec_height(self) -> u32 {
        match self {
            CaptureProfile::P4k60 => 2160,
            _ => 1080,
        }
    }

    pub open spec fn spec_fps(self) -> u32 {
        match self {
            CaptureProfile::P1080p120 => 120,
            CaptureProfile::P4k60 => 60,
            CaptureProfile::P1080p60 => 60,
            CaptureProfile::P1080p30 => 30,
        }
    }

    /// The profile's name in the manifest and protocol vocabulary.
    pub open spec fn name(self) -> Seq<char> {
        match self {
            CaptureProfile::P1080p120 => "1080p120"@,
            CaptureProfile::P4k60 => "4K60"@,
            CaptureProfile::P1080p60 => "1080p60"@,
            CaptureProfile::P1080p30 => "1080p30"@,
        }
    }

    pub fn width(self) -> (w: u32)
        ensures
            w == self.spec_width(),
    {
        match self {
            CaptureProfile::P4k60 => 3840,
            _ => 1920,
        }
    }

    pub fn height(self) -> (h: u32)
        ensures
            h == self.spec_height(),
    {
        match self {
            CaptureProfile::P4k60 => 2160,
            _ => 1080,
        }
    }

    pub fn fps(self) -> (f: u32)
        ensures
            f == self.spec_fps(),
    {
        match self {
            CaptureProfile::P1080p120 => 120,
            CaptureProfile::P4k60 => 60,
            CaptureProfile::P1080p60 => 60,
            CaptureProfile::P1080p30 => 30,
        }
    }

    pub fn as_str(self) -> (s: &'static str)
        ensures
            s@ == self.name(),
    {
        match self {
            CaptureProfile::P1080p120 => "1080p120",
            CaptureProfile::P4k60 => "4K60",
            CaptureProfile::P1080p60 => "1080p60",
            CaptureProfile::P1080p30 => "1080p30",
        }
    }

    /// Parses a profile name; `None` for anything outside the vocabulary.
    pub fn from_str(value: &str) -> (parsed: Option<CaptureProfile>)
        ensures
            match parsed {
                Some(p) => p.name() == value@,
                None => forall|p: CaptureProfile| #[trigger] p.name() != value@,
            },
    {
        if str_equal(value, "1080p120") {
            Some(CaptureProfile::P1080p120)
        } else if str_equal(value, "4K60") {
            Some(CaptureProfile::P4k60)
        } else if str_equal(value, "1080p60") {
            Some(CaptureProfile::P1080p60)
        } else if str_equal(value, "1080p30") {
            Some(CaptureProfile::P1080p30)
        } else {
            proof {
                assert forall|p: CaptureProfile| #[trigger] p.name() != value@ by {
                    match p {
                        CaptureProfile::P1080p120 => {},
                        CaptureProfile::P4k60 => {},
                        CaptureProfile::P1080p60 => {},
                        CaptureProfile::P1080p30 => {},
                    }
                }
            }
            None
        }
    }
}

/// Distinct profiles carry distinct names.
pub proof fn lemma_profile_names_distinct(a: CaptureProfile, b: CaptureProfile)
    ensures
        a.name() == b.name() ==> a == b,
{
    reveal_strlit("1080p120");
    reveal_strlit("4K60");
    reveal_strlit("1080p60");
    reveal_strlit("1080p30");
    if a.name() == b.name() && a != b {
        assert(a.name().len() != b.name().len() || a.name()[0] != b.name()[0]
            || a.name()[5] != b.name()[5] || a.name()[6] != b.name()[6]);
    }
}

/// Reading back the name of a profile gives the same profile.
pub proof fn lemma_profile_name_round_trip(p: CaptureProfile, parsed: Option<CaptureProfile>)
    requires
        match parsed {
            Some(q) => q.name() == p.name(),
            None => forall|q: CaptureProfile| #[trigger] q.name() != p.name(),
        },
    ensures
        parsed == Some(p),
{
    match parsed {
        Some(q) => lemma_profile_names_distinct(p, q),
        None => {
            let n = p.name();
            assert(p.name() == n);
        },
    }
}

/// Taking the opposite role twice returns the same role.
pub proof fn lemma_role_opposite_involution(r: SessionRole)
    ensures
        r.spec_opposite().spec_opposite() == r,
        r.spec_opposite() != r,
{
}

/// A profile's geometry and frame rate are the ones its name announces:
/// every profile is 16:9; a "1080p" profile is named by its height, `p` and
/// its frame rate, and the 4K profile (3840 by 2160) by `4K` and its frame
/// rate.
pub proof fn lemma_geometry_matches_name(p: CaptureProfile)
    ensures
        p.spec_width() * 9 == p.spec_height() * 16,
        p != CaptureProfile::P4k60 ==> p.name() == decimal_digits(p.spec_height() as nat) + "p"@
            + decimal_digits(p.spec_fps() as nat),
        p == CaptureProfile::P4k60 ==> p.name() == "4K"@ + decimal_digits(p.spec_fps() as nat)
            && p.spec_width() == 3840 && p.spec_height() == 2160,
{
    reveal_strlit("1080p120");
    reveal_strlit("4K60");
    reveal_strlit("1080p60");
    reveal_strlit("1080p30");
    reveal_strlit("p");
    reveal_strlit("4K");
    reveal_with_fuel(decimal_digits, 5);
    assert(decimal_digits(1080) =~= seq!['1', '0', '8', '0']);
    assert(decimal_digits(120) =~= seq!['1', '2', '0']);
    assert(decimal_digits(60) =~= seq!['6', '0']);
    assert(decimal_digits(30) =~= seq!['3', '0']);
    match p {
        CaptureProfile::P1080p120 => {
            assert(p.name() =~= decimal_digits(1080) + "p"@ + decimal_digits(120));
        },
        CaptureProfile::P4k60 => {
            assert(p.name() =~= "4K"@ + decimal_digits(60));
        },
        CaptureProfile::P1080p60 => {
            assert(p.name() =~= decimal_digits(1080) + "p"@ + decimal_digits(60));
        },
        CaptureProfile::P1080p30 => {
            assert(p.name() =~= decimal_digits(1080) + "p"@ + decimal_digits(30));
        },
    }
}

} // verus!
