use vstd::prelude::*;
use vstd::string::StringExecFns;

verus! {

/// The vessel's eight damageable subsystems, the closed universe of keys
/// of the damage ledger.  The abort/resign command the driver also knows
/// is no subsystem and never enters damage or repair.
#[derive(PartialEq, Eq, Structural, Clone, Copy, Debug, Hash)]
pub enum Subsystem {
    ShortRangeScan,
    WarpEngines,
    ShieldControl,
    DamageControl,
    LongRangeScan,
    Computer,
    Phasers,
    Torpedoes,
}

/// The subsystem at a registry position, the inverse of `index_spec`.
pub open spec fn subsystem_of(i: int) -> Subsystem {
    if i == 0 {
        Subsystem::ShortRangeScan
    } else if i == 1 {
        Subsystem::WarpEngines
    } else if i == 2 {
        Subsystem::ShieldControl
    } else if i == 3 {
        Subsystem::DamageControl
    } else if i == 4 {
        Subsystem::LongRangeScan
    } else if i == 5 {
        Subsystem::Computer
    } else if i == 6 {
        Subsystem::Phasers
    } else {
        Subsystem::Torpedoes
    }
}

impl Subsystem {
    /// Position of this subsystem in the fixed registry order.
    pub open spec fn index_spec(self) -> int {
        match self {
            Subsystem::ShortRangeScan => 0,
            Subsystem::WarpEngines => 1,
            Subsystem::ShieldControl => 2,
            Subsystem::DamageControl => 3,
            Subsystem::LongRangeScan => 4,
            Subsystem::Computer => 5,
            Subsystem::Phasers => 6,
            Subsystem::Torpedoes => 7,
        }
    }

    pub fn index(&self) -> (r: usize)
        ensures
            r == self.index_spec(),
            r < 8,
    {
        match self {
            Subsystem::ShortRangeScan => 0,
            Subsystem::WarpEngines => 1,
            Subsystem::ShieldControl => 2,
            Subsystem::DamageControl => 3,
            Subsystem::LongRangeScan => 4,
            Subsystem::Computer => 5,
            Subsystem::Phasers => 6,
            Subsystem::Torpedoes => 7,
        }
    }

    /// The subsystem at a registry position; the random damage path picks
    /// one of the eight this way.
    pub fn from_index(i: usize) -> (r: Subsystem)
        requires
            i < 8,
        ensures
            r.index_spec() == i,
            r == subsystem_of(i as int),
    {
        match i {
            0 => Subsystem::ShortRangeScan,
            1 => Subsystem::WarpEngines,
            2 => Subsystem::ShieldControl,
            3 => Subsystem::DamageControl,
            4 => Subsystem::LongRangeScan,
            5 => Subsystem::Computer,
            6 => Subsystem::Phasers,
            _ => Subsystem::Torpedoes,
        }
    }
}

/// Canonical display name of each subsystem.
pub open spec fn name_for_spec(key: Subsystem) -> Seq<char> {
    match key {
        Subsystem::ShortRangeScan => "Short Range Scanners"@,
        Subsystem::WarpEngines => "Warp Engines"@,
        Subsystem::ShieldControl => "Shield Control"@,
        Subsystem::DamageControl => "Damage Control"@,
        Subsystem::LongRangeScan => "Long Range Scanners"@,
        Subsystem::Computer => "Library-Computer"@,
        Subsystem::Phasers => "Phaser Control"@,
        Subsystem::Torpedoes => "Photon Tubes"@,
    }
}

/// The canonical human-readable name of a subsystem.
pub fn name_for(key: Subsystem) -> (r: String)
    ensures
        r@ == name_for_spec(key),
{
    match key {
        Subsystem::ShortRangeScan => String::from_str("Short Range Scanners"),
        Subsystem::WarpEngines => String::from_str("Warp Engines"),
        Subsystem::ShieldControl => String::from_str("Shield Control"),
        Subsystem::DamageControl => String::from_str("Damage Control"),
        Subsystem::LongRangeScan => String::from_str("Long Range Scanners"),
        Subsystem::Computer => String::from_str("Library-Computer"),
        Subsystem::Phasers => String::from_str("Phaser Control"),
        Subsystem::Torpedoes => String::from_str("Photon Tubes"),
    }
}

} // verus!
