use vstd::prelude::*;

use crate::pos::Pos;
use crate::rng::GameRng;
use crate::subsystems::Subsystem;
use crate::subsystems::subsystem_of;

verus! {

pub const MAX_PHOTON_TORPEDOES: u8 = 28;

pub const MAX_ENERGY: u16 = 3000;

/// Severity threshold (in thousandths) at or above which a repaired
/// subsystem counts as fully mended and leaves the ledger.
pub const REPAIR_DONE_MILLI: i64 = -100;

/// Headroom (in thousandths) that one hit can at most add to a severity:
/// the damage ratio of a 16-bit hit against shields of at least 1, plus
/// the largest extra-severity draw.
pub const MAX_SINGLE_DAMAGE_MILLI: i64 = 66_000_000;

/// The vessel's damage ledger: one slot per subsystem, in registry order.
/// A present entry is a severity in thousandths, never positive; no entry
/// means the subsystem is fully functional.
pub struct DamageLedger {
    pub slots: Vec<Option<i64>>,
}

/// A present ledger entry after further damage: the severity drops by
/// `amount`; an absent entry starts at `-amount`.
pub open spec fn damaged_entry_after(entry: Option<int>, amount: int) -> int {
    match entry {
        Some(v) => v - amount,
        None => -amount,
    }
}

/// Ledger transition of `damage_system`: the chosen slot drops by
/// `amount`, every other slot keeps its value.
pub open spec fn damage_applied(
    pre: DamageLedger,
    post: DamageLedger,
    system: Subsystem,
    amount: int,
) -> bool {
    &&& post.entry_spec(system) == Some(damaged_entry_after(pre.entry_spec(system), amount))
    &&& forall|s: Subsystem| s != system ==> post.entry_spec(s) == pre.entry_spec(s)
}

/// Ledger transition of `repair_system`: the present entry rises by
/// `amount` and leaves the ledger when that brings it to the mended
/// threshold; `fully` reports which of the two happened.
pub open spec fn repair_applied(
    pre: DamageLedger,
    post: DamageLedger,
    system: Subsystem,
    amount: int,
    fully: bool,
) -> bool {
    &&& fully == (pre.entry_spec(system)->Some_0 + amount >= REPAIR_DONE_MILLI)
    &&& if fully {
        post.entry_spec(system) is None
    } else {
        post.entry_spec(system) == Some(pre.entry_spec(system)->Some_0 + amount)
    }
    &&& forall|s: Subsystem| s != system ==> post.entry_spec(s) == pre.entry_spec(s)
}

impl DamageLedger {
    /// One slot per subsystem, and severities never positive.
    pub open spec fn wf(self) -> bool {
        &&& self.slots@.len() == 8
        &&& forall|i: int|
            0 <= i < 8 ==> (#[trigger] self.slots@[i] matches Some(v) ==> v <= 0)
    }

    /// The severity entry of one subsystem.
    pub open spec fn entry_spec(self, s: Subsystem) -> Option<int> {
        match self.slots@[s.index_spec()] {
            Some(v) => Some(v as int),
            None => None,
        }
    }

    /// No headroom is left out of the machine range: every severity is far
    /// enough from the integer floor to take one more hit.
    pub open spec fn has_headroom(self) -> bool {
        forall|s: Subsystem|
            #[trigger] self.entry_spec(s) matches Some(v) ==> v - MAX_SINGLE_DAMAGE_MILLI
                >= i64::MIN
    }

    /// A fully functional ledger: no entry at all.
    pub open spec fn all_functional(self) -> bool {
        forall|s: Subsystem| #[trigger] self.entry_spec(s) is None
    }

    pub fn new() -> (r: DamageLedger)
        ensures
            r.wf(),
            r.all_functional(),
    {
        let slots: Vec<Option<i64>> = vec![None, None, None, None, None, None, None, None];
        let r = DamageLedger { slots };
        proof {
            assert forall|s: Subsystem| #[trigger] r.entry_spec(s) is None by {
                assert(0 <= s.index_spec() < 8);
            }
        }
        r
    }

    /// The severity entry of one subsystem, for the driver's damage
    /// report.
    pub fn get(&self, s: Subsystem) -> (r: Option<i64>)
        requires
            self.wf(),
        ensures
            r matches Some(v) ==> self.entry_spec(s) == Some(v as int),
            r is None ==> self.entry_spec(s) is None,
    {
        self.slots[s.index()]
    }

    /// Whether a subsystem is currently damaged.
    pub fn is_damaged(&self, s: Subsystem) -> (r: bool)
        requires
            self.wf(),
        ensures
            r == (self.entry_spec(s) is Some),
    {
        self.slots[s.index()].is_some()
    }
}

/// The ledger outcome of one run of the random subsystem-damage path,
/// with the three draws named: `r1` admits or skips the path (in
/// thousandths), `si` picks the subsystem, `r2` adds extra severity (in
/// thousandths of half a unit's worth).  No damage occurs when `r1`
/// exceeds 0.6 or the hit was below 2% of the remaining shields.
pub open spec fn damage_roll_witness(
    pre: DamageLedger,
    post: DamageLedger,
    hit: int,
    shields: int,
    r1: int,
    si: int,
    r2: int,
) -> bool {
    &&& 0 <= r1 < 1000
    &&& 0 <= si < 8
    &&& 0 <= r2 < 500
    &&& if r1 > 600 || hit * 1000 / shields < 20 {
        post == pre
    } else {
        damage_applied(pre, post, subsystem_of(si), hit * 1000 / shields + r2)
    }
}

/// Relates the ledger before and after the random subsystem-damage path:
/// some admissible triple of draws explains the outcome.
pub open spec fn damage_roll_rel(
    pre: DamageLedger,
    post: DamageLedger,
    hit: int,
    shields: int,
) -> bool {
    exists|r1: int, si: int, r2: int| #[trigger] damage_roll_witness(
        pre,
        post,
        hit,
        shields,
        r1,
        si,
        r2,
    )
}

/// The player-controlled vessel: a one-way state machine from active to
/// destroyed, with energy, shields, torpedoes and the damage ledger.
pub struct Enterprise {
    pub destroyed: bool,
    pub damaged: DamageLedger,
    pub quadrant: Pos,
    pub sector: Pos,
    pub photon_torpedoes: u8,
    pub total_energy: u16,
    pub shields: u16,
}

/// Relates the vessel before and after `take_hit` with the given hit
/// strength.  A destroyed vessel ignores the hit; shields at or below the
/// hit end the vessel; otherwise the shields absorb the hit, and a hit of
/// 20 or more also runs the random subsystem-damage path.
pub open spec fn hit_outcome(pre: Enterprise, post: Enterprise, hit: int) -> bool {
    if pre.destroyed {
        post == pre
    } else if pre.shields <= hit {
        post == (Enterprise { destroyed: true, ..pre })
    } else {
        &&& post.destroyed == false
        &&& post.shields == pre.shields - hit
        &&& post.quadrant == pre.quadrant
        &&& post.sector == pre.sector
        &&& post.photon_torpedoes == pre.photon_torpedoes
        &&& post.total_energy == pre.total_energy
        &&& if hit < 20 {
            post.damaged == pre.damaged
        } else {
            damage_roll_rel(pre.damaged, post.damaged, hit, pre.shields - hit)
        }
    }
}

impl Enterprise {
    /// The stranded condition: energy all but gone, or shields demand more
    /// than the energy left while shield control is damaged.
    pub open spec fn stranded_spec(self) -> bool {
        self.total_energy < 10 || (self.shields + 10 > self.total_energy
            && self.damaged.entry_spec(Subsystem::ShieldControl) is Some)
    }

    /// Subtracts `amount` (thousandths) from the ledger entry for
    /// `system`, creating the entry at `-amount` if absent.
    pub fn damage_system(&mut self, system: Subsystem, amount: i64)
        requires
            old(self).damaged.wf(),
            0 <= amount,
            old(self).damaged.entry_spec(system) matches Some(v) ==> v - amount >= i64::MIN,
        ensures
            final(self).damaged.wf(),
            damage_applied(old(self).damaged, final(self).damaged, system, amount as int),
            final(self).destroyed == old(self).destroyed,
            final(self).quadrant == old(self).quadrant,
            final(self).sector == old(self).sector,
            final(self).photon_torpedoes == old(self).photon_torpedoes,
            final(self).total_energy == old(self).total_energy,
            final(self).shields == old(self).shields,
    {
        let i: usize = system.index();
        let newv: i64 = match self.damaged.slots[i] {
            Some(v) => v - amount,
            None => 0 - amount,
        };
        let slot = &mut self.damaged.slots[i];
        *slot = Some(newv);
        proof {
            assert(forall|s: Subsystem|
                s != system ==> s.index_spec() != system.index_spec());
        }
    }

    /// Adds `amount` (thousandths, positive) to the present ledger entry
    /// for `system`; at severity -0.1 or better the entry is removed and
    /// the call reports fully repaired.  Repairing a subsystem that is not
    /// in the ledger is a caller error, excluded by precondition.
    pub fn repair_system(&mut self, system: Subsystem, amount: i64) -> (fully: bool)
        requires
            old(self).damaged.wf(),
            0 <= amount,
            old(self).damaged.entry_spec(system) is Some,
        ensures
            final(self).damaged.wf(),
            repair_applied(old(self).damaged, final(self).damaged, system, amount as int, fully),
            final(self).destroyed == old(self).destroyed,
            final(self).quadrant == old(self).quadrant,
            final(self).sector == old(self).sector,
            final(self).photon_torpedoes == old(self).photon_torpedoes,
            final(self).total_energy == old(self).total_energy,
            final(self).shields == old(self).shields,
    {
        let i: usize = system.index();
        let existing: i64 = match self.damaged.slots[i] {
            Some(v) => v,
            None => 0,
        };
        proof {
            assert(forall|s: Subsystem|
                s != system ==> s.index_spec() != system.index_spec());
        }
        if existing + amount >= REPAIR_DONE_MILLI {
            let slot = &mut self.damaged.slots[i];
            *slot = None;
            true
        } else {
            let slot = &mut self.damaged.slots[i];
            *slot = Some(existing + amount);
            false
        }
    }

    /// Whether the vessel is stranded: total energy below 10, or shields
    /// plus 10 exceeding total energy while shield control is damaged.
    pub fn is_stranded(&self) -> (r: bool)
        requires
            self.damaged.wf(),
        ensures
            r == self.stranded_spec(),
    {
        if self.total_energy < 10 {
            return true;
        }
        if (self.shields as u32) + 10 > (self.total_energy as u32)
            && self.damaged.is_damaged(Subsystem::ShieldControl) {
            return true;
        }
        false
    }

    /// Resolves an incoming hit from `sector` with the given strength: a
    /// no-op once destroyed; destruction when the shields are at or below
    /// the hit; otherwise the shields absorb it, and a hit of 20 or more
    /// may damage a random subsystem.
    pub fn take_hit(&mut self, sector: Pos, hit_strength: u16, rng: &mut GameRng)
        requires
            old(self).damaged.wf(),
            old(self).damaged.has_headroom(),
        ensures
            final(self).damaged.wf(),
            hit_outcome(*old(self), *final(self), hit_strength as int),
    {
        if self.destroyed {
            return;
        }
        if self.shields <= hit_strength {
            self.destroyed = true;
            return;
        }
        self.shields = self.shields - hit_strength;
        if hit_strength >= 20 {
            self.take_damage(hit_strength, rng);
        }
    }

    /// The random subsystem-damage path: one admitting draw, then possibly a
    /// subsystem pick and an extra-severity draw.
    fn take_damage(&mut self, hit_strength: u16, rng: &mut GameRng)
        requires
            old(self).damaged.wf(),
            old(self).damaged.has_headroom(),
            old(self).shields >= 1,
        ensures
            final(self).damaged.wf(),
            damage_roll_rel(
                old(self).damaged,
                final(self).damaged,
                hit_strength as int,
                old(self).shields as int,
            ),
            final(self).destroyed == old(self).destroyed,
            final(self).quadrant == old(self).quadrant,
            final(self).sector == old(self).sector,
            final(self).photon_torpedoes == old(self).photon_torpedoes,
            final(self).total_energy == old(self).total_energy,
            final(self).shields == old(self).shields,
    {
        let r1: u16 = rng.gen_range(0, 1000);
        let ratio: u32 = (hit_strength as u32) * 1000 / (self.shields as u32);
        if r1 > 600 || ratio < 20 {
            proof {
                assert(damage_roll_witness(
                    old(self).damaged,
                    self.damaged,
                    hit_strength as int,
                    old(self).shields as int,
                    r1 as int,
                    0,
                    0,
                ));
            }
            return;
        }
        let si: u16 = rng.gen_range(0, 8);
        let r2: u16 = rng.gen_range(0, 500);
        let system: Subsystem = Subsystem::from_index(si as usize);
        let amount: i64 = ratio as i64 + r2 as i64;
        self.damage_system(system, amount);
        proof {
            assert(damage_roll_witness(
                old(self).damaged,
                self.damaged,
                hit_strength as int,
                old(self).shields as int,
                r1 as int,
                si as int,
                r2 as int,
            ));
        }
    }
}

/// Damaging a fully functional subsystem by a positive amount and then
/// repairing it by exactly that amount removes the ledger entry again:
/// the repair reports fully mended, and every other subsystem keeps its
/// severity throughout.
pub proof fn lemma_damage_repair_round_trip(
    l0: DamageLedger,
    l1: DamageLedger,
    l2: DamageLedger,
    system: Subsystem,
    d: int,
    fully: bool,
)
    requires
        l0.entry_spec(system) is None,
        d > 0,
        damage_applied(l0, l1, system, d),
        repair_applied(l1, l2, system, d, fully),
    ensures
        fully,
        l2.entry_spec(system) is None,
        forall|s: Subsystem| s != system ==> l2.entry_spec(s) == l0.entry_spec(s),
{
}

/// Shields exactly equal to the hit strength do not save the vessel: the
/// destructive comparison is at-or-below.  One point of shields more
/// survives the hit, with shields reduced to the difference.
pub proof fn lemma_hit_boundary(pre: Enterprise, post: Enterprise, hit: int)
    requires
        !pre.destroyed,
        hit_outcome(pre, post, hit),
    ensures
        pre.shields == hit ==> post.destroyed,
        pre.shields > hit ==> !post.destroyed && post.shields == pre.shields - hit,
{
}

/// Destruction is terminal: once the vessel is destroyed, any further hit
/// leaves every field of it unchanged.
pub proof fn lemma_destroyed_is_terminal(pre: Enterprise, post: Enterprise, hit: int)
    requires
        pre.destroyed,
        hit_outcome(pre, post, hit),
    ensures
        post == pre,
{
}

/// A vessel with under 10 units of total energy is stranded whatever its
/// shields and ledger hold.
pub proof fn lemma_low_energy_strands(e: Enterprise)
    requires
        e.total_energy < 10,
    ensures
        e.stranded_spec(),
{
}

} // verus!
