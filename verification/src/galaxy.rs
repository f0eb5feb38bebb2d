use vstd::prelude::*;

use crate::pos::Pos;
use crate::quadrant::Klingon;
use crate::quadrant::Quadrant;
use crate::quadrant::SectorStatus;
use crate::quadrant::StarBase;
use crate::quadrant::lemma_sparse_quadrant_has_room;
use crate::rng::GameRng;
use crate::ship::DamageLedger;
use crate::ship::Enterprise;
use crate::ship::MAX_ENERGY;
use crate::ship::MAX_PHOTON_TORPEDOES;

verus! {

/// Hostile units remaining over a sequence of quadrants.
pub open spec fn total_klingons(qs: Seq<Quadrant>) -> int
    decreases qs.len(),
{
    if qs.len() == 0 {
        0
    } else {
        total_klingons(qs.drop_last()) + qs.last().klingons@.len()
    }
}

/// Starbases remaining over a sequence of quadrants.
pub open spec fn total_starbases(qs: Seq<Quadrant>) -> int
    decreases qs.len(),
{
    if qs.len() == 0 {
        0
    } else {
        total_starbases(qs.drop_last()) + (if qs.last().star_base is Some {
            1int
        } else {
            0int
        })
    }
}

/// The whole game state: the stardate window, the 64 quadrants, which of
/// them the player has scanned, and the vessel.
pub struct Galaxy {
    pub stardate: u16,
    pub final_stardate: u16,
    pub quadrants: Vec<Quadrant>,
    pub scanned: Vec<bool>,
    pub enterprise: Enterprise,
}

impl Galaxy {
    pub open spec fn wf(self) -> bool {
        &&& self.quadrants@.len() == 64
        &&& forall|i: int| 0 <= i < 64 ==> (#[trigger] self.quadrants@[i]).wf()
        &&& self.scanned@.len() == 64
        &&& self.enterprise.quadrant.valid_sector()
        &&& self.enterprise.sector.valid_sector()
        &&& self.enterprise.damaged.wf()
    }

    /// Hostile units left in the whole galaxy: derived, never cached.
    pub fn remaining_klingons(&self) -> (r: u8)
        requires
            self.wf(),
        ensures
            r == total_klingons(self.quadrants@),
    {
        let mut sum: u8 = 0;
        let mut i: usize = 0;
        while i < 64
            invariant
                self.wf(),
                i <= 64,
                sum == total_klingons(self.quadrants@.take(i as int)),
                sum <= 3 * i,
            decreases 64 - i,
        {
            let k: usize = self.quadrants[i].klingons.len();
            sum = sum + (k as u8);
            proof {
                assert(self.quadrants@.take(i as int + 1).drop_last() =~= self.quadrants@.take(
                    i as int,
                ));
                assert(self.quadrants@.take(i as int + 1).last() == self.quadrants@[i as int]);
            }
            i = i + 1;
        }
        proof {
            assert(self.quadrants@.take(64) =~= self.quadrants@);
        }
        sum
    }

    /// Starbases left in the whole galaxy: derived, never cached.
    pub fn remaining_starbases(&self) -> (r: u8)
        requires
            self.wf(),
        ensures
            r == total_starbases(self.quadrants@),
    {
        let mut sum: u8 = 0;
        let mut i: usize = 0;
        while i < 64
            invariant
                self.wf(),
                i <= 64,
                sum == total_starbases(self.quadrants@.take(i as int)),
                sum <= i,
            decreases 64 - i,
        {
            if self.quadrants[i].star_base.is_some() {
                sum = sum + 1;
            }
            proof {
                assert(self.quadrants@.take(i as int + 1).drop_last() =~= self.quadrants@.take(
                    i as int,
                ));
                assert(self.quadrants@.take(i as int + 1).last() == self.quadrants@[i as int]);
            }
            i = i + 1;
        }
        proof {
            assert(self.quadrants@.take(64) =~= self.quadrants@);
        }
        sum
    }

    /// Builds the 64 quadrants: per quadrant 0..=7 stars, a starbase with
    /// probability 4%, and 0 to 3 hostile units (3 with probability 2%, 2
    /// with 3%, 1 with 15%), every occupant on its own free sector.
    fn generate_quadrants(rng: &mut GameRng) -> (r: Vec<Quadrant>)
        ensures
            r@.len() == 64,
            forall|i: int| 0 <= i < 64 ==> (#[trigger] r@[i]).wf() && r@[i].generation_bounds(),
    {
        let mut result: Vec<Quadrant> = Vec::new();
        let mut n: usize = 0;
        while n < 64
            invariant
                result@.len() == n,
                n <= 64,
                forall|i: int|
                    0 <= i < n ==> (#[trigger] result@[i]).wf() && result@[i].generation_bounds(),
            decreases 64 - n,
        {
            let mut quadrant = Quadrant { stars: Vec::new(), star_base: None, klingons: Vec::new() };
            let star_count: u16 = rng.gen_range(0, 8);
            let mut s: u16 = 0;
            while s < star_count
                invariant
                    s <= star_count,
                    star_count < 8,
                    quadrant.wf(),
                    quadrant.generation_bounds(),
                    quadrant.stars@.len() == s,
                    quadrant.star_base is None,
                    quadrant.klingons@.len() == 0,
                decreases star_count - s,
            {
                proof {
                    lemma_sparse_quadrant_has_room(quadrant);
                }
                let p = quadrant.find_empty_sector(rng);
                quadrant.stars.push(p);
                s = s + 1;
            }
            if rng.gen_range(0, 1000) >= 960 {
                proof {
                    lemma_sparse_quadrant_has_room(quadrant);
                }
                let bp = quadrant.find_empty_sector(rng);
                let delay: u16 = rng.gen_range(0, 500);
                quadrant.star_base = Some(StarBase { sector: bp, repair_delay: delay });
            }
            let kd: u16 = rng.gen_range(0, 1000);
            let klingon_count: u16 = if kd >= 980 {
                3
            } else if kd >= 950 {
                2
            } else if kd >= 800 {
                1
            } else {
                0
            };
            let mut k: u16 = 0;
            while k < klingon_count
                invariant
                    k <= klingon_count,
                    klingon_count <= 3,
                    quadrant.wf(),
                    quadrant.generation_bounds(),
                    quadrant.klingons@.len() == k,
                decreases klingon_count - k,
            {
                proof {
                    lemma_sparse_quadrant_has_room(quadrant);
                }
                let p = quadrant.find_empty_sector(rng);
                let energy: u16 = rng.gen_range(100, 301);
                quadrant.klingons.push(Klingon { sector: p, energy: (energy as u32) * 1000 });
                k = k + 1;
            }
            result.push(quadrant);
            n = n + 1;
        }
        result
    }

    /// A fresh vessel in a uniformly random quadrant, on a free sector of
    /// it: full energy and torpedoes, no shields, nothing damaged.
    pub fn new_captain(quadrants: &Vec<Quadrant>, rng: &mut GameRng) -> (r: Enterprise)
        requires
            quadrants@.len() == 64,
            forall|i: int| 0 <= i < 64 ==> (#[trigger] quadrants@[i]).wf(),
        ensures
            !r.destroyed,
            r.damaged.wf(),
            r.damaged.all_functional(),
            r.quadrant.valid_sector(),
            r.sector.valid_sector(),
            r.photon_torpedoes == MAX_PHOTON_TORPEDOES,
            r.total_energy == MAX_ENERGY,
            r.shields == 0,
            quadrants@[r.quadrant.index_spec()].status_spec(r.sector) == SectorStatus::Empty,
    {
        let enterprise_quadrant = Pos(rng.gen_range(0, 8) as u8, rng.gen_range(0, 8) as u8);
        let idx: usize = enterprise_quadrant.as_index();
        proof {
            lemma_sparse_quadrant_has_room(quadrants@[idx as int]);
        }
        let enterprise_sector = quadrants[idx].find_empty_sector(rng);
        Enterprise {
            destroyed: false,
            damaged: DamageLedger::new(),
            quadrant: enterprise_quadrant,
            sector: enterprise_sector,
            photon_torpedoes: MAX_PHOTON_TORPEDOES,
            total_energy: MAX_ENERGY,
            shields: 0,
        }
    }

    /// A whole new game: 64 generated quadrants, the vessel on a free
    /// sector of a random quadrant, a stardate in {2000, 2100, ..., 4000}
    /// with a deadline 25 to 35 stardates later, and only the starting
    /// quadrant scanned.
    pub fn generate_new(rng: &mut GameRng) -> (g: Galaxy)
        ensures
            g.wf(),
            forall|i: int| 0 <= i < 64 ==> (#[trigger] g.quadrants@[i]).generation_bounds(),
            !g.enterprise.destroyed,
            g.enterprise.damaged.all_functional(),
            g.enterprise.photon_torpedoes == MAX_PHOTON_TORPEDOES,
            g.enterprise.total_energy == MAX_ENERGY,
            g.enterprise.shields == 0,
            g.quadrants@[g.enterprise.quadrant.index_spec()].status_spec(g.enterprise.sector)
                == SectorStatus::Empty,
            2000 <= g.stardate <= 4000,
            g.stardate % 100 == 0,
            g.stardate + 25 <= g.final_stardate <= g.stardate + 35,
            forall|i: int|
                0 <= i < 64 ==> (#[trigger] g.scanned@[i] <==> i
                    == g.enterprise.quadrant.index_spec()),
    {
        let quadrants = Self::generate_quadrants(rng);
        let sd: u16 = rng.gen_range(20, 41);
        let stardate: u16 = sd * 100;
        proof {
            assert(stardate % 100 == 0 && 2000 <= stardate <= 4000) by (nonlinear_arith)
                requires
                    stardate == sd * 100,
                    20 <= sd <= 40,
            ;
        }
        let enterprise = Self::new_captain(&quadrants, rng);
        let mut scanned: Vec<bool> = vec![false; 64];
        let qi: usize = enterprise.quadrant.as_index();
        let slot = &mut scanned[qi];
        *slot = true;
        let final_stardate: u16 = stardate + rng.gen_range(25, 36);
        Galaxy { stardate, final_stardate, quadrants, scanned, enterprise }
    }
}

} // verus!
