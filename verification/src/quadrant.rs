use vstd::prelude::*;
use vstd::set_lib::lemma_len_subset;
use vstd::set_lib::lemma_len_union;

use crate::pos::Pos;
use crate::pos::manhattan_spec;
use crate::rng::GameRng;
use crate::ship::Enterprise;
use crate::ship::hit_outcome;

verus! {

/// What occupies a sector, in the priority order of `sector_status`.
#[derive(PartialEq, Eq, Structural, Clone, Copy, Debug)]
pub enum SectorStatus {
    Empty,
    Star,
    StarBase,
    Klingon,
}

/// A starbase: a sector plus a repair-delay factor in thousandths of a
/// stardate, generated once and immutable.
#[derive(PartialEq, Eq, Structural, Clone, Copy, Debug)]
pub struct StarBase {
    pub sector: Pos,
    pub repair_delay: u16,
}

/// A hostile unit: a sector plus its remaining energy in thousandths of a
/// unit.  Its energy only ever decreases, as it attacks; the driver, not
/// this core, removes a unit it deems destroyed.
#[derive(PartialEq, Eq, Structural, Clone, Copy, Debug)]
pub struct Klingon {
    pub sector: Pos,
    pub energy: u32,
}

/// The hit such a unit lands, in whole units: its energy scaled by
/// `2 + a` (the attack draw `a` in thousandths) and divided by the
/// Manhattan distance to the target.
pub open spec fn fire_hit_spec(energy: int, a: int, dist: int) -> int {
    energy * (2000 + a) / (1000000 * dist)
}

/// The unit's own energy after an attack with draw `a`: divided by
/// `3 + a`.
pub open spec fn fire_energy_after_spec(energy: int, a: int) -> int {
    energy * 1000 / (3000 + a)
}

impl Klingon {
    /// One full turn action of the unit: draw an attack strength, land a
    /// hit on the vessel scaled down by distance, and spend part of its
    /// own energy doing so.  Unit and vessel never share a sector.
    pub fn fire_on(&mut self, enterprise: &mut Enterprise, rng: &mut GameRng)
        requires
            old(self).sector.valid_sector(),
            old(enterprise).sector.valid_sector(),
            old(self).sector != old(enterprise).sector,
            old(self).energy <= 300_000,
            old(enterprise).damaged.wf(),
            old(enterprise).damaged.has_headroom(),
        ensures
            final(self).sector == old(self).sector,
            final(enterprise).damaged.wf(),
            exists|a: int|
                {
                    &&& 0 <= a < 1000
                    &&& final(self).energy == fire_energy_after_spec(old(self).energy as int, a)
                    &&& hit_outcome(
                        *old(enterprise),
                        *final(enterprise),
                        #[trigger] fire_hit_spec(
                            old(self).energy as int,
                            a,
                            manhattan_spec(old(self).sector, old(enterprise).sector),
                        ),
                    )
                },
            old(self).energy > 0 ==> final(self).energy < old(self).energy,
    {
        let a: u16 = rng.gen_range(0, 1000);
        let d: u8 = self.sector.abs_diff(enterprise.sector);
        let e: u64 = self.energy as u64;
        proof {
            assert(manhattan_spec(self.sector, enterprise.sector) >= 1);
            assert(e * (2000 + a) <= 300_000 * 3000) by (nonlinear_arith)
                requires
                    e <= 300_000,
                    a < 1000,
            ;
        }
        let hit64: u64 = e * ((2000 + a) as u64) / (1_000_000u64 * (d as u64));
        proof {
            assert(hit64 <= 900) by {
                assert(e * ((2000 + a) as u64) / (1_000_000u64 * (d as u64)) <= 900_000_000u64
                    / 1_000_000u64) by (nonlinear_arith)
                    requires
                        e * (2000 + a) <= 900_000_000,
                        d >= 1,
                ;
            }
        }
        let hit: u16 = hit64 as u16;
        let e_after64: u64 = e * 1000 / ((3000 + a) as u64);
        proof {
            assert(e_after64 <= e && (e > 0 ==> e_after64 < e)) by (nonlinear_arith)
                requires
                    e_after64 == e * 1000 / (3000 + a),
                    0 <= a < 1000,
                    e <= 300_000,
            ;
        }
        self.energy = e_after64 as u32;
        enterprise.take_hit(self.sector, hit, rng);
        proof {
            let a_int: int = a as int;
            assert(0 <= a_int < 1000);
            assert(final(self).energy == fire_energy_after_spec(old(self).energy as int, a_int));
            assert(hit as int == fire_hit_spec(
                old(self).energy as int,
                a_int,
                manhattan_spec(old(self).sector, old(enterprise).sector),
            ));
        }
    }
}

/// One cell of the galaxy grid: its stars, at most one starbase, and its
/// hostile units.
pub struct Quadrant {
    pub stars: Vec<Pos>,
    pub star_base: Option<StarBase>,
    pub klingons: Vec<Klingon>,
}

impl Quadrant {
    pub open spec fn star_at(self, sector: Pos) -> bool {
        self.stars@.contains(sector)
    }

    pub open spec fn base_at(self, sector: Pos) -> bool {
        match self.star_base {
            Some(b) => b.sector == sector,
            None => false,
        }
    }

    pub open spec fn klingon_at(self, sector: Pos) -> bool {
        exists|i: int| 0 <= i < self.klingons@.len() && (#[trigger] self.klingons@[i]).sector == sector
    }

    /// What occupies a sector, stars checked first, then the starbase,
    /// then hostile units: that order is the tie-break should occupants
    /// ever coincide.
    pub open spec fn status_spec(self, sector: Pos) -> SectorStatus {
        if self.star_at(sector) {
            SectorStatus::Star
        } else if self.base_at(sector) {
            SectorStatus::StarBase
        } else if self.klingon_at(sector) {
            SectorStatus::Klingon
        } else {
            SectorStatus::Empty
        }
    }

    pub open spec fn occupied(self, sector: Pos) -> bool {
        self.star_at(sector) || self.base_at(sector) || self.klingon_at(sector)
    }

    /// Some sector of the quadrant is still free.
    pub open spec fn has_room(self) -> bool {
        exists|p: Pos| #[trigger] p.valid_sector() && !self.occupied(p)
    }

    /// Every occupant sits on a real sector of the 8x8 grid.
    pub open spec fn positions_wf(self) -> bool {
        &&& forall|i: int|
            0 <= i < self.stars@.len() ==> (#[trigger] self.stars@[i]).valid_sector()
        &&& (self.star_base matches Some(b) ==> b.sector.valid_sector())
        &&& forall|i: int|
            0 <= i < self.klingons@.len() ==> (#[trigger] self.klingons@[i]).sector.valid_sector()
    }

    /// The occupancy invariant: no two occupants share a sector.
    pub open spec fn occupancy_ok(self) -> bool {
        &&& self.stars@.no_duplicates()
        &&& (self.star_base matches Some(b) ==> !self.star_at(b.sector))
        &&& forall|i: int|
            0 <= i < self.klingons@.len() ==> !self.star_at(
                (#[trigger] self.klingons@[i]).sector,
            ) && !self.base_at(self.klingons@[i].sector)
        &&& forall|i: int, j: int|
            0 <= i < j < self.klingons@.len() ==> (#[trigger] self.klingons@[i]).sector != (
            #[trigger] self.klingons@[j]).sector
    }

    /// Generation never packs a quadrant: at most 7 stars and 3 hostile
    /// units, each unit's energy within its starting range.
    pub open spec fn counts_ok(self) -> bool {
        &&& self.stars@.len() <= 7
        &&& self.klingons@.len() <= 3
        &&& forall|i: int|
            0 <= i < self.klingons@.len() ==> (#[trigger] self.klingons@[i]).energy <= 300_000
    }

    pub open spec fn wf(self) -> bool {
        self.positions_wf() && self.occupancy_ok() && self.counts_ok()
    }

    /// Bounds that generation guarantees beyond well-formedness: hostile
    /// units start with at least 100 units of energy, and a starbase's
    /// repair delay stays under half a stardate.
    pub open spec fn generation_bounds(self) -> bool {
        &&& forall|i: int|
            0 <= i < self.klingons@.len() ==> (#[trigger] self.klingons@[i]).energy >= 100_000
        &&& (self.star_base matches Some(b) ==> b.repair_delay < 500)
    }

    fn has_star(&self, sector: Pos) -> (r: bool)
        ensures
            r == self.star_at(sector),
    {
        let mut i: usize = 0;
        while i < self.stars.len()
            invariant
                i <= self.stars@.len(),
                forall|j: int| 0 <= j < i ==> self.stars@[j] != sector,
            decreases self.stars@.len() - i,
        {
            if self.stars[i] == sector {
                return true;
            }
            i = i + 1;
        }
        false
    }

    fn is_starbase(&self, sector: Pos) -> (r: bool)
        ensures
            r == self.base_at(sector),
    {
        match &self.star_base {
            None => false,
            Some(b) => b.sector == sector,
        }
    }

    fn has_klingon(&self, sector: Pos) -> (r: bool)
        ensures
            r == self.klingon_at(sector),
    {
        let mut i: usize = 0;
        while i < self.klingons.len()
            invariant
                i <= self.klingons@.len(),
                forall|j: int| 0 <= j < i ==> (#[trigger] self.klingons@[j]).sector != sector,
            decreases self.klingons@.len() - i,
        {
            if self.klingons[i].sector == sector {
                return true;
            }
            i = i + 1;
        }
        false
    }

    /// What occupies the given sector, in the documented priority order.
    pub fn sector_status(&self, sector: Pos) -> (r: SectorStatus)
        ensures
            r == self.status_spec(sector),
    {
        if self.has_star(sector) {
            SectorStatus::Star
        } else if self.is_starbase(sector) {
            SectorStatus::StarBase
        } else if self.has_klingon(sector) {
            SectorStatus::Klingon
        } else {
            SectorStatus::Empty
        }
    }

    /// The position, in the unit roster, of the first hostile unit at the
    /// given sector, if any; the caller reaches the unit itself through
    /// the roster.
    pub fn get_klingon(&self, sector: Pos) -> (r: Option<usize>)
        ensures
            r matches Some(i) ==> i < self.klingons@.len() && self.klingons@[i as int].sector
                == sector,
            r is None ==> !self.klingon_at(sector),
    {
        let mut i: usize = 0;
        while i < self.klingons.len()
            invariant
                i <= self.klingons@.len(),
                forall|j: int| 0 <= j < i ==> (#[trigger] self.klingons@[j]).sector != sector,
            decreases self.klingons@.len() - i,
        {
            if self.klingons[i].sector == sector {
                return Some(i);
            }
            i = i + 1;
        }
        None
    }

    /// A uniformly random free sector: random samples first, and past a
    /// fixed budget the first free sector in row-major order.  The
    /// precondition that some sector is free is the generator's
    /// invariant; it makes the search total.
    pub fn find_empty_sector(&self, rng: &mut GameRng) -> (r: Pos)
        requires
            self.has_room(),
        ensures
            r.valid_sector(),
            self.status_spec(r) == SectorStatus::Empty,
    {
        let mut tries: usize = 0;
        while tries < 512
            invariant
                self.has_room(),
            decreases 512 - tries,
        {
            let p = Pos(rng.gen_range(0, 8) as u8, rng.gen_range(0, 8) as u8);
            if matches!(self.sector_status(p), SectorStatus::Empty) {
                return p;
            }
            tries = tries + 1;
        }
        let mut i: usize = 0;
        while i < 64
            invariant
                self.has_room(),
                forall|j: int|
                    0 <= j < i ==> #[trigger] self.status_spec(Pos((j / 8) as u8, (j % 8) as u8))
                        != SectorStatus::Empty,
            decreases 64 - i,
        {
            let p = Pos((i / 8) as u8, (i % 8) as u8);
            if matches!(self.sector_status(p), SectorStatus::Empty) {
                return p;
            }
            i = i + 1;
        }
        proof {
            let p = choose|p: Pos| #[trigger] p.valid_sector() && !self.occupied(p);
            let k: int = p.0 * 8 + p.1;
            assert(k / 8 == p.0 && k % 8 == p.1) by (nonlinear_arith)
                requires
                    k == p.0 * 8 + p.1,
                    p.0 < 8,
                    p.1 < 8,
            ;
            assert(self.status_spec(Pos((k / 8) as u8, (k % 8) as u8)) != SectorStatus::Empty);
            assert(false);
        }
        Pos(0, 0)
    }

    /// Whether a vessel in the given sector is docked: a starbase exists
    /// at Manhattan distance exactly 1.
    pub fn docked_at_starbase(&self, enterprise_sector: Pos) -> (r: bool)
        requires
            enterprise_sector.valid_sector(),
            self.star_base matches Some(b) ==> b.sector.valid_sector(),
        ensures
            r == match self.star_base {
                Some(b) => manhattan_spec(b.sector, enterprise_sector) == 1,
                None => false,
            },
    {
        match &self.star_base {
            None => false,
            Some(b) => b.sector.abs_diff(enterprise_sector) == 1,
        }
    }
}

/// A quadrant with at most 10 stars and hostile units together (and so at
/// most 11 occupants with its starbase) always has a free sector: that
/// many occupied cells cannot cover even the 12 sectors of lowest index.
pub proof fn lemma_sparse_quadrant_has_room(q: Quadrant)
    requires
        q.stars@.len() + q.klingons@.len() <= 10,
    ensures
        q.has_room(),
{
    broadcast use vstd::seq_lib::seq_to_set_is_finite;

    if !q.has_room() {
        let cand: Seq<Pos> = seq![
            Pos(0, 0),
            Pos(0, 1),
            Pos(0, 2),
            Pos(0, 3),
            Pos(0, 4),
            Pos(0, 5),
            Pos(0, 6),
            Pos(0, 7),
            Pos(1, 0),
            Pos(1, 1),
            Pos(1, 2),
            Pos(1, 3),
        ];
        assert(cand.no_duplicates());
        cand.unique_seq_to_set();
        let kl_sectors = q.klingons@.map_values(|k: Klingon| k.sector);
        let base_set = match q.star_base {
            Some(b) => Set::empty().insert(b.sector),
            None => Set::<Pos>::empty(),
        };
        let occ = q.stars@.to_set().union(kl_sectors.to_set()).union(base_set);
        q.stars@.lemma_cardinality_of_set();
        kl_sectors.lemma_cardinality_of_set();
        lemma_len_union(q.stars@.to_set(), kl_sectors.to_set());
        lemma_len_union(q.stars@.to_set().union(kl_sectors.to_set()), base_set);
        assert(occ.len() <= 11);
        assert forall|i: int| 0 <= i < 12 implies occ.contains(cand[i]) by {
            let p = cand[i];
            assert(p.valid_sector());
            assert(q.occupied(p));
            if q.star_at(p) {
                assert(q.stars@.to_set().contains(p));
            } else if q.base_at(p) {
                assert(base_set.contains(p));
            } else {
                let j: int = choose|j: int|
                    0 <= j < q.klingons@.len() && (#[trigger] q.klingons@[j]).sector == p;
                assert(kl_sectors[j] == p);
                assert(kl_sectors.contains(p));
                assert(kl_sectors.to_set().contains(p));
            }
        }
        assert(cand.to_set().subset_of(occ)) by {
            assert forall|x: Pos| cand.to_set().contains(x) implies occ.contains(x) by {
                let i: int = choose|i: int| 0 <= i < cand.len() && cand[i] == x;
                assert(occ.contains(cand[i]));
            }
        }
        lemma_len_subset(cand.to_set(), occ);
        assert(false);
    }
}

} // verus!
