use trek_core::Enterprise;
use trek_core::GameRng;
use trek_core::Klingon;
use trek_core::Pos;
use trek_core::ship::DamageLedger;

fn vessel_at(sector: Pos, shields: u16) -> Enterprise {
    Enterprise {
        destroyed: false,
        damaged: DamageLedger::new(),
        quadrant: Pos(1, 1),
        sector,
        photon_torpedoes: 28,
        total_energy: 3000,
        shields,
    }
}

#[test]
fn attack_always_spends_own_energy() {
    for seed in 0..50u64 {
        let mut rng = GameRng::from_seed(seed);
        let mut k = Klingon { sector: Pos(0, 0), energy: 200_000 };
        let mut e = vessel_at(Pos(0, 3), 1000);
        k.fire_on(&mut e, &mut rng);
        assert!(k.energy < 200_000);
        // Energy is divided by 3 + a with a in [0, 1): between 200/4 and 200/3.
        assert!(k.energy >= 50_012);
        assert!(k.energy <= 66_666);
    }
}

#[test]
fn attack_hit_scales_with_distance() {
    // From distance 3, a 200-unit attacker lands between 133 and 199
    // whole units of hit; shields of 1000 absorb it.
    for seed in 0..50u64 {
        let mut rng = GameRng::from_seed(seed);
        let mut k = Klingon { sector: Pos(0, 0), energy: 200_000 };
        let mut e = vessel_at(Pos(0, 3), 1000);
        k.fire_on(&mut e, &mut rng);
        assert!(!e.destroyed);
        let absorbed = 1000 - e.shields;
        assert!((133..=199).contains(&absorbed), "hit of {absorbed}");
    }
}

#[test]
fn attack_can_destroy_a_shieldless_vessel() {
    let mut rng = GameRng::from_seed(0);
    let mut k = Klingon { sector: Pos(0, 0), energy: 200_000 };
    let mut e = vessel_at(Pos(0, 1), 0);
    k.fire_on(&mut e, &mut rng);
    assert!(e.destroyed);
}

#[test]
fn attack_keeps_unit_in_place() {
    let mut rng = GameRng::from_seed(8);
    let mut k = Klingon { sector: Pos(6, 2), energy: 300_000 };
    let mut e = vessel_at(Pos(1, 1), 2000);
    k.fire_on(&mut e, &mut rng);
    assert_eq!(k.sector, Pos(6, 2));
}
