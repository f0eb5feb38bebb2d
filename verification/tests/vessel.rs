use trek_core::Enterprise;
use trek_core::GameRng;
use trek_core::Pos;
use trek_core::Subsystem;
use trek_core::ship::DamageLedger;
use trek_core::ship::MAX_ENERGY;
use trek_core::ship::MAX_PHOTON_TORPEDOES;
use trek_core::subsystems::name_for;

fn fresh_vessel() -> Enterprise {
    Enterprise {
        destroyed: false,
        damaged: DamageLedger::new(),
        quadrant: Pos(0, 0),
        sector: Pos(4, 4),
        photon_torpedoes: MAX_PHOTON_TORPEDOES,
        total_energy: MAX_ENERGY,
        shields: 0,
    }
}

#[test]
fn subsystem_names() {
    assert_eq!(name_for(Subsystem::ShortRangeScan), "Short Range Scanners");
    assert_eq!(name_for(Subsystem::WarpEngines), "Warp Engines");
    assert_eq!(name_for(Subsystem::ShieldControl), "Shield Control");
    assert_eq!(name_for(Subsystem::DamageControl), "Damage Control");
    assert_eq!(name_for(Subsystem::LongRangeScan), "Long Range Scanners");
    assert_eq!(name_for(Subsystem::Computer), "Library-Computer");
    assert_eq!(name_for(Subsystem::Phasers), "Phaser Control");
    assert_eq!(name_for(Subsystem::Torpedoes), "Photon Tubes");
}

#[test]
fn subsystem_registry_round_trip() {
    for i in 0..8usize {
        let s = Subsystem::from_index(i);
        assert_eq!(s.index(), i);
    }
}

#[test]
fn damage_creates_and_accumulates() {
    let mut e = fresh_vessel();
    assert!(!e.damaged.is_damaged(Subsystem::Phasers));
    e.damage_system(Subsystem::Phasers, 2_500);
    assert_eq!(e.damaged.get(Subsystem::Phasers), Some(-2_500));
    e.damage_system(Subsystem::Phasers, 1_000);
    assert_eq!(e.damaged.get(Subsystem::Phasers), Some(-3_500));
    assert!(!e.damaged.is_damaged(Subsystem::Computer));
}

#[test]
fn damage_then_exact_repair_fully_mends() {
    let mut e = fresh_vessel();
    e.damage_system(Subsystem::WarpEngines, 2_500);
    let fully = e.repair_system(Subsystem::WarpEngines, 2_500);
    assert!(fully);
    assert_eq!(e.damaged.get(Subsystem::WarpEngines), None);
}

#[test]
fn partial_repair_stays_in_ledger() {
    let mut e = fresh_vessel();
    e.damage_system(Subsystem::Torpedoes, 5_000);
    let fully = e.repair_system(Subsystem::Torpedoes, 1_000);
    assert!(!fully);
    assert_eq!(e.damaged.get(Subsystem::Torpedoes), Some(-4_000));
}

#[test]
fn repair_near_threshold_mends() {
    let mut e = fresh_vessel();
    e.damage_system(Subsystem::Computer, 1_050);
    // Severity -0.1 or better counts as mended.
    let fully = e.repair_system(Subsystem::Computer, 950);
    assert!(fully);
    assert_eq!(e.damaged.get(Subsystem::Computer), None);
}

#[test]
fn hit_at_exact_shield_strength_destroys() {
    let mut rng = GameRng::from_seed(7);
    let mut e = fresh_vessel();
    e.shields = 20;
    e.take_hit(Pos(0, 0), 20, &mut rng);
    assert!(e.destroyed);
}

#[test]
fn hit_one_below_shields_leaves_one() {
    let mut rng = GameRng::from_seed(7);
    let mut e = fresh_vessel();
    e.shields = 21;
    e.take_hit(Pos(0, 0), 20, &mut rng);
    assert!(!e.destroyed);
    assert_eq!(e.shields, 1);
}

#[test]
fn small_hit_spares_subsystems() {
    let mut rng = GameRng::from_seed(7);
    let mut e = fresh_vessel();
    e.shields = 100;
    e.take_hit(Pos(0, 0), 19, &mut rng);
    assert!(!e.destroyed);
    assert_eq!(e.shields, 81);
    for i in 0..8usize {
        assert_eq!(e.damaged.get(Subsystem::from_index(i)), None);
    }
}

#[test]
fn lethal_hit_then_no_further_mutation() {
    let mut rng = GameRng::from_seed(11);
    let mut e = fresh_vessel();
    e.shields = 15;
    e.take_hit(Pos(2, 2), 20, &mut rng);
    assert!(e.destroyed);
    assert_eq!(e.shields, 15);
    e.take_hit(Pos(2, 2), 500, &mut rng);
    assert!(e.destroyed);
    assert_eq!(e.shields, 15);
    assert_eq!(e.total_energy, MAX_ENERGY);
    assert_eq!(e.photon_torpedoes, MAX_PHOTON_TORPEDOES);
    for i in 0..8usize {
        assert_eq!(e.damaged.get(Subsystem::from_index(i)), None);
    }
}

#[test]
fn stranded_on_low_energy_regardless_of_rest() {
    let mut e = fresh_vessel();
    e.total_energy = 9;
    e.shields = 0;
    assert!(e.is_stranded());
    e.shields = 3000;
    e.damage_system(Subsystem::ShieldControl, 1_000);
    assert!(e.is_stranded());
}

#[test]
fn not_stranded_with_full_energy_and_sound_shield_control() {
    let mut e = fresh_vessel();
    assert_eq!(e.total_energy, 3000);
    assert_eq!(e.shields, 0);
    assert!(!e.is_stranded());
}

#[test]
fn stranded_when_shields_crowd_energy_and_control_damaged() {
    let mut e = fresh_vessel();
    e.total_energy = 100;
    e.shields = 95;
    e.damage_system(Subsystem::ShieldControl, 500);
    assert!(e.is_stranded());
    let fully = e.repair_system(Subsystem::ShieldControl, 500);
    assert!(fully);
    assert!(!e.is_stranded());
}

#[test]
fn big_hits_sometimes_damage_a_subsystem() {
    let mut any_damaged = false;
    for seed in 0..200u64 {
        let mut rng = GameRng::from_seed(seed);
        let mut e = fresh_vessel();
        e.shields = 1000;
        e.take_hit(Pos(0, 0), 100, &mut rng);
        assert!(!e.destroyed);
        assert_eq!(e.shields, 900);
        for i in 0..8usize {
            if let Some(v) = e.damaged.get(Subsystem::from_index(i)) {
                any_damaged = true;
                // Severity is the hit/shield ratio (about 0.111) plus up
                // to half a unit more, negated.
                assert!((-611..=-111).contains(&v), "severity {v}");
            }
        }
    }
    assert!(any_damaged);
}

#[test]
fn random_draws_stay_in_range() {
    let mut rng = GameRng::from_seed(99);
    for _ in 0..1000 {
        let v = rng.gen_range(10, 20);
        assert!((10..20).contains(&v));
    }
}
